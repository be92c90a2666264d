use monster_mash::animation::AnimationIndices;
use monster_mash::sprite::{
    cardinal_of, range_for_direction, spawn_sprites, sprite_directions, turn_entity, turn_sprite,
    update_directional_sprite, Direction2, DirectionalSpriteAction, SpriteDirection, TurnEvent,
};
use monster_mash::world::World;

fn spawned_world() -> World {
    let mut world = World::new();
    spawn_sprites(&mut world);
    world
}

#[test]
fn actions_map_to_canonical_unit_vectors() {
    assert_eq!(
        DirectionalSpriteAction::Up.direction(),
        Some(Direction2 { x: 0, y: 1 })
    );
    assert_eq!(
        DirectionalSpriteAction::Down.direction(),
        Some(Direction2 { x: 0, y: -1 })
    );
    assert_eq!(
        DirectionalSpriteAction::Left.direction(),
        Some(Direction2 { x: -1, y: 0 })
    );
    assert_eq!(
        DirectionalSpriteAction::Right.direction(),
        Some(Direction2 { x: 1, y: 0 })
    );
}

#[test]
fn profile_holds_the_four_compiled_in_ranges() {
    let table = sprite_directions();
    assert_eq!(table.len(), 4);
    assert_eq!(table[0].direction, SpriteDirection::Up);
    assert_eq!(table[0].indices, AnimationIndices { first: 36, last: 38 });
    assert_eq!(table[1].direction, SpriteDirection::Down);
    assert_eq!(table[1].indices, AnimationIndices { first: 0, last: 2 });
    assert_eq!(table[2].direction, SpriteDirection::Left);
    assert_eq!(table[2].indices, AnimationIndices { first: 12, last: 14 });
    assert_eq!(table[3].direction, SpriteDirection::Right);
    assert_eq!(table[3].indices, AnimationIndices { first: 24, last: 26 });
}

#[test]
fn cardinal_vectors_resolve_to_their_direction() {
    assert_eq!(cardinal_of(Direction2 { x: 0, y: 1 }), SpriteDirection::Up);
    assert_eq!(cardinal_of(Direction2 { x: 0, y: -1 }), SpriteDirection::Down);
    assert_eq!(cardinal_of(Direction2 { x: -1, y: 0 }), SpriteDirection::Left);
    assert_eq!(cardinal_of(Direction2 { x: 1, y: 0 }), SpriteDirection::Right);
}

#[test]
fn diagonal_vectors_default_to_down() {
    assert_eq!(cardinal_of(Direction2 { x: 1, y: 1 }), SpriteDirection::Down);
    assert_eq!(cardinal_of(Direction2 { x: -1, y: -1 }), SpriteDirection::Down);
}

#[test]
fn spawn_creates_the_default_down_facing_sprite() {
    let world = spawned_world();
    assert_eq!(world.sprites.len(), 1);
    assert_eq!(world.events.len(), 0);
    let s = &world.sprites[0];
    assert_eq!(s.facing, SpriteDirection::Down);
    assert_eq!(s.indices, AnimationIndices { first: 0, last: 2 });
    assert_eq!(s.index, 0);
    assert_eq!(s.timer.period_millis, 250);
    assert_eq!(s.timer.elapsed_millis, 0);
    assert!(s.flashing.is_none());
    assert_eq!(s.directions.directions.len(), 4);
}

#[test]
fn opposing_inputs_emit_no_event() {
    let mut world = spawned_world();
    update_directional_sprite(&mut world, true, true, false, false);
    assert_eq!(world.events.len(), 0);
    update_directional_sprite(&mut world, false, false, true, true);
    assert_eq!(world.events.len(), 0);
    update_directional_sprite(&mut world, true, true, true, true);
    assert_eq!(world.events.len(), 0);
}

#[test]
fn no_input_emits_no_event() {
    let mut world = spawned_world();
    update_directional_sprite(&mut world, false, false, false, false);
    assert_eq!(world.events.len(), 0);
}

#[test]
fn single_input_emits_its_unit_vector() {
    let mut world = spawned_world();
    update_directional_sprite(&mut world, true, false, false, false);
    assert_eq!(world.events, vec![TurnEvent::Turn(Direction2 { x: 0, y: 1 })]);
}

#[test]
fn up_alone_selects_the_up_range() {
    let mut world = spawned_world();
    update_directional_sprite(&mut world, true, false, false, false);
    turn_sprite(&mut world);
    assert_eq!(world.sprites[0].facing, SpriteDirection::Up);
    assert_eq!(world.sprites[0].indices, AnimationIndices { first: 36, last: 38 });
}

#[test]
fn down_alone_selects_the_down_range() {
    let mut world = spawned_world();
    update_directional_sprite(&mut world, false, true, false, false);
    turn_sprite(&mut world);
    assert_eq!(world.sprites[0].facing, SpriteDirection::Down);
    assert_eq!(world.sprites[0].indices, AnimationIndices { first: 0, last: 2 });
}

#[test]
fn left_alone_selects_the_left_range() {
    let mut world = spawned_world();
    update_directional_sprite(&mut world, false, false, true, false);
    turn_sprite(&mut world);
    assert_eq!(world.sprites[0].facing, SpriteDirection::Left);
    assert_eq!(world.sprites[0].indices, AnimationIndices { first: 12, last: 14 });
}

#[test]
fn right_alone_selects_the_right_range() {
    let mut world = spawned_world();
    update_directional_sprite(&mut world, false, false, false, true);
    turn_sprite(&mut world);
    assert_eq!(world.sprites[0].facing, SpriteDirection::Right);
    assert_eq!(world.sprites[0].indices, AnimationIndices { first: 24, last: 26 });
}

#[test]
fn diagonal_input_turns_to_the_default_down_range() {
    let mut world = spawned_world();
    update_directional_sprite(&mut world, true, false, false, true);
    assert_eq!(world.events, vec![TurnEvent::Turn(Direction2 { x: 1, y: 1 })]);
    turn_sprite(&mut world);
    assert_eq!(world.sprites[0].facing, SpriteDirection::Down);
    assert_eq!(world.sprites[0].indices, AnimationIndices { first: 0, last: 2 });
}

#[test]
fn turn_resets_an_out_of_range_index() {
    let mut world = spawned_world();
    update_directional_sprite(&mut world, false, false, false, true);
    turn_sprite(&mut world);
    world.sprites[0].index = 25;
    update_directional_sprite(&mut world, false, false, true, false);
    turn_sprite(&mut world);
    assert_eq!(world.sprites[0].indices, AnimationIndices { first: 12, last: 14 });
    assert_eq!(world.sprites[0].index, 12);
}

#[test]
fn turn_preserves_an_index_inside_the_new_range() {
    let mut world = spawned_world();
    world.sprites[0].index = 1;
    update_directional_sprite(&mut world, false, true, false, false);
    turn_sprite(&mut world);
    assert_eq!(world.sprites[0].indices, AnimationIndices { first: 0, last: 2 });
    assert_eq!(world.sprites[0].index, 1);
}

#[test]
fn turning_right_left_right_matches_a_single_right_turn() {
    let mut twisty = spawned_world();
    let right = TurnEvent::Turn(Direction2 { x: 1, y: 0 });
    let left = TurnEvent::Turn(Direction2 { x: -1, y: 0 });
    turn_entity(&mut twisty.sprites[0], &right);
    turn_entity(&mut twisty.sprites[0], &left);
    turn_entity(&mut twisty.sprites[0], &right);

    let mut direct = spawned_world();
    turn_entity(&mut direct.sprites[0], &right);

    assert_eq!(twisty.sprites[0].facing, direct.sprites[0].facing);
    assert_eq!(twisty.sprites[0].indices, direct.sprites[0].indices);
}

#[test]
fn queued_events_apply_in_order_and_drain() {
    let mut world = spawned_world();
    update_directional_sprite(&mut world, true, false, false, false);
    update_directional_sprite(&mut world, false, false, true, false);
    assert_eq!(world.events.len(), 2);
    turn_sprite(&mut world);
    assert_eq!(world.events.len(), 0);
    assert_eq!(world.sprites[0].facing, SpriteDirection::Left);
    assert_eq!(world.sprites[0].indices, AnimationIndices { first: 12, last: 14 });
}

#[test]
fn range_lookup_matches_the_profile_table() {
    assert_eq!(
        range_for_direction(SpriteDirection::Up),
        AnimationIndices { first: 36, last: 38 }
    );
    assert_eq!(
        range_for_direction(SpriteDirection::Down),
        AnimationIndices { first: 0, last: 2 }
    );
    assert_eq!(
        range_for_direction(SpriteDirection::Left),
        AnimationIndices { first: 12, last: 14 }
    );
    assert_eq!(
        range_for_direction(SpriteDirection::Right),
        AnimationIndices { first: 24, last: 26 }
    );
}
