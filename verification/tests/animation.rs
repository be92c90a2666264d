use monster_mash::animation::{
    advance_index, animate_sprites, flash_sprites, AnimationIndices, AnimationTimer,
    FlashingTimer, Visibility,
};
use monster_mash::sprite::{sprite_directions, DirectionalSprite, SpriteDirection};
use monster_mash::world::{SpriteEntity, World};

fn walker(first: usize, last: usize, index: usize, period_millis: u64) -> SpriteEntity {
    SpriteEntity::new(
        DirectionalSprite { directions: sprite_directions() },
        AnimationTimer::new(period_millis),
        AnimationIndices::new(first, last).unwrap(),
        index,
        Some(SpriteDirection::Down),
    )
}

#[test]
fn animation_indices_construction() {
    let r = AnimationIndices::new(3, 5).unwrap();
    assert_eq!(r.first, 3);
    assert_eq!(r.last, 5);
    assert!(AnimationIndices::new(5, 3).is_none());
    assert!(AnimationIndices::new(7, 7).is_some());
}

#[test]
fn advance_index_steps_and_wraps() {
    let r = AnimationIndices::new(0, 2).unwrap();
    assert_eq!(advance_index(&r, 0), 1);
    assert_eq!(advance_index(&r, 1), 2);
    assert_eq!(advance_index(&r, 2), 0);
    let single = AnimationIndices::new(4, 4).unwrap();
    assert_eq!(advance_index(&single, 4), 4);
}

#[test]
fn animation_timer_fires_on_expiry() {
    let mut t = AnimationTimer::new(250);
    assert!(!t.tick(100));
    assert_eq!(t.elapsed_millis, 100);
    assert!(t.tick(150));
    assert_eq!(t.elapsed_millis, 0);
}

#[test]
fn animation_timer_wraps_large_delta() {
    let mut t = AnimationTimer::new(250);
    assert!(t.tick(600));
    assert_eq!(t.elapsed_millis, 100);
    assert_eq!(t.period_millis, 250);
}

#[test]
fn frame_advancer_full_lap_returns_to_start() {
    let mut world = World { sprites: vec![walker(0, 2, 1, 250)], events: vec![] };
    animate_sprites(&mut world, 250);
    assert_eq!(world.sprites[0].index, 2);
    animate_sprites(&mut world, 250);
    assert_eq!(world.sprites[0].index, 0);
    animate_sprites(&mut world, 250);
    assert_eq!(world.sprites[0].index, 1);
}

#[test]
fn frame_advancer_waits_for_expiry() {
    let mut world = World { sprites: vec![walker(0, 2, 0, 250)], events: vec![] };
    animate_sprites(&mut world, 100);
    assert_eq!(world.sprites[0].index, 0);
    animate_sprites(&mut world, 100);
    assert_eq!(world.sprites[0].index, 0);
    animate_sprites(&mut world, 100);
    assert_eq!(world.sprites[0].index, 1);
}

#[test]
fn frame_advancer_without_entities_is_a_noop() {
    let mut world = World { sprites: vec![], events: vec![] };
    animate_sprites(&mut world, 1000);
    assert_eq!(world.sprites.len(), 0);
    assert_eq!(world.events.len(), 0);
}

#[test]
fn flash_hides_until_duration_then_shows_and_removes() {
    let mut entity = walker(0, 2, 0, 250);
    entity.flashing = Some(FlashingTimer::new(500));
    let mut world = World { sprites: vec![entity], events: vec![] };

    flash_sprites(&mut world, 200);
    assert_eq!(world.sprites[0].visibility, Visibility::Hidden);
    assert_eq!(
        world.sprites[0].flashing,
        Some(FlashingTimer { elapsed_millis: 200, duration_millis: 500 })
    );

    flash_sprites(&mut world, 200);
    assert_eq!(world.sprites[0].visibility, Visibility::Hidden);

    flash_sprites(&mut world, 100);
    assert_eq!(world.sprites[0].visibility, Visibility::Visible);
    assert_eq!(world.sprites[0].flashing, None);
}

#[test]
fn flash_is_idempotent_after_expiry() {
    let mut entity = walker(0, 2, 0, 250);
    entity.flashing = Some(FlashingTimer::new(100));
    let mut world = World { sprites: vec![entity], events: vec![] };

    flash_sprites(&mut world, 100);
    assert_eq!(world.sprites[0].visibility, Visibility::Visible);
    assert_eq!(world.sprites[0].flashing, None);

    flash_sprites(&mut world, 1000);
    assert_eq!(world.sprites[0].visibility, Visibility::Visible);
    assert_eq!(world.sprites[0].flashing, None);
}

#[test]
fn zero_duration_flash_finishes_on_its_first_tick() {
    let mut entity = walker(0, 2, 0, 250);
    entity.flashing = Some(FlashingTimer::new(0));
    let mut world = World { sprites: vec![entity], events: vec![] };
    flash_sprites(&mut world, 0);
    assert_eq!(world.sprites[0].visibility, Visibility::Visible);
    assert_eq!(world.sprites[0].flashing, None);
}

#[test]
fn flash_leaves_unflagged_entities_alone() {
    let mut world = World { sprites: vec![walker(0, 2, 1, 250)], events: vec![] };
    flash_sprites(&mut world, 500);
    assert_eq!(world.sprites[0].visibility, Visibility::Visible);
    assert_eq!(world.sprites[0].index, 1);
}
