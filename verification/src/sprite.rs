//! Directional sprites: facing directions, the fixed direction-to-range
//! profile, input resolution into turn events, and the resolver that applies
//! a turn event to the animated entity.

use vstd::prelude::*;

use crate::animation::{AnimationIndices, AnimationTimer, Visibility};
use crate::world::{SpriteEntity, World};

verus! {

/// The four cardinal facing directions a sprite can hold.
#[derive(Clone, Copy, Debug, PartialEq, Eq, Structural)]
pub enum SpriteDirection {
    Up,
    Down,
    Left,
    Right,
}

/// One profile entry: a facing direction and its animation frame range.
#[derive(Clone, Copy, Debug, PartialEq, Eq, Structural)]
pub struct SpriteDirectionIndex {
    pub direction: SpriteDirection,
    pub indices: AnimationIndices,
}

/// The direction profile carried by an animated entity: an ordered table of
/// (direction, frame range) pairs, one per cardinal direction.
#[derive(Clone, Debug)]
pub struct DirectionalSprite {
    pub directions: Vec<SpriteDirectionIndex>,
}

/// The four logical directional actions a player can hold, independent of
/// which physical key or button produced them.
#[derive(Clone, Copy, Debug, PartialEq, Eq, Hash, Structural)]
pub enum DirectionalSpriteAction {
    Up,
    Down,
    Left,
    Right,
}

/// A planar direction with integer components, each in `{-1, 0, 1}`.
///
/// It stands for the net of the held directional inputs: `+y` is up, `-y` is
/// down, `-x` is left, `+x` is right. A well-formed value is never the zero
/// vector (a zero net suppresses event emission instead).
#[derive(Clone, Copy, Debug, PartialEq, Eq, Structural)]
pub struct Direction2 {
    pub x: i8,
    pub y: i8,
}

impl Direction2 {
    /// Components are unit-or-zero and the vector itself is not zero.
    pub open spec fn wf(self) -> bool {
        -1 <= self.x <= 1 && -1 <= self.y <= 1 && !(self.x == 0 && self.y == 0)
    }
}

/// A transient message carrying a single resolved net direction; emitted at
/// most once per simulation tick and drained fully by the resolver.
#[derive(Clone, Copy, Debug, PartialEq, Eq, Structural)]
pub enum TurnEvent {
    Turn(Direction2),
}

/// First frame of the upward walk cycle in the sprite sheet.
pub const UP_FIRST: usize = 36;
/// Last frame of the upward walk cycle.
pub const UP_LAST: usize = 38;
/// First frame of the downward walk cycle.
pub const DOWN_FIRST: usize = 0;
/// Last frame of the downward walk cycle.
pub const DOWN_LAST: usize = 2;
/// First frame of the leftward walk cycle.
pub const LEFT_FIRST: usize = 12;
/// Last frame of the leftward walk cycle.
pub const LEFT_LAST: usize = 14;
/// First frame of the rightward walk cycle.
pub const RIGHT_FIRST: usize = 24;
/// Last frame of the rightward walk cycle.
pub const RIGHT_LAST: usize = 26;

/// The compiled-in frame range for each facing direction.
pub open spec fn range_for_direction_spec(direction: SpriteDirection) -> AnimationIndices {
    match direction {
        SpriteDirection::Up => AnimationIndices { first: UP_FIRST, last: UP_LAST },
        SpriteDirection::Down => AnimationIndices { first: DOWN_FIRST, last: DOWN_LAST },
        SpriteDirection::Left => AnimationIndices { first: LEFT_FIRST, last: LEFT_LAST },
        SpriteDirection::Right => AnimationIndices { first: RIGHT_FIRST, last: RIGHT_LAST },
    }
}

/// Looks up the compiled-in frame range of a facing direction.
pub fn range_for_direction(direction: SpriteDirection) -> (r: AnimationIndices)
    ensures
        r == range_for_direction_spec(direction),
        r.wf(),
{
    match direction {
        SpriteDirection::Up => AnimationIndices { first: UP_FIRST, last: UP_LAST },
        SpriteDirection::Down => AnimationIndices { first: DOWN_FIRST, last: DOWN_LAST },
        SpriteDirection::Left => AnimationIndices { first: LEFT_FIRST, last: LEFT_LAST },
        SpriteDirection::Right => AnimationIndices { first: RIGHT_FIRST, last: RIGHT_LAST },
    }
}

/// The cardinal direction nearest a resolved net vector: each canonical unit
/// vector maps to its own direction, and any other (diagonal or otherwise
/// non-canonical) vector defaults to `Down`.
pub open spec fn cardinal_of_spec(d: Direction2) -> SpriteDirection {
    if d.x == 0 && d.y == 1 {
        SpriteDirection::Up
    } else if d.x == 0 && d.y == -1 {
        SpriteDirection::Down
    } else if d.x == -1 && d.y == 0 {
        SpriteDirection::Left
    } else if d.x == 1 && d.y == 0 {
        SpriteDirection::Right
    } else {
        SpriteDirection::Down
    }
}

/// Maps a resolved net vector to its nearest cardinal facing direction.
pub fn cardinal_of(d: Direction2) -> (r: SpriteDirection)
    ensures
        r == cardinal_of_spec(d),
{
    if d.x == 0 && d.y == 1 {
        SpriteDirection::Up
    } else if d.x == 0 && d.y == -1 {
        SpriteDirection::Down
    } else if d.x == -1 && d.y == 0 {
        SpriteDirection::Left
    } else if d.x == 1 && d.y == 0 {
        SpriteDirection::Right
    } else {
        SpriteDirection::Down
    }
}

/// The fixed, compiled-in direction profile as a sequence: one entry per
/// cardinal direction, in the order up, down, left, right, each carrying
/// that direction's frame range.
pub open spec fn default_profile_spec() -> Seq<SpriteDirectionIndex> {
    seq![
        SpriteDirectionIndex {
            direction: SpriteDirection::Up,
            indices: range_for_direction_spec(SpriteDirection::Up),
        },
        SpriteDirectionIndex {
            direction: SpriteDirection::Down,
            indices: range_for_direction_spec(SpriteDirection::Down),
        },
        SpriteDirectionIndex {
            direction: SpriteDirection::Left,
            indices: range_for_direction_spec(SpriteDirection::Left),
        },
        SpriteDirectionIndex {
            direction: SpriteDirection::Right,
            indices: range_for_direction_spec(SpriteDirection::Right),
        },
    ]
}

/// The fixed, compiled-in direction profile of the playable sprite: one
/// entry per cardinal direction, each carrying that direction's frame range.
pub fn sprite_directions() -> (r: Vec<SpriteDirectionIndex>)
    ensures
        r@ == default_profile_spec(),
        forall|i: int| 0 <= i < r@.len() ==> (#[trigger] r@[i]).indices
            == range_for_direction_spec(r@[i].direction),
{
    let mut r: Vec<SpriteDirectionIndex> = Vec::new();
    r.push(SpriteDirectionIndex {
        direction: SpriteDirection::Up,
        indices: range_for_direction(SpriteDirection::Up),
    });
    r.push(SpriteDirectionIndex {
        direction: SpriteDirection::Down,
        indices: range_for_direction(SpriteDirection::Down),
    });
    r.push(SpriteDirectionIndex {
        direction: SpriteDirection::Left,
        indices: range_for_direction(SpriteDirection::Left),
    });
    r.push(SpriteDirectionIndex {
        direction: SpriteDirection::Right,
        indices: range_for_direction(SpriteDirection::Right),
    });
    proof {
        assert(r@ =~= default_profile_spec());
    }
    r
}

impl DirectionalSpriteAction {
    /// The canonical unit vector of this action.
    pub fn direction(self) -> (r: Option<Direction2>)
        ensures
            self is Up ==> r == Some((Direction2 { x: 0, y: 1 })),
            self is Down ==> r == Some((Direction2 { x: 0, y: -1i8 })),
            self is Left ==> r == Some((Direction2 { x: -1i8, y: 0 })),
            self is Right ==> r == Some((Direction2 { x: 1, y: 0 })),
            r is Some ==> r.unwrap().wf(),
    {
        match self {
            DirectionalSpriteAction::Up => Some(Direction2 { x: 0, y: 1 }),
            DirectionalSpriteAction::Down => Some(Direction2 { x: 0, y: -1 }),
            DirectionalSpriteAction::Left => Some(Direction2 { x: -1, y: 0 }),
            DirectionalSpriteAction::Right => Some(Direction2 { x: 1, y: 0 }),
        }
    }
}

/// The frame index after a direction change: an index that falls outside the
/// new range resets to the range's first frame, one already inside it is
/// preserved unchanged.
pub open spec fn clamped_index_spec(indices: AnimationIndices, index: usize) -> usize {
    if index < indices.first || index > indices.last {
        indices.first
    } else {
        index
    }
}

/// The entity after one turn event: the facing becomes the event's nearest
/// cardinal, the range becomes that cardinal's compiled-in range, and the
/// frame index is clamped into the new range. Nothing else changes.
pub open spec fn turned_entity_spec(e: SpriteEntity, ev: TurnEvent) -> SpriteEntity {
    match ev {
        TurnEvent::Turn(v) => {
            let facing = cardinal_of_spec(v);
            let indices = range_for_direction_spec(facing);
            SpriteEntity {
                directions: e.directions,
                facing: facing,
                indices: indices,
                timer: e.timer,
                index: clamped_index_spec(indices, e.index),
                visibility: e.visibility,
                flashing: e.flashing,
            }
        },
    }
}

/// The entity after a whole queue of turn events, applied in arrival order
/// (so the last event wins on the fields every event writes).
pub open spec fn turned_entity_all_spec(e: SpriteEntity, evs: Seq<TurnEvent>) -> SpriteEntity
    decreases evs.len(),
{
    if evs.len() == 0 {
        e
    } else {
        turned_entity_all_spec(turned_entity_spec(e, evs[0]), evs.drop_first())
    }
}

/// Appending one event to a queue turns the entity by the queue and then by
/// that event.
proof fn lemma_turned_all_push(e: SpriteEntity, evs: Seq<TurnEvent>, ev: TurnEvent)
    ensures
        turned_entity_all_spec(e, evs.push(ev)) == turned_entity_spec(
            turned_entity_all_spec(e, evs),
            ev,
        ),
    decreases evs.len(),
{
    let pushed = evs.push(ev);
    assert(pushed.len() == evs.len() + 1);
    if evs.len() == 0 {
        assert(pushed[0] == ev);
        assert(pushed.drop_first().len() == 0);
        assert(turned_entity_all_spec(e, pushed) == turned_entity_all_spec(
            turned_entity_spec(e, ev),
            pushed.drop_first(),
        ));
        assert(turned_entity_all_spec(turned_entity_spec(e, ev), pushed.drop_first())
            == turned_entity_spec(e, ev));
        assert(turned_entity_all_spec(e, evs) == e);
    } else {
        assert(pushed[0] == evs[0]);
        assert(pushed.drop_first() =~= evs.drop_first().push(ev));
        assert(turned_entity_all_spec(e, pushed) == turned_entity_all_spec(
            turned_entity_spec(e, evs[0]),
            evs.drop_first().push(ev),
        ));
        lemma_turned_all_push(turned_entity_spec(e, evs[0]), evs.drop_first(), ev);
        assert(turned_entity_all_spec(e, evs) == turned_entity_all_spec(
            turned_entity_spec(e, evs[0]),
            evs.drop_first(),
        ));
    }
}

/// Applies one turn event to one entity: select the profile range nearest
/// the event's direction, apply it, and clamp the frame index into it.
pub fn turn_entity(e: &mut SpriteEntity, ev: &TurnEvent)
    requires
        old(e).wf(),
    ensures
        final(e).wf(),
        *final(e) == turned_entity_spec(*old(e), *ev),
{
    let facing = match ev {
        TurnEvent::Turn(v) => cardinal_of(*v),
    };
    let indices = range_for_direction(facing);
    e.facing = facing;
    e.indices = indices;
    if e.index < indices.first || e.index > indices.last {
        e.index = indices.first;
    }
}

/// Drains the turn-event queue and applies each event, in arrival order, to
/// every directional sprite in the registry.
pub fn turn_sprite(world: &mut World)
    requires
        old(world).wf(),
    ensures
        final(world).wf(),
        final(world).events@.len() == 0,
        final(world).sprites@.len() == old(world).sprites@.len(),
        forall|i: int| 0 <= i < old(world).sprites@.len() ==> final(world).sprites@[i]
            == turned_entity_all_spec(old(world).sprites@[i], old(world).events@),
        old(world).events@.len() == 1 ==> forall|i: int| 0 <= i < old(world).sprites@.len()
            ==> final(world).sprites@[i] == turned_entity_spec(
            old(world).sprites@[i],
            old(world).events@[0],
        ),
{
    let n_events = world.events.len();
    let mut j: usize = 0;
    while j < n_events
        invariant
            j <= n_events,
            n_events == old(world).events@.len(),
            world.events@ == old(world).events@,
            world.sprites@.len() == old(world).sprites@.len(),
            forall|i: int| 0 <= i < world.sprites@.len() ==> #[trigger] world.sprites@[i].wf(),
            forall|i: int| 0 <= i < world.sprites@.len() ==> world.sprites@[i]
                == turned_entity_all_spec(
                    old(world).sprites@[i],
                    old(world).events@.take(j as int),
                ),
        decreases n_events - j,
    {
        let ev = world.events[j];
        let n = world.sprites.len();
        let mut i: usize = 0;
        while i < n
            invariant
                i <= n,
                j < n_events,
                n_events == old(world).events@.len(),
                world.events@ == old(world).events@,
                ev == old(world).events@[j as int],
                n == world.sprites@.len(),
                world.sprites@.len() == old(world).sprites@.len(),
                forall|k: int| 0 <= k < world.sprites@.len() ==> #[trigger] world.sprites@[k].wf(),
                forall|k: int| 0 <= k < i ==> world.sprites@[k] == turned_entity_spec(
                    turned_entity_all_spec(
                        old(world).sprites@[k],
                        old(world).events@.take(j as int),
                    ),
                    ev,
                ),
                forall|k: int| i <= k < world.sprites@.len() ==> world.sprites@[k]
                    == turned_entity_all_spec(
                        old(world).sprites@[k],
                        old(world).events@.take(j as int),
                    ),
            decreases n - i,
        {
            turn_entity(&mut world.sprites[i], &ev);
            i = i + 1;
        }
        proof {
            assert forall|k: int| 0 <= k < world.sprites@.len() implies world.sprites@[k]
                == turned_entity_all_spec(
                    old(world).sprites@[k],
                    old(world).events@.take(j as int + 1),
                ) by {
                assert(old(world).events@.take(j as int + 1) =~= old(world).events@.take(
                    j as int,
                ).push(old(world).events@[j as int]));
                lemma_turned_all_push(
                    old(world).sprites@[k],
                    old(world).events@.take(j as int),
                    old(world).events@[j as int],
                );
            }
        }
        j = j + 1;
    }
    proof {
        assert(old(world).events@.take(n_events as int) =~= old(world).events@);
        if old(world).events@.len() == 1 {
            let evs = old(world).events@;
            assert forall|i: int| 0 <= i < old(world).sprites@.len() implies world.sprites@[i]
                == turned_entity_spec(old(world).sprites@[i], evs[0]) by {
                let e = old(world).sprites@[i];
                assert(turned_entity_all_spec(e, evs) == turned_entity_all_spec(
                    turned_entity_spec(e, evs[0]),
                    evs.drop_first(),
                ));
                assert(evs.drop_first().len() == 0);
                assert(turned_entity_all_spec(turned_entity_spec(e, evs[0]), evs.drop_first())
                    == turned_entity_spec(e, evs[0]));
            }
        }
    }
    world.events = Vec::new();
}

/// Net horizontal component of the held inputs: right minus left.
pub open spec fn net_x(left: bool, right: bool) -> int {
    (if right { 1int } else { 0int }) - (if left { 1int } else { 0int })
}

/// Net vertical component of the held inputs: up minus down.
pub open spec fn net_y(up: bool, down: bool) -> int {
    (if up { 1int } else { 0int }) - (if down { 1int } else { 0int })
}

/// The turn event one fixed-timestep tick emits for the given held inputs:
/// none when the net vector is zero (no input, or fully opposing inputs),
/// otherwise exactly one event carrying the net direction.
pub open spec fn resolved_turn_spec(up: bool, down: bool, left: bool, right: bool) -> Option<
    TurnEvent,
> {
    if net_x(left, right) == 0 && net_y(up, down) == 0 {
        None
    } else {
        Some(
            TurnEvent::Turn(
                Direction2 { x: net_x(left, right) as i8, y: net_y(up, down) as i8 },
            ),
        )
    }
}

/// Reads the held state of the four logical directional actions for the one
/// steered sprite, sums their unit vectors, and emits exactly one turn event
/// for a non-zero net; a zero net (no input, or opposing inputs cancelling)
/// emits nothing. The single-player assumption — exactly one steered sprite
/// in the registry — is a precondition, as failing it is a fault, not a
/// recoverable state.
pub fn update_directional_sprite(world: &mut World, up: bool, down: bool, left: bool, right: bool)
    requires
        old(world).sprites@.len() == 1,
    ensures
        final(world).sprites == old(world).sprites,
        resolved_turn_spec(up, down, left, right) is None ==> final(world).events
            == old(world).events,
        resolved_turn_spec(up, down, left, right) matches Some(ev) ==> final(world).events@
            == old(world).events@.push(ev),
{
    let mut x: i8 = 0;
    let mut y: i8 = 0;
    if up {
        if let Some(v) = DirectionalSpriteAction::Up.direction() {
            x = x + v.x;
            y = y + v.y;
        }
    }
    if down {
        if let Some(v) = DirectionalSpriteAction::Down.direction() {
            x = x + v.x;
            y = y + v.y;
        }
    }
    if left {
        if let Some(v) = DirectionalSpriteAction::Left.direction() {
            x = x + v.x;
            y = y + v.y;
        }
    }
    if right {
        if let Some(v) = DirectionalSpriteAction::Right.direction() {
            x = x + v.x;
            y = y + v.y;
        }
    }
    if !(x == 0 && y == 0) {
        world.events.push(TurnEvent::Turn(Direction2 { x, y }));
    }
}

/// Period of the playable sprite's frame clock, in milliseconds.
pub const FRAME_PERIOD_MILLIS: u64 = 250;

/// Spawns the playable directional sprite into the registry: the compiled-in
/// four-entry profile, facing down, the downward frame range, frame index 0,
/// a fresh repeating frame clock, visible, and not flashing.
pub fn spawn_sprites(world: &mut World)
    requires
        old(world).wf(),
    ensures
        final(world).wf(),
        final(world).events == old(world).events,
        final(world).sprites@.len() == old(world).sprites@.len() + 1,
        forall|i: int| 0 <= i < old(world).sprites@.len() ==> final(world).sprites@[i]
            == old(world).sprites@[i],
        ({
            let s = final(world).sprites@[old(world).sprites@.len() as int];
            &&& s.directions.directions@ == default_profile_spec()
            &&& s.facing == SpriteDirection::Down
            &&& s.indices == range_for_direction_spec(SpriteDirection::Down)
            &&& s.timer == (AnimationTimer { elapsed_millis: 0, period_millis: FRAME_PERIOD_MILLIS })
            &&& s.index == 0
            &&& s.visibility == Visibility::Visible
            &&& s.flashing is None
        }),
{
    let directions = DirectionalSprite { directions: sprite_directions() };
    let timer = AnimationTimer::new(FRAME_PERIOD_MILLIS);
    let indices = range_for_direction(SpriteDirection::Down);
    let entity = SpriteEntity::new(directions, timer, indices, 0, Some(SpriteDirection::Down));
    world.sprites.push(entity);
}

/// Opposing held inputs cancel: whenever up and down are held alike and left
/// and right are held alike — which covers up together with down, and left
/// together with right, alone or combined — the net vector is zero and no
/// turn event is emitted that tick.
pub proof fn lemma_opposing_inputs_cancel(up: bool, down: bool, left: bool, right: bool)
    requires
        up == down,
        left == right,
    ensures
        resolved_turn_spec(up, down, left, right) is None,
{
}

/// A turn clamps the frame index: after a direction change, an index outside
/// the new range is reset to the new range's first frame, and an index
/// already inside the new range is preserved unchanged.
pub proof fn lemma_turn_clamps_index(e: SpriteEntity, ev: TurnEvent)
    ensures
        ({
            let new_indices = turned_entity_spec(e, ev).indices;
            &&& (!new_indices.contains(e.index) ==> turned_entity_spec(e, ev).index
                == new_indices.first)
            &&& (new_indices.contains(e.index) ==> turned_entity_spec(e, ev).index == e.index)
        }),
{
}

/// Turning is a pure function of the latest direction, not of history: a
/// turn right, then left, then right again leaves the same facing, frame
/// range and frame index as the single final right turn would from the same
/// starting point — and so for any three events with the last one repeated.
pub proof fn lemma_turn_round_trip(e: SpriteEntity, ev1: TurnEvent, ev2: TurnEvent, ev3: TurnEvent)
    ensures
        turned_entity_spec(turned_entity_spec(turned_entity_spec(e, ev1), ev2), ev3).facing
            == turned_entity_spec(e, ev3).facing,
        turned_entity_spec(turned_entity_spec(turned_entity_spec(e, ev1), ev2), ev3).indices
            == turned_entity_spec(e, ev3).indices,
{
}

} // verus!
