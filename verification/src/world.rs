//! An explicit registry standing in for the engine's entity-component store:
//! one row per animated entity, plus the turn-event queue that is drained
//! once per simulation tick.

use vstd::prelude::*;

use crate::animation::{AnimationIndices, AnimationTimer, FlashingTimer, Visibility};
use crate::sprite::{DirectionalSprite, SpriteDirection, TurnEvent};

verus! {

/// One animated, player-steered entity: its direction profile, current
/// facing, current frame range, frame clock, visible frame index,
/// visibility flag, and an optional one-shot flash clock.
#[derive(Clone, Debug)]
pub struct SpriteEntity {
    /// The (direction, frame range) profile this sprite was spawned with.
    pub directions: DirectionalSprite,
    /// The current facing direction.
    pub facing: SpriteDirection,
    /// The current animation frame range.
    pub indices: AnimationIndices,
    /// The repeating clock that paces frame advancement.
    pub timer: AnimationTimer,
    /// The sprite-sheet cell index the renderer samples.
    pub index: usize,
    /// The renderer-facing visibility flag.
    pub visibility: Visibility,
    /// A one-shot flash clock, present only while a flash is in progress.
    pub flashing: Option<FlashingTimer>,
}

impl SpriteEntity {
    /// The row is well formed: ordered frame range, a live frame clock, the
    /// visible index inside the range, and any flash clock well formed.
    pub open spec fn wf(self) -> bool {
        &&& self.indices.wf()
        &&& self.timer.wf()
        &&& self.indices.contains(self.index)
        &&& match self.flashing {
            Some(t) => t.wf(),
            None => true,
        }
    }
}

/// Period of the frame clock a default-built entity carries, in
/// milliseconds.
pub const DEFAULT_FRAME_PERIOD_MILLIS: u64 = 500;

impl SpriteEntity {
    /// Assembles an entity row; an absent facing direction defaults to down.
    pub fn new(
        directions: DirectionalSprite,
        timer: AnimationTimer,
        indices: AnimationIndices,
        index: usize,
        facing: Option<SpriteDirection>,
    ) -> (r: SpriteEntity)
        requires
            timer.wf(),
            indices.wf(),
            indices.contains(index),
        ensures
            r.wf(),
            r.directions == directions,
            r.facing == (match facing {
                Some(d) => d,
                None => SpriteDirection::Down,
            }),
            r.indices == indices,
            r.timer == timer,
            r.index == index,
            r.visibility == Visibility::Visible,
            r.flashing is None,
    {
        let facing = match facing {
            Some(d) => d,
            None => SpriteDirection::Down,
        };
        SpriteEntity {
            directions,
            facing,
            indices,
            timer,
            index,
            visibility: Visibility::Visible,
            flashing: None,
        }
    }
}

impl Default for SpriteEntity {
    /// A placeholder entity: an empty profile, facing down, the single-frame
    /// range 0..=0 at index 0, a half-second frame clock, visible, and not
    /// flashing.
    fn default() -> (r: SpriteEntity)
        ensures
            r.wf(),
            r.directions.directions@.len() == 0,
            r.facing == SpriteDirection::Down,
            r.indices == (AnimationIndices { first: 0, last: 0 }),
            r.timer == (AnimationTimer {
                elapsed_millis: 0,
                period_millis: DEFAULT_FRAME_PERIOD_MILLIS,
            }),
            r.index == 0,
            r.visibility == Visibility::Visible,
            r.flashing is None,
    {
        SpriteEntity {
            directions: DirectionalSprite { directions: Vec::new() },
            facing: SpriteDirection::Down,
            indices: AnimationIndices { first: 0, last: 0 },
            timer: AnimationTimer::new(DEFAULT_FRAME_PERIOD_MILLIS),
            index: 0,
            visibility: Visibility::Visible,
            flashing: None,
        }
    }
}

/// The registry: every animated entity, and the bounded turn-event queue
/// (drained fully every simulation tick, in first-in first-out order).
pub struct World {
    pub sprites: Vec<SpriteEntity>,
    pub events: Vec<TurnEvent>,
}

impl World {
    /// Every entity row is well formed.
    pub open spec fn wf(self) -> bool {
        forall|i: int| 0 <= i < self.sprites@.len() ==> #[trigger] self.sprites@[i].wf()
    }

    /// An empty registry: no entities, no pending events.
    pub fn new() -> (r: World)
        ensures
            r.sprites@.len() == 0,
            r.events@.len() == 0,
            r.wf(),
    {
        World { sprites: Vec::new(), events: Vec::new() }
    }
}

} // verus!
