//! The animation data model: a cyclic frame range, a repeating frame clock,
//! a one-shot flash clock, and the two per-tick systems that drive them.

use vstd::prelude::*;

use crate::world::{SpriteEntity, World};

verus! {

/// Inclusive bounds of a cyclic frame sequence within a sprite sheet.
///
/// Invariant: `first <= last`; a current frame index always lies in
/// `[first, last]`. A malformed range (`first > last`) is rejected at
/// construction, not handled defensively by the per-tick systems.
#[derive(Clone, Copy, Debug, PartialEq, Eq, Structural)]
pub struct AnimationIndices {
    pub first: usize,
    pub last: usize,
}

impl AnimationIndices {
    /// The range is well formed: its bounds are ordered.
    pub open spec fn wf(self) -> bool {
        self.first <= self.last
    }

    /// `index` lies inside the inclusive range.
    pub open spec fn contains(self, index: usize) -> bool {
        self.first <= index <= self.last
    }

    /// Number of frames in the range.
    pub open spec fn frame_count(self) -> nat {
        (self.last - self.first + 1) as nat
    }

    /// Builds a range, rejecting malformed bounds so that `first > last`
    /// is unrepresentable downstream.
    pub fn new(first: usize, last: usize) -> (r: Option<AnimationIndices>)
        ensures
            first <= last ==> r == Some((AnimationIndices { first, last })),
            first > last ==> r is None,
            r is Some ==> r.unwrap().wf(),
    {
        if first <= last {
            Some(AnimationIndices { first, last })
        } else {
            None
        }
    }
}

/// The renderer-facing visibility flag toggled by the flash effect.
#[derive(Clone, Copy, Debug, PartialEq, Eq, Structural)]
pub enum Visibility {
    Visible,
    Hidden,
}

/// A repeating countdown with a fixed period, measured in milliseconds; when
/// the elapsed time reaches the period it wraps and signals "advance".
///
/// Invariant: the period is positive and the stored elapsed time stays below
/// it between ticks.
#[derive(Clone, Copy, Debug, PartialEq, Eq, Structural)]
pub struct AnimationTimer {
    pub elapsed_millis: u64,
    pub period_millis: u64,
}

impl AnimationTimer {
    /// The clock is well formed: a positive period, elapsed time below it.
    pub open spec fn wf(self) -> bool {
        0 < self.period_millis && self.elapsed_millis < self.period_millis
    }

    /// Whether advancing by `delta_millis` completes the current period.
    pub open spec fn fires(self, delta_millis: u64) -> bool {
        self.elapsed_millis + delta_millis >= self.period_millis
    }

    /// The clock after advancing by `delta_millis`: the elapsed time grows,
    /// wrapping modulo the period on expiry.
    pub open spec fn after_tick(self, delta_millis: u64) -> AnimationTimer {
        AnimationTimer {
            elapsed_millis: if self.fires(delta_millis) {
                ((self.elapsed_millis + delta_millis) % (self.period_millis as int)) as u64
            } else {
                (self.elapsed_millis + delta_millis) as u64
            },
            period_millis: self.period_millis,
        }
    }

    /// A fresh repeating clock with the given positive period.
    pub fn new(period_millis: u64) -> (r: AnimationTimer)
        requires
            0 < period_millis,
        ensures
            r == (AnimationTimer { elapsed_millis: 0, period_millis }),
            r.wf(),
    {
        AnimationTimer { elapsed_millis: 0, period_millis }
    }

    /// Advances the clock by the elapsed real time since the last tick and
    /// reports whether a period completed. However large the delta, a single
    /// tick signals at most one advance.
    pub fn tick(&mut self, delta_millis: u64) -> (fired: bool)
        requires
            old(self).wf(),
        ensures
            final(self).wf(),
            fired == old(self).fires(delta_millis),
            *final(self) == old(self).after_tick(delta_millis),
    {
        let total: u128 = self.elapsed_millis as u128 + delta_millis as u128;
        if total >= self.period_millis as u128 {
            let wrapped: u128 = total % (self.period_millis as u128);
            assert(wrapped < self.period_millis as u128);
            self.elapsed_millis = wrapped as u64;
            true
        } else {
            self.elapsed_millis = total as u64;
            false
        }
    }
}

/// A one-shot countdown, measured in milliseconds; when the elapsed time
/// reaches the duration it signals "end of flash" and is then discarded.
///
/// Invariant: the stored elapsed time never exceeds the duration.
#[derive(Clone, Copy, Debug, PartialEq, Eq, Structural)]
pub struct FlashingTimer {
    pub elapsed_millis: u64,
    pub duration_millis: u64,
}

impl FlashingTimer {
    /// The clock is well formed: elapsed time within the duration.
    pub open spec fn wf(self) -> bool {
        self.elapsed_millis <= self.duration_millis
    }

    /// Whether advancing by `delta_millis` reaches the one-shot duration.
    pub open spec fn finishes(self, delta_millis: u64) -> bool {
        self.elapsed_millis + delta_millis >= self.duration_millis
    }

    /// The clock after advancing by `delta_millis`; the elapsed time
    /// saturates at the duration.
    pub open spec fn after_tick(self, delta_millis: u64) -> FlashingTimer {
        FlashingTimer {
            elapsed_millis: if self.finishes(delta_millis) {
                self.duration_millis
            } else {
                (self.elapsed_millis + delta_millis) as u64
            },
            duration_millis: self.duration_millis,
        }
    }

    /// A fresh one-shot clock of the given duration.
    pub fn new(duration_millis: u64) -> (r: FlashingTimer)
        ensures
            r == (FlashingTimer { elapsed_millis: 0, duration_millis }),
            r.wf(),
    {
        FlashingTimer { elapsed_millis: 0, duration_millis }
    }

    /// Advances the clock by the elapsed real time since the last tick and
    /// reports whether the one-shot duration has now been reached.
    pub fn tick(&mut self, delta_millis: u64) -> (finished: bool)
        requires
            old(self).wf(),
        ensures
            final(self).wf(),
            finished == old(self).finishes(delta_millis),
            *final(self) == old(self).after_tick(delta_millis),
    {
        let total: u128 = self.elapsed_millis as u128 + delta_millis as u128;
        if total >= self.duration_millis as u128 {
            self.elapsed_millis = self.duration_millis;
            true
        } else {
            self.elapsed_millis = total as u64;
            false
        }
    }
}

/// The frame index one expiry after `index`: wrap from `last` to `first`,
/// otherwise step forward by one.
pub open spec fn advanced_index_spec(indices: AnimationIndices, index: usize) -> usize {
    if index == indices.last {
        indices.first
    } else {
        (index + 1) as usize
    }
}

/// Advances a frame index one step through the cyclic range.
pub fn advance_index(indices: &AnimationIndices, index: usize) -> (r: usize)
    requires
        indices.wf(),
        indices.contains(index),
    ensures
        r == advanced_index_spec(*indices, index),
        indices.contains(r),
{
    if index == indices.last {
        indices.first
    } else {
        index + 1
    }
}

/// The frame index after `n` expiries of the frame clock.
pub open spec fn advanced_n_spec(indices: AnimationIndices, index: usize, n: nat) -> usize
    decreases n,
{
    if n == 0 {
        index
    } else {
        advanced_index_spec(indices, advanced_n_spec(indices, index, (n - 1) as nat))
    }
}

/// Advancing `m + n` times is advancing `m` times, then `n` more.
proof fn lemma_advanced_n_compose(indices: AnimationIndices, index: usize, m: nat, n: nat)
    ensures
        advanced_n_spec(indices, index, m + n) == advanced_n_spec(
            indices,
            advanced_n_spec(indices, index, m),
            n,
        ),
    decreases n,
{
    if n > 0 {
        lemma_advanced_n_compose(indices, index, m, (n - 1) as nat);
    }
}

/// From `index`, the wrap back to `first` comes after exactly
/// `last - index + 1` expiries.
proof fn lemma_advance_reaches_first(indices: AnimationIndices, index: usize)
    requires
        indices.wf(),
        indices.contains(index),
    ensures
        advanced_n_spec(indices, index, (indices.last - index + 1) as nat) == indices.first,
    decreases indices.last - index,
{
    if index == indices.last {
        assert(advanced_n_spec(indices, index, 1) == advanced_index_spec(
            indices,
            advanced_n_spec(indices, index, 0),
        ));
    } else {
        let next = (index + 1) as usize;
        lemma_advanced_n_compose(indices, index, 1, (indices.last - next + 1) as nat);
        assert(advanced_n_spec(indices, index, 1) == advanced_index_spec(
            indices,
            advanced_n_spec(indices, index, 0),
        ));
        assert(advanced_n_spec(indices, index, 1) == next);
        lemma_advance_reaches_first(indices, next);
    }
}

/// From `first`, `k` expiries land on `first + k`, as long as that stays in
/// the range.
proof fn lemma_advance_walks_forward(indices: AnimationIndices, k: nat)
    requires
        indices.wf(),
        k <= indices.last - indices.first,
    ensures
        advanced_n_spec(indices, indices.first, k) == indices.first + k,
    decreases k,
{
    if k > 0 {
        lemma_advance_walks_forward(indices, (k - 1) as nat);
    }
}

/// The cyclic property of frame advancement: from any starting index in the
/// range, one full lap — as many clock expiries as the range has frames —
/// returns the index to its starting value; in particular, starting at
/// `first`, a full lap returns to `first`.
pub proof fn lemma_frame_cycle(indices: AnimationIndices, index: usize)
    requires
        indices.wf(),
        indices.contains(index),
    ensures
        advanced_n_spec(indices, index, indices.frame_count()) == index,
{
    let to_first = (indices.last - index + 1) as nat;
    let onward = (index - indices.first) as nat;
    assert(to_first + onward == indices.frame_count());
    lemma_advanced_n_compose(indices, index, to_first, onward);
    lemma_advance_reaches_first(indices, index);
    lemma_advance_walks_forward(indices, onward);
}

/// The entity after one rendering tick of the frame advancer: the frame
/// clock advances by the elapsed real time, and on expiry the visible frame
/// index steps once through the cyclic range. Nothing else changes.
pub open spec fn animated_entity_spec(e: SpriteEntity, delta_millis: u64) -> SpriteEntity {
    SpriteEntity {
        directions: e.directions,
        facing: e.facing,
        indices: e.indices,
        timer: e.timer.after_tick(delta_millis),
        index: if e.timer.fires(delta_millis) {
            advanced_index_spec(e.indices, e.index)
        } else {
            e.index
        },
        visibility: e.visibility,
        flashing: e.flashing,
    }
}

/// Advances one entity's frame clock and, on expiry, its visible frame.
pub fn animate_entity(e: &mut SpriteEntity, delta_millis: u64)
    requires
        old(e).wf(),
    ensures
        final(e).wf(),
        *final(e) == animated_entity_spec(*old(e), delta_millis),
{
    let fired = e.timer.tick(delta_millis);
    if fired {
        let next = advance_index(&e.indices, e.index);
        e.index = next;
    }
}

/// The frame advancer: once per rendering tick, advances every entity's
/// frame clock by the elapsed real time and steps the visible frame of each
/// entity whose clock expired; with no entities it is a no-op.
pub fn animate_sprites(world: &mut World, delta_millis: u64)
    requires
        old(world).wf(),
    ensures
        final(world).wf(),
        final(world).events == old(world).events,
        final(world).sprites@.len() == old(world).sprites@.len(),
        forall|i: int| 0 <= i < old(world).sprites@.len() ==> final(world).sprites@[i]
            == animated_entity_spec(old(world).sprites@[i], delta_millis),
{
    let n = world.sprites.len();
    let mut i: usize = 0;
    while i < n
        invariant
            i <= n,
            n == world.sprites@.len(),
            world.sprites@.len() == old(world).sprites@.len(),
            world.events == old(world).events,
            forall|k: int| 0 <= k < world.sprites@.len() ==> #[trigger] world.sprites@[k].wf(),
            forall|k: int| 0 <= k < i ==> world.sprites@[k] == animated_entity_spec(
                old(world).sprites@[k],
                delta_millis,
            ),
            forall|k: int| i <= k < world.sprites@.len() ==> world.sprites@[k]
                == old(world).sprites@[k],
        decreases n - i,
    {
        animate_entity(&mut world.sprites[i], delta_millis);
        i = i + 1;
    }
}

/// The entity after a whole run of frame-advancer ticks, one per elapsed
/// delta, in order.
pub open spec fn animated_all_spec(e: SpriteEntity, deltas: Seq<u64>) -> SpriteEntity
    decreases deltas.len(),
{
    if deltas.len() == 0 {
        e
    } else {
        animated_all_spec(animated_entity_spec(e, deltas[0]), deltas.drop_first())
    }
}

/// How many times the frame clock expires over a run of ticks.
pub open spec fn expiry_count(timer: AnimationTimer, deltas: Seq<u64>) -> nat
    decreases deltas.len(),
{
    if deltas.len() == 0 {
        0
    } else {
        (if timer.fires(deltas[0]) {
            1nat
        } else {
            0nat
        }) + expiry_count(timer.after_tick(deltas[0]), deltas.drop_first())
    }
}

/// Over any run of ticks the frame advancer leaves the range itself alone
/// and steps the visible index exactly once per clock expiry.
pub proof fn lemma_animate_steps_once_per_expiry(e: SpriteEntity, deltas: Seq<u64>)
    requires
        e.indices.wf(),
        e.indices.contains(e.index),
    ensures
        animated_all_spec(e, deltas).indices == e.indices,
        animated_all_spec(e, deltas).index == advanced_n_spec(
            e.indices,
            e.index,
            expiry_count(e.timer, deltas),
        ),
    decreases deltas.len(),
{
    if deltas.len() > 0 {
        let e1 = animated_entity_spec(e, deltas[0]);
        lemma_animate_steps_once_per_expiry(e1, deltas.drop_first());
        let rest = expiry_count(e1.timer, deltas.drop_first());
        if e.timer.fires(deltas[0]) {
            lemma_advanced_n_compose(e.indices, e.index, 1, rest);
            assert(advanced_n_spec(e.indices, e.index, 1) == advanced_index_spec(
                e.indices,
                advanced_n_spec(e.indices, e.index, 0),
            ));
        }
    }
}

/// The cyclic property at the system level: over a run of rendering ticks
/// in which the frame clock expires exactly as many times as the range has
/// frames, the visible index comes back to where it started.
pub proof fn lemma_full_lap_returns_index(e: SpriteEntity, deltas: Seq<u64>)
    requires
        e.indices.wf(),
        e.indices.contains(e.index),
        expiry_count(e.timer, deltas) == e.indices.frame_count(),
    ensures
        animated_all_spec(e, deltas).index == e.index,
{
    lemma_animate_steps_once_per_expiry(e, deltas);
    lemma_frame_cycle(e.indices, e.index);
}

/// The entity after one rendering tick of the flash effect: an entity with
/// no flash clock is untouched; one with a clock is hidden, its clock
/// advanced, and — on the tick where the one-shot duration is reached — made
/// visible again with the clock discarded. Nothing else changes.
pub open spec fn flashed_entity_spec(e: SpriteEntity, delta_millis: u64) -> SpriteEntity {
    match e.flashing {
        None => e,
        Some(t) => SpriteEntity {
            directions: e.directions,
            facing: e.facing,
            indices: e.indices,
            timer: e.timer,
            index: e.index,
            visibility: if t.finishes(delta_millis) {
                Visibility::Visible
            } else {
                Visibility::Hidden
            },
            flashing: if t.finishes(delta_millis) {
                None
            } else {
                Some(t.after_tick(delta_millis))
            },
        },
    }
}

/// Runs the flash effect on one entity: hide it, advance the one-shot
/// clock, and on expiry show it again and discard the clock.
pub fn flash_entity(e: &mut SpriteEntity, delta_millis: u64)
    requires
        old(e).wf(),
    ensures
        final(e).wf(),
        *final(e) == flashed_entity_spec(*old(e), delta_millis),
{
    if e.flashing.is_some() {
        e.visibility = Visibility::Hidden;
        let mut t = e.flashing.unwrap();
        let finished = t.tick(delta_millis);
        if finished {
            e.visibility = Visibility::Visible;
            e.flashing = None;
        } else {
            e.flashing = Some(t);
        }
    }
}

/// The entity after a whole run of flash-effect ticks, one per elapsed
/// delta, in order.
pub open spec fn flashed_all_spec(e: SpriteEntity, deltas: Seq<u64>) -> SpriteEntity
    decreases deltas.len(),
{
    if deltas.len() == 0 {
        e
    } else {
        flashed_all_spec(flashed_entity_spec(e, deltas[0]), deltas.drop_first())
    }
}

/// Total elapsed time of a run of ticks.
pub open spec fn total_millis(deltas: Seq<u64>) -> int
    decreases deltas.len(),
{
    if deltas.len() == 0 {
        0
    } else {
        deltas[0] + total_millis(deltas.drop_first())
    }
}

proof fn lemma_total_millis_nonneg(deltas: Seq<u64>)
    ensures
        total_millis(deltas) >= 0,
    decreases deltas.len(),
{
    if deltas.len() > 0 {
        lemma_total_millis_nonneg(deltas.drop_first());
    }
}

/// Idempotence past expiry: an entity that carries no flash clock is left
/// untouched by any further run of flash-effect ticks — once the clock is
/// removed, no more toggling occurs.
pub proof fn lemma_flash_idempotent_after_expiry(e: SpriteEntity, deltas: Seq<u64>)
    requires
        e.flashing is None,
    ensures
        flashed_all_spec(e, deltas) == e,
    decreases deltas.len(),
{
    if deltas.len() > 0 {
        lemma_flash_idempotent_after_expiry(e, deltas.drop_first());
    }
}

/// A flash clock of duration `D` keeps the entity hidden for every tick of a
/// run whose cumulative elapsed time stays below `D`: at the end the entity
/// is still hidden and still carries the clock, now charged with the whole
/// elapsed time.
pub proof fn lemma_flash_hidden_before_expiry(e: SpriteEntity, t: FlashingTimer, deltas: Seq<u64>)
    requires
        e.flashing == Some(t),
        deltas.len() > 0,
        t.elapsed_millis + total_millis(deltas) < t.duration_millis,
    ensures
        flashed_all_spec(e, deltas).visibility == Visibility::Hidden,
        flashed_all_spec(e, deltas).flashing == Some(
            (FlashingTimer {
                elapsed_millis: (t.elapsed_millis + total_millis(deltas)) as u64,
                duration_millis: t.duration_millis,
            }),
        ),
    decreases deltas.len(),
{
    lemma_total_millis_nonneg(deltas.drop_first());
    let e1 = flashed_entity_spec(e, deltas[0]);
    assert(!t.finishes(deltas[0]));
    if deltas.len() == 1 {
        assert(flashed_all_spec(e, deltas) == flashed_all_spec(e1, deltas.drop_first()));
        assert(deltas.drop_first().len() == 0);
        assert(flashed_all_spec(e1, deltas.drop_first()) == e1);
    } else {
        lemma_flash_hidden_before_expiry(e1, t.after_tick(deltas[0]), deltas.drop_first());
    }
}

/// At the tick where the cumulative elapsed time of a run reaches the flash
/// clock's duration, the entity becomes visible and the clock is removed;
/// the rest of the run changes nothing further.
pub proof fn lemma_flash_visible_at_expiry(e: SpriteEntity, t: FlashingTimer, deltas: Seq<u64>)
    requires
        e.flashing == Some(t),
        deltas.len() > 0,
        t.elapsed_millis + total_millis(deltas) >= t.duration_millis,
    ensures
        flashed_all_spec(e, deltas).visibility == Visibility::Visible,
        flashed_all_spec(e, deltas).flashing is None,
    decreases deltas.len(),
{
    let e1 = flashed_entity_spec(e, deltas[0]);
    if t.finishes(deltas[0]) {
        assert(e1.visibility == Visibility::Visible && e1.flashing is None);
        lemma_flash_idempotent_after_expiry(e1, deltas.drop_first());
    } else {
        assert(deltas.drop_first().len() > 0) by {
            if deltas.len() == 1 {
                assert(total_millis(deltas.drop_first()) == 0);
                assert(t.elapsed_millis + deltas[0] >= t.duration_millis);
            }
        }
        lemma_flash_visible_at_expiry(e1, t.after_tick(deltas[0]), deltas.drop_first());
    }
}

/// The flash effect: once per rendering tick, for every entity carrying a
/// flash clock, force it hidden, advance the clock, and on expiry make it
/// visible and remove the clock; entities without a clock are untouched.
pub fn flash_sprites(world: &mut World, delta_millis: u64)
    requires
        old(world).wf(),
    ensures
        final(world).wf(),
        final(world).events == old(world).events,
        final(world).sprites@.len() == old(world).sprites@.len(),
        forall|i: int| 0 <= i < old(world).sprites@.len() ==> final(world).sprites@[i]
            == flashed_entity_spec(old(world).sprites@[i], delta_millis),
{
    let n = world.sprites.len();
    let mut i: usize = 0;
    while i < n
        invariant
            i <= n,
            n == world.sprites@.len(),
            world.sprites@.len() == old(world).sprites@.len(),
            world.events == old(world).events,
            forall|k: int| 0 <= k < world.sprites@.len() ==> #[trigger] world.sprites@[k].wf(),
            forall|k: int| 0 <= k < i ==> world.sprites@[k] == flashed_entity_spec(
                old(world).sprites@[k],
                delta_millis,
            ),
            forall|k: int| i <= k < world.sprites@.len() ==> world.sprites@[k]
                == old(world).sprites@[k],
        decreases n - i,
    {
        flash_entity(&mut world.sprites[i], delta_millis);
        i = i + 1;
    }
}

} // verus!
