//! Weapon cooldown gate.
//!
//! Each frame the player's fire timer advances by the frame's duration. While
//! the fire trigger is held (or was pressed this frame) and at least the fire
//! delay has passed since the last shot, a shot is fired and the timer starts
//! over. Durations are counted in nanoseconds.
use vstd::prelude::*;

verus! {

/// The largest duration a fire timer can hold.
pub const MAX_ELAPSED_NANOS: u64 = 0xffff_ffff_ffff_ffff;

/// The cooldown state of one player's weapon.
#[derive(Clone, Copy, Debug, PartialEq, Eq, Structural)]
pub struct WeaponFireTimer {
    /// Time passed since the last shot (or since the timer was made).
    pub elapsed_nanos: u64,
    /// The least time that must pass between two shots.
    pub fire_delay_nanos: u64,
}

/// The elapsed time after a frame of `delta` nanoseconds: it grows by `delta`
/// and stays at the largest value once it reaches it.
pub open spec fn ticked(elapsed: u64, delta: u64) -> u64 {
    if elapsed + delta > MAX_ELAPSED_NANOS {
        MAX_ELAPSED_NANOS
    } else {
        (elapsed + delta) as u64
    }
}

/// Whether the fire trigger asks for a shot this frame.
pub open spec fn trigger_active(held: bool, just_pressed: bool) -> bool {
    held || just_pressed
}

/// Whether a frame of `delta` nanoseconds with the given trigger state fires a
/// shot from a weapon whose timer is `t`.
pub open spec fn fires(t: WeaponFireTimer, delta: u64, held: bool, just_pressed: bool) -> bool {
    trigger_active(held, just_pressed) && ticked(t.elapsed_nanos, delta) >= t.fire_delay_nanos
}

/// The timer after such a frame: started over when a shot was fired, else
/// advanced by `delta`.
pub open spec fn after_frame(
    t: WeaponFireTimer,
    delta: u64,
    held: bool,
    just_pressed: bool,
) -> WeaponFireTimer {
    WeaponFireTimer {
        elapsed_nanos: if fires(t, delta, held, just_pressed) {
            0
        } else {
            ticked(t.elapsed_nanos, delta)
        },
        fire_delay_nanos: t.fire_delay_nanos,
    }
}

/// The cooldown holds: after a frame that fires, the next frame fires only if
/// it lasts at least the fire delay by itself.
pub proof fn lemma_cooldown_after_shot(
    t: WeaponFireTimer,
    delta1: u64,
    held1: bool,
    just_pressed1: bool,
    delta2: u64,
    held2: bool,
    just_pressed2: bool,
)
    requires
        fires(t, delta1, held1, just_pressed1),
    ensures
        fires(after_frame(t, delta1, held1, just_pressed1), delta2, held2, just_pressed2) ==> delta2
            >= t.fire_delay_nanos,
{
}

impl WeaponFireTimer {
    /// A timer that has just started, for a weapon with the given fire delay.
    pub fn new(fire_delay_nanos: u64) -> (r: Self)
        ensures
            r.elapsed_nanos == 0,
            r.fire_delay_nanos == fire_delay_nanos,
    {
        WeaponFireTimer { elapsed_nanos: 0, fire_delay_nanos }
    }

    /// Whether enough time has passed since the last shot to fire again.
    pub open spec fn spec_is_ready(self) -> bool {
        self.elapsed_nanos >= self.fire_delay_nanos
    }

    /// Whether enough time has passed since the last shot to fire again.
    pub fn is_ready(&self) -> (r: bool)
        ensures
            r == self.spec_is_ready(),
    {
        self.elapsed_nanos >= self.fire_delay_nanos
    }

    /// Advances the timer by one frame of `delta_nanos`.
    pub fn tick(&mut self, delta_nanos: u64)
        ensures
            final(self).elapsed_nanos == ticked(old(self).elapsed_nanos, delta_nanos),
            final(self).fire_delay_nanos == old(self).fire_delay_nanos,
    {
        self.elapsed_nanos = self.elapsed_nanos.saturating_add(delta_nanos);
    }

    /// Starts the timer over, as after a shot.
    pub fn reset(&mut self)
        ensures
            final(self).elapsed_nanos == 0,
            final(self).fire_delay_nanos == old(self).fire_delay_nanos,
    {
        self.elapsed_nanos = 0;
    }
}

/// One frame of the fire-control gate: advances `timer` by `delta_nanos`, then
/// fires when the trigger is active and the timer has reached its fire delay.
/// Returns whether a shot is fired; a shot starts the timer over.
pub fn try_fire(
    timer: &mut WeaponFireTimer,
    delta_nanos: u64,
    trigger_held: bool,
    trigger_just_pressed: bool,
) -> (fired: bool)
    ensures
        fired == fires(*old(timer), delta_nanos, trigger_held, trigger_just_pressed),
        *final(timer) == after_frame(*old(timer), delta_nanos, trigger_held, trigger_just_pressed),
{
    timer.tick(delta_nanos);
    if trigger_held || trigger_just_pressed {
        if timer.is_ready() {
            timer.reset();
            return true;
        }
    }
    false
}

} // verus!
