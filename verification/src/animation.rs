//! Timeline of the desktop-switch animation.
//!
//! The visual transition is a fixed-duration colour sweep across the screen
//! that masks the underlying desktop switch: the switch itself is deferred to
//! a trigger point partway through the timeline. This module holds the
//! timeline's decisions — the opacity and position envelopes as functions of
//! elapsed time, and the state machine that guarantees the deferred switch
//! action fires exactly once, no earlier than the trigger point and no later
//! than the end of the run. The host owns the clock, the frame pacing and
//! the overlay window; it reads every value it draws with from here.

use vstd::arithmetic::div_mod::lemma_div_is_ordered;
use vstd::arithmetic::div_mod::lemma_div_multiples_vanish;
use vstd::arithmetic::mul::lemma_mul_inequality;
use vstd::prelude::*;

verus! {

/// Sweep direction of the overlay, which also picks the gradient
/// orientation.
#[derive(Clone, Copy, PartialEq, Eq, Structural, Debug)]
pub enum Direction {
    Left,
    Right,
}

/// Total duration of the switch animation, in milliseconds.
pub const ANIMATION_DURATION_MS: u64 = 200;

/// Peak opacity of the overlay, out of 255.
pub const MAX_ALPHA: u8 = 220;

/// Advisory pause between frames, in milliseconds (roughly 60 Hz pacing).
pub const FRAME_DURATION_MS: u64 = 16;

/// The moment within the timeline at which the deferred switch action
/// becomes due: 35% of the total duration.
pub open spec fn spec_switch_point_ms(duration_ms: u64) -> int {
    duration_ms * 35 / 100
}

/// Normalized progress through the animation, in thousandths: elapsed time
/// over total duration, saturating at one.
pub open spec fn spec_progress_permille(elapsed_ms: u64, duration_ms: u64) -> int {
    if elapsed_ms >= duration_ms {
        1000
    } else {
        elapsed_ms as int * 1000 / duration_ms as int
    }
}

/// Exec form of [`spec_progress_permille`].
pub fn progress_permille(elapsed_ms: u64, duration_ms: u64) -> (t: u64)
    requires
        duration_ms > 0,
    ensures
        t == spec_progress_permille(elapsed_ms, duration_ms),
        t <= 1000,
{
    if elapsed_ms >= duration_ms {
        1000
    } else {
        let wide = (elapsed_ms as u128) * 1000 / (duration_ms as u128);
        proof {
            lemma_div_is_ordered(
                elapsed_ms as int * 1000,
                duration_ms as int * 1000,
                duration_ms as int,
            );
            lemma_div_multiples_vanish(1000, duration_ms as int);
        }
        wide as u64
    }
}

/// Positional easing of the sweep: ease-out-cubic over progress in
/// thousandths, again in thousandths.
pub open spec fn spec_ease_out_cubic(t: int) -> int {
    1000 - (1000 - t) * (1000 - t) * (1000 - t) / 1000000
}

/// Exec form of [`spec_ease_out_cubic`].
pub fn ease_out_cubic(t: u64) -> (e: u64)
    requires
        t <= 1000,
    ensures
        e == spec_ease_out_cubic(t as int),
        e <= 1000,
{
    let u = 1000 - t;
    proof {
        assert(u * u <= 1000000 && u * u * u <= 1000000000) by (nonlinear_arith)
            requires
                u <= 1000,
        ;
    }
    let cube = u * u * u;
    proof {
        lemma_div_is_ordered(cube as int, 1000000000, 1000000);
    }
    1000 - cube / 1000000
}

/// Opacity envelope, out of 255: a linear ramp from zero to the peak over
/// the first 35% of progress, then a linear ramp back to zero over the
/// remaining 65%. Progress is in thousandths.
pub open spec fn spec_overlay_alpha(t: int) -> int {
    if t < 350 {
        MAX_ALPHA as int * t / 350
    } else {
        MAX_ALPHA as int * (1000 - t) / 650
    }
}

/// Exec form of [`spec_overlay_alpha`].
pub fn overlay_alpha(t: u64) -> (a: u8)
    requires
        t <= 1000,
    ensures
        a == spec_overlay_alpha(t as int),
        a <= MAX_ALPHA,
{
    if t < 350 {
        let raw = (MAX_ALPHA as u64) * t / 350;
        proof {
            lemma_div_is_ordered(MAX_ALPHA as int * t, MAX_ALPHA as int * 349, 350);
        }
        raw as u8
    } else {
        let raw = (MAX_ALPHA as u64) * (1000 - t) / 650;
        proof {
            lemma_div_is_ordered(MAX_ALPHA as int * (1000 - t), MAX_ALPHA as int * 650, 650);
            lemma_div_multiples_vanish(MAX_ALPHA as int, 650);
        }
        raw as u8
    }
}

/// Horizontal position of the overlay: the sweep runs from one screen width
/// off-screen to the opposite off-screen edge, positioned by the eased
/// progress (in thousandths). `Left` sweeps from the left edge rightwards,
/// `Right` the other way.
pub open spec fn spec_overlay_position(direction: Direction, eased: int, screen_width: int) -> int {
    match direction {
        Direction::Left => -screen_width + 2 * screen_width * eased / 1000,
        Direction::Right => screen_width - 2 * screen_width * eased / 1000,
    }
}

/// Exec form of [`spec_overlay_position`]; the result stays within one
/// screen width of the origin on either side.
pub fn overlay_position(direction: Direction, eased: u64, screen_width: u32) -> (x: i32)
    requires
        eased <= 1000,
        screen_width <= 0x7fff_ffff,
    ensures
        x == spec_overlay_position(direction, eased as int, screen_width as int),
        -(screen_width as int) <= x <= screen_width as int,
{
    let span = 2 * (screen_width as u64);
    proof {
        lemma_mul_inequality(eased as int, 1000, span as int);
        lemma_div_is_ordered(span as int * eased, span as int * 1000, 1000);
        lemma_div_multiples_vanish(span as int, 1000);
        assert(span as int * eased == 2 * screen_width as int * eased as int);
    }
    let travel = span * eased / 1000;
    match direction {
        Direction::Left => (travel as i64 - screen_width as i64) as i32,
        Direction::Right => (screen_width as i64 - travel as i64) as i32,
    }
}

/// Endpoint colours of the horizontal gradient drawn on the overlay, as
/// 16-bit colour-channel intensities: the sweep fades towards its direction
/// of travel.
pub fn gradient_colors(direction: Direction) -> (c: (u16, u16))
    ensures
        direction == Direction::Left ==> c == (0x0000u16, 0xFF00u16),
        direction == Direction::Right ==> c == (0xFF00u16, 0x0000u16),
{
    match direction {
        Direction::Left => (0x0000, 0xFF00),
        Direction::Right => (0xFF00, 0x0000),
    }
}

/// State machine for the deferred switch action of one animation run.
///
/// The host polls it with the elapsed time of each frame and must call
/// [`AnimationTimeline::force_fire`] once when the run ends (or immediately,
/// when the overlay cannot be created and the run degrades to an unanimated
/// switch); it performs the switch action exactly when a call answers
/// `true`. The contracts guarantee that over any such run the action fires
/// exactly once, never before the trigger point during polling, and
/// unconditionally by the time the run is over.
pub struct AnimationTimeline {
    duration_ms: u64,
    fired: bool,
}

impl AnimationTimeline {
    /// Total duration of this run, in milliseconds.
    pub closed spec fn duration(self) -> u64 {
        self.duration_ms
    }

    /// Whether the deferred switch action has already fired.
    pub closed spec fn has_fired(self) -> bool {
        self.fired
    }

    /// Starts a timeline of the given duration with the action not yet
    /// fired.
    pub fn new(duration_ms: u64) -> (t: AnimationTimeline)
        requires
            duration_ms > 0,
        ensures
            t.duration() == duration_ms,
            !t.has_fired(),
    {
        AnimationTimeline { duration_ms, fired: false }
    }

    /// One frame at the given elapsed time: answers `true`, and records the
    /// fire, exactly when the action is due — the trigger point has been
    /// reached and no earlier call has fired it.
    pub fn poll(&mut self, elapsed_ms: u64) -> (fire: bool)
        ensures
            fire == (!old(self).has_fired() && elapsed_ms >= spec_switch_point_ms(
                old(self).duration(),
            )),
            final(self).has_fired() == (old(self).has_fired() || fire),
            final(self).duration() == old(self).duration(),
    {
        let switch_point = ((self.duration_ms as u128) * 35 / 100) as u64;
        proof {
            lemma_div_is_ordered(
                self.duration_ms as int * 35,
                self.duration_ms as int * 100,
                100,
            );
            lemma_div_multiples_vanish(self.duration_ms as int, 100);
        }
        if !self.fired && elapsed_ms >= switch_point {
            self.fired = true;
            true
        } else {
            false
        }
    }

    /// Whether the run is over at the given elapsed time.
    pub fn is_done(&self, elapsed_ms: u64) -> (done: bool)
        ensures
            done == (elapsed_ms >= self.duration()),
    {
        elapsed_ms >= self.duration_ms
    }

    /// End of the run: answers `true`, and records the fire, exactly when no
    /// earlier poll has fired the action. The host calls this once after the
    /// frame loop — or right away when the overlay could not be created —
    /// so the action never goes unfired.
    pub fn force_fire(&mut self) -> (fire: bool)
        ensures
            fire == !old(self).has_fired(),
            final(self).has_fired(),
            final(self).duration() == old(self).duration(),
    {
        let fire = !self.fired;
        self.fired = true;
        fire
    }
}

/// Whether the action has fired after a run of frames. `samples` holds the
/// elapsed time each successive poll observed; `fired` is the state coming
/// in. Mirrors the ensures of [`AnimationTimeline::poll`], frame by frame.
pub open spec fn fired_after_frames(duration_ms: u64, fired: bool, samples: Seq<u64>) -> bool
    decreases samples.len(),
{
    if samples.len() == 0 {
        fired
    } else {
        fired_after_frames(
            duration_ms,
            fired || samples.first() >= spec_switch_point_ms(duration_ms),
            samples.drop_first(),
        )
    }
}

/// How many times a run of frames fires the action.
pub open spec fn fires_in_frames(duration_ms: u64, fired: bool, samples: Seq<u64>) -> int
    decreases samples.len(),
{
    if samples.len() == 0 {
        0
    } else {
        (if !fired && samples.first() >= spec_switch_point_ms(duration_ms) {
            1int
        } else {
            0int
        }) + fires_in_frames(
            duration_ms,
            fired || samples.first() >= spec_switch_point_ms(duration_ms),
            samples.drop_first(),
        )
    }
}

/// Once fired, a run never fires again.
proof fn lemma_no_fire_after_fired(duration_ms: u64, samples: Seq<u64>)
    ensures
        fires_in_frames(duration_ms, true, samples) == 0,
        fired_after_frames(duration_ms, true, samples),
    decreases samples.len(),
{
    if samples.len() > 0 {
        lemma_no_fire_after_fired(duration_ms, samples.drop_first());
    }
}

/// Deferred-call guarantee: for any duration and any pacing of the frame
/// loop — `samples` is whatever elapsed times the host's polls observed,
/// many, few or none — the fires during the loop plus the forced fire at
/// the end of the run add up to exactly one. Together with the ensures of
/// [`AnimationTimeline::poll`] (a poll fires only at or after the trigger
/// point) and of [`AnimationTimeline::force_fire`] (the end of the run fires
/// exactly when no poll did), the switch action is invoked exactly once,
/// and before the run returns control, whether or not the overlay existed.
pub proof fn lemma_deferred_action_exactly_once(duration_ms: u64, samples: Seq<u64>)
    ensures
        fires_in_frames(duration_ms, false, samples) + (if fired_after_frames(
            duration_ms,
            false,
            samples,
        ) {
            0int
        } else {
            1int
        }) == 1,
    decreases samples.len(),
{
    if samples.len() > 0 {
        if samples.first() >= spec_switch_point_ms(duration_ms) {
            lemma_no_fire_after_fired(duration_ms, samples.drop_first());
        } else {
            lemma_deferred_action_exactly_once(duration_ms, samples.drop_first());
        }
    }
}

} // verus!
