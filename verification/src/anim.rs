//! The animated color value: a bridge from discrete status-change events to
//! a continuous visual transition.
//!
//! The animation owns a *current* value and a *target* value. A status event
//! retargets it synchronously; the current value then moves toward the target
//! by a bounded amount on each host time-tick until the two coincide.

use vstd::prelude::*;

use crate::color::Color;

verus! {

/// The largest change of one color channel in one animation tick.
pub const COLOR_STEP: u8 = 8;

/// One tick of one channel: the current value moves toward the target by at
/// most [`COLOR_STEP`], and lands exactly on it once within reach.
pub open spec fn step_channel(c: u8, t: u8) -> u8 {
    if c < t {
        if t - c <= COLOR_STEP {
            t
        } else {
            (c + COLOR_STEP) as u8
        }
    } else if t < c {
        if c - t <= COLOR_STEP {
            t
        } else {
            (c - COLOR_STEP) as u8
        }
    } else {
        c
    }
}

/// One tick of a whole color, channel by channel.
pub open spec fn step_color(c: Color, t: Color) -> Color {
    Color {
        r: step_channel(c.r, t.r),
        g: step_channel(c.g, t.g),
        b: step_channel(c.b, t.b),
        a: step_channel(c.a, t.a),
    }
}

/// The distance of one channel from its target.
pub open spec fn channel_dist(c: u8, t: u8) -> int {
    if c < t {
        t - c
    } else {
        c - t
    }
}

/// A time-varying color: a current value converging toward a target value.
#[derive(Debug, Copy, Clone, PartialEq, Eq, Structural)]
pub struct ColorAnimation {
    /// The value the animation is at now; what the fill uniform follows.
    pub current: Color,
    /// The value the animation converges to.
    pub target: Color,
}

impl ColorAnimation {
    /// Whether the transition has finished: the current value has reached
    /// the target and further ticks change nothing.
    pub open spec fn converged(self) -> bool {
        self.current == self.target
    }

    /// A fresh animation rests at the given value.
    pub fn new(initial: Color) -> (anim: ColorAnimation)
        ensures
            anim.current == initial,
            anim.target == initial,
            anim.converged(),
    {
        ColorAnimation { current: initial, target: initial }
    }

    /// Retargets the transition. The current value is left where it is, so
    /// the animation keeps moving from wherever it had got to.
    pub fn set_target(&mut self, target: Color)
        ensures
            final(self).target == target,
            final(self).current == old(self).current,
    {
        self.target = target;
    }

    /// Advances the transition by one host time-tick.
    pub fn step(&mut self)
        ensures
            final(self).target == old(self).target,
            final(self).current == step_color(old(self).current, old(self).target),
    {
        self.current = Color {
            r: step_channel_exec(self.current.r, self.target.r),
            g: step_channel_exec(self.current.g, self.target.g),
            b: step_channel_exec(self.current.b, self.target.b),
            a: step_channel_exec(self.current.a, self.target.a),
        };
    }
}

/// One tick of one channel; see [`step_channel`].
fn step_channel_exec(c: u8, t: u8) -> (r: u8)
    ensures
        r == step_channel(c, t),
{
    if c < t {
        if t - c <= COLOR_STEP {
            t
        } else {
            c + COLOR_STEP
        }
    } else if t < c {
        if c - t <= COLOR_STEP {
            t
        } else {
            c - COLOR_STEP
        }
    } else {
        c
    }
}

/// One tick of a whole animation: the current value steps, the target
/// stays.
pub open spec fn step_anim(a: ColorAnimation) -> ColorAnimation {
    ColorAnimation { current: step_color(a.current, a.target), target: a.target }
}

/// The animation after `n` ticks.
pub open spec fn step_anim_n(a: ColorAnimation, n: nat) -> ColorAnimation
    decreases n,
{
    if n == 0 {
        a
    } else {
        step_anim(step_anim_n(a, (n - 1) as nat))
    }
}

/// The distance of one channel from its target after `n` ticks, given its
/// distance `d` before: each tick takes [`COLOR_STEP`] off it until it
/// bottoms out at zero.
pub open spec fn dist_after(d: int, n: nat) -> int {
    if d <= COLOR_STEP * n {
        0
    } else {
        d - COLOR_STEP * n
    }
}

/// A converged animation is a fixed point: a tick leaves it exactly where
/// it stands.
pub proof fn lemma_step_converged(anim: ColorAnimation)
    requires
        anim.converged(),
    ensures
        step_color(anim.current, anim.target) == anim.current,
{
}

/// Each tick brings every channel closer to its target by exactly
/// [`COLOR_STEP`], or lands it on the target once within reach; the distance
/// to the target never grows and the current value never overshoots.
pub proof fn lemma_step_progress(c: u8, t: u8)
    ensures
        channel_dist(step_channel(c, t), t) == if channel_dist(c, t) <= COLOR_STEP {
            0int
        } else {
            channel_dist(c, t) - COLOR_STEP
        },
{
}

/// After `n` ticks the distance of every channel from its target is exactly
/// the starting distance less [`COLOR_STEP`] per tick, bottoming out at
/// zero; the target itself never moves. The transition is monotone: it
/// approaches the target tick by tick and never overshoots or oscillates.
pub proof fn lemma_dist_after_ticks(a: ColorAnimation, n: nat)
    ensures
        step_anim_n(a, n).target == a.target,
        channel_dist(step_anim_n(a, n).current.r, a.target.r) == dist_after(
            channel_dist(a.current.r, a.target.r),
            n,
        ),
        channel_dist(step_anim_n(a, n).current.g, a.target.g) == dist_after(
            channel_dist(a.current.g, a.target.g),
            n,
        ),
        channel_dist(step_anim_n(a, n).current.b, a.target.b) == dist_after(
            channel_dist(a.current.b, a.target.b),
            n,
        ),
        channel_dist(step_anim_n(a, n).current.a, a.target.a) == dist_after(
            channel_dist(a.current.a, a.target.a),
            n,
        ),
    decreases n,
{
    if n > 0 {
        lemma_dist_after_ticks(a, (n - 1) as nat);
        let b = step_anim_n(a, (n - 1) as nat);
        lemma_step_progress(b.current.r, a.target.r);
        lemma_step_progress(b.current.g, a.target.g);
        lemma_step_progress(b.current.b, a.target.b);
        lemma_step_progress(b.current.a, a.target.a);
    }
}

/// Ticks after which any transition has certainly converged: a channel is
/// at most 255 away from its target and each tick takes [`COLOR_STEP`] off
/// that distance.
pub const CONVERGENCE_TICKS: u32 = 32;

/// Every transition converges: after [`CONVERGENCE_TICKS`] ticks the
/// current value sits exactly on the target, whatever the two were.
pub proof fn lemma_anim_converges(a: ColorAnimation, n: nat)
    requires
        n >= CONVERGENCE_TICKS,
    ensures
        step_anim_n(a, n).converged(),
        step_anim_n(a, n).current == a.target,
{
    lemma_dist_after_ticks(a, n);
    let c = step_anim_n(a, n).current;
    assert(channel_dist(c.r, a.target.r) == 0);
    assert(channel_dist(c.g, a.target.g) == 0);
    assert(channel_dist(c.b, a.target.b) == 0);
    assert(channel_dist(c.a, a.target.a) == 0);
}

} // verus!
