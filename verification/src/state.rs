//! The indicator's event network as a pure transition system.
//!
//! Every observable of a [`crate::indicator::StatusIndicator`] is collected
//! in an [`IndicatorState`], and every event the indicator reacts to — the
//! three inputs and the animation tick — is a pure function from state to
//! state. The executable indicator is proved to follow these functions step
//! by step, so the laws proved here hold of the running component.

use vstd::prelude::*;

use crate::anim::CONVERGENCE_TICKS;
use crate::anim::ColorAnimation;
use crate::anim::lemma_anim_converges;
use crate::anim::step_anim_n;
use crate::anim::step_color;
use crate::color::Color;
use crate::status::Status;
use crate::status::Theme;
use crate::status::spec_highlight_color;
use crate::status::theme_distinct;

verus! {

/// Everything one indicator instance owns that an observer can see.
pub struct IndicatorState {
    /// The theme the indicator resolves status colors against; fixed at
    /// construction.
    pub theme: Theme,
    /// The currently active status, as the output signal reports it.
    pub status: Status,
    /// Whether the shape is attached under the root, i.e. rendered.
    pub shown: bool,
    /// The animated color bridging status changes to the fill uniform.
    pub anim: ColorAnimation,
    /// The shape's extent uniform, horizontal.
    pub width: u32,
    /// The shape's extent uniform, vertical.
    pub height: u32,
    /// The shape's fill color uniform.
    pub fill: Color,
}

/// The state a freshly constructed indicator settles in: the constructor
/// raises the two synthetic events `set_status(Unchanged)` and
/// `set_visibility(false)` on a model whose shape starts attached with
/// zeroed uniforms and a resting animation.
pub open spec fn initial_state(theme: Theme) -> IndicatorState {
    apply_set_visibility(
        apply_set_status(
            IndicatorState {
                theme,
                status: Status::Unchanged,
                shown: true,
                anim: ColorAnimation {
                    current: Color::spec_transparent(),
                    target: Color::spec_transparent(),
                },
                width: 0,
                height: 0,
                fill: Color::spec_transparent(),
            },
            Status::Unchanged,
        ),
        false,
    )
}

/// The effect of `set_status(s)`: the output status becomes `s` and the
/// animation is retargeted at the color the theme assigns to `s`. The
/// animation's current value, the uniforms and the visibility are left
/// alone; the fill only follows on later ticks.
pub open spec fn apply_set_status(st: IndicatorState, s: Status) -> IndicatorState {
    IndicatorState {
        status: s,
        anim: ColorAnimation {
            current: st.anim.current,
            target: spec_highlight_color(s, st.theme),
        },
        ..st
    }
}

/// The effect of `set_size(w, h)`: the extent uniform takes the new size
/// within the same propagation step, with no interpolation and no other
/// change.
pub open spec fn apply_set_size(st: IndicatorState, width: u32, height: u32) -> IndicatorState {
    IndicatorState { width, height, ..st }
}

/// The effect of `set_visibility(v)`: the shape is attached (shown) or
/// detached (hidden); status, animation and uniforms are untouched.
pub open spec fn apply_set_visibility(st: IndicatorState, visible: bool) -> IndicatorState {
    IndicatorState { shown: visible, ..st }
}

/// The effect of one host time-tick: the animation advances one step and
/// the fill uniform is set to the new current value.
pub open spec fn apply_tick(st: IndicatorState) -> IndicatorState {
    IndicatorState {
        anim: ColorAnimation {
            current: step_color(st.anim.current, st.anim.target),
            target: st.anim.target,
        },
        fill: step_color(st.anim.current, st.anim.target),
        ..st
    }
}

/// The state after `n` host time-ticks.
pub open spec fn apply_ticks(st: IndicatorState, n: nat) -> IndicatorState
    decreases n,
{
    if n == 0 {
        st
    } else {
        apply_tick(apply_ticks(st, (n - 1) as nat))
    }
}

/// The fill uniform carries the animation's current value.
pub open spec fn fill_follows_animation(st: IndicatorState) -> bool {
    st.fill == st.anim.current
}

/// The fill uniform follows the animation in every reachable state:
/// construction starts the two equal, and each of the four events keeps
/// them equal.
pub proof fn lemma_fill_follows_animation(
    theme: Theme,
    st: IndicatorState,
    s: Status,
    width: u32,
    height: u32,
    visible: bool,
)
    ensures
        fill_follows_animation(initial_state(theme)),
        fill_follows_animation(st) ==> fill_follows_animation(apply_set_status(st, s)),
        fill_follows_animation(st) ==> fill_follows_animation(
            apply_set_size(st, width, height),
        ),
        fill_follows_animation(st) ==> fill_follows_animation(
            apply_set_visibility(st, visible),
        ),
        fill_follows_animation(apply_tick(st)),
{
}

/// Once the animation has converged, a tick changes nothing at all: the
/// indicator sits still until the next status event retargets it.
pub proof fn lemma_tick_noop_when_converged(st: IndicatorState)
    requires
        st.anim.converged(),
        fill_follows_animation(st),
    ensures
        apply_tick(st) == st,
{
    crate::anim::lemma_step_converged(st.anim);
}

/// Ticks only advance the animation and the fill: the theme, the status,
/// the visibility, the extent and the animation's target survive any
/// number of them.
pub proof fn lemma_ticks_preserve_discrete_state(st: IndicatorState, n: nat)
    ensures
        apply_ticks(st, n).theme == st.theme,
        apply_ticks(st, n).status == st.status,
        apply_ticks(st, n).shown == st.shown,
        apply_ticks(st, n).width == st.width,
        apply_ticks(st, n).height == st.height,
        apply_ticks(st, n).anim.target == st.anim.target,
    decreases n,
{
    if n > 0 {
        lemma_ticks_preserve_discrete_state(st, (n - 1) as nat);
    }
}

/// The animation the ticks drive is exactly the channel-wise stepping of
/// [`crate::anim`]: ticks touch the indicator's animation as `step_anim_n`
/// does and nothing else does.
pub proof fn lemma_ticks_step_animation(st: IndicatorState, n: nat)
    ensures
        apply_ticks(st, n).anim == step_anim_n(st.anim, n),
    decreases n,
{
    if n > 0 {
        lemma_ticks_step_animation(st, (n - 1) as nat);
    }
}

/// Every color transition settles: after [`CONVERGENCE_TICKS`] ticks the
/// animation has converged and the current color sits exactly on the
/// target it was given, whatever state the transition started from.
pub proof fn lemma_ticks_converge(st: IndicatorState, n: nat)
    requires
        n >= CONVERGENCE_TICKS,
    ensures
        apply_ticks(st, n).anim.converged(),
        apply_ticks(st, n).anim.current == st.anim.target,
{
    lemma_ticks_step_animation(st, n);
    lemma_anim_converges(st.anim, n);
}

/// Visibility events are idempotent: requesting the same visibility twice
/// in a row leaves the indicator in exactly the state one request leaves
/// it in; likewise for hiding.
pub proof fn lemma_set_visibility_idempotent(st: IndicatorState, visible: bool)
    ensures
        apply_set_visibility(apply_set_visibility(st, visible), visible) == apply_set_visibility(
            st,
            visible,
        ),
{
}

/// Retargeting is order-preserving: a second status event issued before
/// the first transition completes supersedes it. After `set_status(Added)`
/// followed by `set_status(Edited)`, the animation's target is Edited's
/// color through every later tick, and whenever the animation settles it
/// settles at Edited's color — never at Added's, under a theme that tells
/// the two apart.
pub proof fn lemma_retarget_supersedes(st: IndicatorState, n: nat)
    requires
        theme_distinct(st.theme),
    ensures
        ({
            let retargeted = apply_set_status(apply_set_status(st, Status::Added), Status::Edited);
            let later = apply_ticks(retargeted, n);
            &&& later.anim.target == spec_highlight_color(Status::Edited, st.theme)
            &&& later.anim.converged() ==> later.anim.current == spec_highlight_color(
                Status::Edited,
                st.theme,
            )
            &&& later.anim.converged() ==> later.anim.current != spec_highlight_color(
                Status::Added,
                st.theme,
            )
        }),
{
    let retargeted = apply_set_status(apply_set_status(st, Status::Added), Status::Edited);
    lemma_ticks_preserve_discrete_state(retargeted, n);
    crate::status::lemma_highlight_color_distinct(st.theme, Status::Added, Status::Edited);
}

} // verus!
