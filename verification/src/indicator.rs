//! The status indicator: the scene-node model composed behind the event
//! network.
//!
//! Input events arrive through `set_status`, `set_size` and `set_visibility`;
//! the output signal is read through `status`. The host's animation scheduler
//! drives color transitions by calling `tick` once per frame. Every method is
//! proved to follow the pure transition system of [`crate::state`], so the
//! laws proved there hold of a running indicator.

use vstd::prelude::*;

use crate::anim::ColorAnimation;
use crate::color::Color;
use crate::model::StatusIndicatorModel;
use crate::shape::RingParams;
use crate::shape::ShapeParams;
use crate::shape::ring_params;
use crate::shape::spec_ring;
use crate::state::IndicatorState;
use crate::state::apply_set_size;
use crate::state::apply_set_status;
use crate::state::apply_set_visibility;
use crate::state::apply_tick;
use crate::state::initial_state;
use crate::status::Status;
use crate::status::Theme;
use crate::status::spec_highlight_color;

verus! {

/// A visual indicator of the version-control status of one node: a ring
/// around the node's body whose color animates toward the color of the
/// current status, and which can be shown or hidden without losing state.
#[derive(Debug, Clone)]
pub struct StatusIndicator {
    theme: Theme,
    status: Status,
    anim: ColorAnimation,
    model: StatusIndicatorModel,
}

impl View for StatusIndicator {
    type V = IndicatorState;

    /// The observable state of the indicator.
    closed spec fn view(&self) -> IndicatorState {
        IndicatorState {
            theme: self.theme,
            status: self.status,
            shown: self.model.is_shown(),
            anim: self.anim,
            width: self.model.params().width,
            height: self.model.params().height,
            fill: self.model.params().fill,
        }
    }
}

impl StatusIndicator {
    /// The indicator owns a sound scene-node model.
    pub closed spec fn wf(self) -> bool {
        self.model.wf()
    }

    /// Constructs an indicator that resolves its colors against the given
    /// theme.
    ///
    /// The scene-node model starts with the shape attached; construction
    /// then raises the two synthetic events `set_status(Unchanged)` and
    /// `set_visibility(false)`, so a fresh indicator is deterministically
    /// hidden, reports `Unchanged`, and rests at the transparent color with
    /// a zero extent.
    pub fn new(theme: Theme) -> (indicator: StatusIndicator)
        ensures
            indicator.wf(),
            indicator@ == initial_state(theme),
            indicator@.status == Status::Unchanged,
            !indicator@.shown,
    {
        let model = StatusIndicatorModel::new();
        let anim = ColorAnimation::new(Color::transparent());
        let mut indicator = StatusIndicator { theme, status: Status::default(), anim, model };
        indicator.set_status(Status::Unchanged);
        indicator.set_visibility(false);
        indicator
    }

    /// Input: requests that the displayed status change to `status`.
    ///
    /// The output signal mirrors the input within the same propagation
    /// step, and the color animation is retargeted at the theme's color
    /// for `status` while its current value keeps transitioning from
    /// wherever it was. The fill uniform itself only follows on later
    /// ticks.
    pub fn set_status(&mut self, status: Status)
        requires
            old(self).wf(),
        ensures
            final(self).wf(),
            final(self)@ == apply_set_status(old(self)@, status),
            final(self)@.status == status,
            final(self)@.anim.target == spec_highlight_color(status, old(self)@.theme),
    {
        self.status = status;
        let target = status.highlight_color(&self.theme);
        self.anim.set_target(target);
    }

    /// Input: requests that the indicator's extent match the given size.
    ///
    /// The extent uniform takes the new size immediately and synchronously;
    /// sizes are never animated, so no intermediate extent is observable.
    pub fn set_size(&mut self, width: u32, height: u32)
        requires
            old(self).wf(),
        ensures
            final(self).wf(),
            final(self)@ == apply_set_size(old(self)@, width, height),
            final(self)@.width == width,
            final(self)@.height == height,
    {
        self.model.set_size(width, height);
    }

    /// Input: shows (`true`) or hides (`false`) the indicator by attaching
    /// or detaching its shape. Status, animation progress and uniforms are
    /// untouched either way, so the request is idempotent.
    pub fn set_visibility(&mut self, visible: bool)
        requires
            old(self).wf(),
        ensures
            final(self).wf(),
            final(self)@ == apply_set_visibility(old(self)@, visible),
            final(self)@.shown == visible,
    {
        if visible {
            self.model.show();
        } else {
            self.model.detach();
        }
    }

    /// One step of the host's animation scheduler: the animated color
    /// advances toward its target and the shape's fill uniform is set to
    /// the new current value. A tick of a converged animation changes
    /// nothing but rewrites the fill with the value it already has.
    pub fn tick(&mut self)
        requires
            old(self).wf(),
        ensures
            final(self).wf(),
            final(self)@ == apply_tick(old(self)@),
    {
        self.anim.step();
        let fill = self.anim.current;
        self.model.set_fill(fill);
    }

    /// Output: the currently active status.
    pub fn status(&self) -> (status: Status)
        ensures
            status == self@.status,
    {
        self.status
    }

    /// Whether the indicator is currently shown.
    pub fn is_shown(&self) -> (shown: bool)
        requires
            self.wf(),
        ensures
            shown == self@.shown,
    {
        self.model.shown()
    }

    /// The current extent uniform.
    pub fn size(&self) -> (size: (u32, u32))
        ensures
            size.0 == self@.width,
            size.1 == self@.height,
    {
        let params = self.model.uniforms();
        (params.width, params.height)
    }

    /// The current fill color uniform.
    pub fn fill_color(&self) -> (fill: Color)
        ensures
            fill == self@.fill,
    {
        self.model.uniforms().fill
    }

    /// The animated color: its current value and its target.
    pub fn animation(&self) -> (anim: ColorAnimation)
        ensures
            anim == self@.anim,
    {
        self.anim
    }

    /// The theme the indicator was constructed with.
    pub fn theme(&self) -> (theme: Theme)
        ensures
            theme == self@.theme,
    {
        self.theme
    }

    /// The ring primitive the current uniforms describe.
    pub fn geometry(&self) -> (ring: RingParams)
        ensures
            ring == spec_ring(
                ShapeParams { width: self@.width, height: self@.height, fill: self@.fill },
            ),
            ring.is_proper_ring(),
    {
        let params = self.model.uniforms();
        ring_params(&params)
    }

    /// The node a host attaches to place the indicator in its own scene.
    pub fn display_object(&self) -> (node: usize)
        ensures
            node == self.root_id(),
    {
        self.model.display_object()
    }

    /// The arena index of the indicator's attachment root.
    pub closed spec fn root_id(self) -> usize {
        self.model.root_id()
    }
}

} // verus!
