//! The indicator's scene-side data: one shape instance and one attachment
//! root, with show and hide as reparenting.

use vstd::prelude::*;

use crate::color::Color;
use crate::scene::SceneGraph;
use crate::shape::ShapeParams;

verus! {

/// The scene-side data of one status indicator: an arena holding exactly
/// its attachment root and its shape node, plus the shape's uniforms.
///
/// The shape hangs under the root while the indicator is shown; hiding
/// detaches it without destroying it, so its uniforms survive a hide/show
/// round trip untouched.
#[derive(Debug, Clone)]
pub struct StatusIndicatorModel {
    scene: SceneGraph,
    root: usize,
    shape: usize,
    params: ShapeParams,
}

impl StatusIndicatorModel {
    /// The arena index of the attachment root.
    pub closed spec fn root_id(self) -> usize {
        self.root
    }

    /// The arena index of the shape node.
    pub closed spec fn shape_id(self) -> usize {
        self.shape
    }

    /// The shape's uniforms.
    pub closed spec fn params(self) -> ShapeParams {
        self.params
    }

    /// The model owns a sound arena with its two distinct nodes in it.
    pub closed spec fn wf(self) -> bool {
        &&& self.scene.wf()
        &&& self.root < self.scene.spec_len()
        &&& self.shape < self.scene.spec_len()
        &&& self.root != self.shape
    }

    /// Whether the shape is attached under the root, i.e. rendered.
    pub closed spec fn is_shown(self) -> bool {
        self.scene.is_child_of(self.shape as int, self.root as int)
    }

    /// Allocates the root and the shape and hangs the shape under the root:
    /// a fresh model is attached at the scene-graph level, with zero extent
    /// and a transparent fill.
    pub fn new() -> (model: StatusIndicatorModel)
        ensures
            model.wf(),
            model.is_shown(),
            model.params() == (ShapeParams {
                width: 0,
                height: 0,
                fill: Color::spec_transparent(),
            }),
    {
        let mut scene = SceneGraph::new();
        let root = scene.new_node();
        let shape = scene.new_node();
        scene.add_child(root, shape);
        StatusIndicatorModel { scene, root, shape, params: ShapeParams::new() }
    }

    /// Hides the shape by detaching it from its parent: it stops being
    /// rendered, while all of its uniforms are preserved.
    pub fn detach(&mut self)
        requires
            old(self).wf(),
        ensures
            final(self).wf(),
            !final(self).is_shown(),
            final(self).params() == old(self).params(),
            final(self).root_id() == old(self).root_id(),
            final(self).shape_id() == old(self).shape_id(),
    {
        self.scene.unset_parent(self.shape);
    }

    /// Reattaches the shape under the root: rendering resumes with the
    /// uniforms it had when it was hidden.
    pub fn show(&mut self)
        requires
            old(self).wf(),
        ensures
            final(self).wf(),
            final(self).is_shown(),
            final(self).params() == old(self).params(),
            final(self).root_id() == old(self).root_id(),
            final(self).shape_id() == old(self).shape_id(),
    {
        self.scene.add_child(self.root, self.shape);
    }

    /// Sets the shape's extent uniform.
    pub fn set_size(&mut self, width: u32, height: u32)
        requires
            old(self).wf(),
        ensures
            final(self).wf(),
            final(self).is_shown() == old(self).is_shown(),
            final(self).params() == (ShapeParams {
                width,
                height,
                fill: old(self).params().fill,
            }),
            final(self).root_id() == old(self).root_id(),
            final(self).shape_id() == old(self).shape_id(),
    {
        self.params.width = width;
        self.params.height = height;
    }

    /// Sets the shape's fill color uniform.
    pub fn set_fill(&mut self, fill: Color)
        requires
            old(self).wf(),
        ensures
            final(self).wf(),
            final(self).is_shown() == old(self).is_shown(),
            final(self).params() == (ShapeParams {
                width: old(self).params().width,
                height: old(self).params().height,
                fill,
            }),
            final(self).root_id() == old(self).root_id(),
            final(self).shape_id() == old(self).shape_id(),
    {
        self.params.fill = fill;
    }

    /// Reads whether the shape is attached under the root.
    pub fn shown(&self) -> (b: bool)
        requires
            self.wf(),
        ensures
            b == self.is_shown(),
    {
        match self.scene.parent(self.shape) {
            Some(p) => p == self.root,
            None => false,
        }
    }

    /// Reads the shape's uniforms.
    pub fn uniforms(&self) -> (p: ShapeParams)
        ensures
            p == self.params(),
    {
        self.params
    }

    /// The node a host attaches to show the indicator in its own scene:
    /// the attachment root.
    pub fn display_object(&self) -> (node: usize)
        ensures
            node == self.root_id(),
    {
        self.root
    }
}

} // verus!
