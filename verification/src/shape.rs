//! The indicator's shape: a rounded-rectangle ring drawn around the node's
//! body, computed from the current size and fill uniforms.
//!
//! The rendered primitive is the set-difference of two concentric rounded
//! rectangles: the node's body grown by the outer ring width, minus the same
//! body grown by the inner ring width. Rasterising that primitive belongs to
//! the host's rendering scene; this module computes its parameters and shows
//! that they always describe a proper ring.

use vstd::prelude::*;

use crate::color::Color;

verus! {

/// How far the ring's outer boundary extends beyond the node's body.
pub const INDICATOR_WIDTH_OUTER: u8 = 15;

/// How far the ring's inner boundary extends beyond the node's body.
pub const INDICATOR_WIDTH_INNER: u8 = 10;

/// The padding between a node's bounding box and its body. Must match the
/// host node's own shape so the ring is concentric with the node.
pub const NODE_PADDING: u8 = 4;

/// The corner radius of a node's body. Must match the host node's own shape
/// so the ring follows the node's corners.
pub const NODE_RADIUS: u8 = 14;

/// The uniforms of one shape instance: the extent it is evaluated over and
/// the color it is filled with. Both may change at any time; the primitive
/// is re-evaluated whenever one of them does.
#[derive(Debug, Copy, Clone, PartialEq, Eq, Structural)]
pub struct ShapeParams {
    /// Extent uniform, horizontal, in pixels.
    pub width: u32,
    /// Extent uniform, vertical, in pixels.
    pub height: u32,
    /// Fill color uniform.
    pub fill: Color,
}

impl ShapeParams {
    /// A freshly allocated shape instance: zero extent, transparent fill.
    pub fn new() -> (p: ShapeParams)
        ensures
            p.width == 0,
            p.height == 0,
            p.fill == Color::spec_transparent(),
    {
        ShapeParams { width: 0, height: 0, fill: Color::transparent() }
    }
}

/// The parameters of the ring primitive: two concentric rounded rectangles
/// sharing one center and one corner radius, and the fill of their
/// difference. Dimensions are signed: a degenerate extent smaller than twice
/// the padding leaves the base rectangle with a negative formal dimension,
/// exactly as the rendering primitive receives it.
#[derive(Debug, Copy, Clone, PartialEq, Eq, Structural)]
pub struct RingParams {
    /// Width of the outer rounded rectangle.
    pub outer_width: i64,
    /// Height of the outer rounded rectangle.
    pub outer_height: i64,
    /// Width of the inner rounded rectangle.
    pub inner_width: i64,
    /// Height of the inner rounded rectangle.
    pub inner_height: i64,
    /// Corner radius shared by both rectangles.
    pub corner_radius: i64,
    /// Fill color of the difference (outer minus inner).
    pub fill: Color,
}

impl RingParams {
    /// The ring is proper: the outer rectangle strictly contains the inner
    /// one. Both share the center and the corner radius, so strict
    /// containment is strict inequality of the dimensions on each axis.
    pub open spec fn is_proper_ring(self) -> bool {
        &&& self.outer_width > self.inner_width
        &&& self.outer_height > self.inner_height
    }
}

/// The ring the given uniforms describe, as seen by specifications: each
/// axis of the node's body is the extent less the padding on both sides,
/// and each boundary grows the body by its ring width on both sides.
pub open spec fn spec_ring(params: ShapeParams) -> RingParams {
    RingParams {
        outer_width: (params.width - 2 * NODE_PADDING + 2 * INDICATOR_WIDTH_OUTER) as i64,
        outer_height: (params.height - 2 * NODE_PADDING + 2 * INDICATOR_WIDTH_OUTER) as i64,
        inner_width: (params.width - 2 * NODE_PADDING + 2 * INDICATOR_WIDTH_INNER) as i64,
        inner_height: (params.height - 2 * NODE_PADDING + 2 * INDICATOR_WIDTH_INNER) as i64,
        corner_radius: NODE_RADIUS as i64,
        fill: params.fill,
    }
}

/// Computes the ring primitive the given uniforms describe.
///
/// For every extent, degenerate ones included, the result is a proper ring:
/// the outer boundary strictly contains the inner one, by the fixed margin
/// of the two ring widths. The primitive is therefore never a filled
/// rectangle.
pub fn ring_params(params: &ShapeParams) -> (ring: RingParams)
    ensures
        ring == spec_ring(*params),
        ring.is_proper_ring(),
        ring.outer_width - ring.inner_width == 2 * (INDICATOR_WIDTH_OUTER - INDICATOR_WIDTH_INNER),
        ring.outer_height - ring.inner_height == 2 * (INDICATOR_WIDTH_OUTER
            - INDICATOR_WIDTH_INNER),
{
    let base_width: i64 = params.width as i64 - 2 * NODE_PADDING as i64;
    let base_height: i64 = params.height as i64 - 2 * NODE_PADDING as i64;
    RingParams {
        outer_width: base_width + 2 * INDICATOR_WIDTH_OUTER as i64,
        outer_height: base_height + 2 * INDICATOR_WIDTH_OUTER as i64,
        inner_width: base_width + 2 * INDICATOR_WIDTH_INNER as i64,
        inner_height: base_height + 2 * INDICATOR_WIDTH_INNER as i64,
        corner_radius: NODE_RADIUS as i64,
        fill: params.fill,
    }
}

} // verus!
