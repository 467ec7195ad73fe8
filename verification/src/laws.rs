//! The laws the projection variants obey, stated and proved over the spec
//! functions their contracts use.
//!
//! Each resize law pins every field of the post-`update` state, for every
//! pair of dimensions — degenerate ones included, since `update` never
//! validates. Idempotence, the fixed depth binding, and the matrix being a
//! function of the fields alone are stated once per variant.

use vstd::prelude::*;

use crate::binary32::Binary32;
use crate::binary32::B32_ZERO;
use crate::binary32::B32_TWO;
use crate::binary32::div32;
use crate::binary32::neg32;
use crate::projection::CameraProjection;
use crate::projection::DepthCalculation;
use crate::projection::WindowOrigin;
use crate::projection::BaseAxis;
use crate::projection::PerspectiveProjection;
use crate::projection::OrthographicProjection;
use crate::projection::ScaledOrthographicProjection;

verus! {

/// A perspective resize sets the aspect ratio to the binary32 quotient
/// `width / height` and leaves `fov`, `near` and `far` untouched.
pub proof fn lemma_perspective_update(p: PerspectiveProjection, width: Binary32, height: Binary32)
    ensures
        p.updated_spec(width, height).aspect_ratio == div32(width, height),
        p.updated_spec(width, height).fov == p.fov,
        p.updated_spec(width, height).near == p.near,
        p.updated_spec(width, height).far == p.far,
{
}

/// A center-anchored orthographic resize centers the view volume: the right
/// and top bounds are the binary32 halves of the dimensions, the left and
/// bottom bounds their negations, and `near`, `far` and the origin keep
/// their values.
pub proof fn lemma_orthographic_update_center(
    p: OrthographicProjection,
    width: Binary32,
    height: Binary32,
)
    requires
        p.window_origin == WindowOrigin::Center,
    ensures
        p.updated_spec(width, height).right == div32(width, B32_TWO),
        p.updated_spec(width, height).left == neg32(p.updated_spec(width, height).right),
        p.updated_spec(width, height).top == div32(height, B32_TWO),
        p.updated_spec(width, height).bottom == neg32(p.updated_spec(width, height).top),
        p.updated_spec(width, height).near == p.near,
        p.updated_spec(width, height).far == p.far,
        p.updated_spec(width, height).window_origin == p.window_origin,
{
}

/// A bottom-left-anchored orthographic resize anchors the view volume at
/// the origin: left and bottom become exactly 0.0, right and top take the
/// dimensions bit for bit, and `near`, `far` and the origin keep their
/// values.
pub proof fn lemma_orthographic_update_bottom_left(
    p: OrthographicProjection,
    width: Binary32,
    height: Binary32,
)
    requires
        p.window_origin == WindowOrigin::BottomLeft,
    ensures
        p.updated_spec(width, height).left == B32_ZERO,
        p.updated_spec(width, height).bottom == B32_ZERO,
        p.updated_spec(width, height).right == width,
        p.updated_spec(width, height).top == height,
        p.updated_spec(width, height).near == p.near,
        p.updated_spec(width, height).far == p.far,
        p.updated_spec(width, height).window_origin == p.window_origin,
{
}

/// A scaled-orthographic resize recomputes only the aspect ratio, oriented
/// by the base axis: `width / height` against a vertical scale,
/// `height / width` against a horizontal one. Every other field keeps its
/// value.
pub proof fn lemma_scaled_orthographic_update(
    p: ScaledOrthographicProjection,
    width: Binary32,
    height: Binary32,
)
    ensures
        p.base_axis == BaseAxis::Vertical ==> p.updated_spec(width, height).aspect_ratio
            == div32(width, height),
        p.base_axis == BaseAxis::Horizontal ==> p.updated_spec(width, height).aspect_ratio
            == div32(height, width),
        p.updated_spec(width, height).scale == p.scale,
        p.updated_spec(width, height).near == p.near,
        p.updated_spec(width, height).far == p.far,
        p.updated_spec(width, height).window_origin == p.window_origin,
        p.updated_spec(width, height).base_axis == p.base_axis,
{
}

/// The depth mode is fixed per projection kind: every perspective value, in
/// every field state — so across any sequence of updates — reports
/// `Distance`.
pub proof fn lemma_perspective_depth_constant(p: PerspectiveProjection)
    ensures
        p.depth_spec() == DepthCalculation::Distance,
{
}

/// Every orthographic value, in every field state — so across any sequence
/// of updates — reports `ZDifference`.
pub proof fn lemma_orthographic_depth_constant(p: OrthographicProjection)
    ensures
        p.depth_spec() == DepthCalculation::ZDifference,
{
}

/// Every scaled-orthographic value, in every field state — so across any
/// sequence of updates — reports `ZDifference`.
pub proof fn lemma_scaled_orthographic_depth_constant(p: ScaledOrthographicProjection)
    ensures
        p.depth_spec() == DepthCalculation::ZDifference,
{
}

/// Resizing a perspective projection twice with the same dimensions leaves
/// the same field state as resizing it once.
pub proof fn lemma_perspective_update_idempotent(
    p: PerspectiveProjection,
    width: Binary32,
    height: Binary32,
)
    ensures
        p.updated_spec(width, height).updated_spec(width, height) == p.updated_spec(
            width,
            height,
        ),
{
}

/// Resizing an orthographic projection twice with the same dimensions
/// leaves the same field state as resizing it once.
pub proof fn lemma_orthographic_update_idempotent(
    p: OrthographicProjection,
    width: Binary32,
    height: Binary32,
)
    ensures
        p.updated_spec(width, height).updated_spec(width, height) == p.updated_spec(
            width,
            height,
        ),
{
}

/// Resizing a scaled-orthographic projection twice with the same dimensions
/// leaves the same field state as resizing it once.
pub proof fn lemma_scaled_orthographic_update_idempotent(
    p: ScaledOrthographicProjection,
    width: Binary32,
    height: Binary32,
)
    ensures
        p.updated_spec(width, height).updated_spec(width, height) == p.updated_spec(
            width,
            height,
        ),
{
}

/// The perspective matrix depends on the four stored fields alone: two
/// values that agree on them dictate the same matrix.
pub proof fn lemma_perspective_matrix_from_fields(
    a: PerspectiveProjection,
    b: PerspectiveProjection,
)
    requires
        a.fov == b.fov,
        a.aspect_ratio == b.aspect_ratio,
        a.near == b.near,
        a.far == b.far,
    ensures
        a.matrix_spec() == b.matrix_spec(),
{
}

/// The orthographic matrix depends on the six stored bounds alone — not on
/// the window origin, which only steers how `update` rewrites them.
pub proof fn lemma_orthographic_matrix_from_fields(
    a: OrthographicProjection,
    b: OrthographicProjection,
)
    requires
        a.left == b.left,
        a.right == b.right,
        a.bottom == b.bottom,
        a.top == b.top,
        a.near == b.near,
        a.far == b.far,
    ensures
        a.matrix_spec() == b.matrix_spec(),
{
}

/// The scaled-orthographic matrix depends on the stored fields alone: two
/// values that agree on all six dictate the same matrix.
pub proof fn lemma_scaled_orthographic_matrix_from_fields(
    a: ScaledOrthographicProjection,
    b: ScaledOrthographicProjection,
)
    requires
        a.scale == b.scale,
        a.aspect_ratio == b.aspect_ratio,
        a.near == b.near,
        a.far == b.far,
        a.window_origin == b.window_origin,
        a.base_axis == b.base_axis,
    ensures
        a.matrix_spec() == b.matrix_spec(),
{
}

} // verus!
