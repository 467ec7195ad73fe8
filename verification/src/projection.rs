//! The projection variants and the capability contract they share.
//!
//! A renderer reaches a camera's projection through [`CameraProjection`]
//! without knowing its concrete shape. Each variant defines, as spec
//! functions, the matrix its fields dictate, the field state a resize leaves
//! behind, and the depth-comparison mode it is bound to; the executable
//! methods are proved against those three.

use vstd::prelude::*;

use crate::binary32::Binary32;
use crate::binary32::B32_ZERO;
use crate::binary32::B32_ONE;
use crate::binary32::B32_TWO;
use crate::binary32::B32_THOUSAND;
use crate::binary32::B32_FRAC_PI_4;
use crate::binary32::div32;
use crate::binary32::mul32;
use crate::binary32::neg32;
use crate::binary32::divide32;
use crate::binary32::multiply32;
use crate::binary32::negate32;

verus! {

/// How a depth-sorting pass must compare depths for a camera: by Euclidean
/// view-space distance, or by signed view-space Z alone. Each projection
/// kind dictates exactly one of the two; the binding is fixed per variant,
/// never a runtime choice.
#[derive(Debug, Clone, Copy, PartialEq, Eq, Structural)]
pub enum DepthCalculation {
    /// Depth ordered by Euclidean distance from the camera.
    Distance,
    /// Depth ordered by the signed view-space Z difference alone.
    ZDifference,
}

/// Which point of the viewport the derived view volume is anchored to:
/// its center, or its bottom-left corner (pixel-space convention).
#[derive(Debug, Clone, Copy, PartialEq, Eq, Structural)]
pub enum WindowOrigin {
    Center,
    BottomLeft,
}

/// Which screen axis a scale-based orthographic projection measures its
/// `scale` against: a half-height (`Vertical`) or a half-width
/// (`Horizontal`); the other axis's extent follows via the aspect ratio.
#[derive(Debug, Clone, Copy, PartialEq, Eq, Structural)]
pub enum BaseAxis {
    Vertical,
    Horizontal,
}

/// A projection matrix, given as the right-handed constructor it is built
/// with and the binary32 parameters handed to that constructor. The numeric
/// 4x4 expansion is the matrix library's affair; equal values here expand to
/// bit-identical matrices there.
#[derive(Debug, Clone, PartialEq, Eq, Structural)]
pub enum ProjectionMatrix {
    /// A right-handed perspective matrix built from a vertical field of
    /// view (radians), an aspect ratio, and the two clip-plane distances.
    PerspectiveRh { fov: Binary32, aspect_ratio: Binary32, near: Binary32, far: Binary32 },
    /// A right-handed orthographic matrix built from the six view-volume
    /// bounds.
    OrthographicRh {
        left: Binary32,
        right: Binary32,
        bottom: Binary32,
        top: Binary32,
        near: Binary32,
        far: Binary32,
    },
}

/// The capability every projection kind implements, so that a renderer can
/// store, resize and query heterogeneous projections uniformly.
///
/// The three spec functions pin each operation down exactly: the matrix and
/// the depth mode are pure functions of the current fields, and `update`
/// leaves precisely the field state `updated_spec` names — nothing else is
/// touched, so a repeated `update` with the same dimensions changes nothing.
///
/// No operation validates its inputs: degenerate dimensions (a zero height,
/// say) flow into the stored bit patterns as IEEE-754 division dictates —
/// an infinity or a NaN, never an error.
pub trait CameraProjection: Sized {
    /// The matrix the current fields dictate.
    spec fn matrix_spec(&self) -> ProjectionMatrix;

    /// The field state `update(width, height)` leaves behind.
    spec fn updated_spec(&self, width: Binary32, height: Binary32) -> Self;

    /// The depth-comparison mode this projection kind is bound to.
    spec fn depth_spec(&self) -> DepthCalculation;

    /// Builds the projection matrix from the current fields alone; pure,
    /// total, no validation.
    fn get_projection_matrix(&self) -> (m: ProjectionMatrix)
        ensures
            m == self.matrix_spec(),
    ;

    /// Recomputes the viewport-derived fields for a render target of
    /// `width` by `height` pixels (given as binary32 bit patterns); every
    /// other field keeps its value.
    fn update(&mut self, width: Binary32, height: Binary32)
        ensures
            *final(self) == old(self).updated_spec(width, height),
    ;

    /// The fixed depth-comparison mode of this projection kind.
    fn depth_calculation(&self) -> (d: DepthCalculation)
        ensures
            d == self.depth_spec(),
    ;
}

/// A field-of-view based 3-D projection. `update` tracks the viewport's
/// aspect ratio; `fov`, `near` and `far` are external configuration it
/// never touches.
#[derive(Debug, Clone, PartialEq, Eq, Structural)]
pub struct PerspectiveProjection {
    /// Vertical field of view, in radians.
    pub fov: Binary32,
    /// Viewport width over height.
    pub aspect_ratio: Binary32,
    /// Near clip-plane distance along the view axis.
    pub near: Binary32,
    /// Far clip-plane distance along the view axis.
    pub far: Binary32,
}

impl CameraProjection for PerspectiveProjection {
    open spec fn matrix_spec(&self) -> ProjectionMatrix {
        ProjectionMatrix::PerspectiveRh {
            fov: self.fov,
            aspect_ratio: self.aspect_ratio,
            near: self.near,
            far: self.far,
        }
    }

    open spec fn updated_spec(&self, width: Binary32, height: Binary32) -> Self {
        PerspectiveProjection { aspect_ratio: div32(width, height), ..*self }
    }

    open spec fn depth_spec(&self) -> DepthCalculation {
        DepthCalculation::Distance
    }

    fn get_projection_matrix(&self) -> (m: ProjectionMatrix) {
        ProjectionMatrix::PerspectiveRh {
            fov: self.fov,
            aspect_ratio: self.aspect_ratio,
            near: self.near,
            far: self.far,
        }
    }

    fn update(&mut self, width: Binary32, height: Binary32) {
        self.aspect_ratio = divide32(width, height);
    }

    fn depth_calculation(&self) -> (d: DepthCalculation) {
        DepthCalculation::Distance
    }
}

impl Default for PerspectiveProjection {
    /// The initial configuration: a 45-degree vertical field of view
    /// (pi / 4 radians), unit aspect ratio, near plane at 1, far at 1000.
    fn default() -> (p: Self)
        ensures
            p.fov == B32_FRAC_PI_4,
            p.aspect_ratio == B32_ONE,
            p.near == B32_ONE,
            p.far == B32_THOUSAND,
    {
        PerspectiveProjection {
            fov: B32_FRAC_PI_4,
            aspect_ratio: B32_ONE,
            near: B32_ONE,
            far: B32_THOUSAND,
        }
    }
}

/// An axis-aligned box projection with explicit bounds. `update` overwrites
/// all four side bounds from the viewport dimensions, conditioned on
/// `window_origin`; `near` and `far` are external configuration it never
/// touches. The default bounds are degenerate (a zero-area volume) until
/// the first `update`.
#[derive(Debug, Clone, PartialEq, Eq, Structural)]
pub struct OrthographicProjection {
    pub left: Binary32,
    pub right: Binary32,
    pub bottom: Binary32,
    pub top: Binary32,
    pub near: Binary32,
    pub far: Binary32,
    pub window_origin: WindowOrigin,
}

impl CameraProjection for OrthographicProjection {
    open spec fn matrix_spec(&self) -> ProjectionMatrix {
        ProjectionMatrix::OrthographicRh {
            left: self.left,
            right: self.right,
            bottom: self.bottom,
            top: self.top,
            near: self.near,
            far: self.far,
        }
    }

    open spec fn updated_spec(&self, width: Binary32, height: Binary32) -> Self {
        match self.window_origin {
            WindowOrigin::Center => OrthographicProjection {
                left: neg32(div32(width, B32_TWO)),
                right: div32(width, B32_TWO),
                bottom: neg32(div32(height, B32_TWO)),
                top: div32(height, B32_TWO),
                ..*self
            },
            WindowOrigin::BottomLeft => OrthographicProjection {
                left: B32_ZERO,
                right: width,
                bottom: B32_ZERO,
                top: height,
                ..*self
            },
        }
    }

    open spec fn depth_spec(&self) -> DepthCalculation {
        DepthCalculation::ZDifference
    }

    fn get_projection_matrix(&self) -> (m: ProjectionMatrix) {
        ProjectionMatrix::OrthographicRh {
            left: self.left,
            right: self.right,
            bottom: self.bottom,
            top: self.top,
            near: self.near,
            far: self.far,
        }
    }

    fn update(&mut self, width: Binary32, height: Binary32) {
        match self.window_origin {
            WindowOrigin::Center => {
                let half_width = divide32(width, B32_TWO);
                let half_height = divide32(height, B32_TWO);
                self.left = negate32(half_width);
                self.right = half_width;
                self.top = half_height;
                self.bottom = negate32(half_height);
            }
            WindowOrigin::BottomLeft => {
                self.left = B32_ZERO;
                self.right = width;
                self.top = height;
                self.bottom = B32_ZERO;
            }
        }
    }

    fn depth_calculation(&self) -> (d: DepthCalculation) {
        DepthCalculation::ZDifference
    }
}

impl Default for OrthographicProjection {
    /// The initial configuration: every bound zero except `far = 1000`,
    /// anchored at the viewport center. Deliberately degenerate until the
    /// first `update`.
    fn default() -> (p: Self)
        ensures
            p.left == B32_ZERO,
            p.right == B32_ZERO,
            p.bottom == B32_ZERO,
            p.top == B32_ZERO,
            p.near == B32_ZERO,
            p.far == B32_THOUSAND,
            p.window_origin == WindowOrigin::Center,
    {
        OrthographicProjection {
            left: B32_ZERO,
            right: B32_ZERO,
            bottom: B32_ZERO,
            top: B32_ZERO,
            near: B32_ZERO,
            far: B32_THOUSAND,
            window_origin: WindowOrigin::Center,
        }
    }
}

/// An orthographic projection parameterized by a single `scale` and the
/// axis it is measured against, instead of raw bounds. The bounds are
/// derived inside `get_projection_matrix` from `(window_origin, base_axis,
/// aspect_ratio, scale)`; `update` recomputes only `aspect_ratio`, oriented
/// so that `scale` keeps its meaning on the base axis.
#[derive(Debug, Clone, PartialEq, Eq, Structural)]
pub struct ScaledOrthographicProjection {
    /// Half-extent along the base axis; external configuration, never
    /// touched by `update`.
    pub scale: Binary32,
    /// `width / height` when the base axis is vertical, `height / width`
    /// when it is horizontal; recomputed by `update`.
    pub aspect_ratio: Binary32,
    pub near: Binary32,
    pub far: Binary32,
    pub window_origin: WindowOrigin,
    pub base_axis: BaseAxis,
}

impl CameraProjection for ScaledOrthographicProjection {
    open spec fn matrix_spec(&self) -> ProjectionMatrix {
        match (self.window_origin, self.base_axis) {
            (WindowOrigin::Center, BaseAxis::Vertical) => ProjectionMatrix::OrthographicRh {
                left: mul32(neg32(self.aspect_ratio), self.scale),
                right: mul32(self.aspect_ratio, self.scale),
                bottom: neg32(self.scale),
                top: self.scale,
                near: self.near,
                far: self.far,
            },
            (WindowOrigin::BottomLeft, BaseAxis::Vertical) => ProjectionMatrix::OrthographicRh {
                left: B32_ZERO,
                right: mul32(self.aspect_ratio, self.scale),
                bottom: B32_ZERO,
                top: self.scale,
                near: self.near,
                far: self.far,
            },
            (WindowOrigin::Center, BaseAxis::Horizontal) => ProjectionMatrix::OrthographicRh {
                left: neg32(self.scale),
                right: self.scale,
                bottom: mul32(neg32(self.aspect_ratio), self.scale),
                top: mul32(self.aspect_ratio, self.scale),
                near: self.near,
                far: self.far,
            },
            (WindowOrigin::BottomLeft, BaseAxis::Horizontal) => ProjectionMatrix::OrthographicRh {
                left: B32_ZERO,
                right: self.scale,
                bottom: B32_ZERO,
                top: mul32(self.aspect_ratio, self.scale),
                near: self.near,
                far: self.far,
            },
        }
    }

    open spec fn updated_spec(&self, width: Binary32, height: Binary32) -> Self {
        match self.base_axis {
            BaseAxis::Vertical => ScaledOrthographicProjection {
                aspect_ratio: div32(width, height),
                ..*self
            },
            BaseAxis::Horizontal => ScaledOrthographicProjection {
                aspect_ratio: div32(height, width),
                ..*self
            },
        }
    }

    open spec fn depth_spec(&self) -> DepthCalculation {
        DepthCalculation::ZDifference
    }

    fn get_projection_matrix(&self) -> (m: ProjectionMatrix) {
        match (self.window_origin, self.base_axis) {
            (WindowOrigin::Center, BaseAxis::Vertical) => {
                let half_width = multiply32(self.aspect_ratio, self.scale);
                ProjectionMatrix::OrthographicRh {
                    left: multiply32(negate32(self.aspect_ratio), self.scale),
                    right: half_width,
                    bottom: negate32(self.scale),
                    top: self.scale,
                    near: self.near,
                    far: self.far,
                }
            }
            (WindowOrigin::BottomLeft, BaseAxis::Vertical) => {
                ProjectionMatrix::OrthographicRh {
                    left: B32_ZERO,
                    right: multiply32(self.aspect_ratio, self.scale),
                    bottom: B32_ZERO,
                    top: self.scale,
                    near: self.near,
                    far: self.far,
                }
            }
            (WindowOrigin::Center, BaseAxis::Horizontal) => {
                let half_height = multiply32(self.aspect_ratio, self.scale);
                ProjectionMatrix::OrthographicRh {
                    left: negate32(self.scale),
                    right: self.scale,
                    bottom: multiply32(negate32(self.aspect_ratio), self.scale),
                    top: half_height,
                    near: self.near,
                    far: self.far,
                }
            }
            (WindowOrigin::BottomLeft, BaseAxis::Horizontal) => {
                ProjectionMatrix::OrthographicRh {
                    left: B32_ZERO,
                    right: self.scale,
                    bottom: B32_ZERO,
                    top: multiply32(self.aspect_ratio, self.scale),
                    near: self.near,
                    far: self.far,
                }
            }
        }
    }

    fn update(&mut self, width: Binary32, height: Binary32) {
        self.aspect_ratio = match self.base_axis {
            BaseAxis::Vertical => divide32(width, height),
            BaseAxis::Horizontal => divide32(height, width),
        };
    }

    fn depth_calculation(&self) -> (d: DepthCalculation) {
        DepthCalculation::ZDifference
    }
}

impl Default for ScaledOrthographicProjection {
    /// The initial configuration: unit scale measured against the vertical
    /// axis, unit aspect ratio, centered origin, near plane at 0, far at
    /// 1000.
    fn default() -> (p: Self)
        ensures
            p.scale == B32_ONE,
            p.aspect_ratio == B32_ONE,
            p.near == B32_ZERO,
            p.far == B32_THOUSAND,
            p.window_origin == WindowOrigin::Center,
            p.base_axis == BaseAxis::Vertical,
    {
        ScaledOrthographicProjection {
            scale: B32_ONE,
            aspect_ratio: B32_ONE,
            near: B32_ZERO,
            far: B32_THOUSAND,
            window_origin: WindowOrigin::Center,
            base_axis: BaseAxis::Vertical,
        }
    }
}

} // verus!
