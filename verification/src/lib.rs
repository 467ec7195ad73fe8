//! Camera projections for a rendering pipeline.
//!
//! A camera owns one projection value — perspective, orthographic, or
//! scaled-orthographic — reached uniformly through the [`CameraProjection`]
//! trait. On every viewport resize the owner calls `update(width, height)`;
//! whenever a view/projection pair is assembled it asks for the projection
//! matrix and for the depth-comparison mode the variant dictates.
//!
//! All scalar state is kept as IEEE-754 binary32 bit patterns (see
//! [`Binary32`]), so every contract pins the exact bits a field holds.

pub mod binary32;
pub mod laws;
pub mod projection;

pub use projection::CameraProjection;
pub use projection::DepthCalculation;
pub use projection::ProjectionMatrix;
pub use projection::PerspectiveProjection;
pub use projection::OrthographicProjection;
pub use projection::ScaledOrthographicProjection;
pub use projection::WindowOrigin;
pub use projection::BaseAxis;

pub use binary32::Binary32;
pub use binary32::B32_ZERO;
pub use binary32::B32_ONE;
pub use binary32::B32_TWO;
pub use binary32::B32_THOUSAND;
pub use binary32::B32_FRAC_PI_4;
pub use binary32::div32;
pub use binary32::mul32;
pub use binary32::neg32;
