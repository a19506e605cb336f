//! Typed two- and three-dimensional points, with the vectors, sizes, lengths
//! and scale factors they are combined with.

pub mod approxeq;
pub mod approxord;
pub mod default;
pub mod laws;
pub mod length;
pub mod num;
pub mod point;
pub mod scale;
pub mod size;
pub mod vector;

pub use approxeq::ApproxEq;
pub use length::Length;
pub use num::{Ceil, Floor, One, Round, Zero};
pub use point::{point2, point3, Point2D, Point3D};
pub use scale::Scale;
pub use size::{Size2D, Size3D};
pub use vector::{vec2, vec3, Vector2D, Vector3D};

use vstd::prelude::*;

verus! {

/// The unit of a value whose unit is not known or does not matter.
#[derive(Clone, Copy, Debug, PartialEq, Eq, Structural, Hash, Default)]
pub struct UnknownUnit;

} // verus!
