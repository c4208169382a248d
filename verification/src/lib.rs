//! Group arithmetic for points on a Weierstrass elliptic curve
//! (`y^2 = x^3 + a*x + b`), generic over a field-like coordinate type.
//!
//! The concrete coordinate type provided here is [`FieldElement`], an element
//! of the finite field of integers modulo a prime.  The generic layer —
//! [`Coordinate`], which adjoins a point-at-infinity sentinel, and [`Point`],
//! which owns the curve-membership check and the chord-tangent addition law —
//! works over any type implementing the [`GraphPoint`] capability trait.

pub mod coordinate;
pub mod error;
pub mod point;
pub mod pow;
pub mod zero_check;
pub mod field_element;

pub use coordinate::{Coordinate, GraphPoint};
pub use error::Error;
pub use field_element::FieldElement;
pub use point::Point;
pub use pow::Pow;
pub use zero_check::ZeroCheck;
