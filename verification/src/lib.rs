//! A ray caster for scenes of spheres and planes.
//!
//! For every pixel of the image a ray leaves the camera, the primitives of the
//! scene say where it meets them, the nearest one met gives the pixel its
//! colour, and a pixel whose ray meets nothing shows the background.
//!
//! Coordinates and colour channels are IEEE-754 values, and this library holds
//! them as their bit patterns (`number`). It compares them and quantises them,
//! exactly; it does no floating-point arithmetic. So the library is the part
//! of a ray caster that decides: whether a ray meets a sphere or a plane, and
//! where, given the quantities of the geometry (`intersect`); which primitive
//! is the nearest (`trace`); what each pixel shows and how the image is filled
//! (`raster`). The sums, products and roots that lead to the quantities are the
//! caller's.

pub mod data;
pub mod intersect;
pub mod number;
pub mod raster;
pub mod trace;

pub use crate::data::{Color, Element, Light, Plane, Point, Ray, Scene, Sphere, Vector3};
pub use crate::number::{Double, Single};
pub use crate::raster::{render, to_rgba};
pub use crate::trace::nearest_hit;
