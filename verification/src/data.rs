//! The scene description: points, directions, colours, primitives, the scene
//! itself and the rays cast into it.

use vstd::prelude::*;
use crate::number::{Double, Single};

verus! {

/// A position in world space.
#[derive(Clone, Copy, Debug)]
pub struct Point {
    pub x: Double,
    pub y: Double,
    pub z: Double,
}

/// A direction or displacement in world space.
#[derive(Clone, Copy, Debug)]
pub struct Vector3 {
    pub x: Double,
    pub y: Double,
    pub z: Double,
}

/// A surface colour. Each channel is meant to lie between 0 and 1.
#[derive(Clone, Copy, Debug)]
pub struct Color {
    pub red: Single,
    pub green: Single,
    pub blue: Single,
}

/// A sphere. Its radius is meant to be positive.
#[derive(Clone, Copy, Debug)]
pub struct Sphere {
    pub center: Point,
    pub radius: Double,
    pub color: Color,
}

/// A plane through `origin`. Its normal is meant to have unit length.
#[derive(Clone, Copy, Debug)]
pub struct Plane {
    pub origin: Point,
    pub normal: Vector3,
    pub color: Color,
}

/// One primitive of a scene.
#[derive(Clone, Copy, Debug)]
pub enum Element {
    Sphere(Sphere),
    Plane(Plane),
}

/// A directional light. It is part of a scene and plays no part in rendering.
#[derive(Clone, Copy, Debug)]
pub struct Light {
    pub direction: Vector3,
    pub color: Color,
    pub intensity: Single,
}

/// What is rendered: the size of the image in pixels, the field of view in
/// degrees, and the primitives in the order in which they are traced.
#[derive(Debug)]
pub struct Scene {
    pub width: u32,
    pub height: u32,
    pub fov: Double,
    pub elements: Vec<Element>,
    pub light: Light,
}

/// A half-line: where it starts and where it heads. The direction is meant to
/// have unit length.
#[derive(Clone, Copy, Debug)]
pub struct Ray {
    pub origin: Point,
    pub direction: Vector3,
}

impl Vector3 {
    /// The vector whose three coordinates are positive zero.
    pub fn zero() -> (v: Vector3)
        ensures
            v.x == Double::spec_zero(),
            v.y == Double::spec_zero(),
            v.z == Double::spec_zero(),
    {
        Vector3::from_one(Double::zero())
    }

    /// The vector whose three coordinates are `v`.
    pub fn from_one(v: Double) -> (r: Vector3)
        ensures
            r.x == v,
            r.y == v,
            r.z == v,
    {
        Vector3 { x: v, y: v, z: v }
    }
}

impl Point {
    /// The world origin.
    pub open spec fn spec_zero() -> Point {
        Point { x: Double::spec_zero(), y: Double::spec_zero(), z: Double::spec_zero() }
    }

    /// The world origin.
    #[verifier::when_used_as_spec(spec_zero)]
    pub fn zero() -> (p: Point)
        ensures
            p == Point::spec_zero(),
    {
        Point::from_one(Double::zero())
    }

    /// The point whose three coordinates are `v`.
    pub fn from_one(v: Double) -> (p: Point)
        ensures
            p.x == v,
            p.y == v,
            p.z == v,
    {
        Point { x: v, y: v, z: v }
    }
}

impl Element {
    /// The colour of the shape that the element holds.
    pub open spec fn spec_color(self) -> Color {
        match self {
            Element::Sphere(s) => s.color,
            Element::Plane(p) => p.color,
        }
    }

    /// The colour of the shape that the element holds.
    pub fn color(&self) -> (c: &Color)
        ensures
            *c == self.spec_color(),
    {
        match self {
            Element::Sphere(s) => &s.color,
            Element::Plane(p) => &p.color,
        }
    }
}

impl Scene {
    /// Whether the image is wider than it is high. The camera serves no other
    /// scene.
    pub open spec fn is_landscape(self) -> bool {
        self.width > self.height
    }
}

impl Ray {
    /// The prime ray of a landscape scene that heads in `direction`: it
    /// starts at the camera, which sits at the world origin.
    pub fn create_prime(scene: &Scene, direction: Vector3) -> (ray: Ray)
        requires
            scene.is_landscape(),
        ensures
            ray.origin == Point::spec_zero(),
            ray.direction == direction,
    {
        Ray { origin: Point::zero(), direction }
    }
}

} // verus!
