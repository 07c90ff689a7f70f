//! A small ray-tracing geometry kernel built on exact integer arithmetic,
//! together with the pixel canvas and PPM serialization that a renderer
//! writes its output through.

pub mod canvas;
pub mod color;
pub mod coord;
pub mod intersection;
pub mod num;
pub mod point_light;
pub mod ray;
pub mod shapes;
pub mod square2;
pub mod square3;
pub mod sphere;
pub mod square4;
pub mod transformations;
pub mod vec3;
pub mod vector;
