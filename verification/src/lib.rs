//! The discrete core of a Monte-Carlo path tracer and of a small spline
//! toolkit: everything that is decided by comparing, counting, indexing and
//! packing, with the arithmetic on real numbers left to the caller.
//!
//! Real numbers pass through the library as the bits of binary64 values
//! (`scalar`). On that footing stand ranges and boxes (`interval`, `aabb`),
//! the records of a hit and of a scatter (`hittable`, `material`), the search
//! for the nearest hit in a list and in a bounding-volume hierarchy
//! (`hittable_list`, `bvh_node`), and what the shapes, materials and
//! textures decide. Scenes are described in exact decimals (`scene`,
//! `demo_render`), pictures are laid out and named (`camera`, `color`), and
//! knot vectors are searched (`knots`).

pub mod aabb;
pub mod affine_transforms;
pub mod axis_order;
pub mod bvh_node;
pub mod camera;
pub mod color;
pub mod constant_medium;
pub mod curve_interval;
pub mod demo_render;
pub mod hittable;
pub mod hittable_list;
pub mod interval;
pub mod knots;
pub mod material;
pub mod perlin;
pub mod quad;
pub mod ray;
pub mod rtweekend;
pub mod scalar;
pub mod scene;
pub mod sphere;
pub mod sphere_pdf;
pub mod vector_3;
