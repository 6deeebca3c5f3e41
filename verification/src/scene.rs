//! Scenes as plain data: what stands in the world, what it is made of and
//! what lights it, with every length, angle and colour written as an exact
//! decimal. A renderer reads a description and builds its own objects from it.

use vstd::prelude::*;

verus! {

/// How many units of a `Decimal` make one: the unit is a ten-thousandth.
pub const DECIMAL_SCALE: i64 = 10_000;

/// An exact decimal number with four places: `units` ten-thousandths.
#[derive(Clone, Copy, Debug, PartialEq, Eq)]
pub struct Decimal {
    pub units: i64,
}

impl Decimal {
    /// The whole number `n`.
    pub open spec fn spec_whole(n: int) -> Decimal {
        Decimal { units: (n * DECIMAL_SCALE) as i64 }
    }

    /// `n` ten-thousandths.
    pub open spec fn spec_frac(n: int) -> Decimal {
        Decimal { units: n as i64 }
    }

    /// The whole number `n`.
    pub fn whole(n: i32) -> (d: Decimal)
        ensures
            d == Decimal::spec_whole(n as int),
            d.units == n * 10_000,
    {
        Decimal { units: (n as i64) * DECIMAL_SCALE }
    }

    /// `n` ten-thousandths: 6500 is 0.65, 15000 is 1.5.
    pub fn frac(n: i32) -> (d: Decimal)
        ensures
            d == Decimal::spec_frac(n as int),
            d.units == n,
    {
        Decimal { units: n as i64 }
    }
}

/// Three decimals: a point, a direction or a colour.
#[derive(Clone, Copy, Debug, PartialEq, Eq)]
pub struct Triple {
    pub x: Decimal,
    pub y: Decimal,
    pub z: Decimal,
}

impl Triple {
    /// The triple of three whole numbers.
    pub open spec fn spec_whole(x: int, y: int, z: int) -> Triple {
        Triple { x: Decimal::spec_whole(x), y: Decimal::spec_whole(y), z: Decimal::spec_whole(z) }
    }

    /// The triple of three numbers given in ten-thousandths.
    pub open spec fn spec_frac(x: int, y: int, z: int) -> Triple {
        Triple { x: Decimal::spec_frac(x), y: Decimal::spec_frac(y), z: Decimal::spec_frac(z) }
    }

    /// The triple of three whole numbers.
    pub fn whole(x: i32, y: i32, z: i32) -> (t: Triple)
        ensures
            t == Triple::spec_whole(x as int, y as int, z as int),
    {
        Triple { x: Decimal::whole(x), y: Decimal::whole(y), z: Decimal::whole(z) }
    }

    /// The triple of three numbers given in ten-thousandths.
    pub fn frac(x: i32, y: i32, z: i32) -> (t: Triple)
        ensures
            t == Triple::spec_frac(x as int, y as int, z as int),
    {
        Triple { x: Decimal::frac(x), y: Decimal::frac(y), z: Decimal::frac(z) }
    }
}

/// Where a surface takes its colour from.
#[derive(Clone, Copy, Debug, PartialEq, Eq)]
pub enum TextureSpec {
    /// One colour everywhere.
    Solid(Triple),
    /// Two colours in cubes of the given edge length.
    Checker { scale: Decimal, even: Triple, odd: Triple },
    /// Marbled noise of the given frequency.
    Noise { scale: Decimal },
    /// The map of the earth, read from a picture.
    EarthMap,
}

/// What a surface does with light.
#[derive(Clone, Copy, Debug, PartialEq, Eq)]
pub enum MaterialSpec {
    Lambertian(TextureSpec),
    Metal { albedo: Triple, fuzz: Decimal },
    Dielectric { index: Decimal },
    DiffuseLight(Triple),
}

/// The form of an object, before it is turned and moved.
#[derive(Clone, Copy, Debug, PartialEq, Eq)]
pub enum ShapeSpec {
    Sphere { center: Triple, radius: Decimal },
    /// A sphere whose centre moves in a line while the shutter is open.
    MovingSphere { center_start: Triple, center_end: Triple, radius: Decimal },
    /// A parallelogram: a corner and the two edges that leave it.
    Quad { origin: Triple, u: Triple, v: Triple },
    /// A box of six quads between two opposite corners.
    Cuboid { corner_a: Triple, corner_b: Triple },
    /// A square floor of boxes, `per_side` along each edge, each `cell` wide
    /// and deep, with its height drawn from `height_low` up to `height_high`,
    /// all in one bounding-volume hierarchy.
    BoxGrid {
        per_side: u32,
        cell: Decimal,
        low_corner: Triple,
        height_low: Decimal,
        height_high: Decimal,
    },
    /// Small spheres strewn over a plain, one to each square of a grid that
    /// runs from `half_extent` below zero up to `half_extent` above it along
    /// x and along z. A sphere lies in its
    /// square up to `jitter` off the corner, at `height`, unless that is
    /// within `clearance` of `clear_of`. Chance picks its material, and a
    /// sphere that scatters evenly rises by up to `lift` while the shutter is
    /// open.
    SphereField {
        half_extent: u32,
        jitter: Decimal,
        height: Decimal,
        radius: Decimal,
        clear_of: Triple,
        clearance: Decimal,
        lift: Decimal,
    },
    /// `count` spheres with every coordinate of the centre drawn from `low` up
    /// to `high`, all in one bounding-volume hierarchy.
    SphereCloud { count: u32, low: Decimal, high: Decimal, radius: Decimal },
}

/// A participating medium of constant density and one colour.
#[derive(Clone, Copy, Debug, PartialEq, Eq)]
pub struct MediumSpec {
    pub density: Decimal,
    pub color: Triple,
}

/// One object of a scene: a shape of some material, turned about the y axis
/// first and moved second, and filled with a medium where one is given.
#[derive(Clone, Copy, Debug, PartialEq, Eq)]
pub struct ObjectSpec {
    pub shape: ShapeSpec,
    pub material: MaterialSpec,
    /// Degrees.
    pub rotate_y: Option<Decimal>,
    pub translate: Option<Triple>,
    pub medium: Option<MediumSpec>,
}

impl ObjectSpec {
    pub open spec fn spec_plain(shape: ShapeSpec, material: MaterialSpec) -> ObjectSpec {
        ObjectSpec { shape, material, rotate_y: None, translate: None, medium: None }
    }

    pub open spec fn spec_placed(self, degrees: Decimal, offset: Triple) -> ObjectSpec {
        ObjectSpec { rotate_y: Some(degrees), translate: Some(offset), ..self }
    }

    pub open spec fn spec_filled(self, density: Decimal, color: Triple) -> ObjectSpec {
        ObjectSpec { medium: Some(MediumSpec { density, color }), ..self }
    }

    pub open spec fn spec_sphere(center: Triple, radius: Decimal, material: MaterialSpec)
        -> ObjectSpec {
        ObjectSpec::spec_plain(ShapeSpec::Sphere { center, radius }, material)
    }

    pub open spec fn spec_quad(origin: Triple, u: Triple, v: Triple, material: MaterialSpec)
        -> ObjectSpec {
        ObjectSpec::spec_plain(ShapeSpec::Quad { origin, u, v }, material)
    }

    pub open spec fn spec_cuboid(corner_a: Triple, corner_b: Triple, material: MaterialSpec)
        -> ObjectSpec {
        ObjectSpec::spec_plain(ShapeSpec::Cuboid { corner_a, corner_b }, material)
    }

    /// An object as it was shaped: not turned, not moved, not filled.
    pub fn plain(shape: ShapeSpec, material: MaterialSpec) -> (o: ObjectSpec)
        ensures
            o == ObjectSpec::spec_plain(shape, material),
    {
        ObjectSpec { shape, material, rotate_y: None, translate: None, medium: None }
    }

    /// The object turned by `degrees` about the y axis and then moved by `offset`.
    pub fn placed(self, degrees: Decimal, offset: Triple) -> (o: ObjectSpec)
        ensures
            o == self.spec_placed(degrees, offset),
    {
        ObjectSpec {
            shape: self.shape,
            material: self.material,
            rotate_y: Some(degrees),
            translate: Some(offset),
            medium: self.medium,
        }
    }

    /// The object as the boundary of a medium.
    pub fn filled(self, density: Decimal, color: Triple) -> (o: ObjectSpec)
        ensures
            o == self.spec_filled(density, color),
    {
        ObjectSpec {
            shape: self.shape,
            material: self.material,
            rotate_y: self.rotate_y,
            translate: self.translate,
            medium: Some(MediumSpec { density, color }),
        }
    }

    pub fn sphere(center: Triple, radius: Decimal, material: MaterialSpec) -> (o: ObjectSpec)
        ensures
            o == ObjectSpec::spec_sphere(center, radius, material),
    {
        ObjectSpec::plain(ShapeSpec::Sphere { center, radius }, material)
    }

    pub fn quad(origin: Triple, u: Triple, v: Triple, material: MaterialSpec) -> (o: ObjectSpec)
        ensures
            o == ObjectSpec::spec_quad(origin, u, v, material),
    {
        ObjectSpec::plain(ShapeSpec::Quad { origin, u, v }, material)
    }

    pub fn cuboid(corner_a: Triple, corner_b: Triple, material: MaterialSpec) -> (o: ObjectSpec)
        ensures
            o == ObjectSpec::spec_cuboid(corner_a, corner_b, material),
    {
        ObjectSpec::plain(ShapeSpec::Cuboid { corner_a, corner_b }, material)
    }
}

/// The surface of one colour that scatters light evenly.
pub open spec fn spec_matte(r: int, g: int, b: int) -> MaterialSpec {
    MaterialSpec::Lambertian(TextureSpec::Solid(Triple::spec_frac(r, g, b)))
}

/// The surface of one colour that scatters light evenly, the colour given in
/// ten-thousandths.
pub fn matte(r: i32, g: i32, b: i32) -> (m: MaterialSpec)
    ensures
        m == spec_matte(r as int, g as int, b as int),
{
    MaterialSpec::Lambertian(TextureSpec::Solid(Triple::frac(r, g, b)))
}

/// The scenes that the library describes.
#[derive(Clone, Copy, Debug, PartialEq, Eq)]
pub enum SceneName {
    Book1Final,
    CheckerSpheres,
    Earth,
    PerlinSphere,
    Quads,
    SimpleLight,
    CornellBox,
    CornellSmoke,
    Book2Final,
    CornellBoxMetal,
    CornellBoxGlassSphere,
}

} // verus!
