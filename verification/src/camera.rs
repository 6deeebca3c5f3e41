//! The camera's settings, the size of the picture that follows from them, and
//! the order in which the pixels of a picture lie in its buffer.

use vstd::prelude::*;
use crate::scene::{Decimal, Triple};

verus! {

/// A ratio of width to height, such as 16 to 9.
#[derive(Clone, Copy, Debug, PartialEq, Eq)]
pub struct Ratio {
    pub width: u32,
    pub height: u32,
}

/// What a camera is set to, and the picture height that was derived from it.
#[derive(Clone, Copy, Debug, PartialEq, Eq)]
pub struct Camera {
    pub samples_per_pixel: i32,
    pub image_width: i32,
    pub aspect_ratio: Ratio,
    pub max_depth: i32,
    /// Degrees, top to bottom.
    pub vfov: Decimal,
    pub look_from: Triple,
    pub look_at: Triple,
    pub v_up: Triple,
    /// Degrees; nothing is out of focus at zero.
    pub defocus_angle: Decimal,
    pub focus_dist: Decimal,
    pub background: Triple,
    /// Derived by `initalize`; 0 before it has run.
    pub image_height: i32,
}

/// The height of a picture of the given width: the width divided by the
/// aspect ratio and rounded towards zero, but 1 at least. A ratio of zero
/// width makes a positive width as high as a height can be.
pub open spec fn spec_image_height(image_width: i32, aspect_ratio: Ratio) -> int {
    if image_width <= 0 {
        1
    } else if aspect_ratio.width == 0 {
        if aspect_ratio.height == 0 {
            1
        } else {
            i32::MAX as int
        }
    } else {
        let quotient = (image_width * aspect_ratio.height) / (aspect_ratio.width as int);
        if quotient < 1 {
            1
        } else if quotient > i32::MAX {
            i32::MAX as int
        } else {
            quotient
        }
    }
}

/// Where the pixel in column `i` of row `j` lies in the buffer: rows follow
/// one another, each from left to right.
pub open spec fn spec_pixel_index(i: int, j: int, image_width: int) -> int {
    j * image_width + i
}

impl Camera {
    /// The picture height that `initalize` derived; 0 before it has run.
    pub open spec fn spec_render_height(self) -> int {
        self.image_height as int
    }

    /// The camera has its settings as they are to begin with.
    pub open spec fn spec_is_default(self) -> bool {
        &&& self.samples_per_pixel == 10
        &&& self.image_width == 1800
        &&& self.aspect_ratio == (Ratio { width: 16, height: 9 })
        &&& self.max_depth == 1
        &&& self.vfov == Decimal::spec_whole(90)
        &&& self.defocus_angle == Decimal::spec_whole(0)
        &&& self.focus_dist == Decimal::spec_whole(10)
        &&& self.look_from == Triple::spec_whole(0, 0, -1)
        &&& self.look_at == Triple::spec_whole(0, 0, -1)
        &&& self.v_up == Triple::spec_whole(0, 1, 0)
        &&& self.background == Triple::spec_frac(7000, 8000, 10000)
        &&& self.spec_render_height() == 0
    }

    /// Every setting of `self` but the derived height is that of `other`.
    pub open spec fn spec_same_settings(self, other: Camera) -> bool {
        &&& self.samples_per_pixel == other.samples_per_pixel
        &&& self.image_width == other.image_width
        &&& self.aspect_ratio == other.aspect_ratio
        &&& self.max_depth == other.max_depth
        &&& self.vfov == other.vfov
        &&& self.defocus_angle == other.defocus_angle
        &&& self.focus_dist == other.focus_dist
        &&& self.look_from == other.look_from
        &&& self.look_at == other.look_at
        &&& self.v_up == other.v_up
        &&& self.background == other.background
    }

    /// A camera with the settings it has to begin with: 10 samples a pixel,
    /// 1800 pixels wide at 16 to 9, one bounce, a field of view of 90 degrees,
    /// no defocus, a sky-blue background.
    pub fn new() -> (cam: Camera)
        ensures
            cam.spec_is_default(),
    {
        Camera {
            samples_per_pixel: 10,
            image_width: 1800,
            aspect_ratio: Ratio { width: 16, height: 9 },
            max_depth: 1,
            vfov: Decimal::whole(90),
            defocus_angle: Decimal::whole(0),
            focus_dist: Decimal::whole(10),
            look_from: Triple::whole(0, 0, -1),
            look_at: Triple::whole(0, 0, -1),
            v_up: Triple::whole(0, 1, 0),
            image_height: 0,
            background: Triple::frac(7000, 8000, 10000),
        }
    }

    /// Rays start at the camera's centre, not on a disk around it: nothing
    /// is out of focus, as the defocus angle is not above zero.
    pub fn pinhole(&self) -> (sharp: bool)
        ensures
            sharp == (self.defocus_angle.units <= 0),
    {
        self.defocus_angle.units <= 0
    }

    pub fn render_width(&self) -> (w: i32)
        ensures
            w == self.image_width,
    {
        self.image_width
    }

    pub fn render_height(&self) -> (h: i32)
        ensures
            h == self.spec_render_height(),
    {
        self.image_height
    }

    /// Derives the picture height from the width and the aspect ratio.
    pub fn initalize(&mut self)
        ensures
            final(self).spec_same_settings(*old(self)),
            final(self).spec_render_height() == spec_image_height(
                old(self).image_width,
                old(self).aspect_ratio,
            ),
            final(self).spec_render_height() >= 1,
    {
        let width: i64 = self.image_width as i64;
        let ratio_width: i64 = self.aspect_ratio.width as i64;
        let ratio_height: i64 = self.aspect_ratio.height as i64;
        if width <= 0 {
            self.image_height = 1;
        } else if ratio_width == 0 {
            if ratio_height == 0 {
                self.image_height = 1;
            } else {
                self.image_height = i32::MAX;
            }
        } else {
            assert(width * ratio_height <= 0x7FFF_FFFF * 0xFFFF_FFFF) by (nonlinear_arith)
                requires
                    0 < width <= 0x7FFF_FFFF,
                    0 <= ratio_height <= 0xFFFF_FFFF,
            ;
            assert(0 <= width * ratio_height) by (nonlinear_arith)
                requires
                    0 < width,
                    0 <= ratio_height,
            ;
            let quotient: i64 = (width * ratio_height) / ratio_width;
            if quotient < 1 {
                self.image_height = 1;
            } else if quotient > 0x7FFF_FFFF {
                self.image_height = i32::MAX;
            } else {
                self.image_height = quotient as i32;
            }
        }
    }

    /// The number of pixels in the picture, where a buffer can be that long.
    pub fn buffer_len(&self) -> (len: Option<usize>)
        ensures
            match len {
                Some(n) => self.image_width >= 0 && self.spec_render_height() >= 0
                    && n == self.image_width * self.spec_render_height(),
                None => self.image_width < 0 || self.spec_render_height() < 0
                    || self.image_width * self.spec_render_height() > usize::MAX,
            },
    {
        if self.image_width < 0 || self.image_height < 0 {
            None
        } else {
            let w: u64 = self.image_width as u64;
            let h: u64 = self.image_height as u64;
            assert(w * h <= 0x7FFF_FFFF * 0x7FFF_FFFF) by (nonlinear_arith)
                requires
                    w <= 0x7FFF_FFFF,
                    h <= 0x7FFF_FFFF,
            ;
            let size: u64 = w * h;
            if size > usize::MAX as u64 {
                None
            } else {
                Some(size as usize)
            }
        }
    }
}

/// The place in the buffer of the pixel in column `i` of row `j`.
pub fn pixel_index(i: u32, j: u32, image_width: u32) -> (index: u64)
    ensures
        index == spec_pixel_index(i as int, j as int, image_width as int),
{
    assert(j * image_width <= 0xFFFF_FFFF * 0xFFFF_FFFF) by (nonlinear_arith)
        requires
            j <= 0xFFFF_FFFF,
            image_width <= 0xFFFF_FFFF,
    ;
    (j as u64) * (image_width as u64) + (i as u64)
}

/// The column and the row of the pixel at a place in the buffer.
pub fn pixel_at(index: u64, image_width: u32) -> (place: (u32, u64))
    requires
        image_width > 0,
    ensures
        place.0 < image_width,
        spec_pixel_index(place.0 as int, place.1 as int, image_width as int) == index,
{
    let i: u64 = index % (image_width as u64);
    let j: u64 = index / (image_width as u64);
    assert(j * (image_width as u64) + i == index) by (nonlinear_arith)
        requires
            image_width > 0,
            i == index % (image_width as u64),
            j == index / (image_width as u64),
    ;
    (i as u32, j)
}

/// The part of the buffer that holds row `j`: from its first place up to, and
/// not including, the first place of the next row.
pub fn row_bounds(j: u32, image_width: u32) -> (bounds: (u64, u64))
    ensures
        bounds.0 == spec_pixel_index(0, j as int, image_width as int),
        bounds.1 == spec_pixel_index(0, j + 1, image_width as int),
        bounds.1 - bounds.0 == image_width,
{
    assert((j + 1) * image_width <= 0x1_0000_0000 * 0xFFFF_FFFF) by (nonlinear_arith)
        requires
            j <= 0xFFFF_FFFF,
            image_width <= 0xFFFF_FFFF,
    ;
    assert((j + 1) * image_width == j * image_width + image_width) by (nonlinear_arith);
    assert(0 <= j * image_width) by (nonlinear_arith);
    let start: u64 = (j as u64) * (image_width as u64);
    (start, start + image_width as u64)
}

/// Every place in the buffer holds one pixel only: two pixels with the same
/// place are in the same column of the same row.
pub proof fn lemma_pixel_index_injective(i0: int, j0: int, i1: int, j1: int, image_width: int)
    requires
        0 <= i0 < image_width,
        0 <= i1 < image_width,
        0 <= j0,
        0 <= j1,
        spec_pixel_index(i0, j0, image_width) == spec_pixel_index(i1, j1, image_width),
    ensures
        i0 == i1,
        j0 == j1,
{
    if j0 < j1 {
        assert(j1 * image_width >= (j0 + 1) * image_width) by (nonlinear_arith)
            requires
                j0 < j1,
                image_width > 0,
        ;
        assert((j0 + 1) * image_width == j0 * image_width + image_width) by (nonlinear_arith);
    } else if j1 < j0 {
        assert(j0 * image_width >= (j1 + 1) * image_width) by (nonlinear_arith)
            requires
                j1 < j0,
                image_width > 0,
        ;
        assert((j1 + 1) * image_width == j1 * image_width + image_width) by (nonlinear_arith);
    }
}

/// A pixel lies in the part of the buffer that holds its row, and in that of
/// no other row.
pub proof fn lemma_pixel_in_its_row(i: int, j: int, image_width: int)
    requires
        0 <= i < image_width,
        0 <= j,
    ensures
        spec_pixel_index(0, j, image_width) <= spec_pixel_index(i, j, image_width)
            < spec_pixel_index(0, j + 1, image_width),
{
    assert((j + 1) * image_width == j * image_width + image_width) by (nonlinear_arith);
}

} // verus!
