//! From colour to pixel: the range that a channel is held to, the byte that
//! a channel becomes, the pixel that three bytes are packed into, and the
//! name of the file that a picture is saved under.

use vstd::prelude::*;
use vstd::string::StringExecFns;
use crate::interval::Interval;
use crate::scalar::Scalar;
use crate::vector_3::Vec3;

verus! {

/// The bits of 0.999: no channel is brighter than this.
pub const BRIGHTEST_BITS: u64 = 0x3FEF_F7CE_D916_872B;

/// Two to the power of 52: below it lie the bits of the fraction of a
/// binary64 value, from it upwards those of the exponent.
pub const FRACTION_RANGE: u64 = 0x10_0000_0000_0000;

/// The whole part of a scalar as a byte, as a cast does it: what is not a
/// number, what is negative and what lies below one is 0, 256 and all above
/// is 255, and everything between loses what follows the point.
pub open spec fn spec_to_byte(s: Scalar) -> u8 {
    let exponent = s.spec_magnitude() / (FRACTION_RANGE as int);
    let fraction = s.spec_magnitude() % (FRACTION_RANGE as int);
    if s.spec_is_nan() || s.spec_sign() || exponent < 1023 {
        0u8
    } else if exponent >= 1031 {
        255u8
    } else {
        (((FRACTION_RANGE + fraction) as u64) >> ((1075 - exponent) as u64)) as u8
    }
}

/// The pixel of three bytes: opaque, and red in the highest byte of the three.
pub open spec fn spec_pack(red: u8, green: u8, blue: u8) -> u32 {
    (0xFF00_0000 + red * 0x1_0000 + green * 0x100 + blue) as u32
}

/// The range that a channel is held to before it becomes a byte: from 0 to 0.999.
pub fn intensity() -> (range: Interval)
    ensures
        range == (Interval { min: Scalar { bits: 0 }, max: Scalar { bits: BRIGHTEST_BITS } }),
{
    Interval::new(Scalar::zero(), Scalar::from_bits(BRIGHTEST_BITS))
}

/// The whole part of a scalar as a byte.
pub fn to_byte(s: Scalar) -> (byte: u8)
    ensures
        byte == spec_to_byte(s),
{
    let magnitude: u64 = s.abs().to_bits();
    let exponent: u64 = magnitude / FRACTION_RANGE;
    let fraction: u64 = magnitude % FRACTION_RANGE;
    if s.is_nan() || s.is_sign_negative() || exponent < 1023 {
        0
    } else if exponent >= 1031 {
        255
    } else {
        let significand: u64 = FRACTION_RANGE + fraction;
        let shift: u64 = 1075 - exponent;
        assert(significand >> shift < 256) by (bit_vector)
            requires
                significand < 0x20_0000_0000_0000,
                45 <= shift <= 52,
        ;
        (significand >> shift) as u8
    }
}

/// Packs three bytes into a pixel.
pub fn pack(red: u8, green: u8, blue: u8) -> (pixel: u32)
    ensures
        pixel == spec_pack(red, green, blue),
{
    let r: u32 = red as u32;
    let g: u32 = green as u32;
    let b: u32 = blue as u32;
    assert(0xFF00_0000u32 | b | (g << 8) | (r << 16) == 0xFF00_0000u32 + r * 0x1_0000 + g * 0x100
        + b) by (bit_vector)
        requires
            r < 256,
            g < 256,
            b < 256,
    ;
    0xFF00_0000u32 | b | (g << 8) | (r << 16)
}

/// Takes a pixel apart into red, green and blue.
pub fn unpack(pixel: u32) -> (channels: (u8, u8, u8))
    ensures
        channels.0 == (pixel / 0x1_0000) % 0x100,
        channels.1 == (pixel / 0x100) % 0x100,
        channels.2 == pixel % 0x100,
{
    assert((pixel >> 16) & 0xFF == (pixel / 0x1_0000) % 0x100) by (bit_vector);
    assert((pixel >> 8) & 0xFF == (pixel / 0x100) % 0x100) by (bit_vector);
    assert(pixel & 0xFF == pixel % 0x100) by (bit_vector);
    let red = ((pixel >> 16) & 0x0000_00FF) as u8;
    let green = ((pixel >> 8) & 0x0000_00FF) as u8;
    let blue = (pixel & 0x0000_00FF) as u8;
    (red, green, blue)
}

/// The pixel of a colour whose channels the caller has brought onto the
/// scale of a byte: each channel loses what follows the point.
pub fn vals_to_val(x: Scalar, y: Scalar, z: Scalar) -> (pixel: u32)
    ensures
        pixel == spec_pack(spec_to_byte(x), spec_to_byte(y), spec_to_byte(z)),
{
    pack(to_byte(x), to_byte(y), to_byte(z))
}

/// The pixel of a colour whose channels the caller has brought onto the
/// scale of a byte.
pub fn vec_to_val(color: &Vec3) -> (pixel: u32)
    ensures
        pixel == spec_pack(spec_to_byte(color.x), spec_to_byte(color.y), spec_to_byte(color.z)),
{
    vals_to_val(color.x, color.y, color.z)
}

/// A digit as a character.
pub open spec fn spec_digit(d: int) -> char {
    if d == 0 {
        '0'
    } else if d == 1 {
        '1'
    } else if d == 2 {
        '2'
    } else if d == 3 {
        '3'
    } else if d == 4 {
        '4'
    } else if d == 5 {
        '5'
    } else if d == 6 {
        '6'
    } else if d == 7 {
        '7'
    } else if d == 8 {
        '8'
    } else {
        '9'
    }
}

/// A natural number in decimal, without leading zeros.
pub open spec fn spec_decimal(n: nat) -> Seq<char>
    decreases n,
{
    if n < 10 {
        seq![spec_digit(n as int)]
    } else {
        spec_decimal(n / 10).push(spec_digit((n % 10) as int))
    }
}

/// A whole number in decimal, with a minus sign where it is negative.
pub open spec fn spec_signed_decimal(n: int) -> Seq<char> {
    if n < 0 {
        seq!['-'] + spec_decimal((-n) as nat)
    } else {
        spec_decimal(n as nat)
    }
}

/// The name of the file of a picture: the folder `renders`, the name of the
/// scene, then width, samples and depth, each behind its letter.
pub open spec fn spec_image_path(name: Seq<char>, width: u32, samples: i32, depth: i32) -> Seq<
    char,
> {
    "renders/"@ + name + "_w"@ + spec_decimal(width as nat) + "_s"@ + spec_signed_decimal(
        samples as int,
    ) + "_d"@ + spec_signed_decimal(depth as int) + ".png"@
}

fn digit(d: u64) -> (text: &'static str)
    requires
        d < 10,
    ensures
        text@ == seq![spec_digit(d as int)],
{
    proof {
        reveal_strlit("0");
        reveal_strlit("1");
        reveal_strlit("2");
        reveal_strlit("3");
        reveal_strlit("4");
        reveal_strlit("5");
        reveal_strlit("6");
        reveal_strlit("7");
        reveal_strlit("8");
        reveal_strlit("9");
    }
    let text = if d == 0 {
        "0"
    } else if d == 1 {
        "1"
    } else if d == 2 {
        "2"
    } else if d == 3 {
        "3"
    } else if d == 4 {
        "4"
    } else if d == 5 {
        "5"
    } else if d == 6 {
        "6"
    } else if d == 7 {
        "7"
    } else if d == 8 {
        "8"
    } else {
        "9"
    };
    assert(text@ =~= seq![spec_digit(d as int)]);
    text
}

fn push_decimal(text: &mut String, n: u64)
    ensures
        final(text)@ == old(text)@ + spec_decimal(n as nat),
    decreases n,
{
    if n >= 10 {
        push_decimal(text, n / 10);
    }
    text.append(digit(n % 10));
    proof {
        if n >= 10 {
            assert(text@ == old(text)@ + spec_decimal((n / 10) as nat).push(
                spec_digit((n % 10) as int),
            ));
        } else {
            assert(text@ == old(text)@ + seq![spec_digit(n as int)]);
        }
    }
}

fn push_signed_decimal(text: &mut String, n: i32)
    ensures
        final(text)@ == old(text)@ + spec_signed_decimal(n as int),
{
    if n < 0 {
        proof {
            reveal_strlit("-");
        }
        text.append("-");
        assert(text@ =~= old(text)@ + seq!['-']);
        push_decimal(text, (-(n as i64)) as u64);
        proof {
            assert(text@ == old(text)@ + (seq!['-'] + spec_decimal((-n) as nat)));
        }
    } else {
        push_decimal(text, n as u64);
    }
}

/// The name of the file that a picture is saved under.
pub fn image_path(name: &str, width: u32, samples: i32, depth: i32) -> (path: String)
    ensures
        path@ == spec_image_path(name@, width, samples, depth),
{
    let mut full_path = String::from_str("renders/");
    full_path.append(name);
    full_path.append("_w");
    push_decimal(&mut full_path, width as u64);
    full_path.append("_s");
    push_signed_decimal(&mut full_path, samples);
    full_path.append("_d");
    push_signed_decimal(&mut full_path, depth);
    full_path.append(".png");
    full_path
}

/// A pixel holds the three bytes that were packed into it, and is opaque.
pub proof fn lemma_unpack_pack(red: u8, green: u8, blue: u8)
    ensures
        (spec_pack(red, green, blue) / 0x1_0000) % 0x100 == red,
        (spec_pack(red, green, blue) / 0x100) % 0x100 == green,
        spec_pack(red, green, blue) % 0x100 == blue,
        spec_pack(red, green, blue) / 0x100_0000 == 0xFF,
{
}

/// The byte of a channel never leaves its scale: zero and all below it is 0,
/// a channel held to the range up to 0.999 and brought onto the scale of a
/// byte stays below 256, and the white of 255.999 is byte 255.
pub proof fn lemma_byte_ends()
    ensures
        spec_to_byte(Scalar { bits: 0 }) == 0,
        spec_to_byte(Scalar { bits: crate::scalar::SIGN_BIT }) == 0,
        spec_to_byte(Scalar { bits: 0x406F_FFF7_CED9_1687 }) == 255,
        spec_to_byte(Scalar { bits: crate::scalar::INFINITY_BITS }) == 255,
        spec_to_byte(Scalar { bits: crate::scalar::ONE_BITS }) == 1,
{
    assert(0x1F_FFF7_CED9_1687u64 >> 45u64 == 255) by (bit_vector);
    assert(0x10_0000_0000_0000u64 >> 52u64 == 1) by (bit_vector);
}

} // verus!
