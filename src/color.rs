use vstd::prelude::*;
use vstd::string::StringSliceAdditionalSpecFns;

verus! {

/// An RGBA color with eight bits per channel.
#[derive(Clone, Copy, Debug, PartialEq, Eq, Structural)]
pub struct Color {
    pub r: u8,
    pub g: u8,
    pub b: u8,
    pub a: u8,
}

/// Number of degrees in a full turn of the hue circle.
pub const HUE_TURN: u32 = 360;

/// Width in degrees of each of the six sectors of the hue circle.
pub const HUE_SECTOR: u32 = 60;

/// The hue, in degrees, that a seed selects: a polynomial hash of its bytes,
/// reduced modulo a full turn after every byte.
pub open spec fn seed_hue(bytes: Seq<u8>) -> nat
    decreases bytes.len(),
{
    if bytes.len() == 0 {
        0
    } else {
        ((seed_hue(bytes.drop_last()) * 31 + bytes.last() as nat) % (HUE_TURN as nat)) as nat
    }
}

pub open spec fn max3(x: u8, y: u8, z: u8) -> u8 {
    if x >= y && x >= z {
        x
    } else if y >= z {
        y
    } else {
        z
    }
}

pub open spec fn min3(x: u8, y: u8, z: u8) -> u8 {
    if x <= y && x <= z {
        x
    } else if y <= z {
        y
    } else {
        z
    }
}

/// `base` moved to the given hue while keeping its largest and smallest
/// channel (so its brightness and saturation) and its alpha.
pub open spec fn with_hue(base: Color, hue: nat) -> Color
    recommends
        hue < HUE_TURN,
{
    let hi = max3(base.r, base.g, base.b) as int;
    let lo = min3(base.r, base.g, base.b) as int;
    let step = (hi - lo) * ((hue % (HUE_SECTOR as nat)) as int) / (HUE_SECTOR as int);
    let rise = (lo + step) as u8;
    let fall = (hi - step) as u8;
    let hi = hi as u8;
    let lo = lo as u8;
    let sector = hue / (HUE_SECTOR as nat);
    if sector == 0 {
        Color { r: hi, g: rise, b: lo, a: base.a }
    } else if sector == 1 {
        Color { r: fall, g: hi, b: lo, a: base.a }
    } else if sector == 2 {
        Color { r: lo, g: hi, b: rise, a: base.a }
    } else if sector == 3 {
        Color { r: lo, g: fall, b: hi, a: base.a }
    } else if sector == 4 {
        Color { r: rise, g: lo, b: hi, a: base.a }
    } else {
        Color { r: hi, g: lo, b: fall, a: base.a }
    }
}

/// The color that a seed derives from a base color.
pub open spec fn randomized(base: Color, seed: Seq<char>) -> Color {
    with_hue(base, seed_hue(vstd::utf8::encode_utf8(seed)))
}

fn max3_exec(x: u8, y: u8, z: u8) -> (r: u8)
    ensures
        r == max3(x, y, z),
{
    if x >= y && x >= z {
        x
    } else if y >= z {
        y
    } else {
        z
    }
}

fn min3_exec(x: u8, y: u8, z: u8) -> (r: u8)
    ensures
        r == min3(x, y, z),
{
    if x <= y && x <= z {
        x
    } else if y <= z {
        y
    } else {
        z
    }
}

/// Moves `base` to hue `hue` (in degrees), keeping its brightness,
/// saturation and alpha.
pub fn set_hue(base: Color, hue: u32) -> (r: Color)
    requires
        hue < HUE_TURN,
    ensures
        r == with_hue(base, hue as nat),
{
    let hi = max3_exec(base.r, base.g, base.b);
    let lo = min3_exec(base.r, base.g, base.b);
    let chroma: u32 = (hi - lo) as u32;
    let offset: u32 = hue % HUE_SECTOR;
    assert(min3(base.r, base.g, base.b) <= max3(base.r, base.g, base.b));
    assert(chroma * offset <= 255 * 59) by (nonlinear_arith)
        requires
            chroma <= 255,
            offset < 60,
    ;
    let step: u32 = chroma * offset / HUE_SECTOR;
    assert(step <= chroma) by (nonlinear_arith)
        requires
            step == chroma * offset / 60,
            offset < 60,
    ;
    let rise: u8 = (lo as u32 + step) as u8;
    let fall: u8 = (hi as u32 - step) as u8;
    let sector: u32 = hue / HUE_SECTOR;
    if sector == 0 {
        Color { r: hi, g: rise, b: lo, a: base.a }
    } else if sector == 1 {
        Color { r: fall, g: hi, b: lo, a: base.a }
    } else if sector == 2 {
        Color { r: lo, g: hi, b: rise, a: base.a }
    } else if sector == 3 {
        Color { r: lo, g: fall, b: hi, a: base.a }
    } else if sector == 4 {
        Color { r: rise, g: lo, b: hi, a: base.a }
    } else {
        Color { r: hi, g: lo, b: fall, a: base.a }
    }
}

/// The hue, in degrees, that `seed` selects.
pub fn hue_of_seed(seed: &str) -> (hue: u32)
    ensures
        hue == seed_hue(seed.spec_bytes()),
        hue < HUE_TURN,
{
    let bytes = seed.as_bytes();
    let mut hue: u32 = 0;
    let mut i: usize = 0;
    while i < bytes.len()
        invariant
            0 <= i <= bytes@.len(),
            bytes@ == seed.spec_bytes(),
            hue == seed_hue(bytes@.subrange(0, i as int)),
            hue < HUE_TURN,
        decreases bytes@.len() - i,
    {
        assert(bytes@.subrange(0, i + 1).drop_last() =~= bytes@.subrange(0, i as int));
        hue = (hue * 31 + bytes[i] as u32) % HUE_TURN;
        i += 1;
    }
    assert(bytes@.subrange(0, i as int) =~= bytes@);
    hue
}

/// Derives a color from `color` that depends only on `color` and on the
/// characters of `seed`: the same pair gives the same color on every call.
pub fn randomize_color(color: Color, seed: &str) -> (r: Color)
    ensures
        r == randomized(color, seed@),
{
    let hue = hue_of_seed(seed);
    set_hue(color, hue)
}

} // verus!
