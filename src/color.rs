//! Packed 24-bit colours: red in bits 16..24, green in bits 8..16, blue in
//! bits 0..8 of a 32-bit word.
use vstd::prelude::*;

verus! {

/// A colour held as its three channels.
#[derive(Clone, Copy, Debug, PartialEq, Eq, Structural)]
pub struct Rgb {
    pub r: u8,
    pub g: u8,
    pub b: u8,
}

/// The 32-bit word of `p`, read as an unsigned number.
pub open spec fn word_of(p: i32) -> int {
    if p >= 0 {
        p as int
    } else {
        p + 0x1_0000_0000
    }
}

/// Bits 16..24 of the word.
pub open spec fn red_of(p: i32) -> int {
    (word_of(p) / 0x1_0000) % 0x100
}

/// Bits 8..16 of the word.
pub open spec fn green_of(p: i32) -> int {
    (word_of(p) / 0x100) % 0x100
}

/// Bits 0..8 of the word.
pub open spec fn blue_of(p: i32) -> int {
    word_of(p) % 0x100
}

/// The packed word of three channels.
pub open spec fn packed_of(r: int, g: int, b: int) -> int {
    r * 0x1_0000 + g * 0x100 + b
}

fn word(p: i32) -> (w: u32)
    ensures
        w as int == word_of(p),
{
    if p >= 0 {
        p as u32
    } else {
        ((p as i64) + 0x1_0000_0000i64) as u32
    }
}

/// Red channel of a packed colour.
pub fn rgb_r(packed: i32) -> (r: i32)
    ensures
        r == red_of(packed),
        0 <= r <= 255,
{
    let w = word(packed);
    let x: u32 = (w >> 16u32) & 0xFFu32;
    assert(((w >> 16u32) & 0xFFu32) == (w / 0x1_0000u32) % 0x100u32) by (bit_vector);
    x as i32
}

/// Green channel of a packed colour.
pub fn rgb_g(packed: i32) -> (g: i32)
    ensures
        g == green_of(packed),
        0 <= g <= 255,
{
    let w = word(packed);
    let x: u32 = (w >> 8u32) & 0xFFu32;
    assert(((w >> 8u32) & 0xFFu32) == (w / 0x100u32) % 0x100u32) by (bit_vector);
    x as i32
}

/// Blue channel of a packed colour.
pub fn rgb_b(packed: i32) -> (b: i32)
    ensures
        b == blue_of(packed),
        0 <= b <= 255,
{
    let w = word(packed);
    let x: u32 = w & 0xFFu32;
    assert((w & 0xFFu32) == w % 0x100u32) by (bit_vector);
    x as i32
}

impl Rgb {
    /// The packed word of this colour.
    pub fn pack(&self) -> (p: i32)
        ensures
            p == packed_of(self.r as int, self.g as int, self.b as int),
            0 <= p < 0x100_0000,
    {
        (self.r as i32) * 0x1_0000 + (self.g as i32) * 0x100 + (self.b as i32)
    }

    /// The channels of a packed word; bits above 24 are ignored.
    pub fn unpack(packed: i32) -> (c: Rgb)
        ensures
            c.r == red_of(packed),
            c.g == green_of(packed),
            c.b == blue_of(packed),
    {
        Rgb { r: rgb_r(packed) as u8, g: rgb_g(packed) as u8, b: rgb_b(packed) as u8 }
    }
}

/// Unpacking a packed colour gives back its channels.
pub proof fn lemma_unpack_pack(r: u8, g: u8, b: u8)
    ensures
        red_of(packed_of(r as int, g as int, b as int) as i32) == r,
        green_of(packed_of(r as int, g as int, b as int) as i32) == g,
        blue_of(packed_of(r as int, g as int, b as int) as i32) == b,
{
    let p = packed_of(r as int, g as int, b as int);
    assert(0 <= p < 0x100_0000);
    assert(word_of(p as i32) == p);
    vstd::arithmetic::div_mod::lemma_fundamental_div_mod_converse(
        p, 0x1_0000, r as int, g * 0x100 + b);
    vstd::arithmetic::div_mod::lemma_fundamental_div_mod_converse(
        p, 0x100, r * 0x100 + g as int, b as int);
    vstd::arithmetic::div_mod::lemma_fundamental_div_mod_converse(
        r * 0x100 + g as int, 0x100, r as int, g as int);
    vstd::arithmetic::div_mod::lemma_small_mod(r as nat, 0x100);
}

/// The channels of an 8-bit hue, saturation and value: the hue circle is cut
/// into six sectors of 43 steps, each rising or falling between the value and
/// the floor `v * (255 - s) / 256`.
pub open spec fn hsv_rgb(h: int, s: int, v: int) -> (int, int, int) {
    if s == 0 {
        (v, v, v)
    } else {
        let region = h / 43;
        let rem = (h - region * 43) * 6;
        let p = (v * (255 - s)) / 256;
        let q = (v * (255 - (s * rem) / 256)) / 256;
        let t = (v * (255 - (s * (255 - rem)) / 256)) / 256;
        if region == 0 {
            (v, t, p)
        } else if region == 1 {
            (q, v, p)
        } else if region == 2 {
            (p, v, t)
        } else if region == 3 {
            (p, q, v)
        } else if region == 4 {
            (t, p, v)
        } else {
            (v, p, q)
        }
    }
}

/// The packed colour of a hue, saturation and value; of each argument only the
/// low eight bits count.
pub fn hsv_to_rgb(h: i32, s: i32, v: i32) -> (packed: i32)
    ensures
        packed == packed_of(
            hsv_rgb(blue_of(h), blue_of(s), blue_of(v)).0,
            hsv_rgb(blue_of(h), blue_of(s), blue_of(v)).1,
            hsv_rgb(blue_of(h), blue_of(s), blue_of(v)).2,
        ),
{
    let h = rgb_b(h) as u32;
    let s = rgb_b(s) as u32;
    let v = rgb_b(v) as u32;
    if s == 0 {
        let c = Rgb { r: v as u8, g: v as u8, b: v as u8 };
        return c.pack();
    }
    let region: u32 = h / 43;
    let rem: u32 = (h - region * 43) * 6;
    assert(rem <= 252);
    assert(s * rem <= 255 * 252) by (nonlinear_arith)
        requires s <= 255, rem <= 252;
    assert(s * (255 - rem) <= 255 * 255) by (nonlinear_arith)
        requires s <= 255, rem <= 252;
    let ps: u32 = 255 - s;
    let qs: u32 = 255 - (s * rem) / 256;
    let ts: u32 = 255 - (s * (255 - rem)) / 256;
    assert(v * ps <= 255 * 255 && v * qs <= 255 * 255 && v * ts <= 255 * 255) by (nonlinear_arith)
        requires v <= 255, ps <= 255, qs <= 255, ts <= 255;
    let p = ((v * ps) / 256) as u8;
    let q = ((v * qs) / 256) as u8;
    let t = ((v * ts) / 256) as u8;
    let v = v as u8;
    let c = if region == 0 {
        Rgb { r: v, g: t, b: p }
    } else if region == 1 {
        Rgb { r: q, g: v, b: p }
    } else if region == 2 {
        Rgb { r: p, g: v, b: t }
    } else if region == 3 {
        Rgb { r: p, g: q, b: v }
    } else if region == 4 {
        Rgb { r: t, g: p, b: v }
    } else {
        Rgb { r: v, g: p, b: q }
    };
    c.pack()
}

} // verus!
