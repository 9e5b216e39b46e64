use vstd::prelude::*;
use vstd::string::StrSliceExecFns;

verus! {

/// A character together with the colour to draw it in.
#[derive(Clone, Copy, Debug)]
pub struct ColoredChar {
    ch: char,
    color: u32,
}

/// A colour packed from its red, green, blue and alpha channels, red in the
/// highest byte.
pub open spec fn rgba(r: u8, g: u8, b: u8, a: u8) -> int {
    r * 0x100_0000 + g * 0x1_0000 + b * 0x100 + a
}

impl ColoredChar {
    pub closed spec fn spec_char(&self) -> char {
        self.ch
    }

    pub closed spec fn spec_color(&self) -> u32 {
        self.color
    }

    pub fn new(ch: char, color: u32) -> (r: Self)
        ensures
            r.spec_char() == ch,
            r.spec_color() == color,
    {
        ColoredChar { ch, color }
    }

    pub fn new_rgba(ch: char, r: u8, g: u8, b: u8, a: u8) -> (res: Self)
        ensures
            res.spec_char() == ch,
            res.spec_color() == rgba(r, g, b, a),
    {
        let r32 = r as u32;
        let g32 = g as u32;
        let b32 = b as u32;
        let a32 = a as u32;
        let color = (r32 << 24u32) | (g32 << 16u32) | (b32 << 8u32) | a32;
        assert(r32 < 256 && g32 < 256 && b32 < 256 && a32 < 256 ==> (r32 << 24u32) | (g32 << 16u32)
            | (b32 << 8u32) | a32 == r32 * 0x100_0000 + g32 * 0x1_0000 + b32 * 0x100 + a32)
            by (bit_vector);
        Self::new(ch, color)
    }

    pub fn char(&self) -> (r: char)
        ensures
            r == self.spec_char(),
    {
        self.ch
    }

    pub fn color(&self) -> (r: u32)
        ensures
            r == self.spec_color(),
    {
        self.color
    }

    /// Each character of `s`, in order, in the colour `color`.
    pub fn from_string(s: &str, color: u32) -> (r: Vec<ColoredChar>)
        ensures
            r@.len() == s@.len(),
            forall|i: int|
                0 <= i < s@.len() ==> #[trigger] r@[i].spec_char() == s@[i] && r@[i].spec_color()
                    == color,
    {
        let n = s.unicode_len();
        let mut out: Vec<ColoredChar> = Vec::new();
        let mut i: usize = 0;
        while i < n
            invariant
                n == s@.len(),
                i <= n,
                out@.len() == i,
                forall|j: int|
                    0 <= j < i ==> #[trigger] out@[j].spec_char() == s@[j] && out@[j].spec_color()
                        == color,
            decreases n - i,
        {
            out.push(ColoredChar::new(s.get_char(i), color));
            i = i + 1;
        }
        out
    }
}

} // verus!
