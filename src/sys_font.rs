//! The system font: sprite data for the hexadecimal digits `0x0` through `0xF`.
//! Every character is 4 pixels wide and 5 pixels tall, one byte per row.
use vstd::prelude::*;

verus! {

/// One character of the system font. The enumeration order is the digit order,
/// which is also the order of the characters in the font table.
#[derive(Debug, Copy, Clone, PartialEq, Eq, Structural)]
pub enum Font {
    Char0,
    Char1,
    Char2,
    Char3,
    Char4,
    Char5,
    Char6,
    Char7,
    Char8,
    Char9,
    CharA,
    CharB,
    CharC,
    CharD,
    CharE,
    CharF,
}

/// Number of bytes in one glyph.
pub const GLYPH_SIZE: usize = 5;

/// Number of bytes in the whole font table.
pub const FONT_TABLE_SIZE: usize = 80;

/// The font character whose digit value is `d` (`d < 16`).
pub open spec fn font_of_digit(d: int) -> Font {
    if d == 0 {
        Font::Char0
    } else if d == 1 {
        Font::Char1
    } else if d == 2 {
        Font::Char2
    } else if d == 3 {
        Font::Char3
    } else if d == 4 {
        Font::Char4
    } else if d == 5 {
        Font::Char5
    } else if d == 6 {
        Font::Char6
    } else if d == 7 {
        Font::Char7
    } else if d == 8 {
        Font::Char8
    } else if d == 9 {
        Font::Char9
    } else if d == 10 {
        Font::CharA
    } else if d == 11 {
        Font::CharB
    } else if d == 12 {
        Font::CharC
    } else if d == 13 {
        Font::CharD
    } else if d == 14 {
        Font::CharE
    } else {
        Font::CharF
    }
}

/// The whole font table: the 16 glyphs, 5 bytes each, concatenated in digit order.
pub open spec fn font_table() -> Seq<u8> {
    Seq::new(80, |i: int| font_of_digit(i / 5).glyph()[i % 5])
}

/// The first `n` glyphs concatenated in digit order.
pub open spec fn glyphs_concat(n: nat) -> Seq<u8>
    decreases n,
{
    if n == 0 {
        Seq::empty()
    } else {
        glyphs_concat((n - 1) as nat) + font_of_digit(n - 1).glyph()
    }
}

impl Font {
    /// The number of characters in the font.
    pub const COUNT: usize = 16;

    /// Conventional start of the font table in memory (`0x050`-`0x09F`).
    pub const PREFERRED_TABLE_STARTING_ADDRESS: u16 = 0x050;

    /// The digit value of this character.
    pub open spec fn digit(self) -> nat {
        match self {
            Font::Char0 => 0,
            Font::Char1 => 1,
            Font::Char2 => 2,
            Font::Char3 => 3,
            Font::Char4 => 4,
            Font::Char5 => 5,
            Font::Char6 => 6,
            Font::Char7 => 7,
            Font::Char8 => 8,
            Font::Char9 => 9,
            Font::CharA => 10,
            Font::CharB => 11,
            Font::CharC => 12,
            Font::CharD => 13,
            Font::CharE => 14,
            Font::CharF => 15,
        }
    }

    /// The canonical 5-byte sprite of this character.
    pub open spec fn glyph(self) -> Seq<u8> {
        match self {
            Font::Char0 => seq![0xF0u8, 0x90, 0x90, 0x90, 0xF0],
            Font::Char1 => seq![0x20u8, 0x60, 0x20, 0x20, 0x70],
            Font::Char2 => seq![0xF0u8, 0x10, 0xF0, 0x80, 0xF0],
            Font::Char3 => seq![0xF0u8, 0x10, 0xF0, 0x10, 0xF0],
            Font::Char4 => seq![0x90u8, 0x90, 0xF0, 0x10, 0x10],
            Font::Char5 => seq![0xF0u8, 0x80, 0xF0, 0x10, 0xF0],
            Font::Char6 => seq![0xF0u8, 0x80, 0xF0, 0x90, 0xF0],
            Font::Char7 => seq![0xF0u8, 0x10, 0x20, 0x40, 0x40],
            Font::Char8 => seq![0xF0u8, 0x90, 0xF0, 0x90, 0xF0],
            Font::Char9 => seq![0xF0u8, 0x90, 0xF0, 0x10, 0xF0],
            Font::CharA => seq![0xF0u8, 0x90, 0xF0, 0x90, 0x90],
            Font::CharB => seq![0xE0u8, 0x90, 0xE0, 0x90, 0xE0],
            Font::CharC => seq![0xF0u8, 0x80, 0x80, 0x80, 0xF0],
            Font::CharD => seq![0xE0u8, 0x90, 0x90, 0x90, 0xE0],
            Font::CharE => seq![0xF0u8, 0x80, 0xF0, 0x80, 0xF0],
            Font::CharF => seq![0xF0u8, 0x80, 0xF0, 0x80, 0x80],
        }
    }

    /// The character whose digit value is `d`.
    fn from_digit(d: u8) -> (r: Font)
        requires
            d < 16,
        ensures
            r == font_of_digit(d as int),
            r.digit() == d,
    {
        match d {
            0 => Font::Char0,
            1 => Font::Char1,
            2 => Font::Char2,
            3 => Font::Char3,
            4 => Font::Char4,
            5 => Font::Char5,
            6 => Font::Char6,
            7 => Font::Char7,
            8 => Font::Char8,
            9 => Font::Char9,
            10 => Font::CharA,
            11 => Font::CharB,
            12 => Font::CharC,
            13 => Font::CharD,
            14 => Font::CharE,
            _ => Font::CharF,
        }
    }

    /// The 5-byte sequence that represents this character in memory.
    pub fn as_bytes(&self) -> (r: [u8; 5])
        ensures
            r@ == self.glyph(),
    {
        let r: [u8; 5] = match self {
            Font::Char0 => [0xF0, 0x90, 0x90, 0x90, 0xF0],
            Font::Char1 => [0x20, 0x60, 0x20, 0x20, 0x70],
            Font::Char2 => [0xF0, 0x10, 0xF0, 0x80, 0xF0],
            Font::Char3 => [0xF0, 0x10, 0xF0, 0x10, 0xF0],
            Font::Char4 => [0x90, 0x90, 0xF0, 0x10, 0x10],
            Font::Char5 => [0xF0, 0x80, 0xF0, 0x10, 0xF0],
            Font::Char6 => [0xF0, 0x80, 0xF0, 0x90, 0xF0],
            Font::Char7 => [0xF0, 0x10, 0x20, 0x40, 0x40],
            Font::Char8 => [0xF0, 0x90, 0xF0, 0x90, 0xF0],
            Font::Char9 => [0xF0, 0x90, 0xF0, 0x10, 0xF0],
            Font::CharA => [0xF0, 0x90, 0xF0, 0x90, 0x90],
            Font::CharB => [0xE0, 0x90, 0xE0, 0x90, 0xE0],
            Font::CharC => [0xF0, 0x80, 0x80, 0x80, 0xF0],
            Font::CharD => [0xE0, 0x90, 0x90, 0x90, 0xE0],
            Font::CharE => [0xF0, 0x80, 0xF0, 0x80, 0xF0],
            Font::CharF => [0xF0, 0x80, 0xF0, 0x80, 0x80],
        };
        assert(r@ =~= self.glyph());
        r
    }

    /// All characters of the font as one contiguous block, in digit order,
    /// ready to be loaded into memory.
    pub fn get_table_as_bytes() -> (r: [u8; 80])
        ensures
            r@ == font_table(),
    {
        let mut table: [u8; 80] = [0u8; 80];
        let mut d: u8 = 0;
        while d < 16
            invariant
                d <= 16,
                forall|k: int| 0 <= k < 5 * d ==> #[trigger] table@[k] == font_table()[k],
            decreases 16 - d,
        {
            let glyph = Font::from_digit(d).as_bytes();
            let base: usize = (d as usize) * 5;
            let mut j: usize = 0;
            while j < 5
                invariant
                    d < 16,
                    j <= 5,
                    base == 5 * d,
                    glyph@ == font_of_digit(d as int).glyph(),
                    forall|k: int| 0 <= k < base + j ==> #[trigger] table@[k] == font_table()[k],
                decreases 5 - j,
            {
                proof {
                    lemma_table_index(d as int, j as int);
                }
                table[base + j] = glyph[j];
                j += 1;
            }
            d += 1;
        }
        assert(table@ =~= font_table());
        table
    }

    /// Offset in bytes of this character in the table given by
    /// [`Font::get_table_as_bytes`].
    pub fn table_offset(&self) -> (r: usize)
        ensures
            r == 5 * self.digit(),
    {
        match self {
            Font::Char0 => 0,
            Font::Char1 => 5,
            Font::Char2 => 10,
            Font::Char3 => 15,
            Font::Char4 => 20,
            Font::Char5 => 25,
            Font::Char6 => 30,
            Font::Char7 => 35,
            Font::Char8 => 40,
            Font::Char9 => 45,
            Font::CharA => 50,
            Font::CharB => 55,
            Font::CharC => 60,
            Font::CharD => 65,
            Font::CharE => 70,
            Font::CharF => 75,
        }
    }
}

/// Position `5 * d + j` of the table is byte `j` of glyph `d`.
proof fn lemma_table_index(d: int, j: int)
    requires
        0 <= d < 16,
        0 <= j < 5,
    ensures
        (5 * d + j) / 5 == d,
        (5 * d + j) % 5 == j,
        font_table()[5 * d + j] == font_of_digit(d).glyph()[j],
{
    assert((5 * d + j) / 5 == d) by (nonlinear_arith)
        requires
            0 <= j < 5,
    ;
    assert((5 * d + j) % 5 == j) by (nonlinear_arith)
        requires
            0 <= j < 5,
    ;
}

/// The glyph table round-trip: the 5 bytes at `table_offset(c)` are exactly the
/// glyph of `c`, and the 16 glyphs concatenated in digit order are the whole table.
pub proof fn lemma_font_table_round_trip(c: Font)
    ensures
        font_table().len() == 80,
        font_table().subrange(5 * c.digit() as int, 5 * c.digit() + 5 as int) == c.glyph(),
        glyphs_concat(16) == font_table(),
{
    let d = c.digit() as int;
    assert forall|j: int| 0 <= j < 5 implies #[trigger] font_table().subrange(5 * d, 5 * d + 5)[j]
        == c.glyph()[j] by {
        lemma_table_index(d, j);
    }
    assert(font_table().subrange(5 * d, 5 * d + 5) =~= c.glyph());
    lemma_glyphs_concat_prefix(16);
}

/// The first `n` glyphs concatenated are the first `5 * n` bytes of the table.
proof fn lemma_glyphs_concat_prefix(n: nat)
    requires
        n <= 16,
    ensures
        glyphs_concat(n) == font_table().subrange(0, 5 * n as int),
    decreases n,
{
    if n > 0 {
        lemma_glyphs_concat_prefix((n - 1) as nat);
        let prev = glyphs_concat((n - 1) as nat);
        let g = font_of_digit(n - 1).glyph();
        assert forall|k: int| 0 <= k < 5 * n implies #[trigger] glyphs_concat(n)[k]
            == font_table()[k] by {
            if k >= 5 * (n - 1) {
                lemma_table_index(n - 1, k - 5 * (n - 1));
            }
        }
        assert(glyphs_concat(n) =~= font_table().subrange(0, 5 * n as int));
    }
}

} // verus!
