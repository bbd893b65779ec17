//! The font table: an immutable, read-only collection of raw glyph strings,
//! indexed by a contiguous code-point range whose base is a configurable
//! offset character.

use vstd::prelude::*;

use crate::decode::decoded;
use crate::decode::decode_glyph;
use crate::decode::Glyph;

verus! {

/// The requested glyph's character maps outside the table's index range.
#[derive(Clone, Copy, Debug)]
pub struct NoSuchGlyph(char);

impl NoSuchGlyph {
    /// The character whose lookup failed.
    pub closed spec fn spec_character(&self) -> char {
        self.0
    }

    /// The character whose lookup failed, for diagnostics.
    pub fn character(&self) -> (c: char)
        ensures
            c == self.spec_character(),
    {
        self.0
    }
}

/// A read-only font: one raw glyph string per table index, and the code
/// point of index 0. Lookups never mutate it.
#[derive(Clone)]
pub struct Font {
    data: Vec<String>,
    offset: usize,
}

impl Font {
    /// The raw glyph strings, by table index.
    pub closed spec fn spec_data(&self) -> Seq<Seq<char>> {
        self.data@.map_values(|s: String| s@)
    }

    /// The code point of table index 0.
    pub closed spec fn spec_offset(&self) -> int {
        self.offset as int
    }

    /// Whether `ch` falls in the table's contiguous code-point range.
    pub open spec fn contains_char(&self, ch: char) -> bool {
        self.spec_offset() <= ch as int && (ch as int) < self.spec_offset() + self.spec_data().len()
    }

    /// Construct a table over `data`, with `offset` the character whose
    /// code point maps to index 0. Never fails.
    pub fn new(data: Vec<String>, offset: char) -> (f: Font)
        ensures
            f.spec_data() == data@.map_values(|s: String| s@),
            f.spec_offset() == offset as int,
    {
        Font { data, offset: (offset as u32) as usize }
    }

    /// Look up and decode the glyph for `ch`: succeeds exactly when `ch`'s
    /// code point falls in `[offset, offset + N)` for a table of `N` glyphs,
    /// and then returns the decoding of the raw string at index
    /// `ch - offset`; otherwise fails with [`NoSuchGlyph`] carrying `ch`.
    pub fn glyph(&self, ch: char) -> (r: Result<Glyph, NoSuchGlyph>)
        ensures
            r is Ok <==> self.contains_char(ch),
            r matches Ok(g) ==> g@ == decoded(self.spec_data()[ch as int - self.spec_offset()]),
            r matches Err(e) ==> e.spec_character() == ch,
    {
        let code = (ch as u32) as usize;
        if code < self.offset {
            return Err(NoSuchGlyph(ch));
        }
        let idx = code - self.offset;
        if idx >= self.data.len() {
            return Err(NoSuchGlyph(ch));
        }
        Ok(decode_glyph(self.data[idx].as_str()))
    }
}

} // verus!
