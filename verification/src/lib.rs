//! Decoder for a compact stroke-font encoding: each glyph is one line of
//! text whose character pairs encode pen coordinates, and decoding turns it
//! into a sequence of drawable pen movements plus a bounding box.

pub mod decode;
pub mod font;

pub use decode::decode_glyph;
pub use decode::Glyph;
pub use decode::Vector;
pub use font::Font;
pub use font::NoSuchGlyph;
