//! The glyph decoder: a state machine that turns one glyph's raw coordinate
//! string into an ordered sequence of pen commands and a bounding box.
//!
//! The raw string is a flat sequence of two-character coordinate pairs. The
//! pair `' '`,`'R'` is a literal pen-up marker; any other pair encodes a
//! signed point, each character giving its code point minus that of `'R'`
//! (the encoding's zero-point reference). A trailing unpaired character is
//! silently dropped. Decoding is total: it never fails.

use vstd::prelude::*;

verus! {

/// A drawing instruction. Coordinates are signed font design units.
#[derive(Clone, Copy, Debug, PartialEq, Eq, Structural)]
pub enum Vector {
    /// Lift the pen and reposition without drawing.
    MoveTo { x: i32, y: i32 },
    /// Draw a straight segment from the current pen position.
    LineTo { x: i32, y: i32 },
}

/// The decoded output for one character: the pen commands in drawing order,
/// and the bounding box over every visited coordinate (reposition points
/// included), each bound starting at 0 and widened monotonically.
#[derive(Debug)]
pub struct Glyph {
    pub vectors: Vec<Vector>,
    pub min_x: i32,
    pub min_y: i32,
    pub max_x: i32,
    pub max_y: i32,
}

/// The pen state while decoding: `Idle` before any pair is consumed, `Up`
/// after a lift, `Hovering` once a single point is pending after a lift,
/// `Down` mid-stroke.
#[derive(Clone, Copy, Debug, PartialEq, Eq, Structural)]
pub enum Pen {
    Idle,
    Up,
    Hovering,
    Down,
}

/// The mathematical value of a decoded glyph.
#[verifier::ext_equal]
pub ghost struct GlyphView {
    pub vectors: Seq<Vector>,
    pub min_x: int,
    pub min_y: int,
    pub max_x: int,
    pub max_y: int,
}

impl View for Glyph {
    type V = GlyphView;

    open spec fn view(&self) -> GlyphView {
        GlyphView {
            vectors: self.vectors@,
            min_x: self.min_x as int,
            min_y: self.min_y as int,
            max_x: self.max_x as int,
            max_y: self.max_y as int,
        }
    }
}

/// The full decoder state after some prefix of the coordinate pairs.
#[verifier::ext_equal]
pub ghost struct DecodeState {
    pub glyph: GlyphView,
    pub pen: Pen,
    pub x: int,
    pub y: int,
}

/// The signed coordinate a single character encodes.
pub open spec fn coord_of(c: char) -> int {
    c as int - 'R' as int
}

/// Whether a pair of characters is the literal pen-up marker.
pub open spec fn is_pen_up_marker(c1: char, c2: char) -> bool {
    c1 == ' ' && c2 == 'R'
}

/// The decoder state before any pair has been consumed.
pub open spec fn initial_state() -> DecodeState {
    DecodeState {
        glyph: GlyphView { vectors: Seq::empty(), min_x: 0, min_y: 0, max_x: 0, max_y: 0 },
        pen: Pen::Idle,
        x: 0,
        y: 0,
    }
}

/// The bounding box of `g` widened to contain the point `(x, y)`.
pub open spec fn widen_bounds(g: GlyphView, x: int, y: int) -> GlyphView {
    GlyphView {
        vectors: g.vectors,
        min_x: if x < g.min_x { x } else { g.min_x },
        min_y: if y < g.min_y { y } else { g.min_y },
        max_x: if x > g.max_x { x } else { g.max_x },
        max_y: if y > g.max_y { y } else { g.max_y },
    }
}

/// One transition of the decoding state machine, consuming the pair
/// `(c1, c2)`: a pen-up marker only lifts the pen; otherwise a pending
/// `Hovering` point is flushed as a `MoveTo`, the new point is taken up,
/// the pen advances (`Idle` primes to `Up`, `Up` to `Hovering`, `Hovering`
/// and `Down` draw a `LineTo` and stay `Down`), and the bounding box is
/// widened by the new point.
pub open spec fn step(st: DecodeState, c1: char, c2: char) -> DecodeState {
    if is_pen_up_marker(c1, c2) {
        DecodeState { pen: Pen::Up, ..st }
    } else {
        let nx = coord_of(c1);
        let ny = coord_of(c2);
        let flushed = if st.pen is Hovering {
            st.glyph.vectors.push(Vector::MoveTo { x: st.x as i32, y: st.y as i32 })
        } else {
            st.glyph.vectors
        };
        let (vectors, pen) = match st.pen {
            Pen::Idle => (flushed, Pen::Up),
            Pen::Up => (flushed, Pen::Hovering),
            Pen::Hovering | Pen::Down => (
                flushed.push(Vector::LineTo { x: nx as i32, y: ny as i32 }),
                Pen::Down,
            ),
        };
        DecodeState {
            glyph: widen_bounds(
                GlyphView { vectors, ..st.glyph },
                nx,
                ny,
            ),
            pen,
            x: nx,
            y: ny,
        }
    }
}

/// The decoder state after the first `n` coordinate pairs of `s`.
pub open spec fn decode_prefix(s: Seq<char>, n: nat) -> DecodeState
    decreases n,
{
    if n == 0 {
        initial_state()
    } else {
        step(decode_prefix(s, (n - 1) as nat), s[2 * (n - 1)], s[2 * (n - 1) + 1])
    }
}

/// The glyph a raw string decodes to: all its complete pairs are consumed,
/// in order; a trailing unpaired character forms no pair.
pub open spec fn decoded(s: Seq<char>) -> GlyphView {
    decode_prefix(s, s.len() / 2).glyph
}

/// Decode one glyph's raw coordinate string. Total: every string decodes.
pub fn decode_glyph(data: &str) -> (g: Glyph)
    ensures
        g@ == decoded(data@),
{
    let len = data.unicode_len();
    let pairs = len / 2;
    let mut vectors: Vec<Vector> = Vec::new();
    let mut min_x: i32 = 0;
    let mut min_y: i32 = 0;
    let mut max_x: i32 = 0;
    let mut max_y: i32 = 0;
    let mut pen = Pen::Idle;
    let mut x: i32 = 0;
    let mut y: i32 = 0;
    let mut i: usize = 0;
    while i < pairs
        invariant
            len == data@.len(),
            pairs == len / 2,
            i <= pairs,
            ({
                let st = decode_prefix(data@, i as nat);
                &&& vectors@ == st.glyph.vectors
                &&& min_x as int == st.glyph.min_x
                &&& min_y as int == st.glyph.min_y
                &&& max_x as int == st.glyph.max_x
                &&& max_y as int == st.glyph.max_y
                &&& pen == st.pen
                &&& x as int == st.x
                &&& y as int == st.y
            }),
        decreases pairs - i,
    {
        let c1 = data.get_char(2 * i);
        let c2 = data.get_char(2 * i + 1);
        if c1 == ' ' && c2 == 'R' {
            pen = Pen::Up;
        } else {
            let nx = (c1 as u32) as i32 - ('R' as u32) as i32;
            let ny = (c2 as u32) as i32 - ('R' as u32) as i32;
            if pen == Pen::Hovering {
                vectors.push(Vector::MoveTo { x, y });
            }
            x = nx;
            y = ny;
            match pen {
                Pen::Idle => {
                    pen = Pen::Up;
                },
                Pen::Up => {
                    pen = Pen::Hovering;
                },
                Pen::Hovering | Pen::Down => {
                    vectors.push(Vector::LineTo { x, y });
                    pen = Pen::Down;
                },
            }
            if x < min_x {
                min_x = x;
            }
            if y < min_y {
                min_y = y;
            }
            if x > max_x {
                max_x = x;
            }
            if y > max_y {
                max_y = y;
            }
        }
        i = i + 1;
        proof {
            assert(decode_prefix(data@, i as nat) == step(
                decode_prefix(data@, (i - 1) as nat),
                data@[2 * (i - 1)],
                data@[2 * (i - 1) + 1],
            ));
        }
    }
    let g = Glyph { vectors, min_x, min_y, max_x, max_y };
    proof {
        assert(g@ =~= decoded(data@));
    }
    g
}

/// Law: decoding an empty raw string yields no vectors and the zero
/// bounding box.
pub proof fn lemma_decode_empty(s: Seq<char>)
    requires
        s.len() == 0,
    ensures
        decoded(s).vectors =~= Seq::<Vector>::empty(),
        decoded(s).min_x == 0,
        decoded(s).min_y == 0,
        decoded(s).max_x == 0,
        decoded(s).max_y == 0,
{
}

/// Every prefix made only of pen-up markers leaves the glyph untouched.
proof fn lemma_pen_up_only_prefix(s: Seq<char>, n: nat)
    requires
        forall|k: int| 0 <= k < n ==> #[trigger] is_pen_up_marker(s[2 * k], s[2 * k + 1]),
    ensures
        decode_prefix(s, n).glyph == initial_state().glyph,
    decreases n,
{
    if n > 0 {
        lemma_pen_up_only_prefix(s, (n - 1) as nat);
        assert(is_pen_up_marker(s[2 * (n - 1)], s[2 * (n - 1) + 1]));
    }
}

/// Law: decoding a string made only of pen-up markers yields no vectors and
/// the zero bounding box.
pub proof fn lemma_decode_pen_up_only(s: Seq<char>)
    requires
        forall|k: int| 0 <= k < s.len() / 2 ==> #[trigger] is_pen_up_marker(s[2 * k], s[2 * k + 1]),
    ensures
        decoded(s).vectors =~= Seq::<Vector>::empty(),
        decoded(s).min_x == 0,
        decoded(s).min_y == 0,
        decoded(s).max_x == 0,
        decoded(s).max_y == 0,
{
    lemma_pen_up_only_prefix(s, s.len() / 2);
}

/// Decoding a prefix of pairs reads only the characters those pairs cover.
proof fn lemma_decode_prefix_agrees(s1: Seq<char>, s2: Seq<char>, n: nat)
    requires
        forall|k: int| 0 <= k < 2 * n ==> s1[k] == #[trigger] s2[k],
    ensures
        decode_prefix(s1, n) == decode_prefix(s2, n),
    decreases n,
{
    if n > 0 {
        lemma_decode_prefix_agrees(s1, s2, (n - 1) as nat);
        assert(s1[2 * (n - 1)] == s2[2 * (n - 1)]);
        assert(s1[2 * (n - 1) + 1] == s2[2 * (n - 1) + 1]);
    }
}

/// Law: a trailing unpaired character is dropped — a string of odd length
/// decodes exactly as the same string without its final character.
pub proof fn lemma_trailing_odd_char_dropped(s: Seq<char>)
    requires
        s.len() % 2 == 1,
    ensures
        decoded(s) == decoded(s.take(s.len() - 1)),
{
    let t = s.take(s.len() - 1);
    assert(t.len() / 2 == s.len() / 2);
    lemma_decode_prefix_agrees(s, t, s.len() / 2);
}

/// Law: a pen-up marker breaks a stroke. A string encoding a point `A`,
/// then the marker, then points `B` and `C`, decodes to exactly a `MoveTo`
/// at `B` (not at `A`) followed by a `LineTo` at `C`: the marker resets the
/// pen, so `B` starts a fresh stroke rather than continuing from `A`.
pub proof fn lemma_marker_starts_new_stroke(
    a1: char,
    a2: char,
    b1: char,
    b2: char,
    c1: char,
    c2: char,
)
    requires
        !is_pen_up_marker(a1, a2),
        !is_pen_up_marker(b1, b2),
        !is_pen_up_marker(c1, c2),
    ensures
        decoded(seq![a1, a2, ' ', 'R', b1, b2, c1, c2]).vectors =~= seq![
            Vector::MoveTo { x: coord_of(b1) as i32, y: coord_of(b2) as i32 },
            Vector::LineTo { x: coord_of(c1) as i32, y: coord_of(c2) as i32 },
        ],
{
    let s = seq![a1, a2, ' ', 'R', b1, b2, c1, c2];
    assert(s[0] == a1 && s[1] == a2);
    assert(s[2] == ' ' && s[3] == 'R');
    assert(s[4] == b1 && s[5] == b2);
    assert(s[6] == c1 && s[7] == c2);
    let st1 = decode_prefix(s, 1);
    let st2 = decode_prefix(s, 2);
    let st3 = decode_prefix(s, 3);
    let st4 = decode_prefix(s, 4);
    assert(decode_prefix(s, 0) == initial_state());
    assert(st1 == step(initial_state(), a1, a2));
    assert(st1.pen is Up && st1.glyph.vectors =~= Seq::<Vector>::empty());
    assert(st2 == step(st1, ' ', 'R'));
    assert(st2.pen is Up && st2.glyph.vectors =~= Seq::<Vector>::empty());
    assert(st3 == step(st2, b1, b2));
    assert(st3.pen is Hovering && st3.glyph.vectors =~= Seq::<Vector>::empty());
    assert(st3.x == coord_of(b1) && st3.y == coord_of(b2));
    assert(st4 == step(st3, c1, c2));
    assert(s.len() / 2 == 4);
}

/// Law: decoding is a pure function of the raw string — two glyphs decoded
/// from the same string have identical vector sequences and bounding boxes.
pub proof fn lemma_decode_deterministic(g1: Glyph, g2: Glyph, s: Seq<char>)
    requires
        g1@ == decoded(s),
        g2@ == decoded(s),
    ensures
        g1.vectors@ == g2.vectors@,
        g1.min_x == g2.min_x,
        g1.min_y == g2.min_y,
        g1.max_x == g2.max_x,
        g1.max_y == g2.max_y,
{
}

} // verus!
