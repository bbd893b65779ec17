use stroke_font::Font;
use stroke_font::Vector;

fn sample_font() -> Font {
    // Three glyphs, indexed from 'b': an empty one, a single stroke, and a
    // pen-up-only one.
    let data = vec![String::new(), String::from(" RSSTT"), String::from(" R")];
    Font::new(data, 'b')
}

#[test]
fn lookup_range() {
    // Size N = 3, offset O = 'b': success exactly on ['b', 'e').
    let f = sample_font();
    assert!(f.glyph('a').is_err()); // O - 1
    assert!(f.glyph('b').is_ok()); // O
    assert!(f.glyph('c').is_ok());
    assert!(f.glyph('d').is_ok()); // O + N - 1
    assert!(f.glyph('e').is_err()); // O + N
    assert!(f.glyph('z').is_err());
}

#[test]
fn lookup_far_below_offset_fails_cleanly() {
    // A character well below the offset must fail with NoSuchGlyph, not
    // wrap around or panic on the index arithmetic.
    let data = vec![String::from("SS")];
    let f = Font::new(data, 'z');
    assert!(f.glyph('a').is_err());
    assert!(f.glyph('\u{0}').is_err());
}

#[test]
fn error_carries_character() {
    let f = sample_font();
    let e = f.glyph('e').unwrap_err();
    assert_eq!(e.character(), 'e');
    let e = f.glyph('a').unwrap_err();
    assert_eq!(e.character(), 'a');
}

#[test]
fn glyph_decodes_indexed_entry() {
    let f = sample_font();
    let g = f.glyph('c').unwrap();
    assert_eq!(
        g.vectors,
        vec![Vector::MoveTo { x: 1, y: 1 }, Vector::LineTo { x: 2, y: 2 }]
    );
    assert_eq!((g.min_x, g.min_y, g.max_x, g.max_y), (0, 0, 2, 2));
    let g = f.glyph('b').unwrap();
    assert!(g.vectors.is_empty());
    let g = f.glyph('d').unwrap();
    assert!(g.vectors.is_empty());
    assert_eq!((g.min_x, g.min_y, g.max_x, g.max_y), (0, 0, 0, 0));
}

#[test]
fn repeated_lookups_agree() {
    // The table is read-only: repeated lookups of the same character give
    // identical glyphs.
    let f = sample_font();
    let g1 = f.glyph('c').unwrap();
    let g2 = f.glyph('c').unwrap();
    assert_eq!(g1.vectors, g2.vectors);
    assert_eq!(
        (g1.min_x, g1.min_y, g1.max_x, g1.max_y),
        (g2.min_x, g2.min_y, g2.max_x, g2.max_y)
    );
}
