//! Time signature digit stacks and their centering.

use engraver::ir::Element;
use engraver::render::input::TimeSignature;
use engraver::{Glyph, Metrics, StaffSpaces, Table};

fn metrics() -> Metrics {
    let mut advance_widths = Table::new();
    for glyph in [
        Glyph::TimeSig0,
        Glyph::TimeSig1,
        Glyph::TimeSig2,
        Glyph::TimeSig3,
        Glyph::TimeSig4,
        Glyph::TimeSig5,
        Glyph::TimeSig6,
        Glyph::TimeSig7,
        Glyph::TimeSig8,
        Glyph::TimeSig9,
    ] {
        advance_widths.set(glyph.index(), StaffSpaces::new(10_000_000));
    }
    Metrics {
        advance_widths,
        bounding_box_ne: Table::new(),
        anchors: Table::new(),
        engraving_defaults: Default::default(),
    }
}

/// The (codepoint, x, y) of every symbol the time signature renders at
/// x = 0, numerator row first.
fn symbols(time_signature: TimeSignature) -> (Vec<(char, i64, i64)>, i64) {
    let output = time_signature.render(StaffSpaces::new(0), &metrics()).unwrap();
    let mut symbols = Vec::new();
    for element in &output.elements {
        if let Element::Symbol(symbol) = element {
            symbols.push((symbol.value, symbol.origin.x.units, symbol.origin.y.units));
        }
    }
    (symbols, output.width.units)
}

#[test]
fn even_top_and_bottom() {
    let (symbols, width) = symbols(TimeSignature { numerator: 4, denominator: 4 });
    let four = Glyph::TimeSig4.codepoint();
    assert_eq!(symbols, vec![(four, 0, 30_000_000), (four, 0, 10_000_000)]);
    assert_eq!(width, 10_000_000);
}

#[test]
fn wide_on_top() {
    let (symbols, width) = symbols(TimeSignature { numerator: 12, denominator: 8 });
    assert_eq!(
        symbols,
        vec![
            (Glyph::TimeSig1.codepoint(), 0, 30_000_000),
            (Glyph::TimeSig2.codepoint(), 10_000_000, 30_000_000),
            (Glyph::TimeSig8.codepoint(), 5_000_000, 10_000_000),
        ]
    );
    assert_eq!(width, 20_000_000);
}

#[test]
fn wide_on_bottom() {
    let (symbols, width) = symbols(TimeSignature { numerator: 8, denominator: 12 });
    assert_eq!(
        symbols,
        vec![
            (Glyph::TimeSig8.codepoint(), 5_000_000, 30_000_000),
            (Glyph::TimeSig1.codepoint(), 0, 10_000_000),
            (Glyph::TimeSig2.codepoint(), 10_000_000, 10_000_000),
        ]
    );
    assert_eq!(width, 20_000_000);
}

#[test]
fn very_wide_on_top() {
    let (symbols, width) = symbols(TimeSignature { numerator: 128, denominator: 1 });
    assert_eq!(
        symbols,
        vec![
            (Glyph::TimeSig1.codepoint(), 0, 30_000_000),
            (Glyph::TimeSig2.codepoint(), 10_000_000, 30_000_000),
            (Glyph::TimeSig8.codepoint(), 20_000_000, 30_000_000),
            (Glyph::TimeSig1.codepoint(), 10_000_000, 10_000_000),
        ]
    );
    assert_eq!(width, 30_000_000);
}

#[test]
fn very_wide_on_bottom() {
    let (symbols, width) = symbols(TimeSignature { numerator: 1, denominator: 128 });
    assert_eq!(
        symbols,
        vec![
            (Glyph::TimeSig1.codepoint(), 10_000_000, 30_000_000),
            (Glyph::TimeSig1.codepoint(), 0, 10_000_000),
            (Glyph::TimeSig2.codepoint(), 10_000_000, 10_000_000),
            (Glyph::TimeSig8.codepoint(), 20_000_000, 10_000_000),
        ]
    );
    assert_eq!(width, 30_000_000);
}

#[test]
fn numerator_glyphs() {
    assert_eq!(
        TimeSignature { numerator: 12, denominator: 8 }.numerator_glyphs(),
        vec![Glyph::TimeSig1, Glyph::TimeSig2]
    );
}

#[test]
fn denominator_glyphs() {
    assert_eq!(
        TimeSignature { numerator: 12, denominator: 8 }.denominator_glyphs(),
        vec![Glyph::TimeSig8]
    );
}
