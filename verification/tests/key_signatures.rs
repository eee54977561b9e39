//! Rendering key signatures that were already resolved to heights.

use engraver::ir::Element;
use engraver::model::KeySignature as ModelKeySignature;
use engraver::render::input::key_signature::Kind;
use engraver::render::input::{KeySignature, Staff};
use engraver::{Glyph, Metrics, StaffSpaces, Table};

fn metrics() -> Metrics {
    let mut advance_widths = Table::new();
    for glyph in [Glyph::AccidentalSharp, Glyph::AccidentalFlat] {
        advance_widths.set(glyph.index(), StaffSpaces::new(10_000_000));
    }
    Metrics {
        advance_widths,
        bounding_box_ne: Table::new(),
        anchors: Table::new(),
        engraving_defaults: Default::default(),
    }
}

fn staff_with_key_signature(kind: Kind, halves: Vec<i32>) -> Staff {
    Staff {
        clef: None,
        key_signature: Some(KeySignature {
            kind,
            pitches: halves.into_iter().map(StaffSpaces::from_halves).collect(),
        }),
        time_signature: None,
        measures: vec![],
    }
}

/// The (x, y) origins, in units, of the accidental symbols the staff
/// renders.
fn symbol_origins(staff: Staff, glyph: Glyph) -> Vec<(i64, i64)> {
    let elements = staff.render(&metrics()).unwrap();
    let codepoint = glyph.codepoint();
    elements
        .iter()
        .filter_map(|element| match element {
            Element::Symbol(symbol) if symbol.value == codepoint => {
                Some((symbol.origin.x.units, symbol.origin.y.units))
            },
            _ => None,
        })
        .collect()
}

#[test]
fn sharps() {
    let staff = staff_with_key_signature(Kind::Sharps, vec![8, 5, 9, 6]);
    // Lead-in of one staff space, then one glyph width plus a tenth per
    // accidental.
    assert_eq!(
        symbol_origins(staff, Glyph::AccidentalSharp),
        vec![
            (10_000_000, 40_000_000),
            (21_000_000, 25_000_000),
            (32_000_000, 45_000_000),
            (43_000_000, 30_000_000),
        ]
    );
}

#[test]
fn key_signature_count_clamped() {
    assert!(ModelKeySignature::new(Kind::Sharps, 0).is_none());
    assert!(ModelKeySignature::new(Kind::Sharps, 8).is_none());
    assert!(ModelKeySignature::new(Kind::Flats, 0).is_none());
    assert!(ModelKeySignature::new(Kind::Flats, 8).is_none());
    for count in 1..=7u8 {
        let key_signature = ModelKeySignature::new(Kind::Flats, count).unwrap();
        assert_eq!(key_signature.num, count);
        assert_eq!(key_signature.kind, Kind::Flats);
    }
}

#[test]
fn flats() {
    let staff = staff_with_key_signature(Kind::Flats, vec![4, 7, 3, 6]);
    assert_eq!(
        symbol_origins(staff, Glyph::AccidentalFlat),
        vec![
            (10_000_000, 20_000_000),
            (21_000_000, 35_000_000),
            (32_000_000, 15_000_000),
            (43_000_000, 30_000_000),
        ]
    );
}
