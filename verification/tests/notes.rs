//! Note rendering: noteheads, stems, flags, accidentals and leger lines.

use engraver::ir::{Coord, Element, Shape};
use engraver::render::context::Context;
use engraver::render::input::note::create_leger_lines;
use engraver::render::input::{Duration, Note, Value};
use engraver::{Accidental, Anchors, Glyph, Metrics, StaffSpaces, Table};

fn all_values() -> Vec<Value> {
    vec![
        Value::Whole,
        Value::Half,
        Value::Quarter,
        Value::Eighth,
        Value::Sixteenth,
        Value::ThirtySecond,
        Value::SixtyFourth,
        Value::OneHundredTwentyEighth,
        Value::TwoHundredFiftySixth,
    ]
}

fn metrics() -> Metrics {
    let mut advance_widths = Table::new();
    for glyph in [
        Glyph::NoteheadWhole,
        Glyph::NoteheadHalf,
        Glyph::NoteheadBlack,
        Glyph::Flag8thUp,
        Glyph::Flag16thUp,
        Glyph::Flag32ndUp,
        Glyph::Flag64thUp,
        Glyph::Flag128thUp,
        Glyph::Flag256thUp,
        Glyph::AccidentalDoubleFlat,
        Glyph::AccidentalFlat,
        Glyph::AccidentalNatural,
        Glyph::AccidentalSharp,
        Glyph::AccidentalDoubleSharp,
    ] {
        advance_widths.set(glyph.index(), StaffSpaces::new(10_000_000));
    }
    let mut anchors = Table::new();
    for glyph in [Glyph::NoteheadWhole, Glyph::NoteheadHalf, Glyph::NoteheadBlack] {
        anchors.set(
            glyph.index(),
            Anchors {
                stem_up_se: Some(Coord {
                    x: StaffSpaces::new(10_000_000),
                    y: StaffSpaces::new(2_000_000),
                }),
                stem_down_nw: Some(Coord {
                    x: StaffSpaces::new(0),
                    y: StaffSpaces::new(-2_000_000),
                }),
            },
        );
    }
    Metrics {
        advance_widths,
        bounding_box_ne: Table::new(),
        anchors,
        engraving_defaults: Default::default(),
    }
}

fn note(value: Value, accidental: Option<Accidental>) -> Note {
    Note {
        y: StaffSpaces::new(0),
        accidental,
        duration: Duration { value, dots: None },
        beam: None,
        id: None,
    }
}

fn render(note: Note) -> engraver::render::Output {
    let mut context = Context::default();
    note.render(StaffSpaces::new(100_000_000), &mut context, &metrics()).unwrap()
}

#[test]
fn noteheads_all() {
    // One note per duration value at the bottom line: open heads for whole
    // and half, black for the rest; a stem for everything but the whole
    // note, and an upward flag from the eighth on.
    let mut heads = Vec::new();
    let mut stems = 0;
    let mut flags = 0;
    for value in all_values() {
        let output = render(note(value, None));
        for element in &output.elements {
            match element {
                Element::Symbol(symbol) => {
                    if symbol.value == value.notehead_glyph().codepoint() {
                        heads.push(symbol.value);
                    } else {
                        flags += 1;
                    }
                },
                Element::Polygon(_) => stems += 1,
                _ => {},
            }
        }
    }
    assert_eq!(heads.len(), 9);
    assert_eq!(heads[0], Glyph::NoteheadWhole.codepoint());
    assert_eq!(heads[1], Glyph::NoteheadHalf.codepoint());
    for head in &heads[2..] {
        assert_eq!(*head, Glyph::NoteheadBlack.codepoint());
    }
    assert_eq!(stems, 8);
    assert_eq!(flags, 6);
}

#[test]
fn notes_accidentals() {
    let accidentals = vec![
        Accidental::DoubleFlat,
        Accidental::Flat,
        Accidental::Natural,
        Accidental::Sharp,
        Accidental::DoubleSharp,
    ];
    for accidental in accidentals {
        let output = render(note(Value::Quarter, Some(accidental)));
        let codepoint = accidental.glyph().codepoint();
        let found: Vec<_> = output
            .elements
            .iter()
            .filter_map(|element| match element {
                Element::Symbol(symbol) if symbol.value == codepoint => {
                    Some(symbol.origin.x.units)
                },
                _ => None,
            })
            .collect();
        // The accidental sits its own width plus three tenths left of the
        // notehead.
        assert_eq!(found, vec![100_000_000 - 3_000_000 - 10_000_000]);
    }
}

#[test]
fn noteheads_accidentals() {
    // Every accidental kind renders exactly one extra symbol.
    for accidental in [
        Accidental::DoubleFlat,
        Accidental::Flat,
        Accidental::Natural,
        Accidental::Sharp,
        Accidental::DoubleSharp,
    ] {
        let output = render(note(Value::Quarter, Some(accidental)));
        let symbols = output
            .elements
            .iter()
            .filter(|element| matches!(element, Element::Symbol(_)))
            .count();
        assert_eq!(symbols, 2);
    }
}

#[test]
fn note_with_id() {
    let note = Note {
        y: StaffSpaces::new(0),
        accidental: None,
        duration: Duration { value: Value::Whole, dots: None },
        beam: None,
        id: Some("test_note".to_string()),
    };
    let output = render(note);
    assert_eq!(output.elements.len(), 1);
    match &output.elements[0] {
        Element::Group(group) => {
            assert_eq!(group.id.as_deref(), Some("test_note"));
            assert!(matches!(group.elements[0], Shape::Symbol(_)));
        },
        _ => panic!("expected a group"),
    }
}

fn leger_line_count(y_halves: i32) -> usize {
    create_leger_lines(
        StaffSpaces::new(100_000_000),
        StaffSpaces::from_halves(y_halves),
        Glyph::NoteheadBlack,
        &metrics(),
    )
    .unwrap()
    .len()
}

#[test]
fn leger_lines_none_inside_staff() {
    assert_eq!(leger_line_count(0), 0);
    assert_eq!(leger_line_count(4), 0);
    assert_eq!(leger_line_count(8), 0);
}

#[test]
fn leger_lines_above() {
    // Any position above the top line gets at least one leger line.
    assert_eq!(leger_line_count(9), 1);
    assert_eq!(leger_line_count(10), 1);
    assert_eq!(leger_line_count(12), 2);
    assert_eq!(leger_line_count(13), 2);
}

#[test]
fn leger_lines_below() {
    assert_eq!(leger_line_count(-1), 1);
    assert_eq!(leger_line_count(-2), 1);
    assert_eq!(leger_line_count(-3), 1);
    assert_eq!(leger_line_count(-4), 2);
}
