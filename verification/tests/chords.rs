//! Chord construction, stem direction and notehead side placement.

use engraver::ir::{Coord, Element, Shape};
use engraver::render::context::Context;
use engraver::render::input::chord::Note;
use engraver::render::input::{Chord, Duration, Value};
use engraver::{Anchors, Direction, Glyph, Metrics, StaffSpaces, Table};

fn all_glyphs() -> Vec<Glyph> {
    vec![
        Glyph::GClef,
        Glyph::CClef,
        Glyph::FClef,
        Glyph::NoteheadWhole,
        Glyph::NoteheadHalf,
        Glyph::NoteheadBlack,
        Glyph::Flag8thUp,
        Glyph::Flag8thDown,
        Glyph::Flag16thUp,
        Glyph::Flag16thDown,
        Glyph::Flag32ndUp,
        Glyph::Flag32ndDown,
        Glyph::Flag64thUp,
        Glyph::Flag64thDown,
        Glyph::Flag128thUp,
        Glyph::Flag128thDown,
        Glyph::Flag256thUp,
        Glyph::Flag256thDown,
        Glyph::RestWhole,
        Glyph::RestHalf,
        Glyph::RestQuarter,
        Glyph::Rest8th,
        Glyph::Rest16th,
        Glyph::Rest32nd,
        Glyph::Rest64th,
        Glyph::Rest128th,
        Glyph::Rest256th,
        Glyph::AccidentalDoubleFlat,
        Glyph::AccidentalFlat,
        Glyph::AccidentalNatural,
        Glyph::AccidentalSharp,
        Glyph::AccidentalDoubleSharp,
        Glyph::TimeSig0,
        Glyph::TimeSig1,
        Glyph::TimeSig2,
        Glyph::TimeSig3,
        Glyph::TimeSig4,
        Glyph::TimeSig5,
        Glyph::TimeSig6,
        Glyph::TimeSig7,
        Glyph::TimeSig8,
        Glyph::TimeSig9,
    ]
}

fn metrics() -> Metrics {
    let mut advance_widths = Table::new();
    for glyph in all_glyphs() {
        advance_widths.set(glyph.index(), StaffSpaces::new(10_000_000));
    }
    let mut anchors = Table::new();
    for glyph in [Glyph::NoteheadWhole, Glyph::NoteheadHalf, Glyph::NoteheadBlack] {
        anchors.set(
            glyph.index(),
            Anchors {
                stem_up_se: Some(Coord {
                    x: StaffSpaces::new(10_000_000),
                    y: StaffSpaces::new(2_000_000),
                }),
                stem_down_nw: Some(Coord {
                    x: StaffSpaces::new(0),
                    y: StaffSpaces::new(-2_000_000),
                }),
            },
        );
    }
    Metrics {
        advance_widths,
        bounding_box_ne: Table::new(),
        anchors,
        engraving_defaults: Default::default(),
    }
}

fn quarter() -> Duration {
    Duration { value: Value::Quarter, dots: None }
}

fn whole() -> Duration {
    Duration { value: Value::Whole, dots: None }
}

fn chord_notes(halves: &[i32]) -> Vec<Note> {
    halves.iter().map(|&h| Note { y: StaffSpaces::from_halves(h), accidental: None }).collect()
}

fn chord(halves: &[i32]) -> Chord {
    Chord::new(chord_notes(halves), quarter(), None, None).unwrap()
}

/// The x positions, in units, of the chord's notehead symbols, bottom to
/// top, when the chord is rendered at x = 10 staff spaces.
fn notehead_positions(halves: &[i32]) -> Vec<i64> {
    let chord = chord(halves);
    let mut context = Context::default();
    let output = chord
        .render(StaffSpaces::new(100_000_000), &mut context, &metrics())
        .unwrap();

    let notehead = Glyph::NoteheadBlack.codepoint();
    let mut positions = Vec::new();
    for element in &output.elements {
        if let Element::Symbol(symbol) = element {
            if symbol.value == notehead {
                positions.push(symbol.origin.x.units);
            }
        }
    }
    positions
}

const DEFAULT: i64 = 100_000_000;
const RIGHT: i64 = 110_000_000;
const LEFT: i64 = 90_000_000;

#[test]
#[should_panic]
fn input_panics_with_no_notes() {
    Chord::new(vec![], whole(), None, None).unwrap();
}

#[test]
#[should_panic]
fn input_panics_with_one_note() {
    Chord::new(
        vec![Note { y: StaffSpaces::from_halves(0), accidental: None }],
        whole(),
        None,
        None,
    )
    .unwrap();
}

#[test]
#[should_panic]
fn model_panics_with_no_notes() {
    engraver::model::Chord::new(vec![], whole(), None).unwrap();
}

#[test]
#[should_panic]
fn model_panics_with_one_note() {
    engraver::model::Chord::new(
        vec![engraver::model::Pitch {
            step: engraver::model::Step::C,
            alteration: engraver::model::Alteration::Natural,
            octave: 4,
        }],
        whole(),
        None,
    )
    .unwrap();
}

#[test]
fn equal_notes_share_a_second() {
    // Two notes on the very same position form a zero-width second: the
    // upper one (in processing order) moves to the opposite side.
    assert_eq!(notehead_positions(&[2, 2]), vec![DEFAULT, RIGHT]);
}

#[test]
fn two_notes_succeed_and_sort() {
    let chord = Chord::new(chord_notes(&[2, 0]), whole(), None, None).unwrap();
    assert_eq!(chord.notes[0].y.units, 0);
    assert_eq!(chord.notes[1].y.units, 10_000_000);
}

// Stem direction, after Gardner Read's examples.
#[test]
fn stem_direction_gardner_example_5_12_1() {
    assert_eq!(chord(&[9, 11]).stem_direction(), Some(Direction::Down));
}

#[test]
fn stem_direction_gardner_example_5_12_2() {
    assert_eq!(chord(&[6, 10, 13]).stem_direction(), Some(Direction::Down));
}

#[test]
fn stem_direction_gardner_example_5_12_3() {
    assert_eq!(chord(&[-3, -1, 1, 3]).stem_direction(), Some(Direction::Up));
}

#[test]
fn stem_direction_gardner_example_5_12_4() {
    assert_eq!(chord(&[-2, 0, 2, 5]).stem_direction(), Some(Direction::Up));
}

#[test]
fn stem_direction_tie_means_no_preference() {
    // Lowest and highest equidistant from the middle line.
    assert_eq!(chord(&[2, 6]).stem_direction(), None);
    assert_eq!(chord(&[0, 3, 8]).stem_direction(), None);
}

// Notehead side placement, after Gardner Read's examples.
#[test]
fn note_side_stem_up_left() {
    assert_eq!(notehead_positions(&[0, 2, 4]), vec![DEFAULT, DEFAULT, DEFAULT]);
}

#[test]
fn note_side_stem_down_right() {
    assert_eq!(notehead_positions(&[6, 8, 10]), vec![DEFAULT, DEFAULT, DEFAULT]);
}

#[test]
fn note_side_gardner_example_5_18_1() {
    assert_eq!(notehead_positions(&[3, 4]), vec![DEFAULT, RIGHT]);
}

#[test]
fn note_side_gardner_example_5_18_3() {
    assert_eq!(notehead_positions(&[7, 8]), vec![LEFT, DEFAULT]);
}

#[test]
fn note_side_gardner_example_5_19_1() {
    assert_eq!(notehead_positions(&[-1, 1, 2, 4]), vec![DEFAULT, DEFAULT, RIGHT, DEFAULT]);
}

#[test]
fn note_side_gardner_example_5_19_3() {
    assert_eq!(notehead_positions(&[4, 6, 8, 9]), vec![DEFAULT, DEFAULT, LEFT, DEFAULT]);
}

#[test]
fn chord_with_id() {
    let chord = Chord::new(chord_notes(&[0, 2, 4]), whole(), None, Some("test_chord".to_string()))
        .unwrap();
    let mut context = Context::default();
    let output = chord
        .render(StaffSpaces::new(100_000_000), &mut context, &metrics())
        .unwrap();

    assert_eq!(output.elements.len(), 1);
    match &output.elements[0] {
        Element::Group(group) => {
            assert_eq!(group.id.as_deref(), Some("test_chord"));
            let noteheads = group
                .elements
                .iter()
                .filter(|shape| matches!(shape, Shape::Symbol(_)))
                .count();
            assert_eq!(noteheads, 3);
        },
        _ => panic!("expected a group"),
    }
}
