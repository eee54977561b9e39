//! The engine's smaller pieces, the beam protocol, the conversion policy,
//! and the end-to-end scenarios.

use engraver::ir::{Convert, Coord, DeviceConverter, Element, Symbol};
use engraver::render::context::Context;
use engraver::render::input::{
    Barline, Beam, Duration, Measure, Note, Staff, Value,
};
use engraver::{Anchors, Direction, Error, Glyph, Metrics, MetricKind, StaffSpaces, Table};

fn metrics() -> Metrics {
    let mut advance_widths = Table::new();
    for glyph in [Glyph::NoteheadBlack, Glyph::Flag8thUp, Glyph::Flag8thDown] {
        advance_widths.set(glyph.index(), StaffSpaces::new(10_000_000));
    }
    let mut anchors = Table::new();
    anchors.set(
        Glyph::NoteheadBlack.index(),
        Anchors {
            stem_up_se: Some(Coord {
                x: StaffSpaces::new(10_000_000),
                y: StaffSpaces::new(2_000_000),
            }),
            stem_down_nw: Some(Coord { x: StaffSpaces::new(0), y: StaffSpaces::new(-2_000_000) }),
        },
    );
    Metrics {
        advance_widths,
        bounding_box_ne: Table::new(),
        anchors,
        engraving_defaults: Default::default(),
    }
}

fn quarter_note(halves: i32) -> Note {
    Note {
        y: StaffSpaces::from_halves(halves),
        accidental: None,
        duration: Duration { value: Value::Quarter, dots: None },
        beam: None,
        id: None,
    }
}

#[test]
fn max() {
    assert_eq!(engraver::max(StaffSpaces::new(-1), StaffSpaces::new(1)).units, 1);
    assert_eq!(engraver::max(StaffSpaces::new(1), StaffSpaces::new(-1)).units, 1);
}

#[test]
fn beam_begin_twice_fails() {
    let mut context = Context::default();
    assert!(context.begin_beam(Direction::Up).is_ok());
    assert_eq!(
        context.begin_beam(Direction::Up),
        Err(Error::StartedBeamWhileBeamInProgress)
    );
}

#[test]
fn beam_end_without_begin_fails() {
    let mut context = Context::default();
    assert_eq!(context.end_beam().err(), Some(Error::EndedBeamWhileNoBeamInProgress));
}

#[test]
fn beam_begin_end_round_trip() {
    let mut context = Context::default();
    assert!(context.begin_beam(Direction::Down).is_ok());
    let beam = context.end_beam().unwrap();
    assert_eq!(beam.stem_direction, Direction::Down);
    assert!(beam.noteheads.is_empty());
    // The machine is idle again: a new beam may begin.
    assert!(context.begin_beam(Direction::Up).is_ok());
}

#[test]
fn beamed_notes_emit_one_beam_polygon() {
    let mut first = quarter_note(0);
    first.duration = Duration { value: Value::Eighth, dots: None };
    first.beam = Some(Beam::Begin);
    let mut second = first.clone();
    second.beam = Some(Beam::End);

    let staff = Staff {
        clef: None,
        key_signature: None,
        time_signature: None,
        measures: vec![Measure {
            elements: vec![
                engraver::render::input::measure::Element::Note(first),
                engraver::render::input::measure::Element::Note(second),
            ],
            barline: Barline::Thin,
        }],
    };
    let elements = staff.render(&metrics()).unwrap();

    // Two stems and the beam body; no flags, since the beam replaces them.
    let polygons = elements
        .iter()
        .filter(|element| matches!(element, Element::Polygon(_)))
        .count();
    assert_eq!(polygons, 3);
    let flags = elements
        .iter()
        .filter(|element| match element {
            Element::Symbol(symbol) => symbol.value == Glyph::Flag8thUp.codepoint(),
            _ => false,
        })
        .count();
    assert_eq!(flags, 0);
}

#[test]
fn quarter_note_measure_end_to_end() {
    // One measure holding a quarter note on the bottom line, closed by a
    // thin barline.
    let staff = Staff {
        clef: None,
        key_signature: None,
        time_signature: None,
        measures: vec![Measure {
            elements: vec![engraver::render::input::measure::Element::Note(quarter_note(0))],
            barline: Barline::Thin,
        }],
    };
    let elements = staff.render(&metrics()).unwrap();

    let noteheads = elements
        .iter()
        .filter(|element| match element {
            Element::Symbol(symbol) => symbol.value == Glyph::NoteheadBlack.codepoint(),
            _ => false,
        })
        .count();
    assert_eq!(noteheads, 1);

    let other_symbols = elements
        .iter()
        .filter(|element| match element {
            Element::Symbol(symbol) => symbol.value != Glyph::NoteheadBlack.codepoint(),
            _ => false,
        })
        .count();
    assert_eq!(other_symbols, 0, "no accidental and no flag");

    let stems = elements
        .iter()
        .filter(|element| matches!(element, Element::Polygon(_)))
        .count();
    assert_eq!(stems, 1);

    let mut barlines = 0;
    let mut leger_lines = 0;
    let mut staff_line_length = None;
    for element in &elements {
        if let Element::Line(line) = element {
            if line.from.x.units == line.to.x.units {
                barlines += 1;
            } else if matches!(line.cap, engraver::ir::Linecap::Round) {
                leger_lines += 1;
            } else {
                staff_line_length = Some(line.to.x.units);
            }
        }
    }
    assert_eq!(barlines, 1);
    assert_eq!(leger_lines, 0);

    // Total width: lead-in 1.0, measure padding 2.0, notehead width 1.0,
    // quarter spacing 2.0, trailing padding 2.0, thin barline 0.16.
    assert_eq!(staff_line_length, Some(81_600_000));
}

#[test]
fn chord_high_on_staff_resolves_stem_down() {
    // A chord of two notes above the middle line takes a downward stem.
    let chord = engraver::render::input::Chord::new(
        vec![
            engraver::render::input::chord::Note {
                y: StaffSpaces::from_halves(9),
                accidental: None,
            },
            engraver::render::input::chord::Note {
                y: StaffSpaces::from_halves(11),
                accidental: None,
            },
        ],
        Duration { value: Value::Quarter, dots: None },
        None,
        None,
    )
    .unwrap();
    assert_eq!(chord.stem_direction(), Some(Direction::Down));

    // And its rendered stem hangs from the highest note downward.
    let mut context = Context::default();
    let output = chord.render(StaffSpaces::new(0), &mut context, &metrics()).unwrap();
    let polygon = output
        .elements
        .iter()
        .find_map(|element| match element {
            Element::Polygon(polygon) => Some(polygon),
            _ => None,
        })
        .expect("a stem polygon");
    let min_y = polygon.points.iter().map(|p| p.y.units).min().unwrap();
    let max_y = polygon.points.iter().map(|p| p.y.units).max().unwrap();
    // Stem spans from the lowest note (4.5) up to the highest (5.5), with
    // the downward anchor 0.2 below the start.
    assert_eq!(max_y, 55_000_000 - 2_000_000);
    assert_eq!(min_y, 45_000_000);
}

#[test]
fn dotted_durations_earn_longer_spacing() {
    // A dot lengthens the spacing by half, a second dot by another
    // quarter: a dotted quarter earns 3.0 staff spaces, a double-dotted
    // one 3.5.
    for (dots, expected_length) in [
        (None, 81_600_000i64),
        (Some(engraver::Dots::Dot), 91_600_000),
        (Some(engraver::Dots::DoubleDot), 96_600_000),
    ] {
        let mut note = quarter_note(0);
        note.duration = Duration { value: Value::Quarter, dots };
        let staff = Staff {
            clef: None,
            key_signature: None,
            time_signature: None,
            measures: vec![Measure {
                elements: vec![engraver::render::input::measure::Element::Note(note)],
                barline: Barline::Thin,
            }],
        };
        let elements = staff.render(&metrics()).unwrap();
        let staff_line_length = elements
            .iter()
            .find_map(|element| match element {
                Element::Line(line) if line.from.x.units != line.to.x.units => {
                    Some(line.to.x.units)
                },
                _ => None,
            })
            .unwrap();
        assert_eq!(staff_line_length, expected_length);
    }
}

#[test]
fn width_falls_back_to_the_bounding_box() {
    // A glyph without an advance width takes the x of its bounding box's
    // north-east corner instead.
    let mut bounding_box_ne = Table::new();
    bounding_box_ne.set(
        Glyph::RestQuarter.index(),
        Coord { x: StaffSpaces::new(12_000_000), y: StaffSpaces::new(5_000_000) },
    );
    let metrics = Metrics {
        advance_widths: Table::new(),
        bounding_box_ne,
        anchors: Table::new(),
        engraving_defaults: Default::default(),
    };
    let rest = engraver::render::input::Rest {
        duration: Duration { value: Value::Quarter, dots: None },
        id: None,
    };
    let output = rest.render(StaffSpaces::new(0), &metrics).unwrap();
    assert_eq!(output.width.units, 12_000_000);
}

#[test]
fn missing_metric_is_a_typed_error() {
    let empty = Metrics {
        advance_widths: Table::new(),
        bounding_box_ne: Table::new(),
        anchors: Table::new(),
        engraving_defaults: Default::default(),
    };
    let mut context = Context::default();
    let result = quarter_note(0).render(StaffSpaces::new(0), &mut context, &empty);
    assert_eq!(
        result.err(),
        Some(Error::MissingGlyphData {
            glyph: Glyph::NoteheadBlack,
            data_type: MetricKind::Anchors,
        })
    );
}

#[test]
fn device_conversion_scales_and_flips() {
    let converter = DeviceConverter::new(15, StaffSpaces::new(100_000_000));
    let element = Element::Symbol(Symbol {
        origin: Coord { x: StaffSpaces::new(10_000_000), y: StaffSpaces::new(40_000_000) },
        value: 'x',
    });
    match element.convert(&converter) {
        Element::Symbol(symbol) => {
            assert_eq!(symbol.origin.x, 15);
            // y flips around the origin height of ten staff spaces.
            assert_eq!(symbol.origin.y, (10 - 4) * 15);
        },
        _ => panic!("expected a symbol"),
    }
}
