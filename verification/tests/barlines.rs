//! Barline rendering: one measure per barline kind.

use engraver::ir::Element;
use engraver::render::input::{Barline, Measure, Staff};
use engraver::{Metrics, StaffSpaces, Table};

fn metrics() -> Metrics {
    Metrics {
        advance_widths: Table::new(),
        bounding_box_ne: Table::new(),
        anchors: Table::new(),
        engraving_defaults: Default::default(),
    }
}

#[test]
fn barlines_all() {
    let staff = Staff {
        clef: None,
        key_signature: None,
        time_signature: None,
        measures: vec![
            Measure { elements: vec![], barline: Barline::Thin },
            Measure { elements: vec![], barline: Barline::Final },
        ],
    };
    let elements = staff.render(&metrics()).unwrap();

    // A vertical line is a barline; a horizontal one is a staff line.
    let mut barlines = Vec::new();
    let mut staff_line_length = None;
    for element in &elements {
        if let Element::Line(line) = element {
            if line.from.x.units == line.to.x.units {
                barlines.push((line.from.x.units, line.thickness.units));
            } else {
                staff_line_length = Some(line.to.x.units);
            }
        }
    }

    // With the fallback engraving defaults: thin 0.16, thick 0.5,
    // separation 0.4 staff spaces. First measure: lead-in 1.0 plus padding
    // 2.0 + 2.0; the line is centered on its thickness.
    assert_eq!(
        barlines,
        vec![
            (50_800_000, 1_600_000),
            (92_400_000, 1_600_000),
            (99_700_000, 5_000_000),
        ]
    );
    // The staff lines span to the final cursor position.
    assert_eq!(staff_line_length, Some(102_200_000));
}
