//! Rest rendering.

use engraver::ir::{Element, Shape};
use engraver::render::input::{Duration, Rest, Value};
use engraver::{Glyph, Metrics, StaffSpaces, Table};

fn metrics() -> Metrics {
    let mut advance_widths = Table::new();
    for glyph in [
        Glyph::RestWhole,
        Glyph::RestHalf,
        Glyph::RestQuarter,
        Glyph::Rest8th,
        Glyph::Rest16th,
        Glyph::Rest32nd,
        Glyph::Rest64th,
        Glyph::Rest128th,
        Glyph::Rest256th,
    ] {
        advance_widths.set(glyph.index(), StaffSpaces::new(10_000_000));
    }
    Metrics {
        advance_widths,
        bounding_box_ne: Table::new(),
        anchors: Table::new(),
        engraving_defaults: Default::default(),
    }
}

#[test]
fn rests_all() {
    let values = vec![
        Value::Whole,
        Value::Half,
        Value::Quarter,
        Value::Eighth,
        Value::Sixteenth,
        Value::ThirtySecond,
        Value::SixtyFourth,
        Value::OneHundredTwentyEighth,
        Value::TwoHundredFiftySixth,
    ];
    for value in values {
        let rest = Rest { duration: Duration { value, dots: None }, id: None };
        let output = rest.render(StaffSpaces::new(70_000_000), &metrics()).unwrap();

        assert_eq!(output.elements.len(), 1);
        match &output.elements[0] {
            Element::Symbol(symbol) => {
                assert_eq!(symbol.value, value.rest_glyph().codepoint());
                assert_eq!(symbol.origin.x.units, 70_000_000);
                // Rests always sit on the middle line.
                assert_eq!(symbol.origin.y.units, 20_000_000);
            },
            _ => panic!("expected a symbol"),
        }
        assert_eq!(output.width.units, 10_000_000);
    }
}

#[test]
fn rest_with_id() {
    let rest = Rest {
        duration: Duration { value: Value::Whole, dots: None },
        id: Some("test_rest".to_string()),
    };
    let output = rest.render(StaffSpaces::new(0), &metrics()).unwrap();

    assert_eq!(output.elements.len(), 1);
    match &output.elements[0] {
        Element::Group(group) => {
            assert_eq!(group.id.as_deref(), Some("test_rest"));
            assert_eq!(group.elements.len(), 1);
            assert!(matches!(group.elements[0], Shape::Symbol(_)));
        },
        _ => panic!("expected a group"),
    }
}
