//! Accidental resolution across measures and key signatures.

use engraver::model::{
    Alteration, Clef, Duration, KeySignature, Measure, Note, Pitch, Staff, Step, Value,
};
use engraver::render::input;
use engraver::render::input::key_signature::Kind;

fn quarter() -> Duration {
    Duration { value: Value::Quarter, dots: None }
}

fn note(step: Step, alteration: Alteration) -> engraver::model::measure::Element {
    engraver::model::measure::Element::Note(Note {
        pitch: Pitch { step, alteration, octave: 4 },
        duration: quarter(),
        id: None,
    })
}

fn staff(key_signature: Option<KeySignature>, measures: Vec<Vec<engraver::model::measure::Element>>) -> Staff {
    Staff {
        clef: Clef::Treble,
        key_signature,
        time_signature: None,
        measures: measures
            .into_iter()
            .map(|elements| Measure { elements, barline: input::Barline::Thin })
            .collect(),
    }
}

fn accidentals_of(staff: Staff) -> Vec<Vec<Option<engraver::Accidental>>> {
    let input_staff = staff.into_input();
    input_staff
        .measures
        .into_iter()
        .map(|measure| {
            measure
                .elements
                .into_iter()
                .map(|element| match element {
                    input::measure::Element::Note(note) => note.accidental,
                    _ => panic!("expected a note"),
                })
                .collect()
        })
        .collect()
}

fn sharps(count: u8) -> Option<KeySignature> {
    Some(KeySignature::new(Kind::Sharps, count).unwrap())
}

#[test]
fn no_accidental_when_no_alteration_in_key_with_no_sharps() {
    let resolved = accidentals_of(staff(None, vec![vec![note(Step::F, Alteration::Natural)]]));
    assert_eq!(resolved, vec![vec![None]]);
}

#[test]
fn no_accidental_when_sharp_in_key_with_sharps() {
    let resolved = accidentals_of(staff(sharps(3), vec![vec![note(Step::F, Alteration::Sharp)]]));
    assert_eq!(resolved, vec![vec![None]]);
}

#[test]
fn accidental_when_natural_in_key_with_sharps() {
    let resolved = accidentals_of(staff(sharps(3), vec![vec![note(Step::F, Alteration::Natural)]]));
    assert_eq!(resolved, vec![vec![Some(engraver::Accidental::Natural)]]);
}

#[test]
fn accidental_when_flat_in_key_with_sharps() {
    let resolved = accidentals_of(staff(sharps(3), vec![vec![note(Step::F, Alteration::Flat)]]));
    assert_eq!(resolved, vec![vec![Some(engraver::Accidental::Flat)]]);
}

#[test]
fn accidental_when_alteration_not_in_key() {
    let resolved = accidentals_of(staff(None, vec![vec![note(Step::F, Alteration::Sharp)]]));
    assert_eq!(resolved, vec![vec![Some(engraver::Accidental::Sharp)]]);
}

#[test]
fn no_accidental_when_alteration_repeated() {
    let resolved = accidentals_of(staff(
        None,
        vec![vec![note(Step::F, Alteration::Sharp), note(Step::F, Alteration::Sharp)]],
    ));
    assert_eq!(resolved, vec![vec![Some(engraver::Accidental::Sharp), None]]);
}

#[test]
fn accidental_when_alteration_repeated_over_barline() {
    let resolved = accidentals_of(staff(
        None,
        vec![
            vec![note(Step::F, Alteration::Sharp)],
            vec![note(Step::F, Alteration::Sharp)],
        ],
    ));
    assert_eq!(
        resolved,
        vec![
            vec![Some(engraver::Accidental::Sharp)],
            vec![Some(engraver::Accidental::Sharp)],
        ]
    );
}

#[test]
fn accidental_canceled_in_next_bar() {
    let resolved = accidentals_of(staff(
        None,
        vec![
            vec![note(Step::F, Alteration::Sharp)],
            vec![note(Step::F, Alteration::Natural)],
        ],
    ));
    assert_eq!(
        resolved,
        vec![
            vec![Some(engraver::Accidental::Sharp)],
            vec![Some(engraver::Accidental::Natural)],
        ]
    );
}

#[test]
fn key_signature_alteration() {
    // c d# e f | c d# e# f, with no key signature: the carried-over sharps
    // still demand accidentals in the second measure, and the naturals that
    // matched the (absent) key signature do not.
    let resolved = accidentals_of(staff(
        None,
        vec![
            vec![
                note(Step::C, Alteration::Natural),
                note(Step::D, Alteration::Sharp),
                note(Step::E, Alteration::Natural),
                note(Step::F, Alteration::Natural),
            ],
            vec![
                note(Step::C, Alteration::Natural),
                note(Step::D, Alteration::Sharp),
                note(Step::E, Alteration::Sharp),
                note(Step::F, Alteration::Natural),
            ],
        ],
    ));
    assert_eq!(
        resolved,
        vec![
            vec![None, Some(engraver::Accidental::Sharp), None, None],
            vec![None, Some(engraver::Accidental::Sharp), Some(engraver::Accidental::Sharp), None],
        ]
    );
}
