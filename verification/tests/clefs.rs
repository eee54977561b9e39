//! Key signature placement under each clef.

use engraver::model::{Clef, KeySignature, Staff};
use engraver::render::input::key_signature::Kind;

/// The key signature accidental heights, in half staff spaces, of a staff
/// with the given clef and a full seven-accidental signature.
fn pitches_in_halves(clef: Clef, kind: Kind) -> Vec<i64> {
    let staff = Staff {
        clef,
        key_signature: Some(KeySignature::new(kind, 7).unwrap()),
        time_signature: None,
        measures: vec![],
    };
    let input_staff = staff.into_input();
    let key_signature = input_staff.key_signature.unwrap();
    assert_eq!(key_signature.kind, kind);
    key_signature.pitches.iter().map(|p| p.units / 5_000_000).collect()
}

#[test]
fn treble_clef_sharps() {
    assert_eq!(pitches_in_halves(Clef::Treble, Kind::Sharps), vec![8, 5, 9, 6, 3, 7, 4]);
}

#[test]
fn treble_clef_flats() {
    assert_eq!(pitches_in_halves(Clef::Treble, Kind::Flats), vec![4, 7, 3, 6, 2, 5, 1]);
}

#[test]
fn alto_clef_sharps() {
    assert_eq!(pitches_in_halves(Clef::Alto, Kind::Sharps), vec![7, 4, 8, 5, 2, 6, 3]);
}

#[test]
fn alto_clef_flats() {
    assert_eq!(pitches_in_halves(Clef::Alto, Kind::Flats), vec![3, 6, 2, 5, 1, 4, 0]);
}

#[test]
fn tenor_clef_sharps() {
    assert_eq!(pitches_in_halves(Clef::Tenor, Kind::Sharps), vec![9, 6, 10, 7, 4, 8, 5]);
}

#[test]
fn tenor_clef_flats() {
    assert_eq!(pitches_in_halves(Clef::Tenor, Kind::Flats), vec![5, 8, 4, 7, 3, 6, 2]);
}

#[test]
fn bass_clef_sharps() {
    assert_eq!(pitches_in_halves(Clef::Bass, Kind::Sharps), vec![6, 3, 7, 4, 1, 5, 2]);
}

#[test]
fn bass_clef_flats() {
    assert_eq!(pitches_in_halves(Clef::Bass, Kind::Flats), vec![2, 5, 1, 4, 0, 3, -1]);
}
