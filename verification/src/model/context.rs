//! The notation context: the accidental memory of one render pass.
//!
//! The context remembers, per (step, octave), the alteration last seen in
//! the current measure and the one carried over from the measure before,
//! seeded against the active key signature. Each pitch is resolved by an
//! ordered decision: a differing record in the current measure demands an
//! accidental; a matching one suppresses it; a record in the previous
//! measure demands one when it differs, and when it matches still demands
//! one unless the pitch already agrees with the key signature; with no
//! memory at all, the key signature alone decides.

use vstd::prelude::*;

use crate::model::key_signature::KeySignature;
use crate::model::pitch::{spec_pitch_key, pitch_key, Alteration, Pitch};
use crate::staff_spaces::StaffSpaces;
use crate::table::Table;

verus! {

/// Whether a resolved pitch must carry an accidental.
#[derive(Clone, Copy, Debug, PartialEq, Eq, Structural)]
pub enum AccidentalState {
    NeedsAccidental,
    NoAccidental,
}

/// The per-pass notation state: where the clef put middle C, the active
/// key signature, and the accidental memory of the previous and the
/// current measure, keyed by (step, octave).
#[derive(Debug)]
pub struct Context {
    pub middle_c_position: StaffSpaces,
    pub key_signature: Option<KeySignature>,
    pub previous_measure_alterations: Table<Alteration>,
    pub current_measure_alterations: Table<Alteration>,
}

/// The alteration the active key signature gives a step: natural when no
/// key signature is active.
pub open spec fn spec_key_signature_alteration(
    key_signature: Option<KeySignature>,
    step: crate::model::pitch::Step,
) -> Alteration {
    match key_signature {
        Some(key_signature) => key_signature.spec_alteration_of(step),
        None => Alteration::Natural,
    }
}

/// The ordered accidental decision, over the two memories and the key
/// signature: the current measure's record wins, then a differing record
/// from the previous measure, then the key signature.
pub open spec fn spec_accidental_state(
    previous: Map<u64, Alteration>,
    current: Map<u64, Alteration>,
    key_signature: Option<KeySignature>,
    pitch: Pitch,
) -> AccidentalState {
    let key = spec_pitch_key(pitch.step, pitch.octave as int);
    if current.contains_key(key) {
        if current[key] != pitch.alteration {
            AccidentalState::NeedsAccidental
        } else {
            AccidentalState::NoAccidental
        }
    } else if previous.contains_key(key) && previous[key] != pitch.alteration {
        AccidentalState::NeedsAccidental
    } else if pitch.alteration != spec_key_signature_alteration(key_signature, pitch.step) {
        AccidentalState::NeedsAccidental
    } else {
        AccidentalState::NoAccidental
    }
}

impl Default for Context {
    /// Returns a fresh context: middle C a staff space below the staff (the
    /// treble position), no key signature, and empty memories.
    fn default() -> (r: Context)
        ensures
            r.middle_c_position@ == -10_000_000,
            (r.key_signature is None),
            r.previous_measure_alterations@ == Map::<u64, Alteration>::empty(),
            r.current_measure_alterations@ == Map::<u64, Alteration>::empty(),
    {
        Context {
            middle_c_position: StaffSpaces { units: -10_000_000 },
            key_signature: None,
            previous_measure_alterations: Table::new(),
            current_measure_alterations: Table::new(),
        }
    }
}

impl Context {
    /// Makes `key_signature` the active one for everything that follows.
    pub fn start_key_signature(&mut self, key_signature: KeySignature)
        ensures
            final(self).key_signature == Some(key_signature),
            final(self).middle_c_position == old(self).middle_c_position,
            final(self).previous_measure_alterations@ == old(
                self,
            ).previous_measure_alterations@,
            final(self).current_measure_alterations@ == old(self).current_measure_alterations@,
    {
        self.key_signature = Some(key_signature);
    }

    /// Starts a measure: the current measure's memory becomes the previous
    /// one — replacing it — and the current memory starts empty.
    pub fn start_measure(&mut self)
        ensures
            final(self).previous_measure_alterations@ == old(
                self,
            ).current_measure_alterations@,
            final(self).current_measure_alterations@ == Map::<u64, Alteration>::empty(),
            final(self).middle_c_position == old(self).middle_c_position,
            final(self).key_signature == old(self).key_signature,
    {
        core::mem::swap(
            &mut self.previous_measure_alterations,
            &mut self.current_measure_alterations,
        );
        self.current_measure_alterations.clear();
    }

    /// Resolves one pitch against the memory and records it: the decision
    /// above, then the pitch's alteration enters the current measure's
    /// memory and any carried-over record for the same (step, octave) is
    /// dropped.
    pub fn add_pitch(&mut self, pitch: Pitch) -> (r: AccidentalState)
        ensures
            r == spec_accidental_state(
                old(self).previous_measure_alterations@,
                old(self).current_measure_alterations@,
                old(self).key_signature,
                pitch,
            ),
            final(self).previous_measure_alterations@ == old(
                self,
            ).previous_measure_alterations@.remove(
                spec_pitch_key(pitch.step, pitch.octave as int),
            ),
            final(self).current_measure_alterations@ == old(
                self,
            ).current_measure_alterations@.insert(
                spec_pitch_key(pitch.step, pitch.octave as int),
                pitch.alteration,
            ),
            final(self).middle_c_position == old(self).middle_c_position,
            final(self).key_signature == old(self).key_signature,
    {
        let key = pitch_key(pitch.step, pitch.octave);

        let key_signature_alteration = match self.key_signature {
            Some(key_signature) => {
                key_signature_alteration_of(key_signature, pitch.step)
            },
            None => Alteration::Natural,
        };

        let state = match self.current_measure_alterations.get(key) {
            Some(current) => {
                if current != pitch.alteration {
                    AccidentalState::NeedsAccidental
                } else {
                    AccidentalState::NoAccidental
                }
            },
            None => match self.previous_measure_alterations.get(key) {
                Some(previous) if previous != pitch.alteration => {
                    AccidentalState::NeedsAccidental
                },
                _ => {
                    if pitch.alteration != key_signature_alteration {
                        AccidentalState::NeedsAccidental
                    } else {
                        AccidentalState::NoAccidental
                    }
                },
            },
        };

        self.previous_measure_alterations.remove(key);
        self.current_measure_alterations.set(key, pitch.alteration);

        state
    }
}

/// The alteration a key signature gives a step.
fn key_signature_alteration_of(
    key_signature: KeySignature,
    step: crate::model::pitch::Step,
) -> (r: Alteration)
    ensures
        r == key_signature.spec_alteration_of(step),
{
    let position: u8 = match (key_signature.kind, step) {
        (crate::render::input::key_signature::Kind::Sharps, _) => sharp_position_of(step),
        (crate::render::input::key_signature::Kind::Flats, _) => 6 - sharp_position_of(step),
    };
    if (position as u64) < (key_signature.num as u64) {
        match key_signature.kind {
            crate::render::input::key_signature::Kind::Sharps => Alteration::Sharp,
            crate::render::input::key_signature::Kind::Flats => Alteration::Flat,
        }
    } else {
        Alteration::Natural
    }
}

/// A step's place in the sharps order.
fn sharp_position_of(step: crate::model::pitch::Step) -> (r: u8)
    ensures
        r as int == crate::model::key_signature::sharp_position(step),
        r <= 6,
{
    match step {
        crate::model::pitch::Step::F => 0,
        crate::model::pitch::Step::C => 1,
        crate::model::pitch::Step::G => 2,
        crate::model::pitch::Step::D => 3,
        crate::model::pitch::Step::A => 4,
        crate::model::pitch::Step::E => 5,
        crate::model::pitch::Step::B => 6,
    }
}

// ------------------------------------------------------------------
// The laws of the accidental memory.
// ------------------------------------------------------------------

/// Within a measure, repeating a pitch never requires a second accidental:
/// right after a pitch is recorded — its alteration entered into the
/// current measure's memory and any carry-over dropped — the same pitch
/// resolves to no accidental, whatever the key signature says.
pub proof fn lemma_repeated_pitch_needs_no_accidental(
    previous: Map<u64, Alteration>,
    current: Map<u64, Alteration>,
    key_signature: Option<KeySignature>,
    pitch: Pitch,
)
    ensures
        spec_accidental_state(
            previous.remove(spec_pitch_key(pitch.step, pitch.octave as int)),
            current.insert(spec_pitch_key(pitch.step, pitch.octave as int), pitch.alteration),
            key_signature,
            pitch,
        ) == AccidentalState::NoAccidental,
{
}

/// Once a (step, octave, alteration) stands in the current measure's
/// memory, the same pitch resolves to no accidental, whatever the key
/// signature and the previous measure say.
pub proof fn lemma_accidental_idempotent_within_measure(
    previous: Map<u64, Alteration>,
    current: Map<u64, Alteration>,
    key_signature: Option<KeySignature>,
    pitch: Pitch,
)
    requires
        current.contains_key(spec_pitch_key(pitch.step, pitch.octave as int)),
        current[spec_pitch_key(pitch.step, pitch.octave as int)] == pitch.alteration,
    ensures
        spec_accidental_state(previous, current, key_signature, pitch)
            == AccidentalState::NoAccidental,
{
}

/// An accidental is not cancelled by the barline: a pitch whose alteration
/// matches the previous measure's record — and which the current measure
/// has not seen — still requires an accidental unless the alteration is
/// exactly what the key signature gives that step.
pub proof fn lemma_accidental_not_cancelled_across_barline(
    previous: Map<u64, Alteration>,
    current: Map<u64, Alteration>,
    key_signature: Option<KeySignature>,
    pitch: Pitch,
)
    requires
        !current.contains_key(spec_pitch_key(pitch.step, pitch.octave as int)),
        previous.contains_key(spec_pitch_key(pitch.step, pitch.octave as int)),
        previous[spec_pitch_key(pitch.step, pitch.octave as int)] == pitch.alteration,
    ensures
        spec_accidental_state(previous, current, key_signature, pitch) == (
        if pitch.alteration == spec_key_signature_alteration(key_signature, pitch.step) {
            AccidentalState::NoAccidental
        } else {
            AccidentalState::NeedsAccidental
        }),
{
}

/// Reverting to natural after an altered occurrence in the previous
/// measure always requires the (natural) accidental, whatever the key
/// signature says: the previous measure's differing record decides.
pub proof fn lemma_natural_after_alteration_requires_accidental(
    previous: Map<u64, Alteration>,
    current: Map<u64, Alteration>,
    key_signature: Option<KeySignature>,
    pitch: Pitch,
)
    requires
        !current.contains_key(spec_pitch_key(pitch.step, pitch.octave as int)),
        previous.contains_key(spec_pitch_key(pitch.step, pitch.octave as int)),
        previous[spec_pitch_key(pitch.step, pitch.octave as int)] != pitch.alteration,
    ensures
        spec_accidental_state(previous, current, key_signature, pitch)
            == AccidentalState::NeedsAccidental,
{
}

} // verus!
