//! Pitches: step, alteration and octave, and their staff position.

use vstd::prelude::*;

use crate::accidental::Accidental;
use crate::staff_spaces::StaffSpaces;

verus! {

/// One octave, in staff-space units: three and a half staff spaces.
pub const OCTAVE_UNITS: i64 = 35_000_000;

/// The seven note letters.
#[derive(Clone, Copy, Debug, PartialEq, Eq, Structural)]
pub enum Step {
    C,
    D,
    E,
    F,
    G,
    A,
    B,
}

impl Step {
    /// The step's height above C within one octave, in staff-space units:
    /// half a staff space per letter.
    pub open spec fn spec_base(&self) -> int {
        match self {
            Step::C => 0,
            Step::D => 5_000_000,
            Step::E => 10_000_000,
            Step::F => 15_000_000,
            Step::G => 20_000_000,
            Step::A => 25_000_000,
            Step::B => 30_000_000,
        }
    }

    /// A distinct small index for each step, used as part of the accidental
    /// memory's key.
    pub open spec fn spec_index(&self) -> u64 {
        match self {
            Step::C => 0,
            Step::D => 1,
            Step::E => 2,
            Step::F => 3,
            Step::G => 4,
            Step::A => 5,
            Step::B => 6,
        }
    }

    /// A distinct small index for each step, used as part of the accidental
    /// memory's key.
    #[verifier::when_used_as_spec(spec_index)]
    pub fn index(&self) -> (r: u64)
        ensures
            r == self.spec_index(),
    {
        match self {
            Step::C => 0,
            Step::D => 1,
            Step::E => 2,
            Step::F => 3,
            Step::G => 4,
            Step::A => 5,
            Step::B => 6,
        }
    }

    /// What `y` returns: the step's base height, the octave's offset from
    /// the fourth, and wherever the clef put middle C.
    pub open spec fn spec_y(&self, octave: int, middle_c_position: int) -> int {
        self.spec_base() + OCTAVE_UNITS * (octave - 4) + middle_c_position
    }

    /// The staff position of this step in the given octave.
    pub fn y(&self, octave: i8, middle_c_position: StaffSpaces) -> (r: StaffSpaces)
        requires
            -1_000_000_000_000 <= middle_c_position@ <= 1_000_000_000_000,
        ensures
            r@ == self.spec_y(octave as int, middle_c_position@),
    {
        let base: i64 = match self {
            Step::C => 0,
            Step::D => 5_000_000,
            Step::E => 10_000_000,
            Step::F => 15_000_000,
            Step::G => 20_000_000,
            Step::A => 25_000_000,
            Step::B => 30_000_000,
        };
        StaffSpaces {
            units: base + OCTAVE_UNITS * (octave as i64 - 4) + middle_c_position.units,
        }
    }
}

/// How a pitch is altered from its step's natural note.
#[derive(Clone, Copy, Debug, PartialEq, Eq, Structural)]
pub enum Alteration {
    DoubleFlat,
    Flat,
    Natural,
    Sharp,
    DoubleSharp,
}

impl Default for Alteration {
    /// The default alteration is natural.
    fn default() -> (r: Alteration)
        ensures
            r == Alteration::Natural,
    {
        Alteration::Natural
    }
}

impl Alteration {
    /// What `to_accidental` returns.
    pub open spec fn spec_to_accidental(&self) -> Accidental {
        match self {
            Alteration::DoubleFlat => Accidental::DoubleFlat,
            Alteration::Flat => Accidental::Flat,
            Alteration::Natural => Accidental::Natural,
            Alteration::Sharp => Accidental::Sharp,
            Alteration::DoubleSharp => Accidental::DoubleSharp,
        }
    }

    /// The accidental that draws this alteration.
    #[verifier::when_used_as_spec(spec_to_accidental)]
    pub fn to_accidental(&self) -> (r: Accidental)
        ensures
            r == self.spec_to_accidental(),
    {
        match self {
            Alteration::DoubleFlat => Accidental::DoubleFlat,
            Alteration::Flat => Accidental::Flat,
            Alteration::Natural => Accidental::Natural,
            Alteration::Sharp => Accidental::Sharp,
            Alteration::DoubleSharp => Accidental::DoubleSharp,
        }
    }
}

/// A pitch: a step, how it is altered, and its octave.
#[derive(Clone, Copy, Debug, PartialEq, Eq, Structural)]
pub struct Pitch {
    pub step: Step,
    pub alteration: Alteration,
    pub octave: i8,
}

/// The accidental memory's key for a (step, octave) pair: a small distinct
/// integer per pair.
pub open spec fn spec_pitch_key(step: Step, octave: int) -> u64 {
    (step.spec_index() * 256 + (octave + 128)) as u64
}

/// The accidental memory's key for a (step, octave) pair.
pub fn pitch_key(step: Step, octave: i8) -> (r: u64)
    ensures
        r == spec_pitch_key(step, octave as int),
{
    step.index() * 256 + ((octave as i64) + 128) as u64
}

impl Pitch {
    /// Resolves the pitch against the context: its staff position from the
    /// clef's middle C, and an accidental exactly when the accidental
    /// memory demands one. The pitch is then recorded with the context.
    pub fn into_input(self, context: &mut crate::model::context::Context) -> (r: (
        StaffSpaces,
        Option<Accidental>,
    ))
        requires
            -1_000_000_000 <= old(context).middle_c_position@ <= 1_000_000_000,
        ensures
            r.0@ == self.step.spec_y(self.octave as int, old(context).middle_c_position@),
            r.1 == match crate::model::context::spec_accidental_state(
                old(context).previous_measure_alterations@,
                old(context).current_measure_alterations@,
                old(context).key_signature,
                self,
            ) {
                crate::model::context::AccidentalState::NeedsAccidental => Some(
                    self.alteration.spec_to_accidental(),
                ),
                crate::model::context::AccidentalState::NoAccidental => None::<Accidental>,
            },
            final(context).previous_measure_alterations@ == old(
                context,
            ).previous_measure_alterations@.remove(
                spec_pitch_key(self.step, self.octave as int),
            ),
            final(context).current_measure_alterations@ == old(
                context,
            ).current_measure_alterations@.insert(
                spec_pitch_key(self.step, self.octave as int),
                self.alteration,
            ),
            final(context).middle_c_position == old(context).middle_c_position,
            final(context).key_signature == old(context).key_signature,
    {
        let y = self.step.y(self.octave, context.middle_c_position);

        let accidental = match context.add_pitch(self) {
            crate::model::context::AccidentalState::NeedsAccidental => Some(
                self.alteration.to_accidental(),
            ),
            crate::model::context::AccidentalState::NoAccidental => None,
        };

        (y, accidental)
    }
}

} // verus!
