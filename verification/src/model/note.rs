//! Notes in the model: a pitch with a duration.

use vstd::prelude::*;

use crate::duration::Duration;
use crate::model::context::Context;
use crate::model::pitch::Pitch;
use crate::render::input;

verus! {

/// A note: a pitch, a duration, and an optional identifier for the
/// rendered group.
#[derive(Clone, Debug, PartialEq)]
pub struct Note {
    pub pitch: Pitch,
    pub duration: Duration,
    pub id: Option<String>,
}

impl Note {
    /// Resolves the note for layout: the pitch becomes a position and an
    /// optional accidental, recorded with the context; no beam marker is
    /// set.
    pub fn into_input(self, context: &mut Context) -> (r: input::Note)
        requires
            -1_000_000_000 <= old(context).middle_c_position@ <= 1_000_000_000,
        ensures
            r.y@ == self.pitch.step.spec_y(
                self.pitch.octave as int,
                old(context).middle_c_position@,
            ),
            r.accidental == match crate::model::context::spec_accidental_state(
                old(context).previous_measure_alterations@,
                old(context).current_measure_alterations@,
                old(context).key_signature,
                self.pitch,
            ) {
                crate::model::context::AccidentalState::NeedsAccidental => Some(
                    self.pitch.alteration.spec_to_accidental(),
                ),
                crate::model::context::AccidentalState::NoAccidental => None::<
                    crate::accidental::Accidental,
                >,
            },
            r.duration == self.duration,
            (r.beam is None),
            r.id == self.id,
            final(context).previous_measure_alterations@ == old(
                context,
            ).previous_measure_alterations@.remove(
                crate::model::pitch::spec_pitch_key(self.pitch.step, self.pitch.octave as int),
            ),
            final(context).current_measure_alterations@ == old(
                context,
            ).current_measure_alterations@.insert(
                crate::model::pitch::spec_pitch_key(self.pitch.step, self.pitch.octave as int),
                self.pitch.alteration,
            ),
            final(context).middle_c_position == old(context).middle_c_position,
            final(context).key_signature == old(context).key_signature,
    {
        let (y, accidental) = self.pitch.into_input(context);

        input::Note { y, accidental, duration: self.duration, beam: None, id: self.id }
    }
}

} // verus!
