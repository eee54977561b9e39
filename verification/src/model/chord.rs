//! Chords in the model: at least two pitches sharing one duration.

use vstd::prelude::*;

use crate::accidental::Accidental;
use crate::duration::Duration;
use crate::model::context::{spec_accidental_state, AccidentalState, Context};
use crate::model::key_signature::KeySignature;
use crate::model::pitch::{spec_pitch_key, Alteration, Pitch};
use crate::render::input;
use crate::staff_spaces::StaffSpaces;

verus! {

/// A chord: its pitches in the order they were given, a duration, and an
/// optional identifier for the rendered group.
#[derive(Clone, Debug, PartialEq)]
pub struct Chord {
    pub pitches: Vec<Pitch>,
    pub duration: Duration,
    pub id: Option<String>,
}

/// The note one pitch resolves to against the given memory.
pub open spec fn spec_resolved_note(
    pitch: Pitch,
    previous: Map<u64, Alteration>,
    current: Map<u64, Alteration>,
    key_signature: Option<KeySignature>,
    middle_c: int,
) -> input::chord::Note {
    input::chord::Note {
        y: StaffSpaces { units: pitch.step.spec_y(pitch.octave as int, middle_c) as i64 },
        accidental: match spec_accidental_state(previous, current, key_signature, pitch) {
            AccidentalState::NeedsAccidental => Some(pitch.alteration.spec_to_accidental()),
            AccidentalState::NoAccidental => None::<Accidental>,
        },
    }
}

/// The notes a run of pitches resolves to, each recorded with the memory
/// before the next is resolved, and the memory that is left.
pub open spec fn spec_convert_pitches(
    pitches: Seq<Pitch>,
    previous: Map<u64, Alteration>,
    current: Map<u64, Alteration>,
    key_signature: Option<KeySignature>,
    middle_c: int,
) -> (Seq<input::chord::Note>, Map<u64, Alteration>, Map<u64, Alteration>)
    decreases pitches.len(),
{
    if pitches.len() == 0 {
        (Seq::empty(), previous, current)
    } else {
        let pitch = pitches[0];
        let key = spec_pitch_key(pitch.step, pitch.octave as int);
        let note = spec_resolved_note(pitch, previous, current, key_signature, middle_c);
        let (rest, previous_end, current_end) = spec_convert_pitches(
            pitches.drop_first(),
            previous.remove(key),
            current.insert(key, pitch.alteration),
            key_signature,
            middle_c,
        );
        (seq![note] + rest, previous_end, current_end)
    }
}

impl Chord {
    /// Returns a chord over the given pitches.
    ///
    /// Fails (with `None`) unless at least two pitches are given.
    pub fn new(pitches: Vec<Pitch>, duration: Duration, id: Option<String>) -> (r: Option<Chord>)
        ensures
            match r {
                Some(chord) => {
                    &&& pitches@.len() >= 2
                    &&& chord.pitches@ == pitches@
                    &&& chord.duration == duration
                    &&& chord.id == id
                },
                None => pitches@.len() < 2,
            },
    {
        if pitches.len() < 2 {
            return None;
        }
        Some(Chord { pitches, duration, id })
    }

    /// Resolves the chord for layout: each pitch in order becomes a note
    /// and is recorded with the context, and the notes are then sorted
    /// ascending by (position, accidental); no beam marker is set.
    pub fn into_input(self, context: &mut Context) -> (r: input::Chord)
        requires
            self.pitches@.len() >= 2,
            -1_000_000_000 <= old(context).middle_c_position@ <= 1_000_000_000,
        ensures
            ({
                let (notes, previous_end, current_end) = spec_convert_pitches(
                    self.pitches@,
                    old(context).previous_measure_alterations@,
                    old(context).current_measure_alterations@,
                    old(context).key_signature,
                    old(context).middle_c_position@,
                );
                &&& input::chord::notes_sorted(r.notes@)
                &&& r.notes@.to_multiset() == notes.to_multiset()
                &&& r.notes@.len() == notes.len()
                &&& r.duration == self.duration
                &&& (r.beam is None)
                &&& r.id == self.id
                &&& final(context).previous_measure_alterations@ == previous_end
                &&& final(context).current_measure_alterations@ == current_end
            }),
            final(context).middle_c_position == old(context).middle_c_position,
            final(context).key_signature == old(context).key_signature,
    {
        let ghost initial_previous = context.previous_measure_alterations@;
        let ghost initial_current = context.current_measure_alterations@;
        let ghost key_signature = context.key_signature;
        let ghost middle_c = context.middle_c_position@;

        let mut notes: Vec<input::chord::Note> = Vec::new();
        let mut i: usize = 0;

        proof {
            assert(self.pitches@.skip(0) =~= self.pitches@);
            let (rest, p_end, c_end) = spec_convert_pitches(
                self.pitches@,
                initial_previous,
                initial_current,
                key_signature,
                middle_c,
            );
            assert(notes@ + rest =~= rest);
        }

        while i < self.pitches.len()
            invariant
                i <= self.pitches@.len(),
                notes@.len() == i,
                -1_000_000_000 <= context.middle_c_position@ <= 1_000_000_000,
                context.middle_c_position@ == middle_c,
                context.key_signature == key_signature,
                spec_convert_pitches(
                    self.pitches@,
                    initial_previous,
                    initial_current,
                    key_signature,
                    middle_c,
                ) == ({
                    let (rest, p_end, c_end) = spec_convert_pitches(
                        self.pitches@.skip(i as int),
                        context.previous_measure_alterations@,
                        context.current_measure_alterations@,
                        key_signature,
                        middle_c,
                    );
                    (notes@ + rest, p_end, c_end)
                }),
            decreases self.pitches@.len() - i,
        {
            proof {
                assert(self.pitches@.skip(i as int)[0] == self.pitches@[i as int]);
                assert(self.pitches@.skip(i as int).drop_first() =~= self.pitches@.skip(
                    i as int + 1,
                ));
            }
            let pitch = self.pitches[i];
            let ghost notes_before = notes@;
            let (y, accidental) = pitch.into_input(context);
            notes.push(input::chord::Note { y, accidental });
            proof {
                let (rest, p_end, c_end) = spec_convert_pitches(
                    self.pitches@.skip(i as int + 1),
                    context.previous_measure_alterations@,
                    context.current_measure_alterations@,
                    key_signature,
                    middle_c,
                );
                assert(notes_before + (seq![notes@[notes@.len() - 1]] + rest) =~= notes@ + rest);
            }
            i += 1;
        }

        proof {
            assert(self.pitches@.skip(self.pitches@.len() as int) =~= Seq::<Pitch>::empty());
            let (all, p_end, c_end) = spec_convert_pitches(
                self.pitches@,
                initial_previous,
                initial_current,
                key_signature,
                middle_c,
            );
            assert(notes@ + Seq::<input::chord::Note>::empty() =~= notes@);
            assert(notes@ == all);
        }

        match input::Chord::new(notes, self.duration, None, self.id) {
            Some(chord) => chord,
            None => {
                proof {
                    assert(false);
                }
                vstd::pervasive::unreached()
            },
        }
    }
}

} // verus!
