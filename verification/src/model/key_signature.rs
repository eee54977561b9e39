//! Key signatures in the model: sharps or flats, one to seven of them.

use vstd::prelude::*;

use crate::model::context::Context;
use crate::model::pitch::{Alteration, Step};
use crate::render::input;
use crate::render::input::key_signature::Kind;
use crate::staff_spaces::StaffSpaces;

verus! {

/// A key signature: its kind and how many accidentals it carries, between
/// one and seven.
#[derive(Clone, Copy, Debug, PartialEq, Eq, Structural)]
pub struct KeySignature {
    pub kind: Kind,
    pub num: u8,
}

/// A step's place in the sharps order F, C, G, D, A, E, B; the flats order
/// B, E, A, D, G, C, F is its mirror image.
pub open spec fn sharp_position(step: Step) -> int {
    match step {
        Step::F => 0,
        Step::C => 1,
        Step::G => 2,
        Step::D => 3,
        Step::A => 4,
        Step::E => 5,
        Step::B => 6,
    }
}

/// The step at place `i` of the kind's accidental order.
pub open spec fn spec_step_at(kind: Kind, i: int) -> Step {
    let position = match kind {
        Kind::Sharps => i,
        Kind::Flats => 6 - i,
    };
    if position == 0 {
        Step::F
    } else if position == 1 {
        Step::C
    } else if position == 2 {
        Step::G
    } else if position == 3 {
        Step::D
    } else if position == 4 {
        Step::A
    } else if position == 5 {
        Step::E
    } else {
        Step::B
    }
}

/// The alteration a kind applies: sharps sharpen, flats flatten.
pub open spec fn spec_kind_alteration(kind: Kind) -> Alteration {
    match kind {
        Kind::Sharps => Alteration::Sharp,
        Kind::Flats => Alteration::Flat,
    }
}

/// The octave delta of each accidental of a key signature, before the
/// clef's octave offset is added: the conventional zig-zag placement.
pub open spec fn spec_octave_delta(kind: Kind, i: int) -> int {
    match kind {
        Kind::Sharps => {
            // F, C, G, D sit an octave up; A and B stay; E sits up again.
            if i == 4 || i == 6 {
                0
            } else {
                1
            }
        },
        Kind::Flats => {
            // B, A, G, F stay; E, D, C sit an octave up.
            if i == 0 || i == 2 || i == 4 || i == 6 {
                0
            } else {
                1
            }
        },
    }
}

impl KeySignature {
    /// What the key signature alters a step to: its kind's alteration when
    /// the step is among its first `num` accidentals, natural otherwise.
    pub open spec fn spec_alteration_of(self, step: Step) -> Alteration {
        let position = match self.kind {
            Kind::Sharps => sharp_position(step),
            Kind::Flats => 6 - sharp_position(step),
        };
        if position < self.num as int {
            spec_kind_alteration(self.kind)
        } else {
            Alteration::Natural
        }
    }

    /// Returns a key signature with `num` accidentals of the given kind.
    ///
    /// Fails (with `None`) unless `num` is between one and seven: there is
    /// at most one accidental per step.
    pub fn new(kind: Kind, num: u8) -> (r: Option<KeySignature>)
        ensures
            match r {
                Some(key_signature) => {
                    &&& 1 <= num <= 7
                    &&& key_signature.kind == kind
                    &&& key_signature.num == num
                },
                None => num < 1 || num > 7,
            },
    {
        if num >= 1 && num <= 7 {
            Some(KeySignature { kind, num })
        } else {
            None
        }
    }

    /// The alterations the key signature applies: the first `num` steps of
    /// its kind's order, each with the kind's alteration.
    pub fn alterations(self) -> (r: Vec<(Step, Alteration)>)
        requires
            self.num <= 7,
        ensures
            r@.len() == self.num as int,
            forall|i: int|
                0 <= i < self.num as int ==> #[trigger] r@[i] == (
                spec_step_at(self.kind, i),
                spec_kind_alteration(self.kind),
            ),
            forall|step: Step, i: int|
                0 <= i < self.num as int && r@[i].0 == step ==> self.spec_alteration_of(step)
                    == spec_kind_alteration(self.kind),
    {
        let alteration = match self.kind {
            Kind::Sharps => Alteration::Sharp,
            Kind::Flats => Alteration::Flat,
        };

        let mut pairs: Vec<(Step, Alteration)> = Vec::new();
        let mut i: u8 = 0;
        while i < self.num
            invariant
                i <= self.num,
                self.num <= 7,
                pairs@.len() == i as int,
                forall|j: int|
                    0 <= j < i as int ==> #[trigger] pairs@[j] == (
                    spec_step_at(self.kind, j),
                    spec_kind_alteration(self.kind),
                ),
            decreases self.num - i,
        {
            let step = step_at(self.kind, i);
            pairs.push((step, alteration));
            i += 1;
        }

        proof {
            assert forall|step: Step, j: int|
                0 <= j < self.num as int && pairs@[j].0 == step implies self.spec_alteration_of(
                step,
            ) == spec_kind_alteration(self.kind) by {
                assert(pairs@[j].0 == spec_step_at(self.kind, j));
            }
        }

        pairs
    }

    /// Records the key signature with the context and resolves it for
    /// layout: each accidental's height from the same pitch-to-position
    /// rule as notes, in an octave chosen from the clef's middle C.
    pub fn into_input(self, context: &mut Context) -> (r: input::KeySignature)
        requires
            1 <= self.num <= 7,
            -1_000_000_000 <= old(context).middle_c_position@ <= 1_000_000_000,
        ensures
            final(context).key_signature == Some(self),
            final(context).middle_c_position == old(context).middle_c_position,
            final(context).previous_measure_alterations@ == old(
                context,
            ).previous_measure_alterations@,
            final(context).current_measure_alterations@ == old(
                context,
            ).current_measure_alterations@,
            r.kind == self.kind,
            r.pitches@.len() == self.num as int,
            forall|i: int|
                0 <= i < self.num as int ==> (#[trigger] r.pitches@[i])@ == spec_step_at(
                    self.kind,
                    i,
                ).spec_y(
                    spec_octave_delta(self.kind, i) + spec_octave_offset(
                        old(context).middle_c_position@,
                    ),
                    old(context).middle_c_position@,
                ),
    {
        context.start_key_signature(self);

        let octave_offset: i8 = if context.middle_c_position.units < 0 {
            4
        } else if context.middle_c_position.units <= 40_000_000 {
            3
        } else {
            2
        };

        let mut pitches: Vec<StaffSpaces> = Vec::new();
        let mut i: u8 = 0;
        while i < self.num
            invariant
                i <= self.num,
                self.num <= 7,
                -1_000_000_000 <= context.middle_c_position@ <= 1_000_000_000,
                octave_offset as int == spec_octave_offset(context.middle_c_position@),
                context.middle_c_position == old(context).middle_c_position,
                context.key_signature == Some(self),
                context.previous_measure_alterations@ == old(
                    context,
                ).previous_measure_alterations@,
                context.current_measure_alterations@ == old(context).current_measure_alterations@,
                pitches@.len() == i as int,
                forall|j: int|
                    0 <= j < i as int ==> (#[trigger] pitches@[j])@ == spec_step_at(
                        self.kind,
                        j,
                    ).spec_y(
                        spec_octave_delta(self.kind, j) + spec_octave_offset(
                            context.middle_c_position@,
                        ),
                        context.middle_c_position@,
                    ),
            decreases self.num - i,
        {
            let step = step_at(self.kind, i);
            let octave_delta: i8 = octave_delta(self.kind, i);
            let y = step.y(octave_delta + octave_offset, context.middle_c_position);
            pitches.push(y);
            i += 1;
        }

        input::KeySignature { kind: self.kind, pitches }
    }
}

/// The octave the key signature's accidentals sit in, from the clef's
/// middle C position: high clefs take a higher octave.
pub open spec fn spec_octave_offset(middle_c_position: int) -> int {
    if middle_c_position < 0 {
        4
    } else if middle_c_position <= 40_000_000 {
        3
    } else {
        2
    }
}

/// The step at place `i` of the kind's accidental order.
fn step_at(kind: Kind, i: u8) -> (r: Step)
    requires
        i < 7,
    ensures
        r == spec_step_at(kind, i as int),
{
    let position: u8 = match kind {
        Kind::Sharps => i,
        Kind::Flats => 6 - i,
    };
    match position {
        0 => Step::F,
        1 => Step::C,
        2 => Step::G,
        3 => Step::D,
        4 => Step::A,
        5 => Step::E,
        _ => Step::B,
    }
}

/// The octave delta of accidental `i` of the kind's order.
fn octave_delta(kind: Kind, i: u8) -> (r: i8)
    requires
        i < 7,
    ensures
        r as int == spec_octave_delta(kind, i as int),
        0 <= r <= 1,
{
    match kind {
        Kind::Sharps => {
            if i == 4 || i == 6 {
                0
            } else {
                1
            }
        },
        Kind::Flats => {
            if i == 0 || i == 2 || i == 4 || i == 6 {
                0
            } else {
                1
            }
        },
    }
}

} // verus!
