//! Durations: a note value plus optional dots, and the glyphs they call for.

use vstd::prelude::*;

use crate::glyph::Glyph;
use crate::stem::Direction;

verus! {

/// How long a note, chord or rest sounds.
#[derive(Clone, Copy, Debug, PartialEq, Eq, Structural)]
pub struct Duration {
    pub value: Value,
    pub dots: Option<Dots>,
}

/// The undotted note values, longest first.
#[derive(Clone, Copy, Debug, PartialEq, Eq, Structural)]
pub enum Value {
    Whole,
    Half,
    Quarter,
    Eighth,
    Sixteenth,
    ThirtySecond,
    SixtyFourth,
    OneHundredTwentyEighth,
    TwoHundredFiftySixth,
}

/// One dot lengthens a value by half, a second by another quarter.
#[derive(Clone, Copy, Debug, PartialEq, Eq, Structural)]
pub enum Dots {
    Dot,
    DoubleDot,
}

impl Value {
    /// What `notehead_glyph` returns.
    pub open spec fn spec_notehead_glyph(&self) -> Glyph {
        match self {
            Value::Whole => Glyph::NoteheadWhole,
            Value::Half => Glyph::NoteheadHalf,
            _ => Glyph::NoteheadBlack,
        }
    }

    /// The notehead glyph for this value: whole and half notes have open
    /// heads, everything shorter a black one.
    #[verifier::when_used_as_spec(spec_notehead_glyph)]
    pub fn notehead_glyph(&self) -> (r: Glyph)
        ensures
            r == self.spec_notehead_glyph(),
    {
        match self {
            Value::Whole => Glyph::NoteheadWhole,
            Value::Half => Glyph::NoteheadHalf,
            _ => Glyph::NoteheadBlack,
        }
    }

    /// What `flag_glyph` returns.
    pub open spec fn spec_flag_glyph(&self, stem_direction: Direction) -> Option<Glyph> {
        match (self, stem_direction) {
            (Value::Whole, _) => None,
            (Value::Half, _) => None,
            (Value::Quarter, _) => None,
            (Value::Eighth, Direction::Up) => Some(Glyph::Flag8thUp),
            (Value::Eighth, Direction::Down) => Some(Glyph::Flag8thDown),
            (Value::Sixteenth, Direction::Up) => Some(Glyph::Flag16thUp),
            (Value::Sixteenth, Direction::Down) => Some(Glyph::Flag16thDown),
            (Value::ThirtySecond, Direction::Up) => Some(Glyph::Flag32ndUp),
            (Value::ThirtySecond, Direction::Down) => Some(Glyph::Flag32ndDown),
            (Value::SixtyFourth, Direction::Up) => Some(Glyph::Flag64thUp),
            (Value::SixtyFourth, Direction::Down) => Some(Glyph::Flag64thDown),
            (Value::OneHundredTwentyEighth, Direction::Up) => Some(Glyph::Flag128thUp),
            (Value::OneHundredTwentyEighth, Direction::Down) => Some(Glyph::Flag128thDown),
            (Value::TwoHundredFiftySixth, Direction::Up) => Some(Glyph::Flag256thUp),
            (Value::TwoHundredFiftySixth, Direction::Down) => Some(Glyph::Flag256thDown),
        }
    }

    /// The flag glyph a stemmed note of this value carries, if any: quarter
    /// notes and longer have none, shorter values one per direction.
    #[verifier::when_used_as_spec(spec_flag_glyph)]
    pub fn flag_glyph(&self, stem_direction: Direction) -> (r: Option<Glyph>)
        ensures
            r == self.spec_flag_glyph(stem_direction),
    {
        match (self, stem_direction) {
            (Value::Whole, _) => None,
            (Value::Half, _) => None,
            (Value::Quarter, _) => None,
            (Value::Eighth, Direction::Up) => Some(Glyph::Flag8thUp),
            (Value::Eighth, Direction::Down) => Some(Glyph::Flag8thDown),
            (Value::Sixteenth, Direction::Up) => Some(Glyph::Flag16thUp),
            (Value::Sixteenth, Direction::Down) => Some(Glyph::Flag16thDown),
            (Value::ThirtySecond, Direction::Up) => Some(Glyph::Flag32ndUp),
            (Value::ThirtySecond, Direction::Down) => Some(Glyph::Flag32ndDown),
            (Value::SixtyFourth, Direction::Up) => Some(Glyph::Flag64thUp),
            (Value::SixtyFourth, Direction::Down) => Some(Glyph::Flag64thDown),
            (Value::OneHundredTwentyEighth, Direction::Up) => Some(Glyph::Flag128thUp),
            (Value::OneHundredTwentyEighth, Direction::Down) => Some(Glyph::Flag128thDown),
            (Value::TwoHundredFiftySixth, Direction::Up) => Some(Glyph::Flag256thUp),
            (Value::TwoHundredFiftySixth, Direction::Down) => Some(Glyph::Flag256thDown),
        }
    }

    /// What `rest_glyph` returns.
    pub open spec fn spec_rest_glyph(&self) -> Glyph {
        match self {
            Value::Whole => Glyph::RestWhole,
            Value::Half => Glyph::RestHalf,
            Value::Quarter => Glyph::RestQuarter,
            Value::Eighth => Glyph::Rest8th,
            Value::Sixteenth => Glyph::Rest16th,
            Value::ThirtySecond => Glyph::Rest32nd,
            Value::SixtyFourth => Glyph::Rest64th,
            Value::OneHundredTwentyEighth => Glyph::Rest128th,
            Value::TwoHundredFiftySixth => Glyph::Rest256th,
        }
    }

    /// The rest glyph for this value.
    #[verifier::when_used_as_spec(spec_rest_glyph)]
    pub fn rest_glyph(&self) -> (r: Glyph)
        ensures
            r == self.spec_rest_glyph(),
    {
        match self {
            Value::Whole => Glyph::RestWhole,
            Value::Half => Glyph::RestHalf,
            Value::Quarter => Glyph::RestQuarter,
            Value::Eighth => Glyph::Rest8th,
            Value::Sixteenth => Glyph::Rest16th,
            Value::ThirtySecond => Glyph::Rest32nd,
            Value::SixtyFourth => Glyph::Rest64th,
            Value::OneHundredTwentyEighth => Glyph::Rest128th,
            Value::TwoHundredFiftySixth => Glyph::Rest256th,
        }
    }

    /// The undotted horizontal space the value earns, in staff-space units:
    /// eight staff spaces for a whole note, halving with each shorter value.
    pub open spec fn spec_base_space(&self) -> int {
        match self {
            Value::Whole => 80_000_000,
            Value::Half => 40_000_000,
            Value::Quarter => 20_000_000,
            Value::Eighth => 10_000_000,
            Value::Sixteenth => 5_000_000,
            Value::ThirtySecond => 2_500_000,
            Value::SixtyFourth => 1_250_000,
            Value::OneHundredTwentyEighth => 625_000,
            Value::TwoHundredFiftySixth => 312_500,
        }
    }
}

impl Duration {
    /// The horizontal space this duration earns: the value's base space,
    /// half as much again for one dot, and another quarter for two.
    pub open spec fn spec_spacing(&self) -> int {
        let base = self.value.spec_base_space();
        match self.dots {
            None => base,
            Some(Dots::Dot) => base + base / 2,
            Some(Dots::DoubleDot) => base + base / 2 + base / 4,
        }
    }
}

} // verus!
