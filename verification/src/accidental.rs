//! Accidentals as they are drawn next to a notehead.

use vstd::prelude::*;

use crate::glyph::Glyph;

verus! {

/// An accidental that a rendered note carries to its left.
#[derive(Clone, Copy, Debug, PartialEq, Eq, Structural)]
pub enum Accidental {
    DoubleFlat,
    Flat,
    Natural,
    Sharp,
    DoubleSharp,
}

impl Accidental {
    /// What `glyph` returns.
    pub open spec fn spec_glyph(&self) -> Glyph {
        match self {
            Accidental::DoubleFlat => Glyph::AccidentalDoubleFlat,
            Accidental::Flat => Glyph::AccidentalFlat,
            Accidental::Natural => Glyph::AccidentalNatural,
            Accidental::Sharp => Glyph::AccidentalSharp,
            Accidental::DoubleSharp => Glyph::AccidentalDoubleSharp,
        }
    }

    /// The glyph that draws this accidental.
    #[verifier::when_used_as_spec(spec_glyph)]
    pub fn glyph(&self) -> (r: Glyph)
        ensures
            r == self.spec_glyph(),
    {
        match self {
            Accidental::DoubleFlat => Glyph::AccidentalDoubleFlat,
            Accidental::Flat => Glyph::AccidentalFlat,
            Accidental::Natural => Glyph::AccidentalNatural,
            Accidental::Sharp => Glyph::AccidentalSharp,
            Accidental::DoubleSharp => Glyph::AccidentalDoubleSharp,
        }
    }

    /// The accidental's place in the conventional flat-to-sharp order, used
    /// to break ties when sorting the notes of a chord.
    pub open spec fn spec_rank(&self) -> int {
        match self {
            Accidental::DoubleFlat => 0,
            Accidental::Flat => 1,
            Accidental::Natural => 2,
            Accidental::Sharp => 3,
            Accidental::DoubleSharp => 4,
        }
    }

    /// The accidental's place in the conventional flat-to-sharp order, used
    /// to break ties when sorting the notes of a chord.
    pub fn rank(&self) -> (r: u8)
        ensures
            r as int == self.spec_rank(),
    {
        match self {
            Accidental::DoubleFlat => 0,
            Accidental::Flat => 1,
            Accidental::Natural => 2,
            Accidental::Sharp => 3,
            Accidental::DoubleSharp => 4,
        }
    }
}

} // verus!
