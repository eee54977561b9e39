//! The glyphs the engraving engine can place, and their codepoints.
//!
//! The engine names glyphs symbolically; the final drawing refers to them by
//! their codepoint in the music font, which follows the SMuFL layout. Only
//! the glyphs this engine can actually emit are listed.

use vstd::prelude::*;

verus! {

/// A glyph of the music font.
#[derive(Clone, Copy, Debug, PartialEq, Eq, Structural)]
pub enum Glyph {
    GClef,
    CClef,
    FClef,
    NoteheadWhole,
    NoteheadHalf,
    NoteheadBlack,
    Flag8thUp,
    Flag8thDown,
    Flag16thUp,
    Flag16thDown,
    Flag32ndUp,
    Flag32ndDown,
    Flag64thUp,
    Flag64thDown,
    Flag128thUp,
    Flag128thDown,
    Flag256thUp,
    Flag256thDown,
    RestWhole,
    RestHalf,
    RestQuarter,
    Rest8th,
    Rest16th,
    Rest32nd,
    Rest64th,
    Rest128th,
    Rest256th,
    AccidentalDoubleFlat,
    AccidentalFlat,
    AccidentalNatural,
    AccidentalSharp,
    AccidentalDoubleSharp,
    TimeSig0,
    TimeSig1,
    TimeSig2,
    TimeSig3,
    TimeSig4,
    TimeSig5,
    TimeSig6,
    TimeSig7,
    TimeSig8,
    TimeSig9,
}

impl Glyph {
    /// The glyph's codepoint in a SMuFL-compliant music font.
    pub open spec fn spec_codepoint(&self) -> char {
        match self {
            Glyph::GClef => '\u{e050}',
            Glyph::CClef => '\u{e05c}',
            Glyph::FClef => '\u{e062}',
            Glyph::NoteheadWhole => '\u{e0a2}',
            Glyph::NoteheadHalf => '\u{e0a3}',
            Glyph::NoteheadBlack => '\u{e0a4}',
            Glyph::Flag8thUp => '\u{e240}',
            Glyph::Flag8thDown => '\u{e241}',
            Glyph::Flag16thUp => '\u{e242}',
            Glyph::Flag16thDown => '\u{e243}',
            Glyph::Flag32ndUp => '\u{e244}',
            Glyph::Flag32ndDown => '\u{e245}',
            Glyph::Flag64thUp => '\u{e246}',
            Glyph::Flag64thDown => '\u{e247}',
            Glyph::Flag128thUp => '\u{e248}',
            Glyph::Flag128thDown => '\u{e249}',
            Glyph::Flag256thUp => '\u{e24a}',
            Glyph::Flag256thDown => '\u{e24b}',
            Glyph::RestWhole => '\u{e4e3}',
            Glyph::RestHalf => '\u{e4e4}',
            Glyph::RestQuarter => '\u{e4e5}',
            Glyph::Rest8th => '\u{e4e6}',
            Glyph::Rest16th => '\u{e4e7}',
            Glyph::Rest32nd => '\u{e4e8}',
            Glyph::Rest64th => '\u{e4e9}',
            Glyph::Rest128th => '\u{e4ea}',
            Glyph::Rest256th => '\u{e4eb}',
            Glyph::AccidentalDoubleFlat => '\u{e264}',
            Glyph::AccidentalFlat => '\u{e260}',
            Glyph::AccidentalNatural => '\u{e261}',
            Glyph::AccidentalSharp => '\u{e262}',
            Glyph::AccidentalDoubleSharp => '\u{e263}',
            Glyph::TimeSig0 => '\u{e080}',
            Glyph::TimeSig1 => '\u{e081}',
            Glyph::TimeSig2 => '\u{e082}',
            Glyph::TimeSig3 => '\u{e083}',
            Glyph::TimeSig4 => '\u{e084}',
            Glyph::TimeSig5 => '\u{e085}',
            Glyph::TimeSig6 => '\u{e086}',
            Glyph::TimeSig7 => '\u{e087}',
            Glyph::TimeSig8 => '\u{e088}',
            Glyph::TimeSig9 => '\u{e089}',
        }
    }

    /// The glyph's codepoint in a SMuFL-compliant music font.
    #[verifier::when_used_as_spec(spec_codepoint)]
    pub fn codepoint(&self) -> (r: char)
        ensures
            r == self.spec_codepoint(),
    {
        match self {
            Glyph::GClef => '\u{e050}',
            Glyph::CClef => '\u{e05c}',
            Glyph::FClef => '\u{e062}',
            Glyph::NoteheadWhole => '\u{e0a2}',
            Glyph::NoteheadHalf => '\u{e0a3}',
            Glyph::NoteheadBlack => '\u{e0a4}',
            Glyph::Flag8thUp => '\u{e240}',
            Glyph::Flag8thDown => '\u{e241}',
            Glyph::Flag16thUp => '\u{e242}',
            Glyph::Flag16thDown => '\u{e243}',
            Glyph::Flag32ndUp => '\u{e244}',
            Glyph::Flag32ndDown => '\u{e245}',
            Glyph::Flag64thUp => '\u{e246}',
            Glyph::Flag64thDown => '\u{e247}',
            Glyph::Flag128thUp => '\u{e248}',
            Glyph::Flag128thDown => '\u{e249}',
            Glyph::Flag256thUp => '\u{e24a}',
            Glyph::Flag256thDown => '\u{e24b}',
            Glyph::RestWhole => '\u{e4e3}',
            Glyph::RestHalf => '\u{e4e4}',
            Glyph::RestQuarter => '\u{e4e5}',
            Glyph::Rest8th => '\u{e4e6}',
            Glyph::Rest16th => '\u{e4e7}',
            Glyph::Rest32nd => '\u{e4e8}',
            Glyph::Rest64th => '\u{e4e9}',
            Glyph::Rest128th => '\u{e4ea}',
            Glyph::Rest256th => '\u{e4eb}',
            Glyph::AccidentalDoubleFlat => '\u{e264}',
            Glyph::AccidentalFlat => '\u{e260}',
            Glyph::AccidentalNatural => '\u{e261}',
            Glyph::AccidentalSharp => '\u{e262}',
            Glyph::AccidentalDoubleSharp => '\u{e263}',
            Glyph::TimeSig0 => '\u{e080}',
            Glyph::TimeSig1 => '\u{e081}',
            Glyph::TimeSig2 => '\u{e082}',
            Glyph::TimeSig3 => '\u{e083}',
            Glyph::TimeSig4 => '\u{e084}',
            Glyph::TimeSig5 => '\u{e085}',
            Glyph::TimeSig6 => '\u{e086}',
            Glyph::TimeSig7 => '\u{e087}',
            Glyph::TimeSig8 => '\u{e088}',
            Glyph::TimeSig9 => '\u{e089}',
        }
    }

    /// A distinct small index for each glyph, used as the key of the metric
    /// tables.
    pub open spec fn spec_index(&self) -> u64 {
        match self {
            Glyph::GClef => 0,
            Glyph::CClef => 1,
            Glyph::FClef => 2,
            Glyph::NoteheadWhole => 3,
            Glyph::NoteheadHalf => 4,
            Glyph::NoteheadBlack => 5,
            Glyph::Flag8thUp => 6,
            Glyph::Flag8thDown => 7,
            Glyph::Flag16thUp => 8,
            Glyph::Flag16thDown => 9,
            Glyph::Flag32ndUp => 10,
            Glyph::Flag32ndDown => 11,
            Glyph::Flag64thUp => 12,
            Glyph::Flag64thDown => 13,
            Glyph::Flag128thUp => 14,
            Glyph::Flag128thDown => 15,
            Glyph::Flag256thUp => 16,
            Glyph::Flag256thDown => 17,
            Glyph::RestWhole => 18,
            Glyph::RestHalf => 19,
            Glyph::RestQuarter => 20,
            Glyph::Rest8th => 21,
            Glyph::Rest16th => 22,
            Glyph::Rest32nd => 23,
            Glyph::Rest64th => 24,
            Glyph::Rest128th => 25,
            Glyph::Rest256th => 26,
            Glyph::AccidentalDoubleFlat => 27,
            Glyph::AccidentalFlat => 28,
            Glyph::AccidentalNatural => 29,
            Glyph::AccidentalSharp => 30,
            Glyph::AccidentalDoubleSharp => 31,
            Glyph::TimeSig0 => 32,
            Glyph::TimeSig1 => 33,
            Glyph::TimeSig2 => 34,
            Glyph::TimeSig3 => 35,
            Glyph::TimeSig4 => 36,
            Glyph::TimeSig5 => 37,
            Glyph::TimeSig6 => 38,
            Glyph::TimeSig7 => 39,
            Glyph::TimeSig8 => 40,
            Glyph::TimeSig9 => 41,
        }
    }

    /// A distinct small index for each glyph, used as the key of the metric
    /// tables.
    #[verifier::when_used_as_spec(spec_index)]
    pub fn index(&self) -> (r: u64)
        ensures
            r == self.spec_index(),
    {
        match self {
            Glyph::GClef => 0,
            Glyph::CClef => 1,
            Glyph::FClef => 2,
            Glyph::NoteheadWhole => 3,
            Glyph::NoteheadHalf => 4,
            Glyph::NoteheadBlack => 5,
            Glyph::Flag8thUp => 6,
            Glyph::Flag8thDown => 7,
            Glyph::Flag16thUp => 8,
            Glyph::Flag16thDown => 9,
            Glyph::Flag32ndUp => 10,
            Glyph::Flag32ndDown => 11,
            Glyph::Flag64thUp => 12,
            Glyph::Flag64thDown => 13,
            Glyph::Flag128thUp => 14,
            Glyph::Flag128thDown => 15,
            Glyph::Flag256thUp => 16,
            Glyph::Flag256thDown => 17,
            Glyph::RestWhole => 18,
            Glyph::RestHalf => 19,
            Glyph::RestQuarter => 20,
            Glyph::Rest8th => 21,
            Glyph::Rest16th => 22,
            Glyph::Rest32nd => 23,
            Glyph::Rest64th => 24,
            Glyph::Rest128th => 25,
            Glyph::Rest256th => 26,
            Glyph::AccidentalDoubleFlat => 27,
            Glyph::AccidentalFlat => 28,
            Glyph::AccidentalNatural => 29,
            Glyph::AccidentalSharp => 30,
            Glyph::AccidentalDoubleSharp => 31,
            Glyph::TimeSig0 => 32,
            Glyph::TimeSig1 => 33,
            Glyph::TimeSig2 => 34,
            Glyph::TimeSig3 => 35,
            Glyph::TimeSig4 => 36,
            Glyph::TimeSig5 => 37,
            Glyph::TimeSig6 => 38,
            Glyph::TimeSig7 => 39,
            Glyph::TimeSig8 => 40,
            Glyph::TimeSig9 => 41,
        }
    }
}

} // verus!
