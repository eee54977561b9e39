//! Clefs in the model, and where each one puts middle C.

use vstd::prelude::*;

use crate::glyph::Glyph;
use crate::model::context::Context;
use crate::render::input;
use crate::staff_spaces::StaffSpaces;

verus! {

/// The four clefs the engine draws.
#[derive(Clone, Copy, Debug, PartialEq, Eq, Structural)]
pub enum Clef {
    Treble,
    Alto,
    Tenor,
    Bass,
}

impl Default for Clef {
    /// The default clef is treble.
    fn default() -> (r: Clef)
        ensures
            r == Clef::Treble,
    {
        Clef::Treble
    }
}

impl Clef {
    /// The glyph that draws this clef.
    pub open spec fn spec_glyph(self) -> Glyph {
        match self {
            Clef::Treble => Glyph::GClef,
            Clef::Alto => Glyph::CClef,
            Clef::Tenor => Glyph::CClef,
            Clef::Bass => Glyph::FClef,
        }
    }

    /// The staff position the clef's glyph sits at, in units.
    pub open spec fn spec_y(self) -> int {
        match self {
            Clef::Treble => 10_000_000,
            Clef::Alto => 20_000_000,
            Clef::Tenor => 30_000_000,
            Clef::Bass => 30_000_000,
        }
    }

    /// Where the clef puts middle C, in units.
    pub open spec fn spec_middle_c_position(self) -> int {
        match self {
            Clef::Treble => -10_000_000,
            Clef::Alto => 20_000_000,
            Clef::Tenor => 30_000_000,
            Clef::Bass => 50_000_000,
        }
    }

    /// Records the clef's middle C with the context and resolves the clef
    /// for layout.
    pub fn into_input(self, context: &mut Context) -> (r: input::Clef)
        ensures
            r.glyph == self.spec_glyph(),
            r.y@ == self.spec_y(),
            final(context).middle_c_position@ == self.spec_middle_c_position(),
            final(context).key_signature == old(context).key_signature,
            final(context).previous_measure_alterations@ == old(
                context,
            ).previous_measure_alterations@,
            final(context).current_measure_alterations@ == old(
                context,
            ).current_measure_alterations@,
    {
        let (glyph, y, middle_c_position) = match self {
            Clef::Treble => (Glyph::GClef, 10_000_000i64, -10_000_000i64),
            Clef::Alto => (Glyph::CClef, 20_000_000i64, 20_000_000i64),
            Clef::Tenor => (Glyph::CClef, 30_000_000i64, 30_000_000i64),
            Clef::Bass => (Glyph::FClef, 30_000_000i64, 50_000_000i64),
        };

        context.middle_c_position = StaffSpaces { units: middle_c_position };

        input::Clef { glyph, y: StaffSpaces { units: y } }
    }
}

} // verus!
