//! The key signature renderer: a row of sharp or flat glyphs, one per
//! altered step, each at its precomputed height.

use vstd::prelude::*;

use crate::glyph::Glyph;
use crate::metrics::Metrics;
use crate::render::input::note::spec_notehead;
use crate::render::{Output, OutputModel};
use crate::staff_spaces::{StaffSpaces, POSITION_LIMIT};
use crate::Error;

verus! {

/// How many accidentals a key signature may place: one per step.
pub const MAX_KEY_SIGNATURE_PITCHES: usize = 7;

/// A key signature resolved for layout: which accidental glyph to repeat,
/// and the heights to place it at, in order.
#[derive(Clone, Debug, PartialEq)]
pub struct KeySignature {
    pub kind: Kind,
    pub pitches: Vec<StaffSpaces>,
}

/// Whether a key signature is of sharps or of flats.
#[derive(Clone, Copy, Debug, PartialEq, Eq, Structural)]
pub enum Kind {
    Sharps,
    Flats,
}

impl Default for Kind {
    /// The default kind is sharps.
    fn default() -> (r: Kind)
        ensures
            r == Kind::Sharps,
    {
        Kind::Sharps
    }
}

impl Kind {
    /// What `glyph` returns.
    pub open spec fn spec_glyph(&self) -> Glyph {
        match self {
            Kind::Sharps => Glyph::AccidentalSharp,
            Kind::Flats => Glyph::AccidentalFlat,
        }
    }

    /// The accidental glyph this kind repeats.
    #[verifier::when_used_as_spec(spec_glyph)]
    pub fn glyph(&self) -> (r: Glyph)
        ensures
            r == self.spec_glyph(),
    {
        match self {
            Kind::Sharps => Glyph::AccidentalSharp,
            Kind::Flats => Glyph::AccidentalFlat,
        }
    }
}

/// The gap after each accidental glyph, in staff-space units: a tenth of a
/// staff space.
pub const SPACE_AFTER_SYMBOL_UNITS: i64 = 1_000_000;

impl KeySignature {
    /// Whether the key signature is within the layout bounds: at most one
    /// accidental per step, each height within the position limit.
    pub open spec fn wf(self) -> bool {
        &&& self.pitches@.len() <= MAX_KEY_SIGNATURE_PITCHES
        &&& forall|i: int|
            0 <= i < self.pitches@.len() ==> -POSITION_LIMIT <= (#[trigger] self.pitches@[i])@
                <= POSITION_LIMIT
    }

    /// What rendering the key signature returns: its glyph once per pitch,
    /// advancing by the glyph's width plus a small fixed gap, consuming one
    /// such column per pitch.
    pub open spec fn spec_render(self, x: int, metrics: Metrics) -> Result<OutputModel, Error> {
        let glyph = self.kind.spec_glyph();
        match metrics.spec_width_of(glyph) {
            Err(e) => Err(e),
            Ok(width) => {
                let symbol_width = width + SPACE_AFTER_SYMBOL_UNITS;
                Ok(
                    OutputModel {
                        elements: Seq::new(
                            self.pitches@.len(),
                            |i: int|
                                crate::ir::ElementModel::Shape(
                                    spec_notehead(
                                        x + symbol_width * i,
                                        self.pitches@[i]@,
                                        glyph,
                                    ),
                                ),
                        ),
                        width: symbol_width * self.pitches@.len(),
                    },
                )
            },
        }
    }

    /// Renders the key signature at `x`.
    pub fn render(&self, x: StaffSpaces, metrics: &Metrics) -> (r: Result<Output, Error>)
        requires
            -POSITION_LIMIT <= x@ <= POSITION_LIMIT,
            self.wf(),
            metrics.wf(),
        ensures
            match (r, self.spec_render(x@, *metrics)) {
                (Ok(output), Ok(model)) => {
                    &&& output@.elements =~= model.elements
                    &&& output@.width == model.width
                    &&& 0 <= output@.width <= 8_000_000_000
                },
                (Err(e), Err(spec_e)) => e == spec_e,
                _ => false,
            },
    {
        let glyph = self.kind.glyph();
        let width = match metrics.width_of(glyph) {
            Ok(width) => width,
            Err(e) => {
                return Err(e);
            },
        };
        let symbol_width = StaffSpaces { units: width.units + SPACE_AFTER_SYMBOL_UNITS };
        proof {
            metrics.lemma_width_of_bounded(glyph);
            assert(0 <= symbol_width.units <= 1_001_000_000);
        }

        let mut shapes: Vec<crate::ir::Shape<StaffSpaces>> = Vec::new();
        let mut i: usize = 0;

        while i < self.pitches.len()
            invariant
                i <= self.pitches@.len(),
                shapes@.len() == i,
                forall|j: int|
                    0 <= j < i ==> #[trigger] shapes@[j]@ == spec_notehead(
                        x@ + (width@ + SPACE_AFTER_SYMBOL_UNITS) * j,
                        self.pitches@[j]@,
                        glyph,
                    ),
            decreases self.pitches@.len() - i,
    {
            proof {
                assert(0 <= symbol_width.units * (i as i64) <= 8_000_000_000) by (nonlinear_arith)
                    requires
                        0 <= symbol_width.units <= 1_001_000_000,
                        0 <= i <= 7,
                ;
            }
            let symbol_x = StaffSpaces { units: x.units + symbol_width.units * (i as i64) };
            shapes.push(
                crate::render::input::note::create_notehead(symbol_x, self.pitches[i], glyph),
            );
            i += 1;
        }

        proof {
            assert(0 <= symbol_width.units * (self.pitches@.len() as i64) <= 8_000_000_000)
                by (nonlinear_arith)
                requires
                    0 <= symbol_width.units <= 1_001_000_000,
                    0 <= self.pitches@.len() <= 7,
            ;
        }
        let total_width = StaffSpaces {
            units: symbol_width.units * (self.pitches.len() as i64),
        };

        Ok(Output { elements: crate::ir::shapes_to_elements(shapes), width: total_width })
    }
}

} // verus!
