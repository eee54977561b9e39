//! A music engraving engine: it lays out a single staff (clef, key
//! signature, time signature, measures of notes, chords and rests) into a
//! geometric intermediate representation in staff-space units, ready for a
//! backend to turn into a drawing.
#![verifier::loop_isolation(false)]

use vstd::prelude::*;

mod accidental;
mod duration;
mod glyph;
mod math;
mod metrics;
mod staff_spaces;
mod table;

pub mod ir;
pub mod model;
pub mod render;
pub mod stem;

pub use accidental::Accidental;
pub use duration::{Dots, Duration, Value};
pub use glyph::Glyph;
pub use math::max;
pub use metrics::{Anchors, EngravingDefaults, Metrics, METRIC_BOUND};
pub use staff_spaces::{StaffSpaces, COORD_LIMIT, POSITION_LIMIT};
pub use stem::{Direction, Stem};
pub use table::Table;

verus! {

/// The kind of glyph metric a lookup was after.
#[derive(Clone, Copy, Debug, PartialEq, Eq, Structural)]
pub enum MetricKind {
    /// The glyph's advance width.
    AdvanceWidth,
    /// The glyph's bounding box.
    BoundingBox,
    /// The glyph's stem anchors.
    Anchors,
    /// The anchor where an upward stem meets the glyph.
    StemUpSe,
    /// The anchor where a downward stem meets the glyph.
    StemDownNw,
}

/// The ways a render pass can fail.
///
/// Every failure aborts the render of the whole staff; there is no partial
/// output.
#[derive(Clone, Copy, Debug, PartialEq, Eq, Structural)]
pub enum Error {
    /// The glyph metrics had no entry of the named kind for the glyph.
    MissingGlyphData { glyph: Glyph, data_type: MetricKind },
    /// `begin_beam` was called while a beam was already in progress.
    StartedBeamWhileBeamInProgress,
    /// `end_beam` was called while no beam was in progress.
    EndedBeamWhileNoBeamInProgress,
}

impl Error {
    /// A short description of the failure.
    pub fn message(&self) -> (r: &'static str)
        ensures
            r@ == match self {
                Error::MissingGlyphData { .. } => "missing glyph metric data"@,
                Error::StartedBeamWhileBeamInProgress =>
                    "cannot start a beam when another beam is in progress"@,
                Error::EndedBeamWhileNoBeamInProgress =>
                    "cannot end a beam when no beam is in progress"@,
            },
    {
        match self {
            Error::MissingGlyphData { .. } => "missing glyph metric data",
            Error::StartedBeamWhileBeamInProgress => {
                "cannot start a beam when another beam is in progress"
            },
            Error::EndedBeamWhileNoBeamInProgress => {
                "cannot end a beam when no beam is in progress"
            },
        }
    }
}

} // verus!
