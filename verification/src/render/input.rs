//! The notation primitives a staff is made of, each with its renderer.

pub mod barline;
pub mod chord;
pub mod clef;
pub mod key_signature;
pub mod measure;
pub mod note;
pub mod rest;
pub mod staff;
pub mod time_signature;

pub use crate::accidental::Accidental;
pub use crate::duration::{Dots, Duration, Value};
pub use barline::Barline;
pub use chord::Chord;
pub use clef::Clef;
pub use key_signature::KeySignature;
pub use measure::Measure;
pub use note::Note;
pub use rest::Rest;
pub use staff::Staff;
pub use time_signature::TimeSignature;

use vstd::prelude::*;

verus! {

/// A beam marker carried by a note or chord: the element opens a beam, or
/// closes the one in progress.
#[derive(Clone, Copy, Debug, PartialEq, Eq, Structural)]
pub enum Beam {
    Begin,
    End,
}

} // verus!
