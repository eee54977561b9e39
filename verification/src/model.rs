//! The symbolic model a staff is written in: pitches with steps, octaves
//! and alterations, and the notation context that resolves them to staff
//! positions and accidentals.

pub mod chord;
pub mod clef;
pub mod context;
pub mod key_signature;
pub mod measure;
pub mod note;
pub mod pitch;
pub mod staff;

pub use crate::duration::{Dots, Duration, Value};
pub use crate::render::input::{Barline, Rest, TimeSignature};
pub use chord::Chord;
pub use clef::Clef;
pub use context::{AccidentalState, Context};
pub use key_signature::KeySignature;
pub use measure::Measure;
pub use note::Note;
pub use pitch::{Alteration, Pitch, Step};
pub use staff::Staff;
