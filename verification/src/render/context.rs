//! The per-pass notation state the renderers share: the beam in progress.
//!
//! The beam protocol is a two-state machine, idle and active. `begin_beam`
//! fails while a beam is active; `end_beam` fails while none is. Exactly one
//! beam can be in progress at a time.

use vstd::prelude::*;

use crate::render::beam::Beam;
use crate::stem::Direction;
use crate::Error;

pub use crate::render::beam::Notehead;

verus! {

/// The render-pass state: the beam being gathered, if any.
#[derive(Debug)]
pub struct Context {
    /// The beam in progress; `None` while the state machine is idle.
    pub beam: Option<Beam>,
}

impl Default for Context {
    /// Returns an idle context: no beam in progress.
    fn default() -> (r: Context)
        ensures
            (r.beam is None),
    {
        Context { beam: None }
    }
}

impl Context {
    /// Opens a beam with the given stem direction.
    ///
    /// Fails with [`Error::StartedBeamWhileBeamInProgress`], changing
    /// nothing, when a beam is already open.
    pub fn begin_beam(&mut self, stem_direction: Direction) -> (r: Result<(), Error>)
        ensures
            match r {
                Ok(()) => {
                    &&& old(self).beam is None
                    &&& final(self).beam is Some
                    &&& final(self).beam.unwrap().stem_direction == stem_direction
                    &&& final(self).beam.unwrap().noteheads@.len() == 0
                },
                Err(e) => {
                    &&& e == Error::StartedBeamWhileBeamInProgress
                    &&& old(self).beam is Some
                    &&& final(self).beam == old(self).beam
                },
            },
    {
        match self.beam {
            Some(_) => Err(Error::StartedBeamWhileBeamInProgress),
            None => {
                self.beam = Some(Beam::new(stem_direction));
                Ok(())
            },
        }
    }

    /// Closes the beam in progress and hands it back.
    ///
    /// Fails with [`Error::EndedBeamWhileNoBeamInProgress`] when none is
    /// open; either way no beam is in progress afterwards.
    pub fn end_beam(&mut self) -> (r: Result<Beam, Error>)
        ensures
            (final(self).beam is None),
            match r {
                Ok(beam) => old(self).beam == Some(beam),
                Err(e) => {
                    &&& e == Error::EndedBeamWhileNoBeamInProgress
                    &&& old(self).beam is None
                },
            },
    {
        let mut taken: Option<Beam> = None;
        core::mem::swap(&mut self.beam, &mut taken);
        match taken {
            Some(beam) => Ok(beam),
            None => Err(Error::EndedBeamWhileNoBeamInProgress),
        }
    }
}

} // verus!
