//! The layout driver's cursor: the scene elements gathered so far, the
//! horizontal position, and the notation context of the pass.

use vstd::prelude::*;

use crate::ir::{elements_view, Element};
use crate::render::context::Context;
use crate::staff_spaces::StaffSpaces;

verus! {

/// The running state of one render pass.
#[derive(Debug)]
pub struct Renderer {
    /// The scene elements emitted so far, in order.
    pub elements: Vec<Element<StaffSpaces>>,
    /// The horizontal cursor, in staff-space units from the staff's start.
    pub position: StaffSpaces,
    /// The notation state the renderers share.
    pub context: Context,
}

impl Renderer {
    /// Returns a renderer at the staff's start with nothing emitted and an
    /// idle context.
    pub fn new() -> (r: Renderer)
        ensures
            r.elements@.len() == 0,
            r.position@ == 0,
            (r.context.beam is None),
    {
        Renderer {
            elements: Vec::new(),
            position: StaffSpaces { units: 0 },
            context: Context { beam: None },
        }
    }

    /// Appends already-rendered elements without moving the cursor.
    pub fn add_elements(&mut self, elements: Vec<Element<StaffSpaces>>)
        ensures
            elements_view(final(self).elements@) =~= elements_view(old(self).elements@)
                + elements_view(elements@),
            final(self).position == old(self).position,
            final(self).context.beam == old(self).context.beam,
    {
        let mut elements = elements;
        let ghost old_elements = self.elements@;
        let ghost added = elements@;
        self.elements.append(&mut elements);
        proof {
            assert(elements_view(self.elements@) =~= elements_view(old_elements) + elements_view(
                added,
            ));
        }
    }

    /// Moves the cursor right by `width`.
    pub fn advance(&mut self, width: StaffSpaces)
        requires
            i64::MIN <= old(self).position@ + width@ <= i64::MAX,
        ensures
            final(self).position@ == old(self).position@ + width@,
            final(self).elements == old(self).elements,
            final(self).context.beam == old(self).context.beam,
    {
        self.position = StaffSpaces { units: self.position.units + width.units };
    }

    /// The cursor's position.
    pub fn position(&self) -> (r: StaffSpaces)
        ensures
            r == self.position,
    {
        self.position
    }

    /// Hands over everything emitted.
    pub fn to_elements(self) -> (r: Vec<Element<StaffSpaces>>)
        ensures
            r == self.elements,
    {
        self.elements
    }

    /// The notation context, for beam control between elements.
    pub fn context(&mut self) -> (r: &mut Context)
        ensures
            *r == old(self).context,
            final(self).context == *final(r),
            final(self).elements == old(self).elements,
            final(self).position == old(self).position,
    {
        &mut self.context
    }
}

} // verus!
