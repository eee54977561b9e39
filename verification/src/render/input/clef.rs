//! The clef renderer: one glyph at the clef's height.

use vstd::prelude::*;

use crate::glyph::Glyph;
use crate::metrics::Metrics;
use crate::render::input::note::{create_notehead, spec_notehead};
use crate::render::{Output, OutputModel};
use crate::staff_spaces::StaffSpaces;
use crate::Error;

verus! {

/// A clef, resolved for layout: its glyph and the height it sits at.
#[derive(Clone, Copy, Debug, PartialEq)]
pub struct Clef {
    pub glyph: Glyph,
    pub y: StaffSpaces,
}

impl Clef {
    /// What rendering the clef returns: its glyph at `(x, y)` and the
    /// glyph's width.
    pub open spec fn spec_render(self, x: int, metrics: Metrics) -> Result<OutputModel, Error> {
        match metrics.spec_width_of(self.glyph) {
            Err(e) => Err(e),
            Ok(width) => Ok(
                OutputModel {
                    elements: seq![
                        crate::ir::ElementModel::Shape(spec_notehead(x, self.y@, self.glyph)),
                    ],
                    width,
                },
            ),
        }
    }

    /// Renders the clef at `x`.
    pub fn render(&self, x: StaffSpaces, metrics: &Metrics) -> (r: Result<Output, Error>)
        ensures
            match (r, self.spec_render(x@, *metrics)) {
                (Ok(output), Ok(model)) => {
                    &&& output@.elements =~= model.elements
                    &&& output@.width == model.width
                },
                (Err(e), Err(spec_e)) => e == spec_e,
                _ => false,
            },
    {
        let width = match metrics.width_of(self.glyph) {
            Ok(width) => width,
            Err(e) => {
                return Err(e);
            },
        };

        let mut shapes: Vec<crate::ir::Shape<StaffSpaces>> = Vec::new();
        shapes.push(create_notehead(x, self.y, self.glyph));

        Ok(Output { elements: crate::ir::shapes_to_elements(shapes), width })
    }
}

} // verus!
