//! The rest renderer.
//!
//! A rest is one glyph on the middle staff line; it never has leger lines,
//! accidentals or stems.

use vstd::prelude::*;

use crate::duration::Duration;
use crate::ir::{Element, Group, Shape};
use crate::metrics::Metrics;
use crate::render::input::note::spec_notehead;
use crate::render::{Output, OutputModel};
use crate::staff_spaces::StaffSpaces;
use crate::Error;

verus! {

/// A rest: a duration and an optional identifier for the emitted group.
#[derive(Clone, Debug, PartialEq)]
pub struct Rest {
    pub duration: Duration,
    pub id: Option<String>,
}

impl Rest {
    /// What rendering the rest returns: its duration's rest glyph on the
    /// middle line — grouped under the rest's identifier when it has one —
    /// and the glyph's width.
    pub open spec fn spec_render(self, x: int, metrics: Metrics) -> Result<OutputModel, Error> {
        let glyph = self.duration.value.spec_rest_glyph();
        let shape = spec_notehead(x, 20_000_000, glyph);
        match metrics.spec_width_of(glyph) {
            Err(e) => Err(e),
            Ok(width) => Ok(
                OutputModel {
                    elements: match self.id {
                        Some(id) => seq![
                            crate::ir::ElementModel::Group {
                                id: Some(id@),
                                elements: seq![shape],
                            },
                        ],
                        None => seq![crate::ir::ElementModel::Shape(shape)],
                    },
                    width,
                },
            ),
        }
    }

    /// Renders the rest at `x`.
    pub fn render(&self, x: StaffSpaces, metrics: &Metrics) -> (r: Result<Output, Error>)
        ensures
            match (r, self.spec_render(x@, *metrics)) {
                (Ok(output), Ok(model)) => {
                    &&& output@.elements =~= model.elements
                    &&& output@.width == model.width
                },
                (Err(e), Err(spec_e)) => e == spec_e,
                _ => false,
            },
    {
        let glyph = self.duration.value.rest_glyph();

        let shape = crate::render::input::note::create_notehead(
            x,
            StaffSpaces { units: 20_000_000 },
            glyph,
        );

        let width = match metrics.width_of(glyph) {
            Ok(width) => width,
            Err(e) => {
                return Err(e);
            },
        };

        let mut shapes: Vec<Shape<StaffSpaces>> = Vec::new();
        shapes.push(shape);
        proof {
            assert(crate::ir::shapes_view(shapes@) =~= seq![
                spec_notehead(x@, 20_000_000, self.duration.value.spec_rest_glyph()),
            ]);
        }

        let elements = match &self.id {
            Some(id) => {
                let mut group_elements: Vec<Element<StaffSpaces>> = Vec::new();
                group_elements.push(
                    Element::Group(Group { elements: shapes, id: Some(id.clone()) }),
                );
                group_elements
            },
            None => crate::ir::shapes_to_elements(shapes),
        };

        Ok(Output { elements, width })
    }
}

} // verus!
