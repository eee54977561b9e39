//! The barline renderer.
//!
//! A thin barline is one vertical line over the staff's height. A final
//! barline is a thin line followed by a thick one, separated by the font's
//! thin-thick separation (falling back to the plain barline separation).

use vstd::prelude::*;

use crate::ir::{Coord, CoordModel, Line, Linecap, Shape, ShapeModel};
use crate::metrics::Metrics;
use crate::render::{Output, OutputModel};
use crate::staff_spaces::{StaffSpaces, POSITION_LIMIT};
use crate::Error;

verus! {

/// The barline that closes a measure.
#[derive(Clone, Copy, Debug, PartialEq, Eq, Structural)]
pub enum Barline {
    Thin,
    Final,
}

impl Default for Barline {
    /// The default barline is thin.
    fn default() -> (r: Barline)
        ensures
            r == Barline::Thin,
    {
        Barline::Thin
    }
}

/// A vertical line over the staff's height, centered on `x + thickness/2`.
pub open spec fn spec_barline_line(x: int, thickness: int) -> ShapeModel {
    ShapeModel::Line {
        from: CoordModel { x: x + thickness / 2, y: 0 },
        to: CoordModel { x: x + thickness / 2, y: 40_000_000 },
        thickness,
        cap: Linecap::Butt,
    }
}

impl Barline {
    /// What rendering the barline returns. A thin barline is one line, its
    /// own thickness wide. A final barline is a thin then a thick line, the
    /// thin-thick separation apart, consuming the sum of all three widths.
    pub open spec fn spec_render(self, x: int, metrics: Metrics) -> OutputModel {
        let thin = metrics.engraving_defaults.spec_thin_barline_thickness();
        match self {
            Barline::Thin => OutputModel {
                elements: seq![crate::ir::ElementModel::Shape(spec_barline_line(x, thin))],
                width: thin,
            },
            Barline::Final => {
                let separation = metrics.engraving_defaults.spec_thin_thick_barline_separation();
                let thick = metrics.engraving_defaults.spec_thick_barline_thickness();
                OutputModel {
                    elements: seq![
                        crate::ir::ElementModel::Shape(spec_barline_line(x, thin)),
                        crate::ir::ElementModel::Shape(
                            spec_barline_line(x + thin + separation, thick),
                        ),
                    ],
                    width: thin + separation + thick,
                }
            },
        }
    }

    /// Renders the barline at `x`. Barlines use engraving defaults only, so
    /// they cannot fail.
    pub fn render(&self, x: StaffSpaces, metrics: &Metrics) -> (r: Result<Output, Error>)
        requires
            -POSITION_LIMIT <= x@ <= POSITION_LIMIT,
            metrics.wf(),
        ensures
            match r {
                Ok(output) => {
                    &&& output@.elements =~= self.spec_render(x@, *metrics).elements
                    &&& output@.width == self.spec_render(x@, *metrics).width
                },
                Err(_) => false,
            },
    {
        let thin = metrics.engraving_defaults.thin_barline_thickness();

        let mut shapes: Vec<Shape<StaffSpaces>> = Vec::new();
        let width: StaffSpaces;

        match self {
            Barline::Thin => {
                shapes.push(barline_line(x, thin));
                width = thin;
            },
            Barline::Final => {
                shapes.push(barline_line(x, thin));

                let separation = metrics.engraving_defaults.thin_thick_barline_separation();
                let thick = metrics.engraving_defaults.thick_barline_thickness();
                let thick_x = StaffSpaces { units: x.units + thin.units + separation.units };
                shapes.push(barline_line(thick_x, thick));

                width = StaffSpaces {
                    units: thin.units + separation.units + thick.units,
                };
            },
        }

        Ok(Output { elements: crate::ir::shapes_to_elements(shapes), width })
    }
}

/// Draws a vertical line over the staff's height, centered on
/// `x + thickness/2`.
fn barline_line(x: StaffSpaces, thickness: StaffSpaces) -> (r: Shape<StaffSpaces>)
    requires
        i64::MIN <= x@ + thickness@ / 2 <= i64::MAX,
        0 <= thickness@,
    ensures
        r@ == spec_barline_line(x@, thickness@),
{
    let center = StaffSpaces { units: x.units + thickness.units / 2 };
    Shape::Line(
        Line {
            from: Coord { x: center, y: StaffSpaces { units: 0 } },
            to: Coord { x: center, y: StaffSpaces { units: 40_000_000 } },
            thickness,
            cap: Linecap::Butt,
        },
    )
}

} // verus!
