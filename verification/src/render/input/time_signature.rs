//! The time signature renderer.
//!
//! Numerator and denominator are each drawn as a stack of digit glyphs; the
//! total width is the wider stack's, and the narrower stack is centered
//! within it. The numerator sits a staff space above the middle line, the
//! denominator one below.

use vstd::prelude::*;

use crate::glyph::Glyph;
use crate::metrics::Metrics;
use crate::render::input::note::spec_notehead;
use crate::render::{Output, OutputModel};
use crate::staff_spaces::{StaffSpaces, POSITION_LIMIT};
use crate::Error;

verus! {

/// A time signature: plain numerator over denominator.
#[derive(Clone, Copy, Debug, PartialEq, Eq, Structural)]
pub struct TimeSignature {
    pub numerator: u8,
    pub denominator: u8,
}

/// The digit glyph for `digit`, which must be below ten.
pub open spec fn spec_digit_glyph(digit: int) -> Glyph {
    if digit == 0 {
        Glyph::TimeSig0
    } else if digit == 1 {
        Glyph::TimeSig1
    } else if digit == 2 {
        Glyph::TimeSig2
    } else if digit == 3 {
        Glyph::TimeSig3
    } else if digit == 4 {
        Glyph::TimeSig4
    } else if digit == 5 {
        Glyph::TimeSig5
    } else if digit == 6 {
        Glyph::TimeSig6
    } else if digit == 7 {
        Glyph::TimeSig7
    } else if digit == 8 {
        Glyph::TimeSig8
    } else {
        Glyph::TimeSig9
    }
}

/// The decimal digits of `number` as glyphs, most significant first.
pub open spec fn spec_number_glyphs(number: int) -> Seq<Glyph> {
    if number < 10 {
        seq![spec_digit_glyph(number)]
    } else if number < 100 {
        seq![spec_digit_glyph(number / 10), spec_digit_glyph(number % 10)]
    } else {
        seq![
            spec_digit_glyph(number / 100),
            spec_digit_glyph((number / 10) % 10),
            spec_digit_glyph(number % 10),
        ]
    }
}

/// The summed advance widths of `glyphs`, or the first missing-width error.
pub open spec fn spec_glyphs_width(glyphs: Seq<Glyph>, metrics: Metrics) -> Result<int, Error>
    decreases glyphs.len(),
{
    if glyphs.len() == 0 {
        Ok(0)
    } else {
        match metrics.spec_width_of(glyphs[0]) {
            Err(e) => Err(e),
            Ok(width) => match spec_glyphs_width(glyphs.drop_first(), metrics) {
                Err(e) => Err(e),
                Ok(rest) => Ok(width + rest),
            },
        }
    }
}

/// The symbols placing `glyphs` in a row at height `y`, starting `offset`
/// after `x` and advancing by each glyph's width, or the first
/// missing-width error.
pub open spec fn spec_glyph_row(
    glyphs: Seq<Glyph>,
    x: int,
    y: int,
    offset: int,
    metrics: Metrics,
) -> Result<Seq<crate::ir::ShapeModel>, Error>
    decreases glyphs.len(),
{
    if glyphs.len() == 0 {
        Ok(Seq::empty())
    } else {
        match metrics.spec_width_of(glyphs[0]) {
            Err(e) => Err(e),
            Ok(width) => match spec_glyph_row(
                glyphs.drop_first(),
                x,
                y,
                offset + width,
                metrics,
            ) {
                Err(e) => Err(e),
                Ok(rest) => Ok(seq![spec_notehead(x + offset, y, glyphs[0])] + rest),
            },
        }
    }
}

impl TimeSignature {
    /// The numerator's digit glyphs, most significant first.
    pub open spec fn spec_numerator_glyphs(self) -> Seq<Glyph> {
        spec_number_glyphs(self.numerator as int)
    }

    /// The denominator's digit glyphs, most significant first.
    pub open spec fn spec_denominator_glyphs(self) -> Seq<Glyph> {
        spec_number_glyphs(self.denominator as int)
    }

    /// The numerator's digit glyphs, most significant first.
    pub fn numerator_glyphs(&self) -> (r: Vec<Glyph>)
        ensures
            r@ =~= self.spec_numerator_glyphs(),
    {
        glyphs_for_number(self.numerator)
    }

    /// The denominator's digit glyphs, most significant first.
    pub fn denominator_glyphs(&self) -> (r: Vec<Glyph>)
        ensures
            r@ =~= self.spec_denominator_glyphs(),
    {
        glyphs_for_number(self.denominator)
    }

    /// What rendering the time signature returns: the numerator row at one
    /// staff space above the middle line and the denominator row one below,
    /// each centered in the wider row's width, which is the width consumed.
    pub open spec fn spec_render(self, x: int, metrics: Metrics) -> Result<OutputModel, Error> {
        match spec_glyphs_width(self.spec_numerator_glyphs(), metrics) {
            Err(e) => Err(e),
            Ok(numerator_width) => match spec_glyphs_width(
                self.spec_denominator_glyphs(),
                metrics,
            ) {
                Err(e) => Err(e),
                Ok(denominator_width) => {
                    let width = if numerator_width > denominator_width {
                        numerator_width
                    } else {
                        denominator_width
                    };
                    match spec_glyph_row(
                        self.spec_numerator_glyphs(),
                        x,
                        30_000_000,
                        (width - numerator_width) / 2,
                        metrics,
                    ) {
                        Err(e) => Err(e),
                        Ok(numerator_row) => match spec_glyph_row(
                            self.spec_denominator_glyphs(),
                            x,
                            10_000_000,
                            (width - denominator_width) / 2,
                            metrics,
                        ) {
                            Err(e) => Err(e),
                            Ok(denominator_row) => Ok(
                                OutputModel {
                                    elements: (numerator_row + denominator_row).map_values(
                                        |s: crate::ir::ShapeModel|
                                            crate::ir::ElementModel::Shape(s),
                                    ),
                                    width,
                                },
                            ),
                        },
                    }
                },
            },
        }
    }

    /// Renders the time signature at `x`.
    pub fn render(&self, x: StaffSpaces, metrics: &Metrics) -> (r: Result<Output, Error>)
        requires
            -POSITION_LIMIT <= x@ <= POSITION_LIMIT,
            metrics.wf(),
        ensures
            match (r, self.spec_render(x@, *metrics)) {
                (Ok(output), Ok(model)) => {
                    &&& output@.elements =~= model.elements
                    &&& output@.width == model.width
                    &&& 0 <= output@.width <= 3_000_000_000
                },
                (Err(e), Err(spec_e)) => e == spec_e,
                _ => false,
            },
    {
        let numerator_glyphs = glyphs_for_number(self.numerator);
        let denominator_glyphs = glyphs_for_number(self.denominator);

        let numerator_width = match glyphs_width(&numerator_glyphs, metrics) {
            Ok(width) => width,
            Err(e) => {
                return Err(e);
            },
        };
        let denominator_width = match glyphs_width(&denominator_glyphs, metrics) {
            Ok(width) => width,
            Err(e) => {
                return Err(e);
            },
        };

        let width = crate::math::max(numerator_width, denominator_width);

        let numerator_offset = StaffSpaces {
            units: (width.units - numerator_width.units) / 2,
        };
        let mut shapes = match glyph_row(
            &numerator_glyphs,
            x,
            StaffSpaces { units: 30_000_000 },
            numerator_offset,
            metrics,
        ) {
            Ok(shapes) => shapes,
            Err(e) => {
                return Err(e);
            },
        };

        let denominator_offset = StaffSpaces {
            units: (width.units - denominator_width.units) / 2,
        };
        let mut denominator_row = match glyph_row(
            &denominator_glyphs,
            x,
            StaffSpaces { units: 10_000_000 },
            denominator_offset,
            metrics,
        ) {
            Ok(shapes) => shapes,
            Err(e) => {
                return Err(e);
            },
        };
        shapes.append(&mut denominator_row);

        proof {
            let num_models = spec_glyph_row(
                self.spec_numerator_glyphs(),
                x@,
                30_000_000,
                (width@ - numerator_width@) / 2,
                *metrics,
            )->Ok_0;
            let den_models = spec_glyph_row(
                self.spec_denominator_glyphs(),
                x@,
                10_000_000,
                (width@ - denominator_width@) / 2,
                *metrics,
            )->Ok_0;
            assert(crate::ir::shapes_view(shapes@) =~= num_models + den_models);
        }

        Ok(Output { elements: crate::ir::shapes_to_elements(shapes), width })
    }
}

/// The decimal digits of `number` as glyphs, most significant first.
fn glyphs_for_number(number: u8) -> (r: Vec<Glyph>)
    ensures
        r@ =~= spec_number_glyphs(number as int),
{
    let mut glyphs: Vec<Glyph> = Vec::new();
    if number >= 100 {
        glyphs.push(digit_glyph(number / 100));
        glyphs.push(digit_glyph((number / 10) % 10));
        glyphs.push(digit_glyph(number % 10));
    } else if number >= 10 {
        glyphs.push(digit_glyph(number / 10));
        glyphs.push(digit_glyph(number % 10));
    } else {
        glyphs.push(digit_glyph(number));
    }
    glyphs
}

/// The digit glyph for `digit`, which must be below ten.
fn digit_glyph(digit: u8) -> (r: Glyph)
    requires
        digit < 10,
    ensures
        r == spec_digit_glyph(digit as int),
{
    match digit {
        0 => Glyph::TimeSig0,
        1 => Glyph::TimeSig1,
        2 => Glyph::TimeSig2,
        3 => Glyph::TimeSig3,
        4 => Glyph::TimeSig4,
        5 => Glyph::TimeSig5,
        6 => Glyph::TimeSig6,
        7 => Glyph::TimeSig7,
        8 => Glyph::TimeSig8,
        _ => Glyph::TimeSig9,
    }
}

/// Sums the advance widths of `glyphs`.
fn glyphs_width(glyphs: &Vec<Glyph>, metrics: &Metrics) -> (r: Result<StaffSpaces, Error>)
    requires
        glyphs@.len() <= 3,
        metrics.wf(),
    ensures
        match (r, spec_glyphs_width(glyphs@, *metrics)) {
            (Ok(width), Ok(spec_width)) => {
                &&& width@ == spec_width
                &&& 0 <= width@ <= 3_000_000_000
            },
            (Err(e), Err(spec_e)) => e == spec_e,
            _ => false,
        },
{
    let mut total: i64 = 0;
    let mut i: usize = 0;

    proof {
        assert(glyphs@.skip(0) =~= glyphs@);
    }

    while i < glyphs.len()
        invariant
            i <= glyphs@.len(),
            0 <= total <= i * 1_000_000_000,
            spec_glyphs_width(glyphs@, *metrics) == (match spec_glyphs_width(
                glyphs@.skip(i as int),
                *metrics,
            ) {
                Ok(rest) => Ok(total + rest),
                Err(e) => Err::<int, Error>(e),
            }),
        decreases glyphs@.len() - i,
    {
        proof {
            assert(glyphs@.skip(i as int)[0] == glyphs@[i as int]);
            assert(glyphs@.skip(i as int).drop_first() =~= glyphs@.skip(i as int + 1));
            metrics.lemma_width_of_bounded(glyphs@[i as int]);
        }
        let width = match metrics.width_of(glyphs[i]) {
            Ok(width) => width,
            Err(e) => {
                return Err(e);
            },
        };
        total = total + width.units;
        i += 1;
    }

    proof {
        assert(glyphs@.skip(glyphs@.len() as int) =~= Seq::<Glyph>::empty());
    }
    Ok(StaffSpaces { units: total })
}

/// Places `glyphs` in a row at height `y`, starting `offset` after `x` and
/// advancing by each glyph's width.
fn glyph_row(
    glyphs: &Vec<Glyph>,
    x: StaffSpaces,
    y: StaffSpaces,
    offset: StaffSpaces,
    metrics: &Metrics,
) -> (r: Result<Vec<crate::ir::Shape<StaffSpaces>>, Error>)
    requires
        glyphs@.len() <= 3,
        -POSITION_LIMIT <= x@ <= POSITION_LIMIT,
        0 <= offset@ <= 3_000_000_000,
        metrics.wf(),
    ensures
        match (r, spec_glyph_row(glyphs@, x@, y@, offset@, *metrics)) {
            (Ok(shapes), Ok(models)) => crate::ir::shapes_view(shapes@) =~= models,
            (Err(e), Err(spec_e)) => e == spec_e,
            _ => false,
        },
{
    let mut shapes: Vec<crate::ir::Shape<StaffSpaces>> = Vec::new();
    let mut current_offset = offset;
    let mut i: usize = 0;

    proof {
        assert(glyphs@.skip(0) =~= glyphs@);
        match spec_glyph_row(glyphs@, x@, y@, offset@, *metrics) {
            Ok(rest) => {
                assert(crate::ir::shapes_view(shapes@) + rest =~= rest);
            },
            Err(_) => {},
        }
    }

    while i < glyphs.len()
        invariant
            i <= glyphs@.len(),
            shapes@.len() == i,
            offset@ <= current_offset@ <= offset@ + i * 1_000_000_000,
            spec_glyph_row(glyphs@, x@, y@, offset@, *metrics) == (match spec_glyph_row(
                glyphs@.skip(i as int),
                x@,
                y@,
                current_offset@,
                *metrics,
            ) {
                Ok(rest) => Ok(crate::ir::shapes_view(shapes@) + rest),
                Err(e) => Err::<Seq<crate::ir::ShapeModel>, Error>(e),
            }),
        decreases glyphs@.len() - i,
    {
        proof {
            assert(glyphs@.skip(i as int)[0] == glyphs@[i as int]);
            assert(glyphs@.skip(i as int).drop_first() =~= glyphs@.skip(i as int + 1));
            metrics.lemma_width_of_bounded(glyphs@[i as int]);
        }
        let width = match metrics.width_of(glyphs[i]) {
            Ok(width) => width,
            Err(e) => {
                return Err(e);
            },
        };
        let symbol_x = StaffSpaces { units: x.units + current_offset.units };
        let ghost shapes_before = shapes@;
        shapes.push(crate::render::input::note::create_notehead(symbol_x, y, glyphs[i]));
        proof {
            if let Ok(rest) = spec_glyph_row(
                glyphs@.skip(i as int + 1),
                x@,
                y@,
                current_offset@ + width@,
                *metrics,
            ) {
                assert(crate::ir::shapes_view(shapes_before) + (seq![
                    spec_notehead(x@ + current_offset@, y@, glyphs@[i as int]),
                ] + rest) =~= crate::ir::shapes_view(shapes@) + rest);
            }
        }
        current_offset = StaffSpaces { units: current_offset.units + width.units };
        i += 1;
    }

    proof {
        assert(glyphs@.skip(glyphs@.len() as int) =~= Seq::<Glyph>::empty());
        match spec_glyph_row(glyphs@, x@, y@, offset@, *metrics) {
            Ok(models) => {
                assert(crate::ir::shapes_view(shapes@) + Seq::<crate::ir::ShapeModel>::empty()
                    =~= crate::ir::shapes_view(shapes@));
            },
            Err(_) => {},
        }
    }
    Ok(shapes)
}

} // verus!
