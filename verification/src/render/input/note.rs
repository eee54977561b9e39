//! The note renderer, and the glyph-placement helpers the chord renderer
//! shares.
//!
//! A note emits its notehead, leger lines when it sits outside the staff,
//! an accidental to its left when the notation context resolved one, and —
//! unless a beam is collecting it or it is a whole note — its own stem and
//! flag. A note at or above the middle line takes a downward stem.

use vstd::prelude::*;

use crate::accidental::Accidental;
use crate::duration::{Duration, Value};
use crate::glyph::Glyph;
use crate::ir::{Coord, CoordModel, Element, Group, Line, Linecap, Shape, ShapeModel, Symbol};
use crate::metrics::Metrics;
use crate::render::beam::Notehead;
use crate::render::context::Context;
use crate::render::input::Beam;
use crate::render::{Output, OutputModel};
use crate::staff_spaces::{StaffSpaces, POSITION_LIMIT};
use crate::stem::{Direction, Stem};
use crate::Error;

verus! {

/// The gap between an accidental and its notehead, in staff-space units:
/// three tenths of a staff space.
pub const DEFAULT_ACCIDENTAL_SPACING_UNITS: i64 = 3_000_000;

/// A note, fully resolved for layout: a vertical position, an optional
/// accidental to draw, a duration, an optional beam marker and an optional
/// identifier for the emitted group.
#[derive(Clone, Debug, PartialEq)]
pub struct Note {
    pub y: StaffSpaces,
    pub accidental: Option<Accidental>,
    pub duration: Duration,
    pub beam: Option<Beam>,
    pub id: Option<String>,
}

/// The notehead glyph placed at a position.
pub open spec fn spec_notehead(x: int, y: int, glyph: Glyph) -> ShapeModel {
    ShapeModel::Symbol { origin: CoordModel { x, y }, value: glyph.spec_codepoint() }
}

/// Places a notehead glyph.
pub fn create_notehead(x: StaffSpaces, y: StaffSpaces, glyph: Glyph) -> (r: Shape<StaffSpaces>)
    ensures
        r@ == spec_notehead(x@, y@, glyph),
{
    Shape::Symbol(Symbol { origin: Coord { x, y }, value: glyph.codepoint() })
}

/// How many leger lines a note at height `y` (in units) needs: none inside
/// the five-line staff band, else one per full staff space beyond the edge
/// and at least one as soon as the band is left.
pub open spec fn spec_leger_line_count(y: int) -> int {
    if 0 <= y <= 40_000_000 {
        0
    } else if y > 40_000_000 {
        let whole = (y - 40_000_000) / 10_000_000;
        if whole < 1 {
            1
        } else {
            whole
        }
    } else {
        let whole = (-y) / 10_000_000;
        if whole < 1 {
            1
        } else {
            whole
        }
    }
}

/// The height of leger line number `i` (counting from the staff) for a note
/// at height `y`: above the staff they sit on whole staff spaces from the
/// first line above the band, below on whole staff spaces from the first
/// line below.
pub open spec fn spec_leger_line_y(y: int, i: int) -> int {
    if y > 40_000_000 {
        50_000_000 + i * 10_000_000
    } else {
        -10_000_000 - i * 10_000_000
    }
}

/// What `create_leger_lines` emits for a note at `(x, y)` whose notehead is
/// `width` wide: `spec_leger_line_count` lines, reaching one leger-line
/// extension beyond the notehead on each side.
pub open spec fn spec_leger_lines(x: int, y: int, width: int, metrics: Metrics) -> Seq<ShapeModel> {
    let extension = metrics.engraving_defaults.spec_leger_line_extension();
    let thickness = metrics.engraving_defaults.spec_leger_line_thickness();
    Seq::new(
        spec_leger_line_count(y) as nat,
        |i: int|
            ShapeModel::Line {
                from: CoordModel { x: x - extension, y: spec_leger_line_y(y, i) },
                to: CoordModel { x: x + width + extension, y: spec_leger_line_y(y, i) },
                thickness,
                cap: Linecap::Round,
            },
    )
}

/// What `create_leger_lines` returns: nothing inside the staff band, and
/// otherwise the lines of [`spec_leger_lines`], which needs the notehead's
/// width and so can fail.
pub open spec fn spec_create_leger_lines(x: int, y: int, glyph: Glyph, metrics: Metrics) -> Result<
    Seq<ShapeModel>,
    Error,
> {
    if 0 <= y <= 40_000_000 {
        Ok(Seq::empty())
    } else {
        match metrics.spec_width_of(glyph) {
            Err(e) => Err(e),
            Ok(width) => Ok(spec_leger_lines(x, y, width, metrics)),
        }
    }
}

/// Draws the leger lines a note at `(x, y)` needs: none inside the staff
/// band, else one per staff space beyond it and at least one.
pub fn create_leger_lines(
    x: StaffSpaces,
    y: StaffSpaces,
    glyph: Glyph,
    metrics: &Metrics,
) -> (r: Result<Vec<Shape<StaffSpaces>>, Error>)
    requires
        -POSITION_LIMIT <= x@ <= POSITION_LIMIT,
        -POSITION_LIMIT <= y@ <= POSITION_LIMIT,
        metrics.wf(),
    ensures
        match (r, spec_create_leger_lines(x@, y@, glyph, *metrics)) {
            (Ok(shapes), Ok(models)) => crate::ir::shapes_view(shapes@) =~= models,
            (Err(e), Err(spec_e)) => e == spec_e,
            _ => false,
        },
{
    if y.units >= 0 && y.units <= 40_000_000 {
        return Ok(Vec::new());
    }

    let width = match metrics.width_of(glyph) {
        Ok(width) => width,
        Err(e) => {
            return Err(e);
        },
    };

    let above = y.units > 40_000_000;
    let num_lines: i64 = if above {
        let whole = (y.units - 40_000_000) / 10_000_000;
        if whole < 1 {
            1
        } else {
            whole
        }
    } else {
        let whole = (-y.units) / 10_000_000;
        if whole < 1 {
            1
        } else {
            whole
        }
    };
    proof {
        assert(num_lines == spec_leger_line_count(y@));
        assert(1 <= num_lines <= POSITION_LIMIT / 10_000_000);
    }

    let extension = metrics.engraving_defaults.leger_line_extension();
    let thickness = metrics.engraving_defaults.leger_line_thickness();
    let left_x = StaffSpaces { units: x.units - extension.units };
    let right_x = StaffSpaces { units: x.units + width.units + extension.units };

    let mut shapes: Vec<Shape<StaffSpaces>> = Vec::new();
    let mut i: i64 = 0;

    while i < num_lines
        invariant
            0 <= i <= num_lines,
            shapes@.len() == i,
            forall|j: int|
                0 <= j < i ==> #[trigger] shapes@[j]@ == spec_leger_lines(
                    x@,
                    y@,
                    width@,
                    *metrics,
                )[j],
        decreases num_lines - i,
    {
        let line_y = if above {
            StaffSpaces { units: 50_000_000 + i * 10_000_000 }
        } else {
            StaffSpaces { units: -10_000_000 - i * 10_000_000 }
        };
        proof {
            assert(line_y@ == spec_leger_line_y(y@, i as int));
        }
        shapes.push(
            Shape::Line(
                Line {
                    from: Coord { x: left_x, y: line_y },
                    to: Coord { x: right_x, y: line_y },
                    thickness,
                    cap: Linecap::Round,
                },
            ),
        );
        i += 1;
    }

    Ok(shapes)
}

/// What `create_accidental` returns: the accidental glyph placed a fixed
/// gap and its own width to the left of the notehead; needs the glyph's
/// width and so can fail.
pub open spec fn spec_create_accidental(
    x: int,
    y: int,
    accidental_glyph: Glyph,
    metrics: Metrics,
) -> Result<ShapeModel, Error> {
    match metrics.spec_width_of(accidental_glyph) {
        Err(e) => Err(e),
        Ok(width) => Ok(
            spec_notehead(x - DEFAULT_ACCIDENTAL_SPACING_UNITS - width, y, accidental_glyph),
        ),
    }
}

/// Places an accidental glyph to the left of the notehead at `(x, y)`.
pub fn create_accidental(
    x: StaffSpaces,
    y: StaffSpaces,
    accidental_glyph: Glyph,
    metrics: &Metrics,
) -> (r: Result<Shape<StaffSpaces>, Error>)
    requires
        -POSITION_LIMIT <= x@ <= POSITION_LIMIT,
        metrics.wf(),
    ensures
        match (r, spec_create_accidental(x@, y@, accidental_glyph, *metrics)) {
            (Ok(shape), Ok(model)) => shape@ == model,
            (Err(e), Err(spec_e)) => e == spec_e,
            _ => false,
        },
{
    let width = match metrics.width_of(accidental_glyph) {
        Ok(width) => width,
        Err(e) => {
            return Err(e);
        },
    };

    let accidental_x = StaffSpaces {
        units: x.units - DEFAULT_ACCIDENTAL_SPACING_UNITS - width.units,
    };
    Ok(create_notehead(accidental_x, y, accidental_glyph))
}

/// What `create_flag` returns: the flag glyph at the stem's end — shifted
/// to the stem's left edge for an upward stem — or an error when the
/// notehead's anchors are missing.
pub open spec fn spec_create_flag(
    x: int,
    stem_end: int,
    notehead_glyph: Glyph,
    flag_glyph: Glyph,
    stem_direction: Direction,
    metrics: Metrics,
) -> Result<ShapeModel, Error> {
    match metrics.spec_anchors_of(notehead_glyph) {
        Err(e) => Err(e),
        Ok(anchors) => match stem_direction {
            Direction::Up => match anchors.stem_up_se {
                Some(se) => Ok(
                    spec_notehead(
                        x + se.x@ - metrics.engraving_defaults.spec_stem_thickness(),
                        stem_end,
                        flag_glyph,
                    ),
                ),
                None => Err(
                    Error::MissingGlyphData {
                        glyph: notehead_glyph,
                        data_type: crate::MetricKind::StemUpSe,
                    },
                ),
            },
            Direction::Down => Ok(spec_notehead(x, stem_end, flag_glyph)),
        },
    }
}

/// Places the flag glyph at the end of a stem.
pub fn create_flag(
    x: StaffSpaces,
    stem_end: StaffSpaces,
    notehead_glyph: Glyph,
    flag_glyph: Glyph,
    stem_direction: Direction,
    metrics: &Metrics,
) -> (r: Result<Shape<StaffSpaces>, Error>)
    requires
        -POSITION_LIMIT <= x@ <= POSITION_LIMIT,
        metrics.wf(),
    ensures
        match (r, spec_create_flag(x@, stem_end@, notehead_glyph, flag_glyph, stem_direction, *metrics)) {
            (Ok(shape), Ok(model)) => shape@ == model,
            (Err(e), Err(spec_e)) => e == spec_e,
            _ => false,
        },
{
    let anchors = match metrics.anchors_of(notehead_glyph) {
        Ok(anchors) => anchors,
        Err(e) => {
            return Err(e);
        },
    };

    match stem_direction {
        Direction::Up => match anchors.stem_up_se {
            Some(se) => {
                let stem_thickness = metrics.engraving_defaults.stem_thickness();
                let flag_x = StaffSpaces {
                    units: x.units + se.x.units - stem_thickness.units,
                };
                Ok(create_notehead(flag_x, stem_end, flag_glyph))
            },
            None => Err(
                Error::MissingGlyphData {
                    glyph: notehead_glyph,
                    data_type: crate::MetricKind::StemUpSe,
                },
            ),
        },
        Direction::Down => Ok(create_notehead(x, stem_end, flag_glyph)),
    }
}

impl Note {
    /// Whether the note's position is within the layout bound.
    pub open spec fn wf(self) -> bool {
        -POSITION_LIMIT <= self.y@ <= POSITION_LIMIT
    }

    /// The stem direction a lone note takes: down at or above the middle
    /// line, up below it.
    pub open spec fn spec_stem_direction(self) -> Direction {
        if self.y@ >= 20_000_000 {
            Direction::Down
        } else {
            Direction::Up
        }
    }

    /// The stem a lone note of this shape carries.
    pub open spec fn spec_stem(self, x: int) -> Stem {
        Stem {
            glyph: self.duration.value.spec_notehead_glyph(),
            x: StaffSpaces { units: x as i64 },
            y: self.y,
            direction: self.spec_stem_direction(),
            length: StaffSpaces { units: crate::stem::DEFAULT_LENGTH_UNITS },
        }
    }

    /// The shapes a note at `x` emits, in order: notehead, leger lines,
    /// accidental if resolved; then, when no beam collects it and the note
    /// is not a whole note, flag if the duration has one and the stem body.
    pub open spec fn spec_shapes(self, x: int, beamed: bool, metrics: Metrics) -> Result<
        Seq<ShapeModel>,
        Error,
    > {
        let glyph = self.duration.value.spec_notehead_glyph();
        let head = seq![spec_notehead(x, self.y@, glyph)];
        match spec_create_leger_lines(x, self.y@, glyph, metrics) {
            Err(e) => Err(e),
            Ok(legers) => {
                let with_legers = head + legers;
                match self.accidental {
                    Some(accidental) => match spec_create_accidental(
                        x,
                        self.y@,
                        accidental.spec_glyph(),
                        metrics,
                    ) {
                        Err(e) => Err(e),
                        Ok(accidental_shape) => self.spec_stem_shapes(
                            x,
                            beamed,
                            metrics,
                            with_legers.push(accidental_shape),
                        ),
                    },
                    None => self.spec_stem_shapes(x, beamed, metrics, with_legers),
                }
            },
        }
    }

    /// The shapes of `spec_shapes` after the accidental: the flag and stem
    /// of an unbeamed, non-whole note appended to `so_far`.
    pub open spec fn spec_stem_shapes(
        self,
        x: int,
        beamed: bool,
        metrics: Metrics,
        so_far: Seq<ShapeModel>,
    ) -> Result<Seq<ShapeModel>, Error> {
        if beamed || self.duration.value == Value::Whole {
            Ok(so_far)
        } else {
            let stem = self.spec_stem(x);
            let flagged = match self.duration.value.spec_flag_glyph(stem.direction) {
                Some(flag_glyph) => match spec_create_flag(
                    x,
                    stem.spec_end(),
                    stem.glyph,
                    flag_glyph,
                    stem.direction,
                    metrics,
                ) {
                    Err(e) => Err::<Seq<ShapeModel>, Error>(e),
                    Ok(flag_shape) => Ok(so_far.push(flag_shape)),
                },
                None => Ok(so_far),
            };
            match flagged {
                Err(e) => Err(e),
                Ok(with_flag) => match stem.spec_render(metrics) {
                    Err(e) => Err(e),
                    Ok(stem_shape) => Ok(with_flag.push(stem_shape)),
                },
            }
        }
    }

    /// Whether rendering reaches the beam-registration point: the leger
    /// lines and the accidental resolved without error.
    pub open spec fn spec_registers(self, x: int, metrics: Metrics) -> bool {
        match spec_create_leger_lines(x, self.y@, self.duration.value.spec_notehead_glyph(), metrics) {
            Err(_) => false,
            Ok(_) => match self.accidental {
                Some(accidental) => spec_create_accidental(
                    x,
                    self.y@,
                    accidental.spec_glyph(),
                    metrics,
                ) is Ok,
                None => true,
            },
        }
    }

    /// The notehead this note registers with an open beam.
    pub open spec fn spec_notehead_entry(self, x: int) -> Notehead {
        Notehead {
            glyph: self.duration.value.spec_notehead_glyph(),
            x: StaffSpaces { units: x as i64 },
            y: self.y,
            min_stem_length: None,
        }
    }

    /// What rendering the note returns: its shapes — grouped under the
    /// note's identifier when it has one — and the notehead's width.
    pub open spec fn spec_render(self, x: int, beamed: bool, metrics: Metrics) -> Result<
        OutputModel,
        Error,
    > {
        match self.spec_shapes(x, beamed, metrics) {
            Err(e) => Err(e),
            Ok(shapes) => match metrics.spec_width_of(self.duration.value.spec_notehead_glyph()) {
                Err(e) => Err(e),
                Ok(width) => Ok(
                    OutputModel {
                        elements: match self.id {
                            Some(id) => seq![
                                crate::ir::ElementModel::Group { id: Some(id@), elements: shapes },
                            ],
                            None => shapes.map_values(
                                |s: ShapeModel| crate::ir::ElementModel::Shape(s),
                            ),
                        },
                        width,
                    },
                ),
            },
        }
    }

    /// Renders the note at `x`. While a beam is open the note registers its
    /// notehead with it instead of drawing a stem; the registration stands
    /// once the leger lines and accidental succeeded, even if a later
    /// lookup fails, since any error aborts the whole render pass.
    pub fn render(&self, x: StaffSpaces, context: &mut Context, metrics: &Metrics) -> (r: Result<
        Output,
        Error,
    >)
        requires
            -POSITION_LIMIT <= x@ <= POSITION_LIMIT,
            self.wf(),
            metrics.wf(),
        ensures
            match (r, self.spec_render(x@, old(context).beam is Some, *metrics)) {
                (Ok(output), Ok(model)) => {
                    &&& output@.elements =~= model.elements
                    &&& output@.width == model.width
                },
                (Err(e), Err(spec_e)) => e == spec_e,
                _ => false,
            },
            match old(context).beam {
                None => final(context).beam is None,
                Some(beam) => {
                    &&& final(context).beam is Some
                    &&& final(context).beam.unwrap().stem_direction == beam.stem_direction
                    &&& final(context).beam.unwrap().noteheads@ == if self.spec_registers(
                        x@,
                        *metrics,
                    ) {
                        beam.noteheads@.push(self.spec_notehead_entry(x@))
                    } else {
                        beam.noteheads@
                    }
                },
            },
    {
        let glyph = self.duration.value.notehead_glyph();

        let mut shapes: Vec<Shape<StaffSpaces>> = Vec::new();
        shapes.push(create_notehead(x, self.y, glyph));

        let mut leger_lines = match create_leger_lines(x, self.y, glyph, metrics) {
            Ok(shapes) => shapes,
            Err(e) => {
                return Err(e);
            },
        };
        shapes.append(&mut leger_lines);

        if let Some(accidental) = self.accidental {
            let accidental_shape = match create_accidental(x, self.y, accidental.glyph(), metrics) {
                Ok(shape) => shape,
                Err(e) => {
                    return Err(e);
                },
            };
            shapes.push(accidental_shape);
        }

        let ghost shapes_so_far = crate::ir::shapes_view(shapes@);

        match &mut context.beam {
            Some(beam) => {
                beam.add_notehead(
                    Notehead { glyph, x, y: self.y, min_stem_length: None },
                );
            },
            None => {
                if !matches!(self.duration.value, Value::Whole) {
                    let stem_direction = if self.y.units >= 20_000_000 {
                        Direction::Down
                    } else {
                        Direction::Up
                    };
                    let stem = Stem::new(glyph, x, self.y, stem_direction, None);

                    if let Some(flag_glyph) = self.duration.value.flag_glyph(stem_direction) {
                        let flag = match create_flag(
                            x,
                            stem.end(),
                            glyph,
                            flag_glyph,
                            stem_direction,
                            metrics,
                        ) {
                            Ok(shape) => shape,
                            Err(e) => {
                                return Err(e);
                            },
                        };
                        shapes.push(flag);
                    }

                    let stem_shape = match stem.render(metrics) {
                        Ok(shape) => shape,
                        Err(e) => {
                            return Err(e);
                        },
                    };
                    shapes.push(stem_shape);
                }
            },
        }

        let width = match metrics.width_of(glyph) {
            Ok(width) => width,
            Err(e) => {
                return Err(e);
            },
        };

        proof {
            assert(crate::ir::shapes_view(shapes@) =~= self.spec_shapes(
                x@,
                old(context).beam is Some,
                *metrics,
            )->Ok_0);
        }

        let elements = match &self.id {
            Some(id) => {
                let mut group_elements: Vec<Element<StaffSpaces>> = Vec::new();
                group_elements.push(
                    Element::Group(Group { elements: shapes, id: Some(id.clone()) }),
                );
                group_elements
            },
            None => crate::ir::shapes_to_elements(shapes),
        };

        Ok(Output { elements, width })
    }
}

} // verus!
