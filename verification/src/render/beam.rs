//! The beam aggregator and its geometry.
//!
//! While a beam is open, each rendered note or chord registers its notehead
//! here instead of drawing its own stem. When the beam closes, every
//! registered notehead gets a stem in the beam's common direction; the beam
//! body is one polygon spanning from the first stem's edge to the last's,
//! one beam thickness deep, and every stem is shortened by half that
//! thickness so the body overlaps the stem ends.

use vstd::prelude::*;

use crate::glyph::Glyph;
use crate::ir::{CoordModel, Shape, ShapeModel};
use crate::metrics::Metrics;
use crate::render::Output;
use crate::staff_spaces::{StaffSpaces, POSITION_LIMIT};
use crate::stem::{Direction, Stem};
use crate::Error;

verus! {

/// A notehead registered with the beam in progress.
#[derive(Clone, Copy, Debug)]
pub struct Notehead {
    pub glyph: Glyph,
    pub x: StaffSpaces,
    pub y: StaffSpaces,
    /// A stem length overriding the default, as a chord's stem must at
    /// least span its notes.
    pub min_stem_length: Option<StaffSpaces>,
}

impl Notehead {
    /// Whether the notehead's coordinates are within the layout bound.
    pub open spec fn wf(self) -> bool {
        &&& -POSITION_LIMIT <= self.x@ <= POSITION_LIMIT
        &&& -POSITION_LIMIT <= self.y@ <= POSITION_LIMIT
        &&& match self.min_stem_length {
            Some(length) => 0 <= length@ <= crate::staff_spaces::COORD_LIMIT,
            None => true,
        }
    }

    /// The stem this notehead gets when its beam closes.
    pub open spec fn spec_stem(self, direction: Direction) -> Stem {
        Stem {
            glyph: self.glyph,
            x: self.x,
            y: self.y,
            direction,
            length: match self.min_stem_length {
                Some(length) => length,
                None => StaffSpaces { units: crate::stem::DEFAULT_LENGTH_UNITS },
            },
        }
    }
}

/// An open beam: the common stem direction and the noteheads gathered so
/// far, in order.
#[derive(Debug)]
pub struct Beam {
    pub stem_direction: Direction,
    pub noteheads: Vec<Notehead>,
}

/// Model of a beam: its direction and the registered noteheads in order.
pub struct BeamModel {
    pub stem_direction: Direction,
    pub noteheads: Seq<Notehead>,
}

impl View for Beam {
    type V = BeamModel;

    open spec fn view(&self) -> BeamModel {
        BeamModel { stem_direction: self.stem_direction, noteheads: self.noteheads@ }
    }
}

impl BeamModel {
    /// Whether every registered notehead is within the layout bound.
    pub open spec fn wf(self) -> bool {
        forall|i: int| 0 <= i < self.noteheads.len() ==> (#[trigger] self.noteheads[i]).wf()
    }

    /// The stems of the registered noteheads, in order, each shortened by
    /// `shortening`.
    pub open spec fn spec_stems(self, shortening: int) -> Seq<Stem> {
        Seq::new(
            self.noteheads.len(),
            |i: int|
                {
                    let stem = self.noteheads[i].spec_stem(self.stem_direction);
                    Stem {
                        length: StaffSpaces { units: (stem.length@ - shortening) as i64 },
                        ..stem
                    }
                },
        )
    }

    /// What rendering the beam emits, given that every stem renders: one
    /// shape per stem, then the beam body polygon.
    pub open spec fn spec_render(self, metrics: Metrics) -> Result<Seq<ShapeModel>, Error> {
        let thickness = metrics.engraving_defaults.spec_beam_thickness();
        let stems = self.spec_stems(0);
        let first = stems[0];
        let last = stems[stems.len() - 1];
        match first.spec_left(metrics) {
            Err(e) => Err(e),
            Ok(start_x) => match last.spec_right(metrics) {
                Err(e) => Err(e),
                Ok(end_x) => {
                    let start_y = first.spec_end();
                    let end_y = last.spec_end();
                    let shortened = self.spec_stems(thickness / 2);
                    match stems_shapes(shortened, metrics) {
                        Err(e) => Err(e),
                        Ok(shapes) => Ok(
                            shapes.push(
                                ShapeModel::Polygon {
                                    points: seq![
                                        CoordModel { x: start_x, y: start_y },
                                        CoordModel { x: end_x, y: end_y },
                                        CoordModel { x: end_x, y: end_y - thickness },
                                        CoordModel { x: start_x, y: start_y - thickness },
                                    ],
                                },
                            ),
                        ),
                    }
                },
            },
        }
    }
}

impl Beam {
    /// Whether every registered notehead is within the layout bound.
    pub open spec fn wf(self) -> bool {
        self@.wf()
    }

    /// Returns an empty beam with the given stem direction.
    pub fn new(stem_direction: Direction) -> (r: Beam)
        ensures
            r.stem_direction == stem_direction,
            r.noteheads@.len() == 0,
    {
        Beam { stem_direction, noteheads: Vec::new() }
    }

    /// Registers one more notehead at the end of the beam.
    pub fn add_notehead(&mut self, notehead: Notehead)
        ensures
            final(self).stem_direction == old(self).stem_direction,
            final(self).noteheads@ == old(self).noteheads@.push(notehead),
    {
        self.noteheads.push(notehead);
    }

    /// The stems of the registered noteheads, in order, each shortened by
    /// `shortening`.
    pub open spec fn spec_stems(self, shortening: int) -> Seq<Stem> {
        self@.spec_stems(shortening)
    }

    /// What rendering the beam emits, given that every stem renders: one
    /// shape per stem, then the beam body polygon.
    pub open spec fn spec_render(self, metrics: Metrics) -> Result<Seq<ShapeModel>, Error> {
        self@.spec_render(metrics)
    }

    /// Renders the closed beam: stems for every registered notehead, then
    /// the beam body. The beam consumes no horizontal width of its own.
    pub fn render(&self, metrics: &Metrics) -> (r: Result<(Vec<Shape<StaffSpaces>>, StaffSpaces), Error>)
        requires
            self.wf(),
            self.noteheads@.len() > 0,
            metrics.wf(),
        ensures
            match (r, self.spec_render(*metrics)) {
                (Ok((shapes, width)), Ok(models)) => {
                    &&& crate::ir::shapes_view(shapes@) =~= models
                    &&& width@ == 0
                },
                (Err(e), Err(spec_e)) => e == spec_e,
                _ => false,
            },
    {
        let beam_thickness = metrics.engraving_defaults.beam_thickness();
        let half = StaffSpaces { units: beam_thickness.units / 2 };

        let ghost stems_seq = self.spec_stems(0);
        let ghost short_seq = self.spec_stems(beam_thickness@ / 2);

        let first_notehead = self.noteheads[0];
        let first_stem = Stem::new(
            first_notehead.glyph,
            first_notehead.x,
            first_notehead.y,
            self.stem_direction,
            first_notehead.min_stem_length,
        );
        proof {
            assert(first_stem == stems_seq[0]);
        }

        let last_notehead = self.noteheads[self.noteheads.len() - 1];
        let last_stem = Stem::new(
            last_notehead.glyph,
            last_notehead.x,
            last_notehead.y,
            self.stem_direction,
            last_notehead.min_stem_length,
        );
        proof {
            assert(last_stem == stems_seq[stems_seq.len() - 1]);
        }

        let start_x = match first_stem.left(metrics) {
            Ok(left) => left,
            Err(e) => {
                return Err(e);
            },
        };
        let end_x = match last_stem.right(metrics) {
            Ok(right) => right,
            Err(e) => {
                return Err(e);
            },
        };
        let start_y = first_stem.end();
        let end_y = last_stem.end();

        let mut shapes: Vec<Shape<StaffSpaces>> = Vec::new();
        let mut i: usize = 0;

        proof {
            assert(0 <= beam_thickness@ <= 1_000_000_000);
            assert(short_seq.skip(0) =~= short_seq);
            match stems_shapes(short_seq, *metrics) {
                Ok(rest) => {
                    assert(crate::ir::shapes_view(shapes@) + rest =~= rest);
                },
                Err(_) => {},
            }
        }

        while i < self.noteheads.len()
            invariant
                i <= self.noteheads@.len(),
                self.wf(),
                metrics.wf(),
                short_seq == self.spec_stems(
                    metrics.engraving_defaults.spec_beam_thickness() / 2,
                ),
                0 <= metrics.engraving_defaults.spec_beam_thickness() / 2 <= 1_000_000_000,
                shapes@.len() == i,
                stems_shapes(short_seq, *metrics) == (match stems_shapes(
                    short_seq.skip(i as int),
                    *metrics,
                ) {
                    Ok(rest) => Ok(crate::ir::shapes_view(shapes@) + rest),
                    Err(e) => Err::<Seq<ShapeModel>, Error>(e),
                }),
            decreases self.noteheads@.len() - i,
        {
            let notehead = self.noteheads[i];
            proof {
                assert(self.noteheads@[i as int].wf());
            }
            let mut stem = Stem::new(
                notehead.glyph,
                notehead.x,
                notehead.y,
                self.stem_direction,
                notehead.min_stem_length,
            );
            proof {
                assert(0 <= half.units <= 500_000_000);
            }
            stem.adjust_length(StaffSpaces { units: -half.units });
            proof {
                assert(stem == short_seq[i as int]);
                assert(short_seq.skip(i as int)[0] == short_seq[i as int]);
                assert(short_seq.skip(i as int).drop_first() =~= short_seq.skip(i as int + 1));
            }

            let shape = match stem.render(metrics) {
                Ok(shape) => shape,
                Err(e) => {
                    proof {
                        assert(stems_shapes(short_seq.skip(i as int), *metrics) == Err::<
                            Seq<ShapeModel>,
                            Error,
                        >(e));
                    }
                    return Err(e);
                },
            };
            let ghost shapes_before = shapes@;
            shapes.push(shape);
            proof {
                if let Ok(rest) = stems_shapes(short_seq.skip(i as int + 1), *metrics) {
                    assert(crate::ir::shapes_view(shapes_before) + (seq![shape@] + rest)
                        =~= crate::ir::shapes_view(shapes@) + rest);
                }
            }
            i += 1;
        }

        proof {
            assert(short_seq.skip(short_seq.len() as int) =~= Seq::<Stem>::empty());
            assert(stems_shapes(short_seq, *metrics) == Ok::<Seq<ShapeModel>, Error>(
                crate::ir::shapes_view(shapes@),
            ));
        }

        let mut points: Vec<crate::ir::Coord<StaffSpaces>> = Vec::new();
        points.push(crate::ir::Coord { x: start_x, y: start_y });
        points.push(crate::ir::Coord { x: end_x, y: end_y });
        points.push(
            crate::ir::Coord {
                x: end_x,
                y: StaffSpaces { units: end_y.units - beam_thickness.units },
            },
        );
        points.push(
            crate::ir::Coord {
                x: start_x,
                y: StaffSpaces { units: start_y.units - beam_thickness.units },
            },
        );
        let ghost polygon_points = points@;
        shapes.push(Shape::Polygon(crate::ir::Polygon { points }));

        proof {
            let models = self.spec_render(*metrics)->Ok_0;
            assert(crate::ir::points_view(polygon_points) =~= models[models.len() - 1]->Polygon_points);
            assert(crate::ir::shapes_view(shapes@) =~= models);
        }

        Ok((shapes, StaffSpaces { units: 0 }))
    }
}

/// The shapes of a sequence of stems, in order, or the first error one of
/// them raises.
pub open spec fn stems_shapes(stems: Seq<Stem>, metrics: Metrics) -> Result<Seq<ShapeModel>, Error>
    decreases stems.len(),
{
    if stems.len() == 0 {
        Ok(Seq::empty())
    } else {
        match stems[0].spec_render(metrics) {
            Err(e) => Err(e),
            Ok(shape) => match stems_shapes(stems.drop_first(), metrics) {
                Err(e) => Err(e),
                Ok(rest) => Ok(seq![shape] + rest),
            },
        }
    }
}

} // verus!
