//! The layout driver: one whole staff, walked left to right.
//!
//! The driver renders the clef, key signature and time signature with a
//! fixed gap after each, then every measure in turn, and finally the five
//! staff lines spanning from the staff's start to wherever the cursor
//! ended.

use vstd::prelude::*;

use crate::ir::{elements_view, Element, ElementModel, ShapeModel};
use crate::ir::{Coord, CoordModel, Line, Linecap};
use crate::metrics::Metrics;
use crate::render::beam::BeamModel;
use crate::render::input::measure::{beam_view, MEASURE_ADVANCE_BOUND};
use crate::render::input::{Clef, KeySignature, Measure, TimeSignature};
use crate::render::renderer::Renderer;
use crate::staff_spaces::{StaffSpaces, POSITION_LIMIT};
use crate::Error;

verus! {

/// The lead-in before the first symbol, in staff-space units: one staff
/// space.
pub const BEGINNING_OF_STAFF_SPACE_UNITS: i64 = 10_000_000;

/// The gap after the clef, the key signature and the time signature, in
/// staff-space units: one staff space each.
pub const SPACE_AFTER_SYMBOL_GROUP_UNITS: i64 = 10_000_000;

/// The lines of a staff.
pub const NUM_STAFF_LINES: u32 = 5;

/// How many measures one staff may hold.
pub const MAX_STAFF_MEASURES: usize = 100;

/// A staff: an optional clef, key signature and time signature, and its
/// measures in order.
#[derive(Clone, Debug, PartialEq)]
pub struct Staff {
    pub clef: Option<Clef>,
    pub key_signature: Option<KeySignature>,
    pub time_signature: Option<TimeSignature>,
    pub measures: Vec<Measure>,
}

impl Default for Staff {
    /// Returns an empty staff: nothing set, no measures.
    fn default() -> (r: Staff)
        ensures
            (r.clef is None),
            (r.key_signature is None),
            (r.time_signature is None),
            r.measures@.len() == 0,
    {
        Staff { clef: None, key_signature: None, time_signature: None, measures: Vec::new() }
    }
}

/// The walk over the measures, threading the cursor and the beam.
pub open spec fn spec_measures_fold(
    measures: Seq<Measure>,
    x: int,
    beam: Option<BeamModel>,
    metrics: Metrics,
) -> Result<(Seq<ElementModel>, int, Option<BeamModel>), Error>
    decreases measures.len(),
{
    if measures.len() == 0 {
        Ok((Seq::empty(), x, beam))
    } else {
        match measures[0].spec_render(x, beam, metrics) {
            Err(e) => Err(e),
            Ok((emitted, x1, beam1)) => match spec_measures_fold(
                measures.drop_first(),
                x1,
                beam1,
                metrics,
            ) {
                Err(e) => Err(e),
                Ok((rest, x2, beam2)) => Ok((emitted + rest, x2, beam2)),
            },
        }
    }
}

/// The five staff lines, numbered bottom to top, spanning from the staff's
/// start to `length`.
pub open spec fn spec_staff_lines(length: int, metrics: Metrics) -> Seq<ElementModel> {
    let thickness = metrics.engraving_defaults.spec_staff_line_thickness();
    Seq::new(
        NUM_STAFF_LINES as nat,
        |i: int|
            ElementModel::Shape(
                ShapeModel::Line {
                    from: CoordModel { x: 0, y: i * 10_000_000 },
                    to: CoordModel { x: length, y: i * 10_000_000 },
                    thickness,
                    cap: Linecap::Butt,
                },
            ),
    )
}

impl Staff {
    /// Whether the staff is within the layout bounds.
    pub open spec fn wf(self) -> bool {
        &&& self.measures@.len() <= MAX_STAFF_MEASURES
        &&& forall|i: int| 0 <= i < self.measures@.len() ==> (#[trigger] self.measures@[i]).wf()
        &&& match self.key_signature {
            Some(key_signature) => key_signature.wf(),
            None => true,
        }
    }

    /// What the lead-in symbols emit and where they leave the cursor: the
    /// clef, key signature and time signature that are present, each
    /// followed by a fixed gap.
    pub open spec fn spec_render_prelude(self, metrics: Metrics) -> Result<
        (Seq<ElementModel>, int),
        Error,
    > {
        let x0 = BEGINNING_OF_STAFF_SPACE_UNITS as int;
        let clef_part = match self.clef {
            None => Ok((Seq::<ElementModel>::empty(), x0)),
            Some(clef) => match clef.spec_render(x0, metrics) {
                Err(e) => Err(e),
                Ok(out) => Ok(
                    (out.elements, x0 + out.width + SPACE_AFTER_SYMBOL_GROUP_UNITS),
                ),
            },
        };
        match clef_part {
            Err(e) => Err(e),
            Ok((clef_elements, x1)) => {
                let key_part = match self.key_signature {
                    None => Ok((Seq::<ElementModel>::empty(), x1)),
                    Some(key_signature) => match key_signature.spec_render(x1, metrics) {
                        Err(e) => Err(e),
                        Ok(out) => Ok(
                            (out.elements, x1 + out.width + SPACE_AFTER_SYMBOL_GROUP_UNITS),
                        ),
                    },
                };
                match key_part {
                    Err(e) => Err(e),
                    Ok((key_elements, x2)) => {
                        let time_part = match self.time_signature {
                            None => Ok((Seq::<ElementModel>::empty(), x2)),
                            Some(time_signature) => match time_signature.spec_render(x2, metrics) {
                                Err(e) => Err(e),
                                Ok(out) => Ok(
                                    (
                                        out.elements,
                                        x2 + out.width + SPACE_AFTER_SYMBOL_GROUP_UNITS,
                                    ),
                                ),
                            },
                        };
                        match time_part {
                            Err(e) => Err(e),
                            Ok((time_elements, x3)) => Ok(
                                (clef_elements + key_elements + time_elements, x3),
                            ),
                        }
                    },
                }
            },
        }
    }

    /// What rendering the staff returns: the lead-in symbols, every
    /// measure in turn starting with no beam in progress, and the five
    /// staff lines spanning to the final cursor position.
    pub open spec fn spec_render(self, metrics: Metrics) -> Result<Seq<ElementModel>, Error> {
        match self.spec_render_prelude(metrics) {
            Err(e) => Err(e),
            Ok((prelude_elements, x)) => match spec_measures_fold(
                self.measures@,
                x,
                None,
                metrics,
            ) {
                Err(e) => Err(e),
                Ok((measure_elements, x_end, _)) => Ok(
                    prelude_elements + measure_elements + spec_staff_lines(x_end, metrics),
                ),
            },
        }
    }

    /// Renders the lead-in symbols: the clef, key signature and time
    /// signature that are present, each followed by a fixed gap.
    #[verifier::rlimit(100)]
    fn render_prelude(&self, renderer: &mut Renderer, metrics: &Metrics) -> (r: Result<(), Error>)
        requires
            self.wf(),
            metrics.wf(),
            old(renderer).position@ == 0,
            old(renderer).elements@.len() == 0,
            (old(renderer).context.beam is None),
        ensures
            match (r, self.spec_render_prelude(*metrics)) {
                (Ok(()), Ok((emitted, x))) => {
                    &&& elements_view(final(renderer).elements@) =~= emitted
                    &&& final(renderer).position@ == x
                    &&& 0 <= x <= 13_000_000_000
                    &&& (final(renderer).context.beam is None)
                },
                (Err(e), Err(spec_e)) => e == spec_e,
                _ => false,
            },
    {
        renderer.advance(StaffSpaces { units: BEGINNING_OF_STAFF_SPACE_UNITS });


        if let Some(clef) = &self.clef {
            let mut output = match clef.render(renderer.position, metrics) {
                Ok(output) => output,
                Err(e) => {
                    return Err(e);
                },
            };
            proof {
                metrics.lemma_width_of_bounded(clef.glyph);
            }
            let ghost elements_before = renderer.elements@;
            let ghost added = output.elements@;
            renderer.elements.append(&mut output.elements);
            proof {
                assert(elements_view(renderer.elements@) =~= elements_view(elements_before)
                    + elements_view(added));
            }
            renderer.advance(output.width);
            renderer.advance(StaffSpaces { units: SPACE_AFTER_SYMBOL_GROUP_UNITS });
        }

        if let Some(key_signature) = &self.key_signature {
            let mut output = match key_signature.render(renderer.position, metrics) {
                Ok(output) => output,
                Err(e) => {
                    return Err(e);
                },
            };
            let ghost elements_before = renderer.elements@;
            let ghost added = output.elements@;
            renderer.elements.append(&mut output.elements);
            proof {
                assert(elements_view(renderer.elements@) =~= elements_view(elements_before)
                    + elements_view(added));
            }
            renderer.advance(output.width);
            renderer.advance(StaffSpaces { units: SPACE_AFTER_SYMBOL_GROUP_UNITS });
        }

        if let Some(time_signature) = &self.time_signature {
            let mut output = match time_signature.render(renderer.position, metrics) {
                Ok(output) => output,
                Err(e) => {
                    return Err(e);
                },
            };
            let ghost elements_before = renderer.elements@;
            let ghost added = output.elements@;
            renderer.elements.append(&mut output.elements);
            proof {
                assert(elements_view(renderer.elements@) =~= elements_view(elements_before)
                    + elements_view(added));
            }
            renderer.advance(output.width);
            renderer.advance(StaffSpaces { units: SPACE_AFTER_SYMBOL_GROUP_UNITS });
        }

        proof {
            assert(elements_view(renderer.elements@) =~= self.spec_render_prelude(
                *metrics,
            )->Ok_0.0);
        }
        Ok(())
    }

    /// Renders the staff into its scene elements.
    #[verifier::rlimit(100)]
    pub fn render(&self, metrics: &Metrics) -> (r: Result<Vec<Element<StaffSpaces>>, Error>)
        requires
            self.wf(),
            metrics.wf(),
        ensures
            match (r, self.spec_render(*metrics)) {
                (Ok(elements), Ok(models)) => elements_view(elements@) =~= models,
                (Err(e), Err(spec_e)) => e == spec_e,
                _ => false,
            },
    {
        let mut renderer = Renderer::new();
        match self.render_prelude(&mut renderer, metrics) {
            Ok(()) => (),
            Err(e) => {
                return Err(e);
            },
        }

        let ghost prelude = self.spec_render_prelude(*metrics)->Ok_0;
        proof {
            assert(elements_view(renderer.elements@) =~= prelude.0);
            assert(renderer.position@ == prelude.1);
            assert(0 <= renderer.position@ <= 13_000_000_000);
        }

        let ghost x_start = renderer.position@;
        let ghost base_elements = renderer.elements@;
        let mut i: usize = 0;
        let ghost mut acc: Seq<ElementModel> = Seq::empty();

        proof {
            assert(self.measures@.skip(0) =~= self.measures@);
            assert(elements_view(renderer.elements@) =~= elements_view(base_elements) + acc);
            match spec_measures_fold(self.measures@, x_start, None, *metrics) {
                Ok((all, x2, b2)) => {
                    assert(acc + all =~= all);
                },
                Err(_) => {},
            }
        }

        while i < self.measures.len()
            invariant
                i <= self.measures@.len(),
                x_start <= renderer.position@ <= x_start + i * MEASURE_ADVANCE_BOUND,
                x_start <= 13_000_000_000,
                match renderer.context.beam {
                    Some(beam) => beam@.wf(),
                    None => true,
                },
                elements_view(renderer.elements@) =~= elements_view(base_elements) + acc,
                spec_measures_fold(self.measures@, x_start, None, *metrics) == (
                match spec_measures_fold(
                    self.measures@.skip(i as int),
                    renderer.position@,
                    beam_view(renderer.context.beam),
                    *metrics,
                ) {
                    Ok((rest, x2, b2)) => Ok::<
                        (Seq<ElementModel>, int, Option<BeamModel>),
                        Error,
                    >((acc + rest, x2, b2)),
                    Err(e) => Err::<(Seq<ElementModel>, int, Option<BeamModel>), Error>(e),
                }),
            decreases self.measures@.len() - i,
        {
            proof {
                assert(self.measures@.skip(i as int)[0] == self.measures@[i as int]);
                assert(self.measures@.skip(i as int).drop_first() =~= self.measures@.skip(
                    i as int + 1,
                ));
                assert(self.measures@[i as int].wf());
            }

            let measure = &self.measures[i];
            let ghost position_before = renderer.position@;
            let ghost beam_before = beam_view(renderer.context.beam);
            let ghost elements_before = renderer.elements@;

            match measure.render(&mut renderer, metrics) {
                Ok(()) => (),
                Err(e) => {
                    return Err(e);
                },
            }

            proof {
                let step = self.measures@[i as int].spec_render(
                    position_before,
                    beam_before,
                    *metrics,
                );
                assert(step is Ok);
                let emitted = step->Ok_0.0;
                let x1 = step->Ok_0.1;
                let b1 = step->Ok_0.2;
                assert(renderer.position@ == x1);
                assert(beam_view(renderer.context.beam) == b1);
                assert(elements_view(renderer.elements@) =~= elements_view(elements_before)
                    + emitted);
                assert(elements_view(renderer.elements@) =~= (elements_view(base_elements) + acc)
                    + emitted);
                assert((elements_view(base_elements) + acc) + emitted =~= elements_view(
                    base_elements,
                ) + (acc + emitted));
                assert(spec_measures_fold(
                    self.measures@.skip(i as int),
                    position_before,
                    beam_before,
                    *metrics,
                ) == (match spec_measures_fold(self.measures@.skip(i as int + 1), x1, b1, *metrics) {
                    Ok((rest, x2, b2)) => Ok::<(Seq<ElementModel>, int, Option<BeamModel>), Error>(
                        (emitted + rest, x2, b2),
                    ),
                    Err(e2) => Err::<(Seq<ElementModel>, int, Option<BeamModel>), Error>(e2),
                }));
                let old_acc = acc;
                acc = acc + emitted;
                match spec_measures_fold(self.measures@.skip(i as int + 1), x1, b1, *metrics) {
                    Ok((rest, x2, b2)) => {
                        assert(old_acc + (emitted + rest) =~= acc + rest);
                    },
                    Err(_) => {},
                }
            }

            i += 1;
        }

        proof {
            assert(self.measures@.skip(self.measures@.len() as int) =~= Seq::<Measure>::empty());
        }

        let lines = staff_lines(renderer.position, metrics);
        let ghost lines_models = elements_view(lines@);
        let ghost elements_before_lines = renderer.elements@;
        let mut lines = lines;
        renderer.elements.append(&mut lines);
        proof {
            assert(elements_view(renderer.elements@) =~= elements_view(elements_before_lines)
                + lines_models);
            assert(elements_view(renderer.elements@) =~= self.spec_render(*metrics)->Ok_0);
        }

        Ok(renderer.to_elements())
    }
}

/// The five staff lines spanning from the staff's start to `length`.
fn staff_lines(length: StaffSpaces, metrics: &Metrics) -> (r: Vec<Element<StaffSpaces>>)
    requires
        metrics.wf(),
    ensures
        elements_view(r@) =~= spec_staff_lines(length@, *metrics),
{
    let thickness = metrics.engraving_defaults.staff_line_thickness();
    let mut lines: Vec<Element<StaffSpaces>> = Vec::new();
    let mut number: u32 = 0;

    while number < 5
        invariant
            number <= 5,
            lines@.len() == number,
            forall|j: int|
                0 <= j < number ==> #[trigger] lines@[j]@ == spec_staff_lines(
                    length@,
                    *metrics,
                )[j],
        decreases 5 - number,
    {
        let y = StaffSpaces { units: (number as i64) * 10_000_000 };
        lines.push(
            Element::Line(
                Line {
                    from: Coord { x: StaffSpaces { units: 0 }, y },
                    to: Coord { x: length, y },
                    thickness,
                    cap: Linecap::Butt,
                },
            ),
        );
        number += 1;
    }

    lines
}

} // verus!
