//! The measure renderer: the beam-orchestrating walk over a measure's
//! elements, followed by its barline.
//!
//! Each element earns horizontal space from its duration: eight staff
//! spaces for a whole note, halving per shorter value, half as much again
//! for one dot and another quarter for two. An element whose beam marker
//! says `Begin` opens a beam before it renders; one whose marker says
//! `End` closes the beam after it renders and draws the beam's geometry.

use vstd::prelude::*;

use crate::duration::Duration;
use crate::ir::{elements_view, ElementModel, ShapeModel};
use crate::metrics::{Metrics, METRIC_BOUND};
use crate::render::beam::{Beam as ActiveBeam, BeamModel, Notehead};
use crate::render::input::chord::note_le;
use crate::render::input::{Barline, Beam, Chord, Note, Rest};
use crate::render::renderer::Renderer;
use crate::render::{Output, OutputModel};
use crate::staff_spaces::{StaffSpaces, POSITION_LIMIT};
use crate::stem::Direction;
use crate::Error;

verus! {

/// The space before a measure's first element and after its last, in
/// staff-space units: two staff spaces each.
pub const MEASURE_PADDING_UNITS: i64 = 20_000_000;

/// How many elements one measure may hold.
pub const MAX_MEASURE_ELEMENTS: usize = 200;

/// How far one element can move the cursor: a glyph width plus the longest
/// spacing, rounded up generously.
pub const ELEMENT_ADVANCE_BOUND: i64 = 2_000_000_000;

/// How far rendering one measure can move the cursor: its padding, a full
/// complement of elements, and a final barline.
pub const MEASURE_ADVANCE_BOUND: i64 = 500_000_000_000;

/// One element of a measure.
#[derive(Clone, Debug, PartialEq)]
pub enum Element {
    Note(Note),
    Chord(Chord),
    Rest(Rest),
}

/// The beam in progress, seen at the model level.
pub open spec fn beam_view(beam: Option<ActiveBeam>) -> Option<BeamModel> {
    match beam {
        Some(beam) => Some(beam@),
        None => None,
    }
}

impl Element {
    /// Whether the element is within the layout bounds.
    pub open spec fn wf(self) -> bool {
        match self {
            Element::Note(note) => note.wf(),
            Element::Chord(chord) => chord.sorted_wf() && chord.bounded(),
            Element::Rest(_) => true,
        }
    }

    /// What `duration` returns.
    pub open spec fn spec_duration(self) -> Duration {
        match self {
            Element::Note(note) => note.duration,
            Element::Chord(chord) => chord.duration,
            Element::Rest(rest) => rest.duration,
        }
    }

    /// The element's duration.
    pub fn duration(&self) -> (r: Duration)
        ensures
            r == self.spec_duration(),
    {
        match self {
            Element::Note(note) => note.duration,
            Element::Chord(chord) => chord.duration,
            Element::Rest(rest) => rest.duration,
        }
    }

    /// What `beam` returns: rests carry no beam marker.
    pub open spec fn spec_beam(self) -> Option<Beam> {
        match self {
            Element::Note(note) => note.beam,
            Element::Chord(chord) => chord.beam,
            Element::Rest(_) => None,
        }
    }

    /// The element's beam marker.
    pub fn beam(&self) -> (r: Option<Beam>)
        ensures
            r == self.spec_beam(),
    {
        match self {
            Element::Note(note) => note.beam,
            Element::Chord(chord) => chord.beam,
            Element::Rest(_) => None,
        }
    }

    /// The horizontal space the element earns from its duration.
    pub fn spacing(&self) -> (r: StaffSpaces)
        ensures
            r@ == self.spec_duration().spec_spacing(),
            0 < r@ <= 140_000_000,
    {
        let duration = self.duration();
        let base: i64 = match duration.value {
            crate::duration::Value::Whole => 80_000_000,
            crate::duration::Value::Half => 40_000_000,
            crate::duration::Value::Quarter => 20_000_000,
            crate::duration::Value::Eighth => 10_000_000,
            crate::duration::Value::Sixteenth => 5_000_000,
            crate::duration::Value::ThirtySecond => 2_500_000,
            crate::duration::Value::SixtyFourth => 1_250_000,
            crate::duration::Value::OneHundredTwentyEighth => 625_000,
            crate::duration::Value::TwoHundredFiftySixth => 312_500,
        };
        let units: i64 = match duration.dots {
            None => base,
            Some(crate::duration::Dots::Dot) => base + base / 2,
            Some(crate::duration::Dots::DoubleDot) => base + base / 2 + base / 4,
        };
        StaffSpaces { units }
    }

    /// What rendering the element emits, given the beam in progress.
    pub open spec fn spec_render_element(
        self,
        x: int,
        beam: Option<BeamModel>,
        metrics: Metrics,
    ) -> Result<OutputModel, Error> {
        match self {
            Element::Note(note) => note.spec_render(x, beam is Some, metrics),
            Element::Chord(chord) => chord.spec_render(
                x,
                match beam {
                    Some(beam) => Some(beam.stem_direction),
                    None => None,
                },
                metrics,
            ),
            Element::Rest(rest) => rest.spec_render(x, metrics),
        }
    }

    /// Whether the element registers a notehead with an open beam.
    pub open spec fn spec_registers(self, x: int, metrics: Metrics) -> bool {
        match self {
            Element::Note(note) => note.spec_registers(x, metrics),
            Element::Chord(chord) => chord.spec_registers(x, metrics),
            Element::Rest(_) => false,
        }
    }

    /// The notehead the element registers with an open beam of the given
    /// direction.
    pub open spec fn spec_entry(self, x: int, direction: Direction) -> Notehead {
        match self {
            Element::Note(note) => note.spec_notehead_entry(x),
            Element::Chord(chord) => chord.spec_notehead_entry(x, direction),
            Element::Rest(rest) => Notehead {
                glyph: rest.duration.value.spec_rest_glyph(),
                x: StaffSpaces { units: x as i64 },
                y: StaffSpaces { units: 0 },
                min_stem_length: None,
            },
        }
    }

    /// The beam in progress after the element rendered.
    pub open spec fn spec_beam_after(
        self,
        x: int,
        beam: Option<BeamModel>,
        metrics: Metrics,
    ) -> Option<BeamModel> {
        match beam {
            None => None,
            Some(b) => if self.spec_registers(x, metrics) {
                Some(
                    BeamModel {
                        stem_direction: b.stem_direction,
                        noteheads: b.noteheads.push(self.spec_entry(x, b.stem_direction)),
                    },
                )
            } else {
                Some(b)
            },
        }
    }

    /// Renders the element at `x` against the beam in progress.
    pub fn render(
        &self,
        x: StaffSpaces,
        context: &mut crate::render::context::Context,
        metrics: &Metrics,
    ) -> (r: Result<Output, Error>)
        requires
            -POSITION_LIMIT <= x@ <= POSITION_LIMIT,
            self.wf(),
            metrics.wf(),
        ensures
            match (r, self.spec_render_element(x@, beam_view(old(context).beam), *metrics)) {
                (Ok(output), Ok(model)) => {
                    &&& output@.elements =~= model.elements
                    &&& output@.width == model.width
                    &&& 0 <= output@.width <= METRIC_BOUND
                },
                (Err(e), Err(spec_e)) => e == spec_e,
                _ => false,
            },
            beam_view(final(context).beam) == self.spec_beam_after(
                x@,
                beam_view(old(context).beam),
                *metrics,
            ),
    {
        let result = match self {
            Element::Note(note) => note.render(x, context, metrics),
            Element::Chord(chord) => chord.render(x, context, metrics),
            Element::Rest(rest) => rest.render(x, metrics),
        };
        proof {
            match self {
                Element::Note(note) => {
                    metrics.lemma_width_of_bounded(note.duration.value.spec_notehead_glyph());
                },
                Element::Chord(chord) => {
                    metrics.lemma_width_of_bounded(chord.duration.value.spec_notehead_glyph());
                },
                Element::Rest(rest) => {
                    metrics.lemma_width_of_bounded(rest.duration.value.spec_rest_glyph());
                },
            }
        }
        result
    }
}

/// One step of the walk: the element's optional beam begin, its own
/// rendering and registration, its optional beam end with the beam's
/// geometry, and the cursor moved by the element's width and spacing.
pub open spec fn spec_element_step(
    element: Element,
    x: int,
    beam: Option<BeamModel>,
    metrics: Metrics,
) -> Result<(Seq<ElementModel>, int, Option<BeamModel>), Error> {
    if element.spec_beam() == Some(Beam::Begin) && beam is Some {
        Err(Error::StartedBeamWhileBeamInProgress)
    } else {
        let beam0 = if element.spec_beam() == Some(Beam::Begin) {
            Some(BeamModel { stem_direction: Direction::Up, noteheads: Seq::empty() })
        } else {
            beam
        };
        match element.spec_render_element(x, beam0, metrics) {
            Err(e) => Err(e),
            Ok(out) => {
                let advanced = x + out.width + element.spec_duration().spec_spacing();
                let beam1 = element.spec_beam_after(x, beam0, metrics);
                if element.spec_beam() == Some(Beam::End) {
                    match beam1 {
                        None => Err(Error::EndedBeamWhileNoBeamInProgress),
                        Some(b) => match b.spec_render(metrics) {
                            Err(e) => Err(e),
                            Ok(beam_shapes) => Ok(
                                (
                                    out.elements + beam_shapes.map_values(
                                        |s: ShapeModel| ElementModel::Shape(s),
                                    ),
                                    advanced,
                                    None::<BeamModel>,
                                ),
                            ),
                        },
                    }
                } else {
                    Ok((out.elements, advanced, beam1))
                }
            },
        }
    }
}

/// The walk over a measure's elements, threading the cursor and the beam.
pub open spec fn spec_elements_fold(
    elements: Seq<Element>,
    x: int,
    beam: Option<BeamModel>,
    metrics: Metrics,
) -> Result<(Seq<ElementModel>, int, Option<BeamModel>), Error>
    decreases elements.len(),
{
    if elements.len() == 0 {
        Ok((Seq::empty(), x, beam))
    } else {
        match spec_element_step(elements[0], x, beam, metrics) {
            Err(e) => Err(e),
            Ok((emitted, x1, beam1)) => match spec_elements_fold(
                elements.drop_first(),
                x1,
                beam1,
                metrics,
            ) {
                Err(e) => Err(e),
                Ok((rest, x2, beam2)) => Ok((emitted + rest, x2, beam2)),
            },
        }
    }
}

/// A measure: its elements in order and the barline that closes it.
#[derive(Clone, Debug, PartialEq)]
pub struct Measure {
    pub elements: Vec<Element>,
    pub barline: Barline,
}

impl Measure {
    /// Whether the measure is within the layout bounds.
    pub open spec fn wf(self) -> bool {
        &&& self.elements@.len() <= MAX_MEASURE_ELEMENTS
        &&& forall|i: int| 0 <= i < self.elements@.len() ==> (#[trigger] self.elements@[i]).wf()
    }

    /// What rendering the measure emits and where it leaves the cursor and
    /// the beam: two staff spaces of padding, the walk over its elements,
    /// two more staff spaces, then the barline.
    pub open spec fn spec_render(
        self,
        x: int,
        beam: Option<BeamModel>,
        metrics: Metrics,
    ) -> Result<(Seq<ElementModel>, int, Option<BeamModel>), Error> {
        match spec_elements_fold(self.elements@, x + MEASURE_PADDING_UNITS, beam, metrics) {
            Err(e) => Err(e),
            Ok((emitted, x1, beam1)) => {
                let barline_out = self.barline.spec_render(x1 + MEASURE_PADDING_UNITS, metrics);
                Ok(
                    (
                        emitted + barline_out.elements,
                        x1 + MEASURE_PADDING_UNITS + barline_out.width,
                        beam1,
                    ),
                )
            },
        }
    }

    /// Renders the measure, appending to the renderer's elements and
    /// advancing its cursor.
    #[verifier::rlimit(100)]
    pub fn render(&self, renderer: &mut Renderer, metrics: &Metrics) -> (r: Result<(), Error>)
        requires
            self.wf(),
            metrics.wf(),
            0 <= old(renderer).position@,
            old(renderer).position@ + MEASURE_ADVANCE_BOUND <= POSITION_LIMIT,
            match old(renderer).context.beam {
                Some(beam) => beam@.wf(),
                None => true,
            },
        ensures
            match (r, self.spec_render(
                old(renderer).position@,
                beam_view(old(renderer).context.beam),
                *metrics,
            )) {
                (Ok(()), Ok((emitted, x1, beam1))) => {
                    &&& elements_view(final(renderer).elements@) =~= elements_view(
                        old(renderer).elements@,
                    ) + emitted
                    &&& final(renderer).position@ == x1
                    &&& beam_view(final(renderer).context.beam) == beam1
                    &&& old(renderer).position@ <= x1 <= old(renderer).position@
                        + MEASURE_ADVANCE_BOUND
                    &&& match final(renderer).context.beam {
                        Some(beam) => beam@.wf(),
                        None => true,
                    }
                },
                (Err(e), Err(spec_e)) => e == spec_e,
                _ => false,
            },
    {
        let ghost x0 = renderer.position@;
        let ghost beam0 = beam_view(renderer.context.beam);
        let ghost base_elements = renderer.elements@;
        let ghost start = x0 + MEASURE_PADDING_UNITS;

        renderer.advance(StaffSpaces { units: MEASURE_PADDING_UNITS });

        let mut i: usize = 0;
        let ghost mut acc: Seq<ElementModel> = Seq::empty();

        proof {
            assert(self.elements@.skip(0) =~= self.elements@);
            assert(elements_view(renderer.elements@) =~= elements_view(base_elements) + acc);
            match spec_elements_fold(self.elements@, start, beam0, *metrics) {
                Ok((all, x2, b2)) => {
                    assert(acc + all =~= all);
                },
                Err(_) => {},
            }
        }

        while i < self.elements.len()
            invariant
                i <= self.elements@.len(),
                start <= renderer.position@ <= start + i * ELEMENT_ADVANCE_BOUND,
                match renderer.context.beam {
                    Some(beam) => beam@.wf(),
                    None => true,
                },
                elements_view(renderer.elements@) =~= elements_view(base_elements) + acc,
                spec_elements_fold(self.elements@, start, beam0, *metrics) == (
                match spec_elements_fold(
                    self.elements@.skip(i as int),
                    renderer.position@,
                    beam_view(renderer.context.beam),
                    *metrics,
                ) {
                    Ok((rest, x2, b2)) => Ok::<
                        (Seq<ElementModel>, int, Option<BeamModel>),
                        Error,
                    >((acc + rest, x2, b2)),
                    Err(e) => Err::<(Seq<ElementModel>, int, Option<BeamModel>), Error>(e),
                }),
            decreases self.elements@.len() - i,
        {
            proof {
                assert(self.elements@.skip(i as int)[0] == self.elements@[i as int]);
                assert(self.elements@.skip(i as int).drop_first() =~= self.elements@.skip(
                    i as int + 1,
                ));
                assert(self.elements@[i as int].wf());
            }

            let element = &self.elements[i];
            let ghost position_before = renderer.position@;
            let ghost beam_before = beam_view(renderer.context.beam);
            let ghost elements_before = renderer.elements@;

            match step_element(element, renderer, metrics) {
                Ok(()) => (),
                Err(e) => {
                    return Err(e);
                },
            }

            proof {
                let step = spec_element_step(
                    self.elements@[i as int],
                    position_before,
                    beam_before,
                    *metrics,
                );
                assert(step is Ok);
                let emitted = step->Ok_0.0;
                let x1 = step->Ok_0.1;
                let b1 = step->Ok_0.2;
                assert(renderer.position@ == x1);
                assert(beam_view(renderer.context.beam) == b1);
                assert(elements_view(renderer.elements@) =~= elements_view(elements_before)
                    + emitted);
                assert(elements_view(renderer.elements@) =~= (elements_view(base_elements) + acc)
                    + emitted);
                assert((elements_view(base_elements) + acc) + emitted =~= elements_view(
                    base_elements,
                ) + (acc + emitted));
                assert(spec_elements_fold(
                    self.elements@.skip(i as int),
                    position_before,
                    beam_before,
                    *metrics,
                ) == (match spec_elements_fold(self.elements@.skip(i as int + 1), x1, b1, *metrics) {
                    Ok((rest, x2, b2)) => Ok::<(Seq<ElementModel>, int, Option<BeamModel>), Error>(
                        (emitted + rest, x2, b2),
                    ),
                    Err(e2) => Err::<(Seq<ElementModel>, int, Option<BeamModel>), Error>(e2),
                }));
                let old_acc = acc;
                acc = acc + emitted;
                match spec_elements_fold(self.elements@.skip(i as int + 1), x1, b1, *metrics) {
                    Ok((rest, x2, b2)) => {
                        assert(old_acc + (emitted + rest) =~= acc + rest);
                    },
                    Err(_) => {},
                }
            }

            i += 1;
        }

        proof {
            assert(self.elements@.skip(self.elements@.len() as int) =~= Seq::<Element>::empty());
        }

        renderer.advance(StaffSpaces { units: MEASURE_PADDING_UNITS });

        let mut barline_output = match self.barline.render(renderer.position, metrics) {
            Ok(output) => output,
            Err(e) => {
                return Err(e);
            },
        };
        let ghost elements_before_barline = renderer.elements@;
        let ghost barline_elements = barline_output.elements@;
        renderer.elements.append(&mut barline_output.elements);
        proof {
            assert(elements_view(renderer.elements@) =~= elements_view(elements_before_barline)
                + elements_view(barline_elements));
        }
        renderer.advance(barline_output.width);

        proof {
            let spec_result = self.spec_render(x0, beam0, *metrics);
            assert(elements_view(renderer.elements@) =~= elements_view(base_elements)
                + spec_result->Ok_0.0);
        }

        Ok(())
    }
}

/// Performs one step of the measure walk for `element`: the optional beam
/// begin, the element's own rendering, the optional beam end with the
/// beam's geometry, and the cursor moved by the element's width and
/// spacing.
#[verifier::rlimit(100)]
fn step_element(element: &Element, renderer: &mut Renderer, metrics: &Metrics) -> (r: Result<
    (),
    Error,
>)
    requires
        element.wf(),
        metrics.wf(),
        0 <= old(renderer).position@,
        old(renderer).position@ + ELEMENT_ADVANCE_BOUND <= POSITION_LIMIT,
        match old(renderer).context.beam {
            Some(beam) => beam@.wf(),
            None => true,
        },
    ensures
        match (r, spec_element_step(
            *element,
            old(renderer).position@,
            beam_view(old(renderer).context.beam),
            *metrics,
        )) {
            (Ok(()), Ok((emitted, x1, beam1))) => {
                &&& elements_view(final(renderer).elements@) =~= elements_view(
                    old(renderer).elements@,
                ) + emitted
                &&& final(renderer).position@ == x1
                &&& beam_view(final(renderer).context.beam) == beam1
                &&& old(renderer).position@ <= x1 <= old(renderer).position@
                    + ELEMENT_ADVANCE_BOUND
                &&& match final(renderer).context.beam {
                    Some(beam) => beam@.wf(),
                    None => true,
                }
            },
            (Err(e), Err(spec_e)) => e == spec_e,
            _ => false,
        },
{
    let ghost position_before = renderer.position@;
    let ghost beam_before = beam_view(renderer.context.beam);

    let marker = element.beam();

    if matches!(marker, Some(Beam::Begin)) {
        match renderer.context.begin_beam(Direction::Up) {
            Ok(()) => {
                proof {
                    assert(renderer.context.beam.unwrap().noteheads@ =~= Seq::<
                        Notehead,
                    >::empty());
                }
            },
            Err(e) => {
                return Err(e);
            },
        }
    }

    let ghost beam_opened = beam_view(renderer.context.beam);

    let mut output = match element.render(renderer.position, &mut renderer.context, metrics) {
        Ok(output) => output,
        Err(e) => {
            return Err(e);
        },
    };

    proof {
        // A notehead registered at the cursor stays within the layout
        // bound, so the open beam stays well-formed.
        if let Some(b) = beam_opened {
            if element.spec_registers(position_before, *metrics) {
                let entry = element.spec_entry(position_before, b.stem_direction);
                match element {
                    Element::Chord(chord) => {
                        assert(note_le(
                            chord.notes@[0],
                            chord.notes@[chord.notes@.len() - 1],
                        ));
                        assert(0 <= chord.spec_stem_length());
                    },
                    _ => {},
                }
                assert(entry.wf());
            }
        }
        match &renderer.context.beam {
            Some(beam) => {
                assert(beam@.wf());
            },
            None => {},
        }
    }

    let ghost elements_before = renderer.elements@;
    let ghost output_elements = output.elements@;
    renderer.elements.append(&mut output.elements);
    proof {
        assert(elements_view(renderer.elements@) =~= elements_view(elements_before)
            + elements_view(output_elements));
    }
    renderer.advance(output.width);

    if matches!(marker, Some(Beam::End)) {
        let closed = match renderer.context.end_beam() {
            Ok(beam) => beam,
            Err(e) => {
                return Err(e);
            },
        };
        proof {
            assert(closed@.noteheads.len() > 0);
        }
        let (beam_shapes, beam_width) = match closed.render(metrics) {
            Ok(result) => result,
            Err(e) => {
                return Err(e);
            },
        };
        let ghost elements_before_beam = renderer.elements@;
        let ghost beam_models = crate::ir::shapes_view(beam_shapes@);
        let mut beam_elements = crate::ir::shapes_to_elements(beam_shapes);
        renderer.elements.append(&mut beam_elements);
        proof {
            assert(elements_view(renderer.elements@) =~= elements_view(elements_before_beam)
                + beam_models.map_values(|s: ShapeModel| ElementModel::Shape(s)));
        }
        renderer.advance(beam_width);
    }

    renderer.advance(element.spacing());

    proof {
        let step = spec_element_step(*element, position_before, beam_before, *metrics);
        assert(step is Ok);
        assert(renderer.position@ == step->Ok_0.1);
        assert(beam_view(renderer.context.beam) == step->Ok_0.2);
        assert(elements_view(renderer.elements@) =~= elements_view(old(renderer).elements@)
            + step->Ok_0.0);
    }

    Ok(())
}

} // verus!
