//! The chord renderer.
//!
//! A chord holds at least two notes, kept sorted bottom to top by position
//! and accidental. Its stem direction prefers the side with more room: the
//! note farther from the middle line decides, a tie means no preference.
//! Adjacent seconds are kept apart by moving a notehead to the opposite
//! side of the stem: walking from the stem's start toward its tip, a note
//! moves opposite only when it is within half a staff space of the note
//! before it and that note sat on the default side.

use vstd::prelude::*;

use vstd::seq_lib::{to_multiset_build, to_multiset_insert, to_multiset_len};

use crate::accidental::Accidental;
use crate::duration::{Duration, Value};
use crate::glyph::Glyph;
use crate::ir::{Element, Group, Shape, ShapeModel};
use crate::metrics::Metrics;
use crate::render::beam::Notehead;
use crate::render::context::Context;
use crate::render::input::note::{
    create_accidental, create_flag, create_leger_lines, create_notehead, spec_create_accidental,
    spec_create_flag, spec_create_leger_lines, spec_notehead,
};
use crate::render::input::Beam;
use crate::render::{Output, OutputModel};
use crate::staff_spaces::{StaffSpaces, POSITION_LIMIT};
use crate::stem::{Direction, Stem};
use crate::Error;

verus! {

/// One note of a chord: a vertical position and an optional accidental.
#[derive(Clone, Copy, Debug, PartialEq)]
pub struct Note {
    pub y: StaffSpaces,
    pub accidental: Option<Accidental>,
}

/// The sort rank of a note's accidental: none sorts first, then flat to
/// sharp.
pub open spec fn accidental_rank(accidental: Option<Accidental>) -> int {
    match accidental {
        None => 0,
        Some(accidental) => 1 + accidental.spec_rank(),
    }
}

/// The chord note order: ascending by position, accidental breaking ties.
pub open spec fn note_le(a: Note, b: Note) -> bool {
    a.y@ < b.y@ || (a.y@ == b.y@ && accidental_rank(a.accidental) <= accidental_rank(b.accidental))
}

/// Whether `notes` is sorted ascending by (position, accidental).
pub open spec fn notes_sorted(notes: Seq<Note>) -> bool {
    forall|i: int, j: int| 0 <= i < j < notes.len() ==> note_le(notes[i], notes[j])
}

/// The chord note order is antisymmetric: two notes each at or below the
/// other are the same note, so a sorted order is unambiguous.
pub proof fn lemma_note_le_antisymmetric(a: Note, b: Note)
    requires
        note_le(a, b),
        note_le(b, a),
    ensures
        a == b,
{
    assert(a.y == b.y);
    assert(accidental_rank(a.accidental) == accidental_rank(b.accidental));
    assert(a.accidental == b.accidental);
}

/// Two sorted note sequences holding the same notes are the same sequence:
/// the sorted form a chord keeps its notes in is unique, so the chord
/// constructor's contract pins its result completely.
pub proof fn lemma_sorted_notes_equal(a: Seq<Note>, b: Seq<Note>)
    requires
        notes_sorted(a),
        notes_sorted(b),
        a.to_multiset() == b.to_multiset(),
    ensures
        a =~= b,
    decreases a.len(),
{
    broadcast use vstd::seq_lib::group_to_multiset_ensures;

    if a.len() == 0 {
        assert(b.to_multiset().len() == 0);
        assert(b.len() == 0);
    } else {
        assert(a.to_multiset().count(a[0]) > 0);
        assert(b.to_multiset().count(a[0]) > 0);
        assert(b.contains(a[0]));
        let j = choose|j: int| 0 <= j < b.len() && b[j] == a[0];
        assert(j == 0 || note_le(b[0], b[j]));
        assert(note_le(b[0], a[0]));

        assert(b.to_multiset().count(b[0]) > 0);
        assert(a.contains(b[0]));
        let i = choose|i: int| 0 <= i < a.len() && a[i] == b[0];
        assert(i == 0 || note_le(a[0], a[i]));
        assert(note_le(a[0], b[0]));

        lemma_note_le_antisymmetric(a[0], b[0]);

        assert(a.remove(0) =~= a.drop_first());
        assert(b.remove(0) =~= b.drop_first());
        assert(a.drop_first().to_multiset() =~= a.to_multiset().remove(a[0]));
        assert(b.drop_first().to_multiset() =~= b.to_multiset().remove(b[0]));
        assert(notes_sorted(a.drop_first()));
        assert(notes_sorted(b.drop_first()));
        lemma_sorted_notes_equal(a.drop_first(), b.drop_first());

        assert(a.len() == b.len());
        assert forall|k: int| 0 <= k < a.len() implies a[k] == b[k] by {
            if k > 0 {
                assert(a[k] == a.drop_first()[k - 1]);
                assert(b[k] == b.drop_first()[k - 1]);
            }
        }
    }
}

/// Whether two notes are within half a staff space of one another: the
/// interval of a second, whose noteheads would collide.
pub open spec fn notes_close(a: Note, b: Note) -> bool {
    -5_000_000 <= a.y@ - b.y@ <= 5_000_000
}

/// Whether note `i` sits on the opposite side of an upward stem: the walk
/// runs bottom to top, and a note moves opposite exactly when it is close
/// to the note below it and that note sat on the default side.
pub open spec fn side_opposite_up(notes: Seq<Note>, i: int) -> bool
    decreases i,
{
    if i <= 0 {
        false
    } else {
        notes_close(notes[i], notes[i - 1]) && !side_opposite_up(notes, i - 1)
    }
}

/// Whether note `i` sits on the opposite side of a downward stem: the walk
/// runs top to bottom, and a note moves opposite exactly when it is close
/// to the note above it and that note sat on the default side.
pub open spec fn side_opposite_down(notes: Seq<Note>, i: int) -> bool
    decreases notes.len() - i,
{
    if i >= notes.len() - 1 {
        false
    } else {
        notes_close(notes[i], notes[i + 1]) && !side_opposite_down(notes, i + 1)
    }
}

/// Whether note `i` sits on the opposite side of the stem.
pub open spec fn side_opposite(notes: Seq<Note>, direction: Direction, i: int) -> bool {
    match direction {
        Direction::Up => side_opposite_up(notes, i),
        Direction::Down => side_opposite_down(notes, i),
    }
}

/// Where note `i`'s notehead sits: at `x` on the default side; a notehead
/// on the opposite side moves one notehead width right of an upward stem,
/// left of a downward one.
pub open spec fn notehead_x(
    notes: Seq<Note>,
    direction: Direction,
    i: int,
    x: int,
    width: int,
) -> int {
    if !side_opposite(notes, direction, i) {
        x
    } else {
        match direction {
            Direction::Up => x + width,
            Direction::Down => x - width,
        }
    }
}

/// The accidental shapes of `notes`, bottom to top, skipping notes without
/// one, or the first missing-width error.
pub open spec fn spec_accidental_shapes(notes: Seq<Note>, x: int, metrics: Metrics) -> Result<
    Seq<ShapeModel>,
    Error,
>
    decreases notes.len(),
{
    if notes.len() == 0 {
        Ok(Seq::empty())
    } else {
        let rest = spec_accidental_shapes(notes.drop_first(), x, metrics);
        match notes[0].accidental {
            None => rest,
            Some(accidental) => match spec_create_accidental(
                x,
                notes[0].y@,
                accidental.spec_glyph(),
                metrics,
            ) {
                Err(e) => Err(e),
                Ok(shape) => match rest {
                    Err(e) => Err(e),
                    Ok(rest_shapes) => Ok(seq![shape] + rest_shapes),
                },
            },
        }
    }
}

/// A chord: its notes sorted bottom to top, a duration, an optional beam
/// marker and an optional identifier for the emitted group.
#[derive(Clone, Debug, PartialEq)]
pub struct Chord {
    pub notes: Vec<Note>,
    pub duration: Duration,
    pub beam: Option<Beam>,
    pub id: Option<String>,
}

impl Chord {
    /// The construction invariant: at least two notes, sorted ascending by
    /// (position, accidental).
    pub open spec fn sorted_wf(self) -> bool {
        &&& self.notes@.len() >= 2
        &&& notes_sorted(self.notes@)
    }

    /// Whether every note position is within the layout bound.
    pub open spec fn bounded(self) -> bool {
        forall|i: int|
            0 <= i < self.notes@.len() ==> -POSITION_LIMIT <= (#[trigger] self.notes@[i]).y@
                <= POSITION_LIMIT
    }

    /// Returns a chord over the given notes, sorted ascending by
    /// (position, accidental).
    ///
    /// Fails (with `None`) unless at least two notes are given.
    pub fn new(
        notes: Vec<Note>,
        duration: Duration,
        beam: Option<Beam>,
        id: Option<String>,
    ) -> (r: Option<Chord>)
        ensures
            match r {
                Some(chord) => {
                    &&& notes@.len() >= 2
                    &&& chord.sorted_wf()
                    &&& chord.notes@.to_multiset() == notes@.to_multiset()
                    &&& chord.notes@.len() == notes@.len()
                    &&& chord.duration == duration
                    &&& chord.beam == beam
                    &&& chord.id == id
                },
                None => notes@.len() < 2,
            },
    {
        if notes.len() < 2 {
            return None;
        }

        let notes = sort_notes(notes);
        Some(Chord { notes, duration, beam, id })
    }

    /// The lowest note: the first, since the notes are sorted.
    pub fn lowest_note(&self) -> (r: Note)
        requires
            self.notes@.len() >= 1,
        ensures
            r == self.notes@[0],
    {
        self.notes[0]
    }

    /// The highest note: the last, since the notes are sorted.
    pub fn highest_note(&self) -> (r: Note)
        requires
            self.notes@.len() >= 1,
        ensures
            r == self.notes@[self.notes@.len() - 1],
    {
        self.notes[self.notes.len() - 1]
    }

    /// What `stem_direction` returns: the side with more room decides. With
    /// the lowest and highest note equidistant from the middle line there
    /// is no preference.
    pub open spec fn spec_stem_direction(self) -> Option<Direction> {
        let lowest_distance = 20_000_000 - self.notes@[0].y@;
        let highest_distance = self.notes@[self.notes@.len() - 1].y@ - 20_000_000;
        if lowest_distance == highest_distance {
            None
        } else if lowest_distance > highest_distance {
            Some(Direction::Up)
        } else {
            Some(Direction::Down)
        }
    }

    /// The preferred stem direction, if there is one: up when the lowest
    /// note is farther from the middle line than the highest, down in the
    /// opposite case, and no preference on a tie.
    pub fn stem_direction(&self) -> (r: Option<Direction>)
        requires
            self.sorted_wf(),
            self.bounded(),
        ensures
            r == self.spec_stem_direction(),
    {
        let lowest = self.lowest_note();
        let highest = self.highest_note();

        let lowest_distance: i64 = 20_000_000 - lowest.y.units;
        let highest_distance: i64 = highest.y.units - 20_000_000;

        if lowest_distance == highest_distance {
            None
        } else if lowest_distance > highest_distance {
            Some(Direction::Up)
        } else {
            Some(Direction::Down)
        }
    }

    /// The effective stem direction: the open beam's, else the chord's own
    /// preference, else up.
    pub open spec fn spec_effective_direction(self, beam_direction: Option<Direction>) -> Direction {
        match beam_direction {
            Some(direction) => direction,
            None => match self.spec_stem_direction() {
                Some(direction) => direction,
                None => Direction::Up,
            },
        }
    }

    /// The height the stem starts at: the lowest note for an upward stem,
    /// the highest for a downward one.
    pub open spec fn spec_stem_start(self, direction: Direction) -> int {
        match direction {
            Direction::Up => self.notes@[0].y@,
            Direction::Down => self.notes@[self.notes@.len() - 1].y@,
        }
    }

    /// The stem length: the chord's span from lowest to highest note.
    pub open spec fn spec_stem_length(self) -> int {
        self.notes@[self.notes@.len() - 1].y@ - self.notes@[0].y@
    }

    /// The stem a lone chord of this shape carries.
    pub open spec fn spec_stem(self, x: int, direction: Direction) -> Stem {
        Stem {
            glyph: self.duration.value.spec_notehead_glyph(),
            x: StaffSpaces { units: x as i64 },
            y: StaffSpaces { units: self.spec_stem_start(direction) as i64 },
            direction,
            length: StaffSpaces { units: self.spec_stem_length() as i64 },
        }
    }

    /// The notehead this chord registers with an open beam: anchored at the
    /// stem's start, with the chord's span as minimum stem length.
    pub open spec fn spec_notehead_entry(self, x: int, direction: Direction) -> Notehead {
        Notehead {
            glyph: self.duration.value.spec_notehead_glyph(),
            x: StaffSpaces { units: x as i64 },
            y: StaffSpaces { units: self.spec_stem_start(direction) as i64 },
            min_stem_length: Some(StaffSpaces { units: self.spec_stem_length() as i64 }),
        }
    }

    /// The shapes a chord at `x` emits, in order: one notehead per note on
    /// its side of the stem, leger lines for the lowest and for the highest
    /// note, the accidentals bottom to top; then, when no beam collects the
    /// chord and it is not of whole notes, flag and stem.
    pub open spec fn spec_shapes(
        self,
        x: int,
        beam_direction: Option<Direction>,
        metrics: Metrics,
    ) -> Result<Seq<ShapeModel>, Error> {
        let glyph = self.duration.value.spec_notehead_glyph();
        match metrics.spec_width_of(glyph) {
            Err(e) => Err(e),
            Ok(width) => {
                let direction = self.spec_effective_direction(beam_direction);
                let heads = Seq::new(
                    self.notes@.len(),
                    |i: int|
                        spec_notehead(
                            notehead_x(self.notes@, direction, i, x, width),
                            self.notes@[i].y@,
                            glyph,
                        ),
                );
                match spec_create_leger_lines(x, self.notes@[0].y@, glyph, metrics) {
                    Err(e) => Err(e),
                    Ok(low_legers) => match spec_create_leger_lines(
                        x,
                        self.notes@[self.notes@.len() - 1].y@,
                        glyph,
                        metrics,
                    ) {
                        Err(e) => Err(e),
                        Ok(high_legers) => match spec_accidental_shapes(self.notes@, x, metrics) {
                            Err(e) => Err(e),
                            Ok(accidentals) => {
                                let base = heads + low_legers + high_legers + accidentals;
                                self.spec_stem_shapes(x, direction, beam_direction is Some, metrics, base)
                            },
                        },
                    },
                }
            },
        }
    }

    /// The shapes of `spec_shapes` after the accidentals: the flag and stem
    /// of an unbeamed chord of non-whole notes appended to `so_far`.
    pub open spec fn spec_stem_shapes(
        self,
        x: int,
        direction: Direction,
        beamed: bool,
        metrics: Metrics,
        so_far: Seq<ShapeModel>,
    ) -> Result<Seq<ShapeModel>, Error> {
        if beamed || self.duration.value == Value::Whole {
            Ok(so_far)
        } else {
            let glyph = self.duration.value.spec_notehead_glyph();
            let stem = self.spec_stem(x, direction);
            let flagged = match self.duration.value.spec_flag_glyph(direction) {
                Some(flag_glyph) => match spec_create_flag(
                    x,
                    stem.spec_end(),
                    glyph,
                    flag_glyph,
                    direction,
                    metrics,
                ) {
                    Err(e) => Err::<Seq<ShapeModel>, Error>(e),
                    Ok(flag_shape) => Ok(so_far.push(flag_shape)),
                },
                None => Ok(so_far),
            };
            match flagged {
                Err(e) => Err(e),
                Ok(with_flag) => match stem.spec_render(metrics) {
                    Err(e) => Err(e),
                    Ok(stem_shape) => Ok(with_flag.push(stem_shape)),
                },
            }
        }
    }

    /// Whether rendering reaches the beam-registration point: the width,
    /// both runs of leger lines and every accidental resolved.
    pub open spec fn spec_registers(self, x: int, metrics: Metrics) -> bool {
        let glyph = self.duration.value.spec_notehead_glyph();
        &&& metrics.spec_width_of(glyph) is Ok
        &&& spec_create_leger_lines(x, self.notes@[0].y@, glyph, metrics) is Ok
        &&& spec_create_leger_lines(
            x,
            self.notes@[self.notes@.len() - 1].y@,
            glyph,
            metrics,
        ) is Ok
        &&& spec_accidental_shapes(self.notes@, x, metrics) is Ok
    }

    /// What rendering the chord returns: its shapes — grouped under the
    /// chord's identifier when it has one — and the notehead's width.
    pub open spec fn spec_render(
        self,
        x: int,
        beam_direction: Option<Direction>,
        metrics: Metrics,
    ) -> Result<OutputModel, Error> {
        match self.spec_shapes(x, beam_direction, metrics) {
            Err(e) => Err(e),
            Ok(shapes) => Ok(
                OutputModel {
                    elements: match self.id {
                        Some(id) => seq![
                            crate::ir::ElementModel::Group { id: Some(id@), elements: shapes },
                        ],
                        None => shapes.map_values(
                            |s: ShapeModel| crate::ir::ElementModel::Shape(s),
                        ),
                    },
                    width: metrics.spec_width_of(
                        self.duration.value.spec_notehead_glyph(),
                    )->Ok_0,
                },
            ),
        }
    }

    /// Renders the chord at `x`. While a beam is open the chord registers
    /// one notehead, anchored at its stem start and carrying the chord's
    /// span as minimum stem length, instead of drawing a stem; the
    /// registration stands once everything before it succeeded, even if a
    /// later lookup fails, since any error aborts the whole render pass.
    #[verifier::rlimit(100)]
    pub fn render(&self, x: StaffSpaces, context: &mut Context, metrics: &Metrics) -> (r: Result<
        Output,
        Error,
    >)
        requires
            -POSITION_LIMIT <= x@ <= POSITION_LIMIT,
            self.sorted_wf(),
            self.bounded(),
            metrics.wf(),
        ensures
            ({
                let beam_direction = match old(context).beam {
                    Some(beam) => Some(beam.stem_direction),
                    None => None::<Direction>,
                };
                match (r, self.spec_render(x@, beam_direction, *metrics)) {
                    (Ok(output), Ok(model)) => {
                        &&& output@.elements =~= model.elements
                        &&& output@.width == model.width
                    },
                    (Err(e), Err(spec_e)) => e == spec_e,
                    _ => false,
                }
            }),
            match old(context).beam {
                None => final(context).beam is None,
                Some(beam) => {
                    &&& final(context).beam is Some
                    &&& final(context).beam.unwrap().stem_direction == beam.stem_direction
                    &&& final(context).beam.unwrap().noteheads@ == if self.spec_registers(
                        x@,
                        *metrics,
                    ) {
                        beam.noteheads@.push(
                            self.spec_notehead_entry(x@, beam.stem_direction),
                        )
                    } else {
                        beam.noteheads@
                    }
                },
            },
    {
        let ghost beam_direction_ghost = match old(context).beam {
            Some(beam) => Some(beam.stem_direction),
            None => None::<Direction>,
        };

        let glyph = self.duration.value.notehead_glyph();
        let width = match metrics.width_of(glyph) {
            Ok(width) => width,
            Err(e) => {
                return Err(e);
            },
        };
        proof {
            metrics.lemma_width_of_bounded(glyph);
        }

        let beamed = context.beam.is_some();
        let stem_direction = match &context.beam {
            Some(beam) => beam.stem_direction,
            None => match self.stem_direction() {
                Some(direction) => direction,
                None => Direction::Up,
            },
        };
        proof {
            assert(stem_direction == self.spec_effective_direction(beam_direction_ghost));
        }

        let opposite = side_flags(&self.notes, stem_direction);

        let mut shapes: Vec<Shape<StaffSpaces>> = Vec::new();
        let mut i: usize = 0;
        while i < self.notes.len()
            invariant
                i <= self.notes@.len(),
                shapes@.len() == i,
                forall|j: int|
                    0 <= j < i ==> #[trigger] shapes@[j]@ == spec_notehead(
                        notehead_x(
                            self.notes@,
                            stem_direction,
                            j,
                            x@,
                            metrics.spec_width_of(
                                self.duration.value.spec_notehead_glyph(),
                            )->Ok_0,
                        ),
                        self.notes@[j].y@,
                        self.duration.value.spec_notehead_glyph(),
                    ),
            decreases self.notes@.len() - i,
        {
            let head_x = if !opposite[i] {
                x
            } else {
                match stem_direction {
                    Direction::Up => StaffSpaces { units: x.units + width.units },
                    Direction::Down => StaffSpaces { units: x.units - width.units },
                }
            };
            shapes.push(create_notehead(head_x, self.notes[i].y, glyph));
            i += 1;
        }
        let ghost heads = crate::ir::shapes_view(shapes@);

        let lowest = self.lowest_note();
        let highest = self.highest_note();

        let mut low_legers = match create_leger_lines(x, lowest.y, glyph, metrics) {
            Ok(shapes) => shapes,
            Err(e) => {
                return Err(e);
            },
        };
        let ghost low_models = crate::ir::shapes_view(low_legers@);
        shapes.append(&mut low_legers);

        let mut high_legers = match create_leger_lines(x, highest.y, glyph, metrics) {
            Ok(shapes) => shapes,
            Err(e) => {
                return Err(e);
            },
        };
        let ghost high_models = crate::ir::shapes_view(high_legers@);
        shapes.append(&mut high_legers);

        let mut accidental_shapes = match chord_accidentals(&self.notes, x, metrics) {
            Ok(shapes) => shapes,
            Err(e) => {
                return Err(e);
            },
        };
        let ghost accidental_models = crate::ir::shapes_view(accidental_shapes@);
        shapes.append(&mut accidental_shapes);

        proof {
            assert(crate::ir::shapes_view(shapes@) =~= heads + low_models + high_models
                + accidental_models);
        }

        let start_y = match stem_direction {
            Direction::Up => lowest.y,
            Direction::Down => highest.y,
        };
        let length = StaffSpaces { units: highest.y.units - lowest.y.units };

        match &mut context.beam {
            Some(beam) => {
                beam.add_notehead(
                    Notehead { glyph, x, y: start_y, min_stem_length: Some(length) },
                );
            },
            None => {
                if !matches!(self.duration.value, Value::Whole) {
                    let stem = Stem::new(glyph, x, start_y, stem_direction, Some(length));

                    if let Some(flag_glyph) = self.duration.value.flag_glyph(stem_direction) {
                        let flag = match create_flag(
                            x,
                            stem.end(),
                            glyph,
                            flag_glyph,
                            stem_direction,
                            metrics,
                        ) {
                            Ok(shape) => shape,
                            Err(e) => {
                                return Err(e);
                            },
                        };
                        shapes.push(flag);
                    }

                    let stem_shape = match stem.render(metrics) {
                        Ok(shape) => shape,
                        Err(e) => {
                            return Err(e);
                        },
                    };
                    shapes.push(stem_shape);
                }
            },
        }

        proof {
            assert(crate::ir::shapes_view(shapes@) =~= self.spec_shapes(
                x@,
                beam_direction_ghost,
                *metrics,
            )->Ok_0);
        }

        let elements = match &self.id {
            Some(id) => {
                let mut group_elements: Vec<Element<StaffSpaces>> = Vec::new();
                group_elements.push(
                    Element::Group(Group { elements: shapes, id: Some(id.clone()) }),
                );
                group_elements
            },
            None => crate::ir::shapes_to_elements(shapes),
        };

        Ok(Output { elements, width })
    }
}

/// For each note, whether it sits on the opposite side of the stem.
fn side_flags(notes: &Vec<Note>, direction: Direction) -> (r: Vec<bool>)
    requires
        forall|i: int|
            0 <= i < notes@.len() ==> -POSITION_LIMIT <= (#[trigger] notes@[i]).y@
                <= POSITION_LIMIT,
    ensures
        r@.len() == notes@.len(),
        forall|i: int| 0 <= i < notes@.len() ==> r@[i] == side_opposite(notes@, direction, i),
{
    let n = notes.len();
    let mut flags: Vec<bool> = Vec::new();

    match direction {
        Direction::Up => {
            let mut previous = false;
            let mut i: usize = 0;
            while i < n
                invariant
                    i <= n,
                    flags@.len() == i,
                    previous == if i == 0 {
                        false
                    } else {
                        side_opposite_up(notes@, i as int - 1)
                    },
                    forall|k: int| 0 <= k < i ==> flags@[k] == side_opposite_up(notes@, k),
                decreases n - i,
            {
                let flag = if i == 0 {
                    false
                } else {
                    notes_close_exec(notes[i], notes[i - 1]) && !previous
                };
                flags.push(flag);
                previous = flag;
                i += 1;
            }
        },
        Direction::Down => {
            let mut i: usize = 0;
            while i < n
                invariant
                    i <= n,
                    flags@.len() == i,
                    forall|k: int| 0 <= k < i ==> flags@[k] == false,
                decreases n - i,
            {
                flags.push(false);
                i += 1;
            }
            if n > 0 {
                let mut previous = false;
                let mut k: usize = n - 1;
                while k > 0
                    invariant
                        k <= n - 1,
                        flags@.len() == n,
                        previous == side_opposite_down(notes@, k as int),
                        forall|j: int| k <= j < n ==> flags@[j] == side_opposite_down(notes@, j),
                    decreases k,
                {
                    k -= 1;
                    let flag = notes_close_exec(notes[k], notes[k + 1]) && !previous;
                    flags.set(k, flag);
                    previous = flag;
                }
            }
        },
    }

    flags
}

/// Whether two notes are within half a staff space of one another.
fn notes_close_exec(a: Note, b: Note) -> (r: bool)
    requires
        -POSITION_LIMIT <= a.y@ <= POSITION_LIMIT,
        -POSITION_LIMIT <= b.y@ <= POSITION_LIMIT,
    ensures
        r == notes_close(a, b),
{
    let difference = a.y.units - b.y.units;
    -5_000_000 <= difference && difference <= 5_000_000
}

/// The accidental shapes of the chord's notes, bottom to top.
fn chord_accidentals(notes: &Vec<Note>, x: StaffSpaces, metrics: &Metrics) -> (r: Result<
    Vec<Shape<StaffSpaces>>,
    Error,
>)
    requires
        -POSITION_LIMIT <= x@ <= POSITION_LIMIT,
        metrics.wf(),
    ensures
        match (r, spec_accidental_shapes(notes@, x@, *metrics)) {
            (Ok(shapes), Ok(models)) => crate::ir::shapes_view(shapes@) =~= models,
            (Err(e), Err(spec_e)) => e == spec_e,
            _ => false,
        },
{
    let mut shapes: Vec<Shape<StaffSpaces>> = Vec::new();
    let mut i: usize = 0;

    proof {
        assert(notes@.skip(0) =~= notes@);
        match spec_accidental_shapes(notes@, x@, *metrics) {
            Ok(rest) => {
                assert(crate::ir::shapes_view(shapes@) + rest =~= rest);
            },
            Err(_) => {},
        }
    }

    while i < notes.len()
        invariant
            i <= notes@.len(),
            spec_accidental_shapes(notes@, x@, *metrics) == (match spec_accidental_shapes(
                notes@.skip(i as int),
                x@,
                *metrics,
            ) {
                Ok(rest) => Ok(crate::ir::shapes_view(shapes@) + rest),
                Err(e) => Err::<Seq<ShapeModel>, Error>(e),
            }),
        decreases notes@.len() - i,
    {
        proof {
            assert(notes@.skip(i as int)[0] == notes@[i as int]);
            assert(notes@.skip(i as int).drop_first() =~= notes@.skip(i as int + 1));
        }
        if let Some(accidental) = notes[i].accidental {
            let shape = match create_accidental(x, notes[i].y, accidental.glyph(), metrics) {
                Ok(shape) => shape,
                Err(e) => {
                    return Err(e);
                },
            };
            let ghost shapes_before = shapes@;
            shapes.push(shape);
            proof {
                if let Ok(rest) = spec_accidental_shapes(notes@.skip(i as int + 1), x@, *metrics) {
                    assert(crate::ir::shapes_view(shapes_before) + (seq![shape@] + rest)
                        =~= crate::ir::shapes_view(shapes@) + rest);
                }
            }
        }
        i += 1;
    }

    proof {
        assert(notes@.skip(notes@.len() as int) =~= Seq::<Note>::empty());
        match spec_accidental_shapes(notes@, x@, *metrics) {
            Ok(models) => {
                assert(crate::ir::shapes_view(shapes@) + Seq::<ShapeModel>::empty()
                    =~= crate::ir::shapes_view(shapes@));
            },
            Err(_) => {},
        }
    }
    Ok(shapes)
}

/// Sorts chord notes ascending by (position, accidental).
fn sort_notes(notes: Vec<Note>) -> (r: Vec<Note>)
    ensures
        notes_sorted(r@),
        r@.to_multiset() == notes@.to_multiset(),
        r@.len() == notes@.len(),
{
    broadcast use to_multiset_build, to_multiset_insert, to_multiset_len;

    let mut out: Vec<Note> = Vec::new();
    let mut i: usize = 0;

    proof {
        assert(notes@.take(0) =~= Seq::<Note>::empty());
        assert(Seq::<Note>::empty().to_multiset() =~= out@.to_multiset());
    }

    while i < notes.len()
        invariant
            i <= notes@.len(),
            out@.len() == i,
            notes_sorted(out@),
            out@.to_multiset() == notes@.take(i as int).to_multiset(),
        decreases notes@.len() - i,
    {
        let note = notes[i];
        let mut j: usize = 0;

        while j < out.len() && note_le_exec(out[j], note)
            invariant
                j <= out@.len(),
                forall|k: int| 0 <= k < j ==> note_le(out@[k], note),
            decreases out@.len() - j,
        {
            j += 1;
        }

        proof {
            if j < out@.len() {
                assert(!note_le(out@[j as int], note));
                assert(note_le(note, out@[j as int]));
            }
        }

        let ghost out_before = out@;
        out.insert(j, note);
        proof {
            assert(out@ == out_before.insert(j as int, note));
            assert(notes@.take(i as int + 1).drop_last() =~= notes@.take(i as int));
            assert(notes@.take(i as int + 1) =~= notes@.take(i as int).push(note));
            assert forall|a: int, b: int| 0 <= a < b < out@.len() implies note_le(
                out@[a],
                out@[b],
            ) by {
                if b < j {
                    assert(out@[a] == out_before[a] && out@[b] == out_before[b]);
                } else if a > j {
                    assert(out@[a] == out_before[a - 1] && out@[b] == out_before[b - 1]);
                } else if b == j {
                    assert(out@[a] == out_before[a]);
                } else if a == j {
                    assert(out@[b] == out_before[b - 1]);
                    assert(note_le(note, out_before[j as int]));
                    assert(note_le(out_before[j as int], out_before[b - 1]) || j as int == b - 1);
                } else {
                    assert(a < j && b > j);
                    assert(out@[a] == out_before[a] && out@[b] == out_before[b - 1]);
                }
            }
        }
        i += 1;
    }

    proof {
        assert(notes@.take(notes@.len() as int) =~= notes@);
    }
    out
}

/// The chord note order, decided by position then accidental rank.
fn note_le_exec(a: Note, b: Note) -> (r: bool)
    ensures
        r == note_le(a, b),
{
    if a.y.units < b.y.units {
        true
    } else if a.y.units == b.y.units {
        accidental_rank_exec(a.accidental) <= accidental_rank_exec(b.accidental)
    } else {
        false
    }
}

/// The sort rank of a note's accidental.
fn accidental_rank_exec(accidental: Option<Accidental>) -> (r: u8)
    ensures
        r as int == accidental_rank(accidental),
{
    match accidental {
        None => 0,
        Some(accidental) => 1 + accidental.rank(),
    }
}

} // verus!
