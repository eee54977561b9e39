//! Measures in the model, and their resolution into layout input.

use vstd::prelude::*;

use crate::model::chord::{spec_convert_pitches, spec_resolved_note, Chord};
use crate::model::context::Context;
use crate::model::key_signature::KeySignature;
use crate::model::note::Note;
use crate::model::pitch::{spec_pitch_key, Alteration};
use crate::render::input;
use crate::render::input::{Barline, Rest};

verus! {

/// One element of a model measure.
#[derive(Clone, Debug, PartialEq)]
pub enum Element {
    Note(Note),
    Chord(Chord),
    Rest(Rest),
}

/// A measure: its elements in order and the barline that closes it.
#[derive(Clone, Debug, PartialEq)]
pub struct Measure {
    pub elements: Vec<Element>,
    pub barline: Barline,
}

impl Element {
    /// The construction invariant: chords hold at least two pitches.
    pub open spec fn wf(self) -> bool {
        match self {
            Element::Chord(chord) => chord.pitches@.len() >= 2,
            _ => true,
        }
    }

    /// The accidental memory after this element is recorded.
    pub open spec fn spec_maps_after(
        self,
        previous: Map<u64, Alteration>,
        current: Map<u64, Alteration>,
        key_signature: Option<KeySignature>,
        middle_c: int,
    ) -> (Map<u64, Alteration>, Map<u64, Alteration>) {
        match self {
            Element::Note(note) => {
                let key = spec_pitch_key(note.pitch.step, note.pitch.octave as int);
                (previous.remove(key), current.insert(key, note.pitch.alteration))
            },
            Element::Chord(chord) => {
                let (_, previous_end, current_end) = spec_convert_pitches(
                    chord.pitches@,
                    previous,
                    current,
                    key_signature,
                    middle_c,
                );
                (previous_end, current_end)
            },
            Element::Rest(_) => (previous, current),
        }
    }

    /// Whether `out` is this element resolved against the given memory.
    pub open spec fn converts_to(
        self,
        out: input::measure::Element,
        previous: Map<u64, Alteration>,
        current: Map<u64, Alteration>,
        key_signature: Option<KeySignature>,
        middle_c: int,
    ) -> bool {
        match (self, out) {
            (Element::Note(note), input::measure::Element::Note(out)) => {
                let resolved = spec_resolved_note(
                    note.pitch,
                    previous,
                    current,
                    key_signature,
                    middle_c,
                );
                &&& out.y == resolved.y
                &&& out.accidental == resolved.accidental
                &&& out.duration == note.duration
                &&& (out.beam is None)
                &&& out.id == note.id
            },
            (Element::Chord(chord), input::measure::Element::Chord(out)) => {
                let (notes, _, _) = spec_convert_pitches(
                    chord.pitches@,
                    previous,
                    current,
                    key_signature,
                    middle_c,
                );
                &&& input::chord::notes_sorted(out.notes@)
                &&& out.notes@.to_multiset() == notes.to_multiset()
                &&& out.notes@.len() == notes.len()
                &&& out.duration == chord.duration
                &&& (out.beam is None)
                &&& out.id == chord.id
            },
            (Element::Rest(rest), input::measure::Element::Rest(out)) => out == rest,
            _ => false,
        }
    }

    /// Resolves the element for layout, recording its pitches with the
    /// context.
    pub fn into_input(self, context: &mut Context) -> (r: input::measure::Element)
        requires
            self.wf(),
            -1_000_000_000 <= old(context).middle_c_position@ <= 1_000_000_000,
        ensures
            self.converts_to(
                r,
                old(context).previous_measure_alterations@,
                old(context).current_measure_alterations@,
                old(context).key_signature,
                old(context).middle_c_position@,
            ),
            ({
                let (previous_end, current_end) = self.spec_maps_after(
                    old(context).previous_measure_alterations@,
                    old(context).current_measure_alterations@,
                    old(context).key_signature,
                    old(context).middle_c_position@,
                );
                &&& final(context).previous_measure_alterations@ == previous_end
                &&& final(context).current_measure_alterations@ == current_end
            }),
            final(context).middle_c_position == old(context).middle_c_position,
            final(context).key_signature == old(context).key_signature,
    {
        match self {
            Element::Note(note) => input::measure::Element::Note(note.into_input(context)),
            Element::Chord(chord) => input::measure::Element::Chord(chord.into_input(context)),
            Element::Rest(rest) => input::measure::Element::Rest(rest),
        }
    }
}

/// The accidental memory after a run of elements is recorded, in order.
pub open spec fn spec_maps_after_elements(
    elements: Seq<Element>,
    previous: Map<u64, Alteration>,
    current: Map<u64, Alteration>,
    key_signature: Option<KeySignature>,
    middle_c: int,
) -> (Map<u64, Alteration>, Map<u64, Alteration>)
    decreases elements.len(),
{
    if elements.len() == 0 {
        (previous, current)
    } else {
        let (previous_1, current_1) = elements[0].spec_maps_after(
            previous,
            current,
            key_signature,
            middle_c,
        );
        spec_maps_after_elements(
            elements.drop_first(),
            previous_1,
            current_1,
            key_signature,
            middle_c,
        )
    }
}

/// Extending a run of elements by one records the new element against the
/// memory the run left behind.
pub proof fn lemma_maps_after_elements_snoc(
    elements: Seq<Element>,
    element: Element,
    previous: Map<u64, Alteration>,
    current: Map<u64, Alteration>,
    key_signature: Option<KeySignature>,
    middle_c: int,
)
    ensures
        spec_maps_after_elements(
            elements.push(element),
            previous,
            current,
            key_signature,
            middle_c,
        ) == ({
            let (previous_1, current_1) = spec_maps_after_elements(
                elements,
                previous,
                current,
                key_signature,
                middle_c,
            );
            element.spec_maps_after(previous_1, current_1, key_signature, middle_c)
        }),
    decreases elements.len(),
{
    assert(elements.push(element)[0] == if elements.len() == 0 {
        element
    } else {
        elements[0]
    });
    if elements.len() == 0 {
        let stepped = element.spec_maps_after(previous, current, key_signature, middle_c);
        assert(elements.push(element).drop_first() =~= Seq::<Element>::empty());
        assert(spec_maps_after_elements(
            Seq::<Element>::empty(),
            stepped.0,
            stepped.1,
            key_signature,
            middle_c,
        ) == stepped);
        assert(spec_maps_after_elements(elements, previous, current, key_signature, middle_c) == (
            previous,
            current,
        ));
    } else {
        let (previous_1, current_1) = elements[0].spec_maps_after(
            previous,
            current,
            key_signature,
            middle_c,
        );
        assert(elements.push(element).drop_first() =~= elements.drop_first().push(element));
        lemma_maps_after_elements_snoc(
            elements.drop_first(),
            element,
            previous_1,
            current_1,
            key_signature,
            middle_c,
        );
        assert(spec_maps_after_elements(
            elements.push(element),
            previous,
            current,
            key_signature,
            middle_c,
        ) == spec_maps_after_elements(
            elements.drop_first().push(element),
            previous_1,
            current_1,
            key_signature,
            middle_c,
        ));
        assert(spec_maps_after_elements(elements, previous, current, key_signature, middle_c)
            == spec_maps_after_elements(
            elements.drop_first(),
            previous_1,
            current_1,
            key_signature,
            middle_c,
        ));
    }
}

/// Whether `outs` is `elements` resolved in order, each against the memory
/// its predecessors left behind.
pub open spec fn elements_convert(
    elements: Seq<Element>,
    outs: Seq<input::measure::Element>,
    previous: Map<u64, Alteration>,
    current: Map<u64, Alteration>,
    key_signature: Option<KeySignature>,
    middle_c: int,
) -> bool {
    &&& outs.len() == elements.len()
    &&& forall|i: int|
        0 <= i < elements.len() ==> {
            let (previous_i, current_i) = spec_maps_after_elements(
                elements.take(i),
                previous,
                current,
                key_signature,
                middle_c,
            );
            (#[trigger] elements[i]).converts_to(
                outs[i],
                previous_i,
                current_i,
                key_signature,
                middle_c,
            )
        }
}

impl Measure {
    /// The construction invariant: every chord holds at least two pitches.
    pub open spec fn wf(self) -> bool {
        forall|i: int| 0 <= i < self.elements@.len() ==> (#[trigger] self.elements@[i]).wf()
    }

    /// Resolves the measure for layout: the memory rolls over the barline
    /// (the current measure's record becomes the previous one), then each
    /// element is resolved in order.
    pub fn into_input(self, context: &mut Context) -> (r: input::Measure)
        requires
            self.wf(),
            -1_000_000_000 <= old(context).middle_c_position@ <= 1_000_000_000,
        ensures
            r.barline == self.barline,
            elements_convert(
                self.elements@,
                r.elements@,
                old(context).current_measure_alterations@,
                Map::<u64, Alteration>::empty(),
                old(context).key_signature,
                old(context).middle_c_position@,
            ),
            ({
                let (previous_end, current_end) = spec_maps_after_elements(
                    self.elements@,
                    old(context).current_measure_alterations@,
                    Map::<u64, Alteration>::empty(),
                    old(context).key_signature,
                    old(context).middle_c_position@,
                );
                &&& final(context).previous_measure_alterations@ == previous_end
                &&& final(context).current_measure_alterations@ == current_end
            }),
            final(context).middle_c_position == old(context).middle_c_position,
            final(context).key_signature == old(context).key_signature,
    {
        context.start_measure();

        let ghost previous_0 = context.previous_measure_alterations@;
        let ghost current_0 = context.current_measure_alterations@;
        let ghost key_signature = context.key_signature;
        let ghost middle_c = context.middle_c_position@;

        let Measure { elements, barline } = self;
        let ghost model_elements = elements@;
        let mut elements = elements;
        let mut outs: Vec<input::measure::Element> = Vec::new();

        while elements.len() > 0
            invariant
                outs@.len() + elements@.len() == model_elements.len(),
                elements@ =~= model_elements.skip(outs@.len() as int),
                forall|i: int|
                    0 <= i < model_elements.len() ==> (#[trigger] model_elements[i]).wf(),
                context.middle_c_position@ == middle_c,
                -1_000_000_000 <= middle_c <= 1_000_000_000,
                context.key_signature == key_signature,
                ({
                    let (previous_i, current_i) = spec_maps_after_elements(
                        model_elements.take(outs@.len() as int),
                        previous_0,
                        current_0,
                        key_signature,
                        middle_c,
                    );
                    &&& context.previous_measure_alterations@ == previous_i
                    &&& context.current_measure_alterations@ == current_i
                }),
                forall|i: int|
                    0 <= i < outs@.len() ==> {
                        let (previous_i, current_i) = spec_maps_after_elements(
                            model_elements.take(i),
                            previous_0,
                            current_0,
                            key_signature,
                            middle_c,
                        );
                        (#[trigger] model_elements[i]).converts_to(
                            outs@[i],
                            previous_i,
                            current_i,
                            key_signature,
                            middle_c,
                        )
                    },
            decreases elements@.len(),
    {
            let ghost n = outs@.len() as int;
            proof {
                assert(elements@[0] == model_elements[n]);
            }
            let element = elements.remove(0);
            let out = element.into_input(context);
            outs.push(out);
            proof {
                assert(model_elements.take(n + 1).drop_last() =~= model_elements.take(n));
                assert(model_elements.take(n + 1) =~= model_elements.take(n).push(
                    model_elements[n],
                ));
                lemma_maps_after_elements_snoc(
                    model_elements.take(n),
                    model_elements[n],
                    previous_0,
                    current_0,
                    key_signature,
                    middle_c,
                );
                assert(elements@ =~= model_elements.skip(outs@.len() as int));
            }
        }

        proof {
            assert(model_elements.take(model_elements.len() as int) =~= model_elements);
        }

        input::Measure { elements: outs, barline }
    }
}

} // verus!
