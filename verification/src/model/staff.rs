//! Staves in the model, and their resolution into layout input.

use vstd::prelude::*;

use crate::model::clef::Clef;
use crate::model::context::Context;
use crate::model::key_signature::{spec_octave_delta, spec_octave_offset, spec_step_at, KeySignature};
use crate::model::measure::{elements_convert, spec_maps_after_elements, Measure};
use crate::model::pitch::Alteration;
use crate::render::input;
use crate::render::input::TimeSignature;

verus! {

/// A staff in the model: a clef, an optional key signature and time
/// signature, and its measures in order.
#[derive(Clone, Debug, PartialEq)]
pub struct Staff {
    pub clef: Clef,
    pub key_signature: Option<KeySignature>,
    pub time_signature: Option<TimeSignature>,
    pub measures: Vec<Measure>,
}

/// The accidental memory after a run of measures: each measure rolls the
/// memory over the barline, then records its elements.
pub open spec fn spec_maps_after_measures(
    measures: Seq<Measure>,
    previous: Map<u64, Alteration>,
    current: Map<u64, Alteration>,
    key_signature: Option<KeySignature>,
    middle_c: int,
) -> (Map<u64, Alteration>, Map<u64, Alteration>)
    decreases measures.len(),
{
    if measures.len() == 0 {
        (previous, current)
    } else {
        let (previous_1, current_1) = spec_maps_after_elements(
            measures[0].elements@,
            current,
            Map::empty(),
            key_signature,
            middle_c,
        );
        spec_maps_after_measures(
            measures.drop_first(),
            previous_1,
            current_1,
            key_signature,
            middle_c,
        )
    }
}

/// Extending a run of measures by one rolls the memory the run left and
/// records the new measure against it.
pub proof fn lemma_maps_after_measures_snoc(
    measures: Seq<Measure>,
    measure: Measure,
    previous: Map<u64, Alteration>,
    current: Map<u64, Alteration>,
    key_signature: Option<KeySignature>,
    middle_c: int,
)
    ensures
        spec_maps_after_measures(
            measures.push(measure),
            previous,
            current,
            key_signature,
            middle_c,
        ) == ({
            let (previous_1, current_1) = spec_maps_after_measures(
                measures,
                previous,
                current,
                key_signature,
                middle_c,
            );
            spec_maps_after_elements(
                measure.elements@,
                current_1,
                Map::empty(),
                key_signature,
                middle_c,
            )
        }),
    decreases measures.len(),
{
    assert(measures.push(measure)[0] == if measures.len() == 0 {
        measure
    } else {
        measures[0]
    });
    if measures.len() == 0 {
        let stepped = spec_maps_after_elements(
            measure.elements@,
            current,
            Map::empty(),
            key_signature,
            middle_c,
        );
        assert(measures.push(measure).drop_first() =~= Seq::<Measure>::empty());
        assert(spec_maps_after_measures(
            Seq::<Measure>::empty(),
            stepped.0,
            stepped.1,
            key_signature,
            middle_c,
        ) == stepped);
        assert(spec_maps_after_measures(measures, previous, current, key_signature, middle_c) == (
            previous,
            current,
        ));
    } else {
        let (previous_1, current_1) = spec_maps_after_elements(
            measures[0].elements@,
            current,
            Map::empty(),
            key_signature,
            middle_c,
        );
        assert(measures.push(measure).drop_first() =~= measures.drop_first().push(measure));
        lemma_maps_after_measures_snoc(
            measures.drop_first(),
            measure,
            previous_1,
            current_1,
            key_signature,
            middle_c,
        );
        assert(spec_maps_after_measures(
            measures.push(measure),
            previous,
            current,
            key_signature,
            middle_c,
        ) == spec_maps_after_measures(
            measures.drop_first().push(measure),
            previous_1,
            current_1,
            key_signature,
            middle_c,
        ));
        assert(spec_maps_after_measures(measures, previous, current, key_signature, middle_c)
            == spec_maps_after_measures(
            measures.drop_first(),
            previous_1,
            current_1,
            key_signature,
            middle_c,
        ));
    }
}

/// Whether `outs` is `measures` resolved in order against the rolling
/// accidental memory.
pub open spec fn measures_convert(
    measures: Seq<Measure>,
    outs: Seq<input::Measure>,
    key_signature: Option<KeySignature>,
    middle_c: int,
) -> bool {
    &&& outs.len() == measures.len()
    &&& forall|i: int|
        0 <= i < measures.len() ==> {
            let (previous_i, current_i) = spec_maps_after_measures(
                measures.take(i),
                Map::empty(),
                Map::empty(),
                key_signature,
                middle_c,
            );
            &&& (#[trigger] outs[i]).barline == measures[i].barline
            &&& elements_convert(
                measures[i].elements@,
                outs[i].elements@,
                current_i,
                Map::empty(),
                key_signature,
                middle_c,
            )
        }
}

impl Staff {
    /// The construction invariant: every chord holds at least two pitches,
    /// and a key signature carries one to seven accidentals.
    pub open spec fn wf(self) -> bool {
        &&& forall|i: int| 0 <= i < self.measures@.len() ==> (#[trigger] self.measures@[i]).wf()
        &&& match self.key_signature {
            Some(key_signature) => 1 <= key_signature.num <= 7,
            None => true,
        }
    }

    /// Resolves the staff for layout with a fresh notation context: the
    /// clef places middle C, the key signature seeds the accidental rules
    /// and is placed in an octave fitting the clef, and each measure is
    /// resolved in order against the rolling accidental memory.
    pub fn into_input(self) -> (r: input::Staff)
        requires
            self.wf(),
        ensures
            (r.clef is Some),
            r.clef.unwrap().glyph == self.clef.spec_glyph(),
            r.clef.unwrap().y@ == self.clef.spec_y(),
            match (self.key_signature, r.key_signature) {
                (Some(key_signature), Some(out)) => {
                    &&& out.kind == key_signature.kind
                    &&& out.pitches@.len() == key_signature.num as int
                    &&& forall|i: int|
                        0 <= i < key_signature.num as int ==> (#[trigger] out.pitches@[i])@
                            == spec_step_at(key_signature.kind, i).spec_y(
                            spec_octave_delta(key_signature.kind, i) + spec_octave_offset(
                                self.clef.spec_middle_c_position(),
                            ),
                            self.clef.spec_middle_c_position(),
                        )
                },
                (None, None) => true,
                _ => false,
            },
            r.time_signature == self.time_signature,
            measures_convert(
                self.measures@,
                r.measures@,
                self.key_signature,
                self.clef.spec_middle_c_position(),
            ),
    {
        let mut context = Context::default();

        let Staff { clef, key_signature, time_signature, measures } = self;

        let input_clef = clef.into_input(&mut context);

        let input_key_signature = match key_signature {
            Some(model_key_signature) => Some(model_key_signature.into_input(&mut context)),
            None => None,
        };

        let ghost active_key_signature = context.key_signature;
        let ghost middle_c = context.middle_c_position@;
        proof {
            assert(active_key_signature == key_signature);
            assert(middle_c == clef.spec_middle_c_position());
        }

        let ghost model_measures = measures@;
        let mut measures = measures;
        let mut outs: Vec<input::Measure> = Vec::new();

        while measures.len() > 0
            invariant
                outs@.len() + measures@.len() == model_measures.len(),
                measures@ =~= model_measures.skip(outs@.len() as int),
                forall|i: int|
                    0 <= i < model_measures.len() ==> (#[trigger] model_measures[i]).wf(),
                context.middle_c_position@ == middle_c,
                -1_000_000_000 <= middle_c <= 1_000_000_000,
                context.key_signature == active_key_signature,
                ({
                    let (previous_i, current_i) = spec_maps_after_measures(
                        model_measures.take(outs@.len() as int),
                        Map::empty(),
                        Map::empty(),
                        active_key_signature,
                        middle_c,
                    );
                    &&& context.previous_measure_alterations@ == previous_i
                    &&& context.current_measure_alterations@ == current_i
                }),
                forall|i: int|
                    0 <= i < outs@.len() ==> {
                        let (previous_i, current_i) = spec_maps_after_measures(
                            model_measures.take(i),
                            Map::empty(),
                            Map::empty(),
                            active_key_signature,
                            middle_c,
                        );
                        &&& (#[trigger] outs@[i]).barline == model_measures[i].barline
                        &&& elements_convert(
                            model_measures[i].elements@,
                            outs@[i].elements@,
                            current_i,
                            Map::empty(),
                            active_key_signature,
                            middle_c,
                        )
                    },
            decreases measures@.len(),
        {
            let ghost n = outs@.len() as int;
            proof {
                assert(measures@[0] == model_measures[n]);
            }
            let measure = measures.remove(0);
            let out = measure.into_input(&mut context);
            outs.push(out);
            proof {
                assert(model_measures.take(n + 1).drop_last() =~= model_measures.take(n));
                assert(model_measures.take(n + 1) =~= model_measures.take(n).push(
                    model_measures[n],
                ));
                lemma_maps_after_measures_snoc(
                    model_measures.take(n),
                    model_measures[n],
                    Map::empty(),
                    Map::empty(),
                    active_key_signature,
                    middle_c,
                );
                assert(measures@ =~= model_measures.skip(outs@.len() as int));
            }
        }

        input::Staff {
            clef: Some(input_clef),
            key_signature: input_key_signature,
            time_signature,
            measures: outs,
        }
    }
}

} // verus!
