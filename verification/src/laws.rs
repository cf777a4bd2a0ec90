//! What holds of every record type and of every run of its builder.

use crate::classifier::{
    bare_option, classification, classifications, lemma_payload_iff_bare_option, optional_payload,
    ClassifiedFieldView,
};
use crate::derivation;
use crate::descriptor::{FieldDescriptorView, TypeDescriptorView};
use crate::instance::{
    after_calls, build_result, first_missing, is_last_write, lemma_first_missing, sets_slot,
    state_after_build, BuildFailure, BuilderState, FieldValue, Phase,
};
use crate::synthesizer::{
    lemma_presence_checks, lemma_synthesis_well_formed, presence_checks, ArtifactView,
    PresenceCheckView,
};
use crate::syntax::TypeSyntax;
use vstd::prelude::*;

verus! {

/// Whether field `i` of the record is required: its declared type is no
/// optional wrapper.
pub open spec fn is_required(input: TypeDescriptorView, i: int) -> bool {
    optional_payload(input.fields[i].declared_type) is None
}

/// Whether the slot of every required field is present.
pub open spec fn all_required_present<V>(input: TypeDescriptorView, slots: Seq<Option<V>>) -> bool {
    forall|i: int| 0 <= i < input.fields.len() && is_required(input, i) ==> slots[i] is Some
}

/// Whether field `f` is the first required field, in declared order, whose
/// slot is absent.
pub open spec fn is_first_absent<V>(
    input: TypeDescriptorView,
    slots: Seq<Option<V>>,
    f: int,
) -> bool {
    &&& 0 <= f < input.fields.len()
    &&& is_required(input, f)
    &&& slots[f] is None
    &&& forall|j: int| 0 <= j < f && is_required(input, j) ==> slots[j] is Some
}

/// The record that the slots stand for: a required field holds the value of
/// its slot, an optional field holds its slot as it is.
pub open spec fn record_of<V>(input: TypeDescriptorView, slots: Seq<Option<V>>) -> Seq<
    FieldValue<V>,
> {
    Seq::new(
        input.fields.len(),
        |i: int|
            if is_required(input, i) {
                FieldValue::Required(slots[i]->Some_0)
            } else {
                FieldValue::Optional(slots[i])
            },
    )
}

/// A field is optional exactly if its declared type is `Option<T>` written
/// bare, and then its effective type is `T`; any other field is required and
/// keeps its declared type as its effective type.
pub proof fn lemma_optional_iff_bare_option(field: FieldDescriptorView)
    ensures
        classification(field).is_optional <==> exists|t: TypeSyntax|
            field.declared_type == bare_option(t),
        forall|t: TypeSyntax|
            field.declared_type == #[trigger] bare_option(t) ==> classification(field).is_optional
                && classification(field).effective_type == t,
        !classification(field).is_optional ==> classification(field).effective_type
            == field.declared_type,
{
    if classification(field).is_optional {
        let t = optional_payload(field.declared_type)->Some_0;
        lemma_payload_iff_bare_option(field.declared_type, t);
    }
    assert forall|t: TypeSyntax| field.declared_type == #[trigger] bare_option(t) implies classification(
        field,
    ).is_optional && classification(field).effective_type == t by {
        lemma_payload_iff_bare_option(field.declared_type, t);
    }
}

/// No other shape is an optional wrapper: not a type that is no path, not a
/// qualified path, not a path with a leading `::` or with more than one
/// segment, not a wrapper of another name, and not an `Option` whose argument
/// list is missing, empty, longer than one, or holds something that is no type.
pub proof fn lemma_other_shapes_are_required(ty: TypeSyntax)
    ensures
        ty is Verbatim ==> optional_payload(ty) is None,
        ty is Path && ty->Path_0.qself is Some ==> optional_payload(ty) is None,
        ty is Path && ty->Path_0.leading_colon ==> optional_payload(ty) is None,
        ty is Path && ty->Path_0.segments.len() != 1 ==> optional_payload(ty) is None,
        ty is Path && ty->Path_0.segments.len() == 1 && ty->Path_0.segments[0].ident != "Option"@
            ==> optional_payload(ty) is None,
        ty is Path && ty->Path_0.segments.len() == 1 && !(ty->Path_0.segments[0].arguments
            is Angle) ==> optional_payload(ty) is None,
        ty is Path && ty->Path_0.segments.len() == 1 && ty->Path_0.segments[0].arguments is Angle
            && ty->Path_0.segments[0].arguments->Angle_0.len() != 1 ==> optional_payload(ty)
            is None,
        ty is Path && ty->Path_0.segments.len() == 1 && ty->Path_0.segments[0].arguments is Angle
            && ty->Path_0.segments[0].arguments->Angle_0.len() == 1 && !(
        ty->Path_0.segments[0].arguments->Angle_0[0] is Type) ==> optional_payload(ty) is None,
{
}

/// Each part of the derived builder has one entry for each field of the
/// record, in declared order and under the field's name. So a record whose
/// fields all have a name gives a builder whose parts all have one.
pub proof fn lemma_one_entry_per_field(input: TypeDescriptorView)
    ensures
        derivation(input).well_formed(),
        derivation(input).field_count() == input.fields.len(),
        input.well_formed() ==> derivation(input).fully_named(),
        forall|i: int|
            #![trigger input.fields[i]]
            0 <= i < input.fields.len() ==> {
                let artifact = derivation(input);
                &&& artifact.builder_fields[i].name == input.fields[i].name
                &&& artifact.setters[i].name == input.fields[i].name
                &&& artifact.construction[i].name == input.fields[i].name
                &&& artifact.factory.absent_slots[i] == input.fields[i].name
                &&& artifact.setters[i].param_type == classification(
                    input.fields[i],
                ).effective_type
                &&& artifact.builder_fields[i].storage_type == classification(
                    input.fields[i],
                ).storage_type
            },
{
    lemma_synthesis_well_formed(input.name, classifications(input.fields));
    lemma_presence_checks(classifications(input.fields), input.fields.len());
}

/// A record without fields gives a builder without slots, setters and checks,
/// and `build` on the builder that the factory hands out gives the empty
/// record.
pub proof fn lemma_empty_record<V>(input: TypeDescriptorView)
    requires
        input.fields.len() == 0,
    ensures
        derivation(input).builder_fields.len() == 0,
        derivation(input).setters.len() == 0,
        derivation(input).validation.len() == 0,
        derivation(input).construction.len() == 0,
        derivation(input).factory.absent_slots.len() == 0,
        BuilderState::<V>::fresh(derivation(input).field_count()).slots.len() == 0,
        build_result(derivation(input), BuilderState::<V>::fresh(derivation(input).field_count()))
            == Ok::<Seq<FieldValue<V>>, BuildFailure>(Seq::empty()),
{
    let artifact = derivation(input);
    let state = BuilderState::<V>::fresh(artifact.field_count());
    assert(build_result(artifact, state)->Ok_0 =~= Seq::<FieldValue<V>>::empty());
}

/// What the checks of a synthesized builder find, told by the fields: nothing
/// exactly if every required field is present, and else the check of the
/// required field that is absent and declared first.
proof fn lemma_first_missing_field<V>(fields: Seq<ClassifiedFieldView>, slots: Seq<Option<V>>)
    requires
        slots.len() == fields.len(),
    ensures
        first_missing(presence_checks(fields, fields.len()), slots) is None <==> forall|i: int|
            0 <= i < fields.len() && !(#[trigger] fields[i]).is_optional ==> slots[i] is Some,
        first_missing(presence_checks(fields, fields.len()), slots) is Some ==> exists|f: int|
            {
                &&& 0 <= f < fields.len()
                &&& !(#[trigger] fields[f]).is_optional
                &&& slots[f] is None
                &&& forall|j: int|
                    0 <= j < f && !(#[trigger] fields[j]).is_optional ==> slots[j] is Some
                &&& first_missing(presence_checks(fields, fields.len()), slots) == Some(
                    PresenceCheckView { slot: f, field_name: fields[f].name },
                )
            },
{
    let checks = presence_checks(fields, fields.len());
    lemma_presence_checks(fields, fields.len());
    lemma_first_missing(checks, slots);
    if first_missing(checks, slots) is None {
        assert forall|i: int|
            0 <= i < fields.len() && !(#[trigger] fields[i]).is_optional implies slots[i]
            is Some by {
            let k = choose|k: int| 0 <= k < checks.len() && (#[trigger] checks[k]).slot == i;
            assert(slots[checks[k].slot] is Some);
        }
    } else {
        let k = choose|k: int|
            {
                &&& 0 <= k < checks.len()
                &&& first_missing(checks, slots) == Some(#[trigger] checks[k])
                &&& slots[checks[k].slot] is None
                &&& forall|j: int| 0 <= j < k ==> slots[(#[trigger] checks[j]).slot] is Some
            };
        let f = checks[k].slot;
        assert(!fields[f].is_optional);
        assert forall|j: int| 0 <= j < f && !(#[trigger] fields[j]).is_optional implies slots[j]
            is Some by {
            let kj = choose|kj: int| 0 <= kj < checks.len() && (#[trigger] checks[kj]).slot == j;
            if kj > k {
                assert(checks[k].slot < checks[kj].slot);
            } else if kj < k {
                assert(slots[checks[kj].slot] is Some);
            }
        }
        assert(checks[k] == PresenceCheckView { slot: f, field_name: fields[f].name });
    }
}

/// What `build` does on the builder derived for a record, told by the fields
/// of the record. Either every required field is present, and the record is
/// built from the slots; or there is a first required field that is absent,
/// and the call fails with the name of that field. A failed call leaves the
/// builder as it was.
pub proof fn lemma_build_by_fields<V>(input: TypeDescriptorView, state: BuilderState<V>)
    requires
        !state.consumed,
        state.slots.len() == input.fields.len(),
    ensures
        all_required_present(input, state.slots) || exists|f: int| #[trigger]
            is_first_absent(input, state.slots, f),
        all_required_present(input, state.slots) ==> build_result(derivation(input), state) == Ok::<
            Seq<FieldValue<V>>,
            BuildFailure,
        >(record_of(input, state.slots)),
        forall|f: int| #[trigger]
            is_first_absent(input, state.slots, f) ==> build_result(derivation(input), state)
                == Err::<Seq<FieldValue<V>>, BuildFailure>(
                BuildFailure::MissingField(input.fields[f].name),
            ),
        build_result(derivation(input), state) is Err ==> state_after_build(
            derivation(input),
            state,
        ) == state,
{
    let fields = classifications(input.fields);
    let checks = presence_checks(fields, fields.len());
    let slots = state.slots;
    lemma_first_missing_field(fields, slots);
    assert forall|i: int| 0 <= i < fields.len() implies (#[trigger] fields[i]).is_optional
        == !is_required(input, i) by {}
    if first_missing(checks, slots) is None {
        assert(all_required_present(input, slots)) by {
            assert forall|i: int| 0 <= i < input.fields.len() && is_required(input, i) implies slots[i]
                is Some by {
                assert(!fields[i].is_optional);
            }
        }
        assert(build_result(derivation(input), state)->Ok_0 =~= record_of(input, slots));
        assert forall|f: int| #[trigger] is_first_absent(input, slots, f) implies false by {}
    } else {
        let g = choose|g: int|
            {
                &&& 0 <= g < fields.len()
                &&& !(#[trigger] fields[g]).is_optional
                &&& slots[g] is None
                &&& forall|j: int|
                    0 <= j < g && !(#[trigger] fields[j]).is_optional ==> slots[j] is Some
                &&& first_missing(checks, slots) == Some(
                    PresenceCheckView { slot: g, field_name: fields[g].name },
                )
            };
        assert(is_first_absent(input, slots, g)) by {
            assert forall|j: int| 0 <= j < g && is_required(input, j) implies slots[j] is Some by {
                assert(!fields[j].is_optional);
            }
        }
        assert forall|f: int| #[trigger] is_first_absent(input, slots, f) implies f == g by {
            if f < g {
                assert(!fields[f].is_optional);
            }
        }
    }
}

/// A required field that was never set makes `build` fail. The call reports
/// the first required field that is absent, which is declared no later than
/// field `i`, and leaves the builder as it was. If no required field before
/// `i` is absent, the field reported is `i` itself, whatever holds of the
/// fields after it.
pub proof fn lemma_absent_required_field_fails<V>(
    input: TypeDescriptorView,
    state: BuilderState<V>,
    i: int,
)
    requires
        !state.consumed,
        state.slots.len() == input.fields.len(),
        0 <= i < input.fields.len(),
        is_required(input, i),
        state.slots[i] is None,
    ensures
        exists|f: int|
            {
                &&& #[trigger] is_first_absent(input, state.slots, f)
                &&& f <= i
                &&& build_result(derivation(input), state) == Err::<
                    Seq<FieldValue<V>>,
                    BuildFailure,
                >(BuildFailure::MissingField(input.fields[f].name))
            },
        is_first_absent(input, state.slots, i) ==> build_result(derivation(input), state) == Err::<
            Seq<FieldValue<V>>,
            BuildFailure,
        >(BuildFailure::MissingField(input.fields[i].name)),
        state_after_build(derivation(input), state) == state,
{
    lemma_build_by_fields(input, state);
    let f = choose|f: int| #[trigger] is_first_absent(input, state.slots, f);
    assert(f <= i);
}

/// An optional field that was never set does not make `build` fail: if every
/// required field is present, the record is built, and each optional field
/// that is absent in the builder is absent in the record.
pub proof fn lemma_unset_optional_field_is_absent<V>(
    input: TypeDescriptorView,
    state: BuilderState<V>,
    i: int,
)
    requires
        !state.consumed,
        state.slots.len() == input.fields.len(),
        all_required_present(input, state.slots),
        0 <= i < input.fields.len(),
        !is_required(input, i),
        state.slots[i] is None,
    ensures
        build_result(derivation(input), state) is Ok,
        build_result(derivation(input), state)->Ok_0.len() == input.fields.len(),
        build_result(derivation(input), state)->Ok_0[i] == FieldValue::<V>::Optional(None),
{
    lemma_build_by_fields(input, state);
}

/// Validation fails fast. If the required fields `a` and `b` are both absent
/// and `a` is declared before `b`, the field that `build` reports is the first
/// required field that is absent: it is declared no later than `a`, so it is
/// never `b`. If no required field before `a` is absent, it is `a`.
pub proof fn lemma_fail_fast<V>(input: TypeDescriptorView, state: BuilderState<V>, a: int, b: int)
    requires
        !state.consumed,
        state.slots.len() == input.fields.len(),
        0 <= a < b < input.fields.len(),
        is_required(input, a),
        is_required(input, b),
        state.slots[a] is None,
        state.slots[b] is None,
    ensures
        !is_first_absent(input, state.slots, b),
        exists|f: int|
            {
                &&& #[trigger] is_first_absent(input, state.slots, f)
                &&& f <= a
                &&& build_result(derivation(input), state) == Err::<
                    Seq<FieldValue<V>>,
                    BuildFailure,
                >(BuildFailure::MissingField(input.fields[f].name))
            },
        is_first_absent(input, state.slots, a) ==> build_result(derivation(input), state) == Err::<
            Seq<FieldValue<V>>,
            BuildFailure,
        >(BuildFailure::MissingField(input.fields[a].name)),
{
    lemma_absent_required_field_fails(input, state, a);
}

/// The last write wins. After a run of setter calls, a slot holds the value
/// of the last call that names it, and a slot that no call names is as it was.
/// How often and in which order the setters are called does not matter beyond
/// that.
pub proof fn lemma_last_write_wins<V>(state: BuilderState<V>, calls: Seq<(int, V)>)
    requires
        forall|k: int| 0 <= k < calls.len() ==> 0 <= (#[trigger] calls[k]).0 < state.slots.len(),
    ensures
        after_calls(state, calls).consumed == state.consumed,
        after_calls(state, calls).slots.len() == state.slots.len(),
        forall|k: int|
            0 <= k < calls.len() && #[trigger] is_last_write(calls, k) ==> after_calls(
                state,
                calls,
            ).slots[calls[k].0] == Some(calls[k].1),
        forall|i: int|
            0 <= i < state.slots.len() && !#[trigger] sets_slot(calls, i) ==> after_calls(
                state,
                calls,
            ).slots[i] == state.slots[i],
    decreases calls.len(),
{
    if calls.len() > 0 {
        let earlier = calls.drop_last();
        let last = calls.len() - 1;
        let middle = after_calls(state, earlier);
        let end = after_calls(state, calls);
        lemma_last_write_wins(state, earlier);
        assert(end == middle.set(calls[last].0, calls[last].1));
        assert forall|k: int| 0 <= k < calls.len() && #[trigger] is_last_write(calls, k) implies
            end.slots[calls[k].0] == Some(calls[k].1) by {
            if k < last {
                assert(calls[last].0 != calls[k].0);
                assert(earlier[k] == calls[k]);
                assert(is_last_write(earlier, k)) by {
                    assert forall|j: int| k < j < earlier.len() implies (#[trigger] earlier[j]).0
                        != earlier[k].0 by {
                        assert(calls[j].0 != calls[k].0);
                    }
                }
                assert(middle.slots[earlier[k].0] == Some(earlier[k].1));
            }
        }
        assert forall|i: int|
            0 <= i < state.slots.len() && !#[trigger] sets_slot(calls, i) implies end.slots[i]
            == state.slots[i] by {
            assert(calls[last].0 != i);
            assert(!sets_slot(earlier, i)) by {
                if sets_slot(earlier, i) {
                    let k = choose|k: int| 0 <= k < earlier.len() && (#[trigger] earlier[k]).0 == i;
                    assert(calls[k].0 == i);
                }
            }
        }
    }
}

/// Round trip. Take the builder that the factory hands out and call the setter
/// of every field exactly once, in any order. Then `build` succeeds, and each
/// field of the record holds the value that its setter was given, whether the
/// field is required or optional.
pub proof fn lemma_round_trip<V>(input: TypeDescriptorView, calls: Seq<(int, V)>)
    requires
        forall|k: int| 0 <= k < calls.len() ==> 0 <= (#[trigger] calls[k]).0 < input.fields.len(),
        forall|i: int| 0 <= i < input.fields.len() ==> #[trigger] sets_slot(calls, i),
        forall|j: int, k: int|
            0 <= j < k < calls.len() ==> (#[trigger] calls[j]).0 != (#[trigger] calls[k]).0,
    ensures
        ({
            let artifact = derivation(input);
            let state = after_calls(BuilderState::<V>::fresh(artifact.field_count()), calls);
            &&& build_result(artifact, state) is Ok
            &&& build_result(artifact, state)->Ok_0.len() == input.fields.len()
            &&& forall|k: int|
                0 <= k < calls.len() ==> build_result(artifact, state)->Ok_0[(
                #[trigger] calls[k]).0] == (if is_required(input, calls[k].0) {
                    FieldValue::Required(calls[k].1)
                } else {
                    FieldValue::Optional(Some(calls[k].1))
                })
        }),
{
    let artifact = derivation(input);
    let fresh = BuilderState::<V>::fresh(artifact.field_count());
    let state = after_calls(fresh, calls);
    lemma_last_write_wins(fresh, calls);
    assert forall|k: int| 0 <= k < calls.len() implies state.slots[(#[trigger] calls[k]).0] == Some(
        calls[k].1,
    ) by {
        assert(is_last_write(calls, k));
    }
    assert(all_required_present(input, state.slots)) by {
        assert forall|i: int| 0 <= i < input.fields.len() implies state.slots[i] is Some by {
            assert(sets_slot(calls, i));
            let k = choose|k: int| 0 <= k < calls.len() && (#[trigger] calls[k]).0 == i;
            assert(state.slots[calls[k].0] is Some);
        }
    }
    lemma_build_by_fields(input, state);
}

/// The life of a builder. The factory hands it out fresh; a setter call makes
/// it partial; a call of `build` that fails leaves its phase, and one that
/// succeeds makes it consumed for good.
pub proof fn lemma_phases<V>(artifact: ArtifactView, state: BuilderState<V>, slot: int, value: V)
    ensures
        BuilderState::<V>::fresh(artifact.field_count()).phase() == Phase::Fresh,
        !state.consumed && 0 <= slot < state.slots.len() ==> state.set(slot, value).phase()
            == Phase::Partial,
        state.consumed ==> state.set(slot, value).phase() == Phase::Consumed,
        build_result(artifact, state) is Ok ==> state_after_build(artifact, state).phase()
            == Phase::Consumed,
        build_result(artifact, state) is Err ==> state_after_build(artifact, state).phase()
            == state.phase(),
{
    if !state.consumed && 0 <= slot < state.slots.len() {
        assert(state.set(slot, value).slots[slot] is Some);
    }
}

/// A builder builds once. After a call of `build` that succeeded, every later
/// call fails with `Consumed`, whatever setters are called in between; after a
/// call that failed, the builder is as it was and can be tried again.
pub proof fn lemma_builds_once<V>(
    artifact: ArtifactView,
    state: BuilderState<V>,
    calls: Seq<(int, V)>,
)
    ensures
        build_result(artifact, state) is Ok ==> build_result(
            artifact,
            after_calls(state_after_build(artifact, state), calls),
        ) == Err::<Seq<FieldValue<V>>, BuildFailure>(BuildFailure::Consumed),
        build_result(artifact, state) is Err ==> state_after_build(artifact, state) == state,
{
    lemma_calls_keep_consumed(state_after_build(artifact, state), calls);
}

/// Setter calls do not change whether a builder is consumed.
proof fn lemma_calls_keep_consumed<V>(state: BuilderState<V>, calls: Seq<(int, V)>)
    ensures
        after_calls(state, calls).consumed == state.consumed,
    decreases calls.len(),
{
    if calls.len() > 0 {
        lemma_calls_keep_consumed(state, calls.drop_last());
    }
}

} // verus!
