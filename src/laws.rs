//! What a builder's mutators and assembly amount to, over sequences of calls.

use vstd::prelude::*;
use crate::assemble::{
    assembled, empty_slot, field_value, first_missing, initial, lemma_first_missing_at,
    lemma_first_missing_none, missing, run, step, written, BuildError, FieldValueView, SlotView,
    Value,
};
use crate::synth::{storage_of, FieldKind, FieldPlan, StorageKind};

verus! {

/// The value of the last call, among `calls`, to the mutator of field `i`.
pub open spec fn last_written(calls: Seq<(int, Value)>, i: int) -> Option<Value>
    decreases calls.len(),
{
    if calls.len() == 0 {
        None
    } else if calls.last().0 == i {
        Some(calls.last().1)
    } else {
        last_written(calls.drop_last(), i)
    }
}

/// The values of every call, among `calls`, to the mutator of field `i`, in order.
pub open spec fn values_written(calls: Seq<(int, Value)>, i: int) -> Seq<Value>
    decreases calls.len(),
{
    if calls.len() == 0 {
        Seq::empty()
    } else if calls.last().0 == i {
        values_written(calls.drop_last(), i).push(calls.last().1)
    } else {
        values_written(calls.drop_last(), i)
    }
}

/// The storage of a field of kind `k` after `calls`, from empty storage.
pub open spec fn slot_after(k: FieldKind, calls: Seq<(int, Value)>, i: int) -> SlotView {
    match storage_of(k) {
        StorageKind::Slot => SlotView::Single(last_written(calls, i)),
        StorageKind::List => SlotView::List(values_written(calls, i)),
    }
}

/// Starting from empty storage, each field's slot holds the last value written
/// to it, and each list holds every value appended to it, in order.
pub proof fn lemma_storage_after_calls(plans: Seq<FieldPlan>, calls: Seq<(int, Value)>)
    ensures
        run(initial(plans), calls) == Seq::new(
            plans.len(),
            |i: int| slot_after(plans[i].kind, calls, i),
        ),
    decreases calls.len(),
{
    let target = Seq::new(plans.len(), |i: int| slot_after(plans[i].kind, calls, i));
    if calls.len() == 0 {
        assert(run(initial(plans), calls) =~= target) by {
            assert forall|i: int| 0 <= i < plans.len() implies initial(plans)[i] == target[i] by {
                assert(empty_slot(plans[i].kind) == slot_after(plans[i].kind, calls, i));
            }
        }
    } else {
        let prev = calls.drop_last();
        let c = calls.last();
        lemma_storage_after_calls(plans, prev);
        let before = run(initial(plans), prev);
        assert(run(initial(plans), calls) == step(before, c));
        assert forall|i: int| 0 <= i < plans.len() implies #[trigger] step(before, c)[i] == target[i] by {
            if c.0 == i {
                assert(written(before[i], c.1) == slot_after(plans[i].kind, calls, i));
            } else {
                assert(slot_after(plans[i].kind, prev, i) == slot_after(plans[i].kind, calls, i));
            }
        }
        assert(step(before, c) =~= target);
    }
}

/// Assembly after `calls`, from empty storage, succeeds exactly when every
/// required field was written; it then gives each field what its storage holds.
pub proof fn lemma_assembled_after_calls(plans: Seq<FieldPlan>, calls: Seq<(int, Value)>)
    ensures
        assembled(plans, run(initial(plans), calls)) is Ok <==> (forall|i: int|
            0 <= i < plans.len() && plans[i].kind == FieldKind::Required ==> (#[trigger] last_written(
                calls,
                i,
            )) is Some),
        assembled(plans, run(initial(plans), calls)) is Ok ==> assembled(
            plans,
            run(initial(plans), calls),
        ) == Ok::<Seq<FieldValueView>, BuildError>(
            Seq::new(plans.len(), |i: int| field_value(plans[i].kind, slot_after(plans[i].kind, calls, i))),
        ),
{
    lemma_storage_after_calls(plans, calls);
    let s = run(initial(plans), calls);
    if forall|i: int|
        0 <= i < plans.len() && plans[i].kind == FieldKind::Required ==> (#[trigger] last_written(
            calls,
            i,
        )) is Some {
        assert forall|j: int| 0 <= j < plans.len() implies !missing(#[trigger] plans[j].kind, s[j]) by {
            assert(s[j] == slot_after(plans[j].kind, calls, j));
        }
        lemma_first_missing_none(plans, s, 0);
        assert(Seq::new(plans.len(), |i: int| field_value(plans[i].kind, s[i])) =~= Seq::new(
            plans.len(),
            |i: int| field_value(plans[i].kind, slot_after(plans[i].kind, calls, i)),
        ));
    } else {
        let i = choose|i: int|
            0 <= i < plans.len() && plans[i].kind == FieldKind::Required && !((#[trigger] last_written(
                calls,
                i,
            )) is Some);
        assert(missing(plans[i].kind, s[i]));
        assert(first_missing(plans, s, 0) is Some) by {
            if first_missing(plans, s, 0) is None {
                lemma_first_missing_some(plans, s, 0, i);
            }
        }
    }
}

proof fn lemma_first_missing_some(plans: Seq<FieldPlan>, slots: Seq<SlotView>, k: int, i: int)
    requires
        0 <= k <= i < plans.len(),
        missing(plans[i].kind, slots[i]),
    ensures
        first_missing(plans, slots, k) is Some,
    decreases i - k,
{
    if !missing(plans[k].kind, slots[k]) {
        lemma_first_missing_some(plans, slots, k + 1, i);
    }
}

/// A builder whose fields are all required: once every field has been written,
/// assembly gives each field the last value written to it; when a single field
/// was never written, assembly fails naming exactly that field.
pub proof fn law_plain_fields(plans: Seq<FieldPlan>, calls: Seq<(int, Value)>)
    requires
        forall|i: int| 0 <= i < plans.len() ==> #[trigger] plans[i].kind == FieldKind::Required,
    ensures
        (forall|i: int| 0 <= i < plans.len() ==> (#[trigger] last_written(calls, i)) is Some) ==> assembled(
            plans,
            run(initial(plans), calls),
        ) == Ok::<Seq<FieldValueView>, BuildError>(
            Seq::new(plans.len(), |i: int| FieldValueView::One(last_written(calls, i)->Some_0)),
        ),
        forall|j: int|
            0 <= j < plans.len() && last_written(calls, j) is None && (forall|i: int|
                0 <= i < plans.len() && i != j ==> (#[trigger] last_written(calls, i)) is Some)
                ==> assembled(plans, run(initial(plans), calls)) == Err::<Seq<FieldValueView>, BuildError>(
                BuildError::MissingField(#[trigger] plans[j].name),
            ),
{
    lemma_assembled_after_calls(plans, calls);
    lemma_storage_after_calls(plans, calls);
    let s = run(initial(plans), calls);
    if forall|i: int| 0 <= i < plans.len() ==> (#[trigger] last_written(calls, i)) is Some {
        assert(Seq::new(plans.len(), |i: int| field_value(plans[i].kind, slot_after(plans[i].kind, calls, i)))
            =~= Seq::new(plans.len(), |i: int| FieldValueView::One(last_written(calls, i)->Some_0)));
    }
    assert forall|j: int|
        0 <= j < plans.len() && last_written(calls, j) is None && (forall|i: int|
            0 <= i < plans.len() && i != j ==> (#[trigger] last_written(calls, i)) is Some) implies assembled(
        plans,
        s,
    ) == Err::<Seq<FieldValueView>, BuildError>(BuildError::MissingField(#[trigger] plans[j].name)) by {
        assert forall|k: int| 0 <= k < j implies !missing(#[trigger] plans[k].kind, s[k]) by {
            assert(s[k] == slot_after(plans[k].kind, calls, k));
            assert(last_written(calls, k) is Some);
        }
        assert(s[j] == slot_after(plans[j].kind, calls, j));
        lemma_first_missing_at(plans, s, 0, j);
    }
}

/// An optional field never stops assembly. Once every required field has been
/// written, assembly succeeds and gives the optional field the last value written
/// to it, or nothing when its mutator was never called.
pub proof fn law_optional_field(plans: Seq<FieldPlan>, calls: Seq<(int, Value)>, j: int)
    requires
        0 <= j < plans.len(),
        plans[j].kind == FieldKind::Optional,
    ensures
        !missing(plans[j].kind, run(initial(plans), calls)[j]),
        (forall|i: int|
            0 <= i < plans.len() && plans[i].kind == FieldKind::Required ==> (#[trigger] last_written(
                calls,
                i,
            )) is Some) ==> {
            &&& assembled(plans, run(initial(plans), calls)) is Ok
            &&& assembled(plans, run(initial(plans), calls))->Ok_0[j] == FieldValueView::Maybe(
                last_written(calls, j),
            )
        },
{
    lemma_assembled_after_calls(plans, calls);
    lemma_storage_after_calls(plans, calls);
}

/// An accumulated field never stops assembly, and assembly gives it every value
/// passed to its accessor, in the order of the calls; none when the accessor was
/// never called. Once every required field has been written, assembly succeeds.
pub proof fn law_accumulated_field(plans: Seq<FieldPlan>, calls: Seq<(int, Value)>, j: int)
    requires
        0 <= j < plans.len(),
        plans[j].kind == FieldKind::Accumulated,
    ensures
        !missing(plans[j].kind, run(initial(plans), calls)[j]),
        (forall|i: int|
            0 <= i < plans.len() && plans[i].kind == FieldKind::Required ==> (#[trigger] last_written(
                calls,
                i,
            )) is Some) ==> assembled(plans, run(initial(plans), calls)) is Ok,
        assembled(plans, run(initial(plans), calls)) is Ok ==> assembled(
            plans,
            run(initial(plans), calls),
        )->Ok_0[j] == FieldValueView::Many(values_written(calls, j)),
{
    lemma_assembled_after_calls(plans, calls);
    lemma_storage_after_calls(plans, calls);
}

/// Calling the accessor of field `j` with `vs[0]`, ..., `vs[n - 1]` writes
/// exactly `vs` to that field, in that order.
pub proof fn law_accessor_calls_in_order(j: int, vs: Seq<Value>)
    ensures
        values_written(Seq::new(vs.len(), |k: int| (j, vs[k])), j) == vs,
    decreases vs.len(),
{
    let calls = Seq::new(vs.len(), |k: int| (j, vs[k]));
    if vs.len() > 0 {
        let rest = vs.drop_last();
        law_accessor_calls_in_order(j, rest);
        assert(calls.drop_last() =~= Seq::new(rest.len(), |k: int| (j, rest[k])));
        assert(rest.push(vs.last()) =~= vs);
    } else {
        assert(vs =~= Seq::empty());
    }
}

/// Storage is only ever changed by mutator calls, which layer on what earlier
/// calls left: two batches of calls, one after the other (with any number of
/// assemblies between them, which read storage without changing it), leave the
/// storage that the two as one batch leave.
pub proof fn law_calls_compose(slots: Seq<SlotView>, first: Seq<(int, Value)>, second: Seq<(int, Value)>)
    ensures
        run(run(slots, first), second) == run(slots, first + second),
    decreases second.len(),
{
    if second.len() == 0 {
        assert(first + second =~= first);
    } else {
        law_calls_compose(slots, first, second.drop_last());
        assert((first + second).drop_last() =~= first + second.drop_last());
        assert((first + second).last() == second.last());
    }
}

} // verus!
