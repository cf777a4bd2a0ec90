//! A builder at run time: what the setters and `build` of a described builder
//! do, as a mathematical model and as a value that can be run.

use crate::synthesizer::{
    ArtifactView, FieldInitView, GeneratedArtifactDescription, PresenceCheckView, SlotRead,
};
use vstd::prelude::*;

verus! {

/// The final value of one field of a record that `build` produced.
#[derive(Debug, PartialEq, Eq)]
pub enum FieldValue<V> {
    /// The value of a field that the record requires.
    Required(V),
    /// The value of a field that the record declares optional.
    Optional(Option<V>),
}

/// Why `build` produced no record.
#[derive(Debug, PartialEq, Eq)]
pub enum BuildError {
    /// A required field was never set. Only the first such field, in declared
    /// order, is reported: the fields after it are not looked at in that call.
    MissingField(String),
    /// The builder has already produced a record and its slots are spent.
    Consumed,
}

/// The mathematical value of a [`BuildError`].
pub enum BuildFailure {
    MissingField(Seq<char>),
    Consumed,
}

impl View for BuildError {
    type V = BuildFailure;

    open spec fn view(&self) -> BuildFailure {
        match self {
            BuildError::MissingField(name) => BuildFailure::MissingField(name@),
            BuildError::Consumed => BuildFailure::Consumed,
        }
    }
}

/// Where a builder stands in its life.
#[derive(Debug, Clone, Copy, PartialEq, Eq)]
pub enum Phase {
    /// No slot is present.
    Fresh,
    /// At least one slot is present.
    Partial,
    /// A record has been built; nothing more can be built.
    Consumed,
}

/// The mathematical value of a builder: one slot for each field of the record,
/// and whether a record has been built from it.
pub struct BuilderState<V> {
    pub slots: Seq<Option<V>>,
    pub consumed: bool,
}

impl<V> BuilderState<V> {
    /// The state that the factory hands out: `n` slots, all absent.
    pub open spec fn fresh(n: nat) -> Self {
        BuilderState { slots: Seq::new(n, |i: int| None), consumed: false }
    }

    /// The state after the setter of slot `slot` was called with `value`: that
    /// slot is present with `value`, whatever it held, and no other changes.
    pub open spec fn set(self, slot: int, value: V) -> Self {
        BuilderState { slots: self.slots.update(slot, Some(value)), consumed: self.consumed }
    }

    /// The phase of a builder in this state.
    pub open spec fn phase(self) -> Phase {
        if self.consumed {
            Phase::Consumed
        } else if forall|i: int| 0 <= i < self.slots.len() ==> self.slots[i] is None {
            Phase::Fresh
        } else {
            Phase::Partial
        }
    }
}

/// The state after a run of setter calls, made in the order of `calls`; each
/// call gives a slot and the value to store in it.
pub open spec fn after_calls<V>(state: BuilderState<V>, calls: Seq<(int, V)>) -> BuilderState<V>
    decreases calls.len(),
{
    if calls.len() == 0 {
        state
    } else {
        after_calls(state, calls.drop_last()).set(calls.last().0, calls.last().1)
    }
}

/// Whether call `k` of the run is the last one that sets its slot.
pub open spec fn is_last_write<V>(calls: Seq<(int, V)>, k: int) -> bool {
    forall|j: int| k < j < calls.len() ==> (#[trigger] calls[j]).0 != calls[k].0
}

/// Whether some call of the run sets slot `slot`.
pub open spec fn sets_slot<V>(calls: Seq<(int, V)>, slot: int) -> bool {
    exists|k: int| 0 <= k < calls.len() && (#[trigger] calls[k]).0 == slot
}

/// The first check, in the order of `checks`, whose slot is absent.
pub open spec fn first_missing<V>(checks: Seq<PresenceCheckView>, slots: Seq<Option<V>>) -> Option<
    PresenceCheckView,
>
    decreases checks.len(),
{
    if checks.len() == 0 {
        None
    } else if slots[checks[0].slot] is None {
        Some(checks[0])
    } else {
        first_missing(checks.drop_first(), slots)
    }
}

/// The value of one field, read out of its slot.
pub open spec fn read_slot<V>(read: SlotRead, slot: Option<V>) -> FieldValue<V> {
    match read {
        SlotRead::AsStored => FieldValue::Optional(slot),
        SlotRead::Extract => FieldValue::Required(slot->Some_0),
    }
}

/// The record that is constructed from the slots: field `i` is read out of
/// slot `i`.
pub open spec fn assemble<V>(construction: Seq<FieldInitView>, slots: Seq<Option<V>>) -> Seq<
    FieldValue<V>,
> {
    Seq::new(construction.len(), |i: int| read_slot(construction[i].read, slots[i]))
}

/// What `build` returns in a given state: a consumed builder builds nothing;
/// else the first absent required field is reported; else the record is
/// constructed.
pub open spec fn build_result<V>(artifact: ArtifactView, state: BuilderState<V>) -> Result<
    Seq<FieldValue<V>>,
    BuildFailure,
> {
    if state.consumed {
        Err(BuildFailure::Consumed)
    } else {
        match first_missing(artifact.validation, state.slots) {
            Some(check) => Err(BuildFailure::MissingField(check.field_name)),
            None => Ok(assemble(artifact.construction, state.slots)),
        }
    }
}

/// The state that `build` leaves: a failed call changes nothing, a call that
/// succeeds empties every slot and marks the builder consumed.
pub open spec fn state_after_build<V>(artifact: ArtifactView, state: BuilderState<V>) -> BuilderState<
    V,
> {
    if build_result(artifact, state) is Ok {
        BuilderState { slots: Seq::new(state.slots.len(), |i: int| None), consumed: true }
    } else {
        state
    }
}

/// `first_missing` finds the check with the least position whose slot is
/// absent, and finds none exactly if every checked slot is present.
pub proof fn lemma_first_missing<V>(checks: Seq<PresenceCheckView>, slots: Seq<Option<V>>)
    ensures
        first_missing(checks, slots) is None <==> forall|k: int|
            0 <= k < checks.len() ==> slots[(#[trigger] checks[k]).slot] is Some,
        first_missing(checks, slots) is Some ==> exists|k: int|
            {
                &&& 0 <= k < checks.len()
                &&& first_missing(checks, slots) == Some(#[trigger] checks[k])
                &&& slots[checks[k].slot] is None
                &&& forall|j: int| 0 <= j < k ==> slots[(#[trigger] checks[j]).slot] is Some
            },
    decreases checks.len(),
{
    if checks.len() > 0 {
        let rest = checks.drop_first();
        lemma_first_missing(rest, slots);
        if slots[checks[0].slot] is None {
            assert(first_missing(checks, slots) == Some(checks[0]));
        } else {
            assert forall|k: int| 0 <= k < rest.len() implies #[trigger] rest[k] == checks[k + 1] by {}
            if first_missing(rest, slots) is None {
                assert forall|k: int| 0 <= k < checks.len() implies slots[(#[trigger] checks[k]).slot]
                    is Some by {
                    if k > 0 {
                        assert(rest[k - 1] == checks[k]);
                    }
                }
            } else {
                let k = choose|k: int|
                    {
                        &&& 0 <= k < rest.len()
                        &&& first_missing(rest, slots) == Some(#[trigger] rest[k])
                        &&& slots[rest[k].slot] is None
                        &&& forall|j: int| 0 <= j < k ==> slots[(#[trigger] rest[j]).slot] is Some
                    };
                assert(checks[k + 1] == rest[k]);
                assert forall|j: int| 0 <= j < k + 1 implies slots[(#[trigger] checks[j]).slot]
                    is Some by {
                    if j > 0 {
                        assert(rest[j - 1] == checks[j]);
                    }
                }
                assert(slots[checks[k + 1].slot] is None);
            }
        }
    }
}

/// A builder at run time: the description it follows and one slot for each
/// field of the record.
#[derive(Debug)]
pub struct BuilderInstance<'a, V> {
    artifact: &'a GeneratedArtifactDescription,
    slots: Vec<Option<V>>,
    consumed: bool,
}

impl<'a, V> View for BuilderInstance<'a, V> {
    type V = BuilderState<V>;

    closed spec fn view(&self) -> BuilderState<V> {
        BuilderState { slots: self.slots@, consumed: self.consumed }
    }
}

impl<'a, V> BuilderInstance<'a, V> {
    /// The description that this builder follows.
    pub closed spec fn artifact(&self) -> ArtifactView {
        self.artifact@
    }

    /// The description is well formed and the builder has one slot for each
    /// field.
    pub open spec fn well_formed(&self) -> bool {
        &&& self.artifact().well_formed()
        &&& self@.slots.len() == self.artifact().field_count()
    }

    /// The factory: a builder for `artifact` with every slot absent, whether
    /// its field is required or optional.
    pub fn new(artifact: &'a GeneratedArtifactDescription) -> (res: Self)
        requires
            artifact@.well_formed(),
        ensures
            res.well_formed(),
            res.artifact() == artifact@,
            res@ == BuilderState::<V>::fresh(artifact@.field_count()),
    {
        let mut slots: Vec<Option<V>> = Vec::new();
        let mut i: usize = 0;
        while i < artifact.construction.len()
            invariant
                i <= artifact.construction.len(),
                slots.len() == i,
                forall|j: int| 0 <= j < i ==> slots@[j] is None,
            decreases artifact.construction.len() - i,
        {
            slots.push(None);
            i += 1;
        }
        assert(slots@ =~= BuilderState::<V>::fresh(artifact@.field_count()).slots);
        BuilderInstance { artifact, slots, consumed: false }
    }

    /// The number of slots.
    pub fn slot_count(&self) -> (res: usize)
        ensures
            res == self@.slots.len(),
    {
        self.slots.len()
    }

    /// Whether a slot is present.
    pub fn is_present(&self, slot: usize) -> (res: bool)
        requires
            slot < self@.slots.len(),
        ensures
            res == self@.slots[slot as int] is Some,
    {
        self.slots[slot].is_some()
    }

    /// The phase of the builder.
    pub fn phase(&self) -> (res: Phase)
        ensures
            res == self@.phase(),
    {
        if self.consumed {
            return Phase::Consumed;
        }
        let mut i: usize = 0;
        while i < self.slots.len()
            invariant
                i <= self.slots.len(),
                !self.consumed,
                forall|j: int| 0 <= j < i ==> self.slots@[j] is None,
            decreases self.slots.len() - i,
        {
            if self.slots[i].is_some() {
                assert(self@.slots[i as int] is Some);
                return Phase::Partial;
            }
            i += 1;
        }
        Phase::Fresh
    }

    /// The setter of slot `slot`: stores `value` as present, over whatever the
    /// slot held, and hands the builder back so that calls can be chained. The
    /// last value set for a slot is the one that `build` reads.
    pub fn set(&mut self, slot: usize, value: V) -> (res: &mut Self)
        requires
            old(self).well_formed(),
            slot < old(self).artifact().field_count(),
        ensures
            res.well_formed(),
            res.artifact() == old(self).artifact(),
            res@ == old(self)@.set(slot as int, value),
            *final(self) == *final(res),
    {
        self.slots.set(slot, Some(value));
        self
    }

    /// Validates and constructs.
    ///
    /// The checks run in their order and the first absent slot ends the call:
    /// its field is reported and the builder is left as it was, so that the
    /// caller can set the field and try again. One call never tells of more
    /// than one missing field. If every check passes, the record is
    /// constructed, every slot is emptied and the builder is consumed: each
    /// later call fails with [`BuildError::Consumed`] and builds nothing from
    /// the emptied slots.
    pub fn build(&mut self) -> (res: Result<Vec<FieldValue<V>>, BuildError>)
        requires
            old(self).well_formed(),
        ensures
            final(self).well_formed(),
            final(self).artifact() == old(self).artifact(),
            final(self)@ == state_after_build(old(self).artifact(), old(self)@),
            match res {
                Ok(record) => build_result(old(self).artifact(), old(self)@) == Ok::<
                    Seq<FieldValue<V>>,
                    BuildFailure,
                >(record@),
                Err(e) => build_result(old(self).artifact(), old(self)@) == Err::<
                    Seq<FieldValue<V>>,
                    BuildFailure,
                >(e@),
            },
    {
        if self.consumed {
            return Err(BuildError::Consumed);
        }
        let ghost plan = self.artifact@;
        let ghost checks = plan.validation;
        let ghost before = self.slots@;
        assert(checks.skip(0) =~= checks);
        let mut k: usize = 0;
        while k < self.artifact.validation.len()
            invariant
                k <= self.artifact.validation.len(),
                self.well_formed(),
                !self.consumed,
                plan == self.artifact@,
                checks == plan.validation,
                before == self.slots@,
                *self == *old(self),
                first_missing(checks, before) == first_missing(checks.skip(k as int), before),
            decreases self.artifact.validation.len() - k,
        {
            let check = &self.artifact.validation[k];
            assert(checks.skip(k as int).len() > 0);
            assert(checks.skip(k as int)[0] == check@);
            assert(checks.skip(k as int).drop_first() =~= checks.skip(k as int + 1));
            if self.slots[check.slot].is_none() {
                assert(first_missing(checks, before) == Some(check@));
                return Err(BuildError::MissingField(check.field_name.clone()));
            }
            k += 1;
        }
        assert(first_missing(checks, before) is None);
        proof {
            lemma_first_missing(checks, before);
        }
        let ghost construction = plan.construction;
        let mut record: Vec<FieldValue<V>> = Vec::new();
        let mut i: usize = 0;
        while i < self.slots.len()
            invariant
                i <= self.slots.len(),
                plan.well_formed(),
                plan == self.artifact@,
                construction == plan.construction,
                checks == plan.validation,
                self.slots@.len() == before.len(),
                before.len() == construction.len(),
                forall|k: int| 0 <= k < checks.len() ==> before[(#[trigger] checks[k]).slot] is Some,
                forall|j: int| 0 <= j < i ==> self.slots@[j] is None,
                forall|j: int| i <= j < before.len() ==> self.slots@[j] == before[j],
                record.len() == i,
                forall|j: int|
                    0 <= j < i ==> record@[j] == read_slot(construction[j].read, before[j]),
            decreases self.slots.len() - i,
        {
            let value = self.slots[i].take();
            match self.artifact.construction[i].read {
                SlotRead::AsStored => {
                    record.push(FieldValue::Optional(value));
                },
                SlotRead::Extract => {
                    assert(value is Some) by {
                        assert(construction[i as int].read is Extract);
                        let k = choose|k: int|
                            0 <= k < checks.len() && (#[trigger] checks[k]).slot == i;
                        assert(before[checks[k].slot] is Some);
                    }
                    record.push(FieldValue::Required(value.unwrap()));
                },
            }
            i += 1;
        }
        self.consumed = true;
        assert(record@ =~= assemble(construction, before));
        assert(self.slots@ =~= Seq::new(before.len(), |i: int| None::<V>));
        Ok(record)
    }
}

} // verus!
