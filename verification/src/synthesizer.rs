//! The builder of a record type, described part by part, and its synthesis
//! from the classified fields.

use crate::classifier::{classified_views, ClassifiedField, ClassifiedFieldView};
use crate::syntax::{TypeSyntax, TypeToken};
use vstd::prelude::*;

verus! {

/// How `build` reads the final value of a field out of its slot.
#[derive(Debug, Clone, Copy, PartialEq, Eq)]
pub enum SlotRead {
    /// The field is optional in the record: the slot is handed over as it is,
    /// absent or present.
    AsStored,
    /// The field is required in the record: the value is taken out of the
    /// slot, which validation has shown to be present.
    Extract,
}

/// One field of the builder type: a slot that can be absent.
#[derive(Debug, PartialEq, Eq)]
pub struct BuilderField {
    pub name: String,
    pub storage_type: TypeToken,
}

/// The mathematical value of a [`BuilderField`].
pub struct BuilderFieldView {
    pub name: Seq<char>,
    pub storage_type: TypeSyntax,
}

impl View for BuilderField {
    type V = BuilderFieldView;

    open spec fn view(&self) -> BuilderFieldView {
        BuilderFieldView { name: self.name@, storage_type: self.storage_type@ }
    }
}

/// One setter of the builder: a method named like the field, which takes one
/// value and stores it as present.
#[derive(Debug, PartialEq, Eq)]
pub struct Setter {
    pub name: String,
    pub param_type: TypeToken,
}

/// The mathematical value of a [`Setter`].
pub struct SetterView {
    pub name: Seq<char>,
    pub param_type: TypeSyntax,
}

impl View for Setter {
    type V = SetterView;

    open spec fn view(&self) -> SetterView {
        SetterView { name: self.name@, param_type: self.param_type@ }
    }
}

/// One step of validation: `build` fails with `field_name` if slot `slot` is
/// absent.
#[derive(Debug, PartialEq, Eq)]
pub struct PresenceCheck {
    pub slot: usize,
    pub field_name: String,
}

/// The mathematical value of a [`PresenceCheck`].
pub struct PresenceCheckView {
    pub slot: int,
    pub field_name: Seq<char>,
}

impl View for PresenceCheck {
    type V = PresenceCheckView;

    open spec fn view(&self) -> PresenceCheckView {
        PresenceCheckView { slot: self.slot as int, field_name: self.field_name@ }
    }
}

/// How one field of the record is initialised from the slot of the same
/// position.
#[derive(Debug, PartialEq, Eq)]
pub struct FieldInit {
    pub name: String,
    pub read: SlotRead,
}

/// The mathematical value of a [`FieldInit`].
pub struct FieldInitView {
    pub name: Seq<char>,
    pub read: SlotRead,
}

impl View for FieldInit {
    type V = FieldInitView;

    open spec fn view(&self) -> FieldInitView {
        FieldInitView { name: self.name@, read: self.read }
    }
}

/// The function without arguments that the record type offers: it returns a
/// builder in which each of `absent_slots` is absent.
#[derive(Debug, PartialEq, Eq)]
pub struct Factory {
    pub owner: String,
    pub absent_slots: Vec<String>,
}

/// The mathematical value of a [`Factory`].
pub struct FactoryView {
    pub owner: Seq<char>,
    pub absent_slots: Seq<Seq<char>>,
}

impl View for Factory {
    type V = FactoryView;

    open spec fn view(&self) -> FactoryView {
        FactoryView {
            owner: self.owner@,
            absent_slots: self.absent_slots@.map_values(|s: String| s@),
        }
    }
}

/// The builder that belongs to a record type, described part by part.
///
/// Position `i` of `builder_fields`, `setters`, `construction` and of the
/// factory's slots belongs to field `i` of the record.
#[derive(Debug, PartialEq, Eq)]
pub struct GeneratedArtifactDescription {
    pub record_name: String,
    pub builder_name: String,
    pub builder_fields: Vec<BuilderField>,
    pub setters: Vec<Setter>,
    /// The checks that `build` makes, in this order, before it constructs.
    pub validation: Vec<PresenceCheck>,
    pub construction: Vec<FieldInit>,
    pub factory: Factory,
}

/// The mathematical value of a [`GeneratedArtifactDescription`].
pub struct ArtifactView {
    pub record_name: Seq<char>,
    pub builder_name: Seq<char>,
    pub builder_fields: Seq<BuilderFieldView>,
    pub setters: Seq<SetterView>,
    pub validation: Seq<PresenceCheckView>,
    pub construction: Seq<FieldInitView>,
    pub factory: FactoryView,
}

impl View for GeneratedArtifactDescription {
    type V = ArtifactView;

    open spec fn view(&self) -> ArtifactView {
        ArtifactView {
            record_name: self.record_name@,
            builder_name: self.builder_name@,
            builder_fields: self.builder_fields@.map_values(|f: BuilderField| f@),
            setters: self.setters@.map_values(|s: Setter| s@),
            validation: self.validation@.map_values(|c: PresenceCheck| c@),
            construction: self.construction@.map_values(|f: FieldInit| f@),
            factory: self.factory@,
        }
    }
}

impl ArtifactView {
    /// The number of fields of the record, which is the number of slots of the
    /// builder.
    pub open spec fn field_count(self) -> nat {
        self.construction.len()
    }

    /// Every entry of every part carries a name that is not empty.
    pub open spec fn fully_named(self) -> bool {
        &&& forall|i: int|
            0 <= i < self.builder_fields.len() ==> (#[trigger] self.builder_fields[i]).name.len()
                > 0
        &&& forall|i: int| 0 <= i < self.setters.len() ==> (#[trigger] self.setters[i]).name.len() > 0
        &&& forall|k: int|
            0 <= k < self.validation.len() ==> (#[trigger] self.validation[k]).field_name.len() > 0
        &&& forall|i: int|
            0 <= i < self.construction.len() ==> (#[trigger] self.construction[i]).name.len() > 0
        &&& forall|i: int|
            0 <= i < self.factory.absent_slots.len() ==> (
            #[trigger] self.factory.absent_slots[i]).len() > 0
    }

    /// The parts agree on the number of fields, every check names a slot that
    /// exists, and a slot is extracted from exactly if some check guards it.
    pub open spec fn well_formed(self) -> bool {
        &&& self.builder_fields.len() == self.field_count()
        &&& self.setters.len() == self.field_count()
        &&& self.factory.absent_slots.len() == self.field_count()
        &&& forall|k: int|
            0 <= k < self.validation.len() ==> {
                &&& 0 <= (#[trigger] self.validation[k]).slot < self.field_count()
                &&& self.construction[self.validation[k].slot].read is Extract
            }
        &&& forall|i: int|
            0 <= i < self.field_count() && (#[trigger] self.construction[i]).read is Extract
                ==> exists|k: int|
                0 <= k < self.validation.len() && (#[trigger] self.validation[k]).slot == i
    }
}

impl GeneratedArtifactDescription {
    /// Whether some check guards slot `slot`.
    fn guards(&self, slot: usize) -> (res: bool)
        ensures
            res == exists|k: int|
                0 <= k < self@.validation.len() && (#[trigger] self@.validation[k]).slot == slot,
    {
        let mut k: usize = 0;
        while k < self.validation.len()
            invariant
                k <= self.validation.len(),
                forall|j: int| 0 <= j < k ==> (#[trigger] self@.validation[j]).slot != slot,
            decreases self.validation.len() - k,
        {
            if self.validation[k].slot == slot {
                assert(self@.validation[k as int].slot == slot);
                return true;
            }
            k += 1;
        }
        false
    }

    /// The slot that the setter named `name` writes: the position of the first
    /// setter of that name, or `None` if the builder has no such setter.
    pub fn slot_of(&self, name: &str) -> (res: Option<usize>)
        ensures
            match res {
                Some(slot) => {
                    &&& slot < self@.setters.len()
                    &&& self@.setters[slot as int].name == name@
                    &&& forall|j: int| 0 <= j < slot ==> (#[trigger] self@.setters[j]).name != name@
                },
                None => forall|j: int|
                    0 <= j < self@.setters.len() ==> (#[trigger] self@.setters[j]).name != name@,
            },
    {
        let wanted = name.to_owned();
        let mut i: usize = 0;
        while i < self.setters.len()
            invariant
                i <= self.setters.len(),
                wanted@ == name@,
                forall|j: int| 0 <= j < i ==> (#[trigger] self@.setters[j]).name != name@,
            decreases self.setters.len() - i,
        {
            if self.setters[i].name == wanted {
                assert(self@.setters[i as int].name == name@);
                return Some(i);
            }
            i += 1;
        }
        None
    }

    /// Tells whether the description is well formed, so that a builder can be
    /// run from it. What [`synthesize`] returns always is.
    pub fn is_well_formed(&self) -> (res: bool)
        ensures
            res == self@.well_formed(),
    {
        let n = self.construction.len();
        if self.builder_fields.len() != n || self.setters.len() != n
            || self.factory.absent_slots.len() != n {
            return false;
        }
        let mut k: usize = 0;
        while k < self.validation.len()
            invariant
                k <= self.validation.len(),
                n == self@.field_count(),
                forall|j: int|
                    0 <= j < k ==> {
                        &&& 0 <= (#[trigger] self@.validation[j]).slot < n
                        &&& self@.construction[self@.validation[j].slot].read is Extract
                    },
            decreases self.validation.len() - k,
        {
            let slot = self.validation[k].slot;
            if slot >= n {
                assert(self@.validation[k as int].slot >= n);
                return false;
            }
            match self.construction[slot].read {
                SlotRead::AsStored => {
                    assert(self@.construction[self@.validation[k as int].slot].read is AsStored);
                    return false;
                },
                SlotRead::Extract => {},
            }
            k += 1;
        }
        let mut i: usize = 0;
        while i < n
            invariant
                i <= n,
                n == self@.field_count(),
                forall|j: int|
                    0 <= j < i && (#[trigger] self@.construction[j]).read is Extract ==> exists|
                        k: int,
                    |
                        0 <= k < self@.validation.len() && (#[trigger] self@.validation[k]).slot
                            == j,
            decreases n - i,
        {
            match self.construction[i].read {
                SlotRead::AsStored => {},
                SlotRead::Extract => {
                    if !self.guards(i) {
                        assert(self@.construction[i as int].read is Extract);
                        return false;
                    }
                },
            }
            i += 1;
        }
        true
    }
}

/// How a field with the given classification is read out of its slot.
pub open spec fn slot_read(field: ClassifiedFieldView) -> SlotRead {
    if field.is_optional {
        SlotRead::AsStored
    } else {
        SlotRead::Extract
    }
}

/// The checks for the first `upto` fields: one for each required field, in
/// declared order, and none for an optional field.
pub open spec fn presence_checks(fields: Seq<ClassifiedFieldView>, upto: nat) -> Seq<
    PresenceCheckView,
>
    decreases upto,
{
    if upto == 0 {
        Seq::empty()
    } else {
        let earlier = presence_checks(fields, (upto - 1) as nat);
        let field = fields[upto - 1];
        if field.is_optional {
            earlier
        } else {
            earlier.push(PresenceCheckView { slot: upto - 1, field_name: field.name })
        }
    }
}

/// The builder for a record named `record_name` with the given classified
/// fields.
pub open spec fn synthesis(record_name: Seq<char>, fields: Seq<ClassifiedFieldView>) -> ArtifactView {
    ArtifactView {
        record_name,
        builder_name: record_name + "Builder"@,
        builder_fields: fields.map_values(
            |f: ClassifiedFieldView| BuilderFieldView { name: f.name, storage_type: f.storage_type },
        ),
        setters: fields.map_values(
            |f: ClassifiedFieldView| SetterView { name: f.name, param_type: f.effective_type },
        ),
        validation: presence_checks(fields, fields.len()),
        construction: fields.map_values(
            |f: ClassifiedFieldView| FieldInitView { name: f.name, read: slot_read(f) },
        ),
        factory: FactoryView {
            owner: record_name,
            absent_slots: fields.map_values(|f: ClassifiedFieldView| f.name),
        },
    }
}

/// The checks are exactly the required fields, in declared order: each check
/// guards a required field and carries its name, the slots of the checks
/// increase, and every required field among the first `upto` has its check.
pub proof fn lemma_presence_checks(fields: Seq<ClassifiedFieldView>, upto: nat)
    requires
        upto <= fields.len(),
    ensures
        presence_checks(fields, upto).len() <= upto,
        forall|k: int|
            0 <= k < presence_checks(fields, upto).len() ==> {
                let check = #[trigger] presence_checks(fields, upto)[k];
                &&& 0 <= check.slot < upto
                &&& !fields[check.slot].is_optional
                &&& check.field_name == fields[check.slot].name
            },
        forall|j: int, k: int|
            0 <= j < k < presence_checks(fields, upto).len() ==> (#[trigger] presence_checks(
                fields,
                upto,
            )[j]).slot < (#[trigger] presence_checks(fields, upto)[k]).slot,
        forall|i: int|
            0 <= i < upto && !(#[trigger] fields[i]).is_optional ==> exists|k: int|
                0 <= k < presence_checks(fields, upto).len() && (#[trigger] presence_checks(
                    fields,
                    upto,
                )[k]).slot == i,
    decreases upto,
{
    if upto > 0 {
        let earlier = presence_checks(fields, (upto - 1) as nat);
        let now = presence_checks(fields, upto);
        lemma_presence_checks(fields, (upto - 1) as nat);
        assert forall|i: int| 0 <= i < upto && !(#[trigger] fields[i]).is_optional implies exists|
            k: int,
        |
            0 <= k < now.len() && (#[trigger] now[k]).slot == i by {
            if i < upto - 1 {
                let k = choose|k: int| 0 <= k < earlier.len() && (#[trigger] earlier[k]).slot == i;
                assert(now[k].slot == i);
            } else {
                assert(now[now.len() - 1].slot == i);
            }
        }
    }
}

/// Whatever the fields are, the builder synthesized for them is well formed.
pub proof fn lemma_synthesis_well_formed(record_name: Seq<char>, fields: Seq<ClassifiedFieldView>)
    ensures
        synthesis(record_name, fields).well_formed(),
        synthesis(record_name, fields).field_count() == fields.len(),
{
    lemma_presence_checks(fields, fields.len());
    let artifact = synthesis(record_name, fields);
    assert forall|i: int|
        0 <= i < artifact.field_count() && (#[trigger] artifact.construction[i]).read is Extract
        implies exists|k: int|
        0 <= k < artifact.validation.len() && (#[trigger] artifact.validation[k]).slot == i by {
        assert(!fields[i].is_optional);
    }
}

/// Describes the builder for a record named `record_name` with the given
/// classified fields: the builder's name, one slot, one setter and one
/// initialiser for each field, one presence check for each required field, and
/// the factory. Every input is accepted.
pub fn synthesize(record_name: &str, fields: &Vec<ClassifiedField>) -> (res:
    GeneratedArtifactDescription)
    ensures
        res@ == synthesis(record_name@, classified_views(fields@)),
        res@.well_formed(),
        res@.field_count() == fields@.len(),
{
    let ghost model = classified_views(fields@);
    let mut builder_name = record_name.to_owned();
    builder_name.append("Builder");
    let mut builder_fields: Vec<BuilderField> = Vec::new();
    let mut setters: Vec<Setter> = Vec::new();
    let mut validation: Vec<PresenceCheck> = Vec::new();
    let mut construction: Vec<FieldInit> = Vec::new();
    let mut absent_slots: Vec<String> = Vec::new();
    let mut i: usize = 0;
    while i < fields.len()
        invariant
            i <= fields.len(),
            model == classified_views(fields@),
            builder_fields.len() == i,
            setters.len() == i,
            construction.len() == i,
            absent_slots.len() == i,
            forall|j: int|
                0 <= j < i ==> (#[trigger] builder_fields@[j])@ == (BuilderFieldView {
                    name: model[j].name,
                    storage_type: model[j].storage_type,
                }),
            forall|j: int|
                0 <= j < i ==> (#[trigger] setters@[j])@ == (SetterView {
                    name: model[j].name,
                    param_type: model[j].effective_type,
                }),
            forall|j: int|
                0 <= j < i ==> (#[trigger] construction@[j])@ == (FieldInitView {
                    name: model[j].name,
                    read: slot_read(model[j]),
                }),
            forall|j: int| 0 <= j < i ==> (#[trigger] absent_slots@[j])@ == model[j].name,
            validation@.map_values(|c: PresenceCheck| c@) == presence_checks(model, i as nat),
        decreases fields.len() - i,
    {
        let field = &fields[i];
        assert(model[i as int] == field@);
        builder_fields.push(
            BuilderField { name: field.name.clone(), storage_type: field.storage_type.clone() },
        );
        setters.push(Setter { name: field.name.clone(), param_type: field.effective_type.clone() });
        if field.is_optional {
            construction.push(FieldInit { name: field.name.clone(), read: SlotRead::AsStored });
        } else {
            let ghost before = validation@;
            validation.push(PresenceCheck { slot: i, field_name: field.name.clone() });
            assert(validation@.map_values(|c: PresenceCheck| c@) =~= before.map_values(
                |c: PresenceCheck| c@,
            ).push(PresenceCheckView { slot: i as int, field_name: field.name@ }));
            construction.push(FieldInit { name: field.name.clone(), read: SlotRead::Extract });
        }
        absent_slots.push(field.name.clone());
        i += 1;
    }
    let res = GeneratedArtifactDescription {
        record_name: record_name.to_owned(),
        builder_name,
        builder_fields,
        setters,
        validation,
        construction,
        factory: Factory { owner: record_name.to_owned(), absent_slots },
    };
    proof {
        let expected = synthesis(record_name@, model);
        assert(res@.builder_fields =~= expected.builder_fields);
        assert(res@.setters =~= expected.setters);
        assert(res@.construction =~= expected.construction);
        assert(res@.factory.absent_slots =~= expected.factory.absent_slots);
        lemma_synthesis_well_formed(record_name@, model);
    }
    res
}

} // verus!
