//! The record type that a builder is derived for.

use crate::syntax::{TypeSyntax, TypeToken};
use vstd::prelude::*;

verus! {

/// One named field of a record: its identifier and its declared type.
#[derive(Debug, PartialEq, Eq)]
pub struct FieldDescriptor {
    pub name: String,
    pub declared_type: TypeToken,
}

/// The mathematical value of a [`FieldDescriptor`].
pub struct FieldDescriptorView {
    pub name: Seq<char>,
    pub declared_type: TypeSyntax,
}

impl View for FieldDescriptor {
    type V = FieldDescriptorView;

    open spec fn view(&self) -> FieldDescriptorView {
        FieldDescriptorView { name: self.name@, declared_type: self.declared_type@ }
    }
}

/// The values of a sequence of fields.
pub open spec fn field_views(fields: Seq<FieldDescriptor>) -> Seq<FieldDescriptorView> {
    fields.map_values(|f: FieldDescriptor| f@)
}

/// A record type: its name and its fields in declared order.
#[derive(Debug, PartialEq, Eq)]
pub struct TypeDescriptor {
    pub name: String,
    pub fields: Vec<FieldDescriptor>,
}

/// The mathematical value of a [`TypeDescriptor`].
pub struct TypeDescriptorView {
    pub name: Seq<char>,
    pub fields: Seq<FieldDescriptorView>,
}

impl TypeDescriptorView {
    /// Every field has a name. A record with no field at all is well formed.
    pub open spec fn well_formed(self) -> bool {
        forall|i: int| 0 <= i < self.fields.len() ==> (#[trigger] self.fields[i]).name.len() > 0
    }
}

impl View for TypeDescriptor {
    type V = TypeDescriptorView;

    open spec fn view(&self) -> TypeDescriptorView {
        TypeDescriptorView { name: self.name@, fields: field_views(self.fields@) }
    }
}

impl TypeDescriptor {
    /// Tells whether every field has a name.
    pub fn is_well_formed(&self) -> (res: bool)
        ensures
            res == self@.well_formed(),
    {
        let mut i: usize = 0;
        while i < self.fields.len()
            invariant
                i <= self.fields.len(),
                forall|j: int| 0 <= j < i ==> (#[trigger] self@.fields[j]).name.len() > 0,
            decreases self.fields.len() - i,
        {
            if self.fields[i].name.as_str().is_empty() {
                assert(self@.fields[i as int].name.len() == 0);
                return false;
            }
            i += 1;
        }
        true
    }
}

} // verus!
