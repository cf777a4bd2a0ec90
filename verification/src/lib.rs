//! Describes the builder that belongs to a record type.
//!
//! A record type is given as a [`descriptor::TypeDescriptor`]: its name and
//! its fields in declared order, each with the syntax tree of its declared
//! type. [`derive`] classifies each field as required or optional by the shape
//! of that type ([`classifier`]) and describes the builder part by part
//! ([`synthesizer`]): one slot and one setter for each field, one presence
//! check for each required field, how `build` reads each field out of its
//! slot, and the factory. [`instance`] runs such a description, so that what
//! a builder does is stated and can be tried, and [`laws`] proves what holds
//! of every record and every run.
//!
//! Reading a declaration into a descriptor and writing a description out as
//! source code are left to the caller.

use vstd::prelude::*;

pub mod classifier;
pub mod descriptor;
pub mod instance;
pub mod laws;
pub mod syntax;
pub mod synthesizer;

use crate::classifier::{classifications, classify_fields};
use crate::descriptor::{TypeDescriptor, TypeDescriptorView};
use crate::synthesizer::{synthesis, synthesize, ArtifactView, GeneratedArtifactDescription};

verus! {

/// The builder that belongs to a record type: its fields are classified by the
/// shape of their declared types, and the builder is synthesized from that.
pub open spec fn derivation(input: TypeDescriptorView) -> ArtifactView {
    synthesis(input.name, classifications(input.fields))
}

/// Derives the description of the builder for a record type. Every descriptor
/// is accepted, one without fields too.
pub fn derive(input: &TypeDescriptor) -> (res: GeneratedArtifactDescription)
    ensures
        res@ == derivation(input@),
        res@.well_formed(),
        res@.field_count() == input@.fields.len(),
{
    let fields = classify_fields(&input.fields);
    synthesize(input.name.as_str(), &fields)
}

} // verus!
