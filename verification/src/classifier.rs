//! Tells required fields from optional ones by the shape of their declared
//! types.

use crate::descriptor::{field_views, FieldDescriptor, FieldDescriptorView};
use crate::syntax::{
    ArgumentSyntax, ArgumentsSyntax, GenericArgument, PathArguments, PathSegment, PathSyntax,
    SegmentSyntax, TypePath, TypeSyntax, TypeToken,
};
use vstd::prelude::*;

verus! {

/// The type `Option<payload>` written bare: one segment named `Option`, no
/// qualified self, no leading `::`, and `payload` as its only argument.
pub open spec fn bare_option(payload: TypeSyntax) -> TypeSyntax {
    TypeSyntax::Path(
        PathSyntax {
            qself: None,
            leading_colon: false,
            segments: seq![
                SegmentSyntax {
                    ident: "Option"@,
                    arguments: ArgumentsSyntax::Angle(seq![ArgumentSyntax::Type(payload)]),
                },
            ],
        },
    )
}

/// The type `::std::option::Option<payload>`, which holds a slot of the builder
/// for a field that the record declares without an optional wrapper.
pub open spec fn std_option(payload: TypeSyntax) -> TypeSyntax {
    TypeSyntax::Path(
        PathSyntax {
            qself: None,
            leading_colon: true,
            segments: seq![
                SegmentSyntax { ident: "std"@, arguments: ArgumentsSyntax::Empty },
                SegmentSyntax { ident: "option"@, arguments: ArgumentsSyntax::Empty },
                SegmentSyntax {
                    ident: "Option"@,
                    arguments: ArgumentsSyntax::Angle(seq![ArgumentSyntax::Type(payload)]),
                },
            ],
        },
    )
}

/// The payload of `ty` if `ty` is an optional wrapper by its shape, else `None`.
///
/// The match is on syntax alone: an alias of `Option<T>`, a path that leads to
/// `Option`, or an `Option` with no argument or several is not a wrapper.
pub open spec fn optional_payload(ty: TypeSyntax) -> Option<TypeSyntax> {
    match ty {
        TypeSyntax::Path(p) => {
            if p.qself is None && !p.leading_colon && p.segments.len() == 1 && p.segments[0].ident
                == "Option"@ {
                match p.segments[0].arguments {
                    ArgumentsSyntax::Angle(args) => {
                        if args.len() == 1 {
                            match args[0] {
                                ArgumentSyntax::Type(t) => Some(t),
                                _ => None,
                            }
                        } else {
                            None
                        }
                    },
                    _ => None,
                }
            } else {
                None
            }
        },
        TypeSyntax::Verbatim(_) => None,
    }
}

/// A type has the payload `t` exactly when it is `Option<t>` written bare.
pub proof fn lemma_payload_iff_bare_option(ty: TypeSyntax, t: TypeSyntax)
    ensures
        optional_payload(ty) == Some(t) <==> ty == bare_option(t),
{
    if optional_payload(ty) == Some(t) {
        let p = ty->Path_0;
        assert(p.segments =~= bare_option(t)->Path_0.segments) by {
            assert(p.segments[0].arguments->Angle_0 =~= seq![ArgumentSyntax::Type(t)]);
        }
    }
}

/// Whether `ident` is the name `Option`.
fn is_option_ident(ident: &String) -> (res: bool)
    ensures
        res == (ident@ == "Option"@),
{
    let option = "Option".to_owned();
    *ident == option
}

/// Finds the payload of an optional wrapper by its shape.
///
/// Returns the `T` of a type written `Option<T>`, and `None` for every other
/// type. Nothing is resolved: an alias of `Option<T>` has no payload.
pub fn get_opt_type(ty: &TypeToken) -> (res: Option<&TypeToken>)
    ensures
        match res {
            Some(t) => optional_payload(ty@) == Some(t@),
            None => optional_payload(ty@) is None,
        },
{
    match ty {
        TypeToken::Path(p) => {
            if p.qself.is_some() || p.leading_colon || p.segments.len() != 1 {
                return None;
            }
            let segment = &p.segments[0];
            if !is_option_ident(&segment.ident) {
                return None;
            }
            match &segment.arguments {
                PathArguments::Angle(args) => {
                    if args.len() != 1 {
                        return None;
                    }
                    match &args[0] {
                        GenericArgument::Type(t) => Some(t),
                        _ => None,
                    }
                },
                _ => None,
            }
        },
        TypeToken::Verbatim(_) => None,
    }
}

/// Whether a type is an optional wrapper by its shape.
pub fn is_opt(ty: &TypeToken) -> (res: bool)
    ensures
        res == optional_payload(ty@) is Some,
{
    get_opt_type(ty).is_some()
}

/// Wraps a type as `::std::option::Option<ty>`.
pub fn wrap_in_option(ty: &TypeToken) -> (res: TypeToken)
    ensures
        res@ == std_option(ty@),
{
    let mut args: Vec<GenericArgument> = Vec::new();
    args.push(GenericArgument::Type(ty.clone()));
    let mut segments: Vec<PathSegment> = Vec::new();
    segments.push(PathSegment { ident: "std".to_owned(), arguments: PathArguments::Empty });
    segments.push(PathSegment { ident: "option".to_owned(), arguments: PathArguments::Empty });
    segments.push(PathSegment { ident: "Option".to_owned(), arguments: PathArguments::Angle(args) });
    let res = TypeToken::Path(TypePath { qself: None, leading_colon: true, segments });
    assert(res@ == std_option(ty@)) by {
        assert(res@->Path_0.segments[2].arguments->Angle_0 =~= seq![ArgumentSyntax::Type(ty@)]);
        assert(res@->Path_0.segments =~= std_option(ty@)->Path_0.segments);
    }
    res
}

/// A field of the record together with what its declared type says of it.
#[derive(Debug, PartialEq, Eq)]
pub struct ClassifiedField {
    pub name: String,
    /// Whether the record declares the field with an optional wrapper.
    pub is_optional: bool,
    /// The payload of the wrapper if the field is optional, else the declared type.
    pub effective_type: TypeToken,
    /// The type of the builder's slot for this field.
    pub storage_type: TypeToken,
}

/// The mathematical value of a [`ClassifiedField`].
pub struct ClassifiedFieldView {
    pub name: Seq<char>,
    pub is_optional: bool,
    pub effective_type: TypeSyntax,
    pub storage_type: TypeSyntax,
}

impl ClassifiedFieldView {
    /// The slot wraps the effective type exactly once: for an optional field
    /// it is the bare `Option` that the record declares, for a required field
    /// the qualified `Option` around the declared type.
    pub open spec fn well_formed(self) -> bool {
        if self.is_optional {
            self.storage_type == bare_option(self.effective_type)
        } else {
            &&& self.storage_type == std_option(self.effective_type)
            &&& optional_payload(self.effective_type) is None
        }
    }
}

impl View for ClassifiedField {
    type V = ClassifiedFieldView;

    open spec fn view(&self) -> ClassifiedFieldView {
        ClassifiedFieldView {
            name: self.name@,
            is_optional: self.is_optional,
            effective_type: self.effective_type@,
            storage_type: self.storage_type@,
        }
    }
}

/// What a field's declaration says of it.
///
/// An optional field keeps its declared type as the type of its slot, so the
/// slot is never wrapped twice; any other field gets a slot that wraps the
/// declared type once.
pub open spec fn classification(field: FieldDescriptorView) -> ClassifiedFieldView {
    match optional_payload(field.declared_type) {
        Some(payload) => ClassifiedFieldView {
            name: field.name,
            is_optional: true,
            effective_type: payload,
            storage_type: field.declared_type,
        },
        None => ClassifiedFieldView {
            name: field.name,
            is_optional: false,
            effective_type: field.declared_type,
            storage_type: std_option(field.declared_type),
        },
    }
}

/// The classification of each field of a sequence, in the same order.
pub open spec fn classifications(fields: Seq<FieldDescriptorView>) -> Seq<ClassifiedFieldView> {
    fields.map_values(|f: FieldDescriptorView| classification(f))
}

/// The values of a sequence of classified fields.
pub open spec fn classified_views(fields: Seq<ClassifiedField>) -> Seq<ClassifiedFieldView> {
    fields.map_values(|f: ClassifiedField| f@)
}

/// Every classification is well formed, and the slot of a required field is
/// itself no optional wrapper by shape.
pub proof fn lemma_classification_well_formed(field: FieldDescriptorView)
    ensures
        classification(field).well_formed(),
        classification(field).name == field.name,
        !classification(field).is_optional ==> optional_payload(classification(field).storage_type)
            is None,
{
    if classification(field).is_optional {
        lemma_payload_iff_bare_option(
            field.declared_type,
            optional_payload(field.declared_type)->Some_0,
        );
    }
}

/// Classifies one field by the shape of its declared type.
pub fn classify_field(field: &FieldDescriptor) -> (res: ClassifiedField)
    ensures
        res@ == classification(field@),
        res@.well_formed(),
{
    proof {
        lemma_classification_well_formed(field@);
    }
    match get_opt_type(&field.declared_type) {
        Some(payload) => ClassifiedField {
            name: field.name.clone(),
            is_optional: true,
            effective_type: payload.clone(),
            storage_type: field.declared_type.clone(),
        },
        None => ClassifiedField {
            name: field.name.clone(),
            is_optional: false,
            effective_type: field.declared_type.clone(),
            storage_type: wrap_in_option(&field.declared_type),
        },
    }
}

/// Classifies the fields of a record, one by one and in their declared order.
pub fn classify_fields(fields: &Vec<FieldDescriptor>) -> (res: Vec<ClassifiedField>)
    ensures
        classified_views(res@) == classifications(field_views(fields@)),
{
    let mut res: Vec<ClassifiedField> = Vec::new();
    let mut i: usize = 0;
    while i < fields.len()
        invariant
            i <= fields.len(),
            res.len() == i,
            forall|j: int| 0 <= j < i ==> (#[trigger] res@[j])@ == classification(fields@[j]@),
        decreases fields.len() - i,
    {
        res.push(classify_field(&fields[i]));
        i += 1;
    }
    assert(classified_views(res@) =~= classifications(field_views(fields@)));
    res
}

} // verus!
