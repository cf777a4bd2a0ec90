//! The syntax tree of a declared type, as far as a field is classified by it,
//! and its mathematical value.

use vstd::prelude::*;

verus! {

/// One argument inside the angle brackets of a path segment.
#[derive(Debug, PartialEq, Eq)]
pub enum GenericArgument {
    /// A type argument, such as the `T` in `Option<T>`.
    Type(TypeToken),
    /// A lifetime argument, by its source text.
    Lifetime(String),
    /// A constant argument, by its source text.
    Const(String),
    /// Any other argument (an associated-type binding, a constraint), by its
    /// source text.
    Other(String),
}

/// What follows the identifier of a path segment.
#[derive(Debug, PartialEq, Eq)]
pub enum PathArguments {
    /// Nothing, as in `String`.
    Empty,
    /// A list in angle brackets, as in `Option<T>`; the list may be empty.
    Angle(Vec<GenericArgument>),
    /// A parenthesized list, as in `Fn(A) -> B`, by its source text.
    Paren(String),
}

/// One segment of a path: an identifier and its arguments.
#[derive(Debug, PartialEq, Eq)]
pub struct PathSegment {
    pub ident: String,
    pub arguments: PathArguments,
}

/// The explicit self type of a qualified path such as `<T as Trait>::Item`.
#[derive(Debug, PartialEq, Eq)]
pub struct QualifiedSelf {
    /// The self type, by its source text.
    pub self_type: String,
    /// How many of the path's segments stand inside the angle brackets.
    pub position: usize,
}

/// A path type, such as `::std::option::Option<T>`.
#[derive(Debug, PartialEq, Eq)]
pub struct TypePath {
    pub qself: Option<QualifiedSelf>,
    pub leading_colon: bool,
    pub segments: Vec<PathSegment>,
}

/// The declared type of a field, as a syntax tree. It is looked at by its
/// shape only and never resolved.
#[derive(Debug, PartialEq, Eq)]
pub enum TypeToken {
    /// A path type.
    Path(TypePath),
    /// Any other shape (a reference, a tuple, an array, ...), by its source
    /// text.
    Verbatim(String),
}

/// The mathematical value of a [`GenericArgument`].
pub enum ArgumentSyntax {
    Type(TypeSyntax),
    Lifetime(Seq<char>),
    Const(Seq<char>),
    Other(Seq<char>),
}

/// The mathematical value of a [`PathArguments`].
pub enum ArgumentsSyntax {
    Empty,
    Angle(Seq<ArgumentSyntax>),
    Paren(Seq<char>),
}

/// The mathematical value of a [`PathSegment`].
pub struct SegmentSyntax {
    pub ident: Seq<char>,
    pub arguments: ArgumentsSyntax,
}

/// The mathematical value of a [`QualifiedSelf`].
pub struct QualifiedSelfSyntax {
    pub self_type: Seq<char>,
    pub position: nat,
}

/// The mathematical value of a [`TypePath`].
pub struct PathSyntax {
    pub qself: Option<QualifiedSelfSyntax>,
    pub leading_colon: bool,
    pub segments: Seq<SegmentSyntax>,
}

/// The mathematical value of a [`TypeToken`]: the same tree over sequences.
pub enum TypeSyntax {
    Path(PathSyntax),
    Verbatim(Seq<char>),
}

/// The value of a type token.
pub open spec fn type_syntax(ty: TypeToken) -> TypeSyntax
    decreases ty,
{
    match ty {
        TypeToken::Path(p) => TypeSyntax::Path(path_syntax(p)),
        TypeToken::Verbatim(s) => TypeSyntax::Verbatim(s@),
    }
}

/// The value of a path: segment by segment.
pub open spec fn path_syntax(path: TypePath) -> PathSyntax
    decreases path,
{
    PathSyntax {
        qself: match path.qself {
            Some(q) => Some(q@),
            None => None,
        },
        leading_colon: path.leading_colon,
        segments: Seq::new(
            path.segments@.len(),
            |i: int|
                if 0 <= i < path.segments@.len() {
                    segment_syntax(path.segments@[i])
                } else {
                    arbitrary()
                },
        ),
    }
}

/// The value of a path segment.
pub open spec fn segment_syntax(segment: PathSegment) -> SegmentSyntax
    decreases segment,
{
    SegmentSyntax { ident: segment.ident@, arguments: arguments_syntax(segment.arguments) }
}

/// The value of the arguments of a path segment: argument by argument.
pub open spec fn arguments_syntax(arguments: PathArguments) -> ArgumentsSyntax
    decreases arguments,
{
    match arguments {
        PathArguments::Empty => ArgumentsSyntax::Empty,
        PathArguments::Angle(args) => ArgumentsSyntax::Angle(
            Seq::new(
                args@.len(),
                |i: int|
                    if 0 <= i < args@.len() {
                        argument_syntax(args@[i])
                    } else {
                        arbitrary()
                    },
            ),
        ),
        PathArguments::Paren(s) => ArgumentsSyntax::Paren(s@),
    }
}

/// The value of a generic argument.
pub open spec fn argument_syntax(argument: GenericArgument) -> ArgumentSyntax
    decreases argument,
{
    match argument {
        GenericArgument::Type(t) => ArgumentSyntax::Type(type_syntax(t)),
        GenericArgument::Lifetime(s) => ArgumentSyntax::Lifetime(s@),
        GenericArgument::Const(s) => ArgumentSyntax::Const(s@),
        GenericArgument::Other(s) => ArgumentSyntax::Other(s@),
    }
}

impl View for TypeToken {
    type V = TypeSyntax;

    open spec fn view(&self) -> TypeSyntax {
        type_syntax(*self)
    }
}

impl View for TypePath {
    type V = PathSyntax;

    open spec fn view(&self) -> PathSyntax {
        path_syntax(*self)
    }
}

impl View for QualifiedSelf {
    type V = QualifiedSelfSyntax;

    open spec fn view(&self) -> QualifiedSelfSyntax {
        QualifiedSelfSyntax { self_type: self.self_type@, position: self.position as nat }
    }
}

impl View for PathSegment {
    type V = SegmentSyntax;

    open spec fn view(&self) -> SegmentSyntax {
        segment_syntax(*self)
    }
}

impl View for PathArguments {
    type V = ArgumentsSyntax;

    open spec fn view(&self) -> ArgumentsSyntax {
        arguments_syntax(*self)
    }
}

impl View for GenericArgument {
    type V = ArgumentSyntax;

    open spec fn view(&self) -> ArgumentSyntax {
        argument_syntax(*self)
    }
}

/// Copies a type token, subtree by subtree.
fn copy_type(ty: &TypeToken) -> (res: TypeToken)
    ensures
        type_syntax(res) == type_syntax(*ty),
    decreases ty,
{
    match ty {
        TypeToken::Path(p) => TypeToken::Path(copy_path(p)),
        TypeToken::Verbatim(s) => TypeToken::Verbatim(s.clone()),
    }
}

/// Copies a path, segment by segment.
fn copy_path(path: &TypePath) -> (res: TypePath)
    ensures
        path_syntax(res) == path_syntax(*path),
    decreases path,
{
    let qself = match &path.qself {
        Some(q) => Some(q.clone()),
        None => None,
    };
    let mut segments: Vec<PathSegment> = Vec::new();
    let mut i: usize = 0;
    while i < path.segments.len()
        invariant
            i <= path.segments.len(),
            segments.len() == i,
            forall|j: int|
                0 <= j < i ==> segment_syntax(#[trigger] segments@[j]) == segment_syntax(
                    path.segments@[j],
                ),
        decreases path.segments.len() - i,
    {
        assert(decreases_to!(path.segments => path.segments[i as int]));
        segments.push(copy_segment(&path.segments[i]));
        i += 1;
    }
    let res = TypePath { qself, leading_colon: path.leading_colon, segments };
    assert(path_syntax(res).segments =~= path_syntax(*path).segments);
    res
}

/// Copies a path segment.
fn copy_segment(segment: &PathSegment) -> (res: PathSegment)
    ensures
        segment_syntax(res) == segment_syntax(*segment),
    decreases segment,
{
    PathSegment { ident: segment.ident.clone(), arguments: copy_arguments(&segment.arguments) }
}

/// Copies the arguments of a path segment, argument by argument.
fn copy_arguments(arguments: &PathArguments) -> (res: PathArguments)
    ensures
        arguments_syntax(res) == arguments_syntax(*arguments),
    decreases arguments,
{
    match arguments {
        PathArguments::Empty => PathArguments::Empty,
        PathArguments::Angle(args) => {
            let mut copies: Vec<GenericArgument> = Vec::new();
            let mut i: usize = 0;
            while i < args.len()
                invariant
                    i <= args.len(),
                    arguments is Angle,
                    arguments->Angle_0 == *args,
                    copies.len() == i,
                    forall|j: int|
                        0 <= j < i ==> argument_syntax(#[trigger] copies@[j]) == argument_syntax(
                            args@[j],
                        ),
                decreases args.len() - i,
            {
                assert(decreases_to!(arguments->Angle_0 => arguments->Angle_0[i as int]));
                copies.push(copy_argument(&args[i]));
                i += 1;
            }
            let res = PathArguments::Angle(copies);
            assert(arguments_syntax(res)->Angle_0 =~= arguments_syntax(*arguments)->Angle_0);
            res
        },
        PathArguments::Paren(s) => PathArguments::Paren(s.clone()),
    }
}

/// Copies a generic argument.
fn copy_argument(argument: &GenericArgument) -> (res: GenericArgument)
    ensures
        argument_syntax(res) == argument_syntax(*argument),
    decreases argument,
{
    match argument {
        GenericArgument::Type(t) => GenericArgument::Type(copy_type(t)),
        GenericArgument::Lifetime(s) => GenericArgument::Lifetime(s.clone()),
        GenericArgument::Const(s) => GenericArgument::Const(s.clone()),
        GenericArgument::Other(s) => GenericArgument::Other(s.clone()),
    }
}

impl Clone for TypeToken {
    /// A copy with the same value.
    fn clone(&self) -> (res: Self)
        ensures
            res@ == self@,
    {
        copy_type(self)
    }
}

impl Clone for TypePath {
    /// A copy with the same value.
    fn clone(&self) -> (res: Self)
        ensures
            res@ == self@,
    {
        copy_path(self)
    }
}

impl Clone for QualifiedSelf {
    /// A copy with the same value.
    fn clone(&self) -> (res: Self)
        ensures
            res@ == self@,
    {
        QualifiedSelf { self_type: self.self_type.clone(), position: self.position }
    }
}

impl Clone for PathSegment {
    /// A copy with the same value.
    fn clone(&self) -> (res: Self)
        ensures
            res@ == self@,
    {
        copy_segment(self)
    }
}

impl Clone for PathArguments {
    /// A copy with the same value.
    fn clone(&self) -> (res: Self)
        ensures
            res@ == self@,
    {
        copy_arguments(self)
    }
}

impl Clone for GenericArgument {
    /// A copy with the same value.
    fn clone(&self) -> (res: Self)
        ensures
            res@ == self@,
    {
        copy_argument(self)
    }
}

} // verus!
