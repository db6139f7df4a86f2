use vstd::prelude::*;
use crate::attr::{IntoMeta, Meta};
use crate::convert::{into_generic_argument_vec, into_path_segment_vec, into_type_param_bound_vec, into_type_vec};
use crate::expr::{Expr, IntoExpr};
use crate::generics::{IntoTypeParamBound, TypeParamBound, generics};
use crate::ident::{Ident, IntoIdent, Lifetime};
use crate::props::{OutputPropsBuilder, PathGenericsBuilder};
use crate::ty::{IntoType, ReturnType, Type};

verus! {

/// A possibly qualified name: segments separated by path separators.
#[derive(Debug, PartialEq, Eq)]
pub struct Path {
    pub leading_colon: bool,
    pub segments: Vec<PathSegment>,
}

/// One segment of a path: a name and its generic arguments, if any.
#[derive(Debug, PartialEq, Eq)]
pub struct PathSegment {
    pub ident: Ident,
    pub arguments: PathArguments,
}

/// The generic arguments attached to one path segment.
#[derive(Debug, PartialEq, Eq)]
pub enum PathArguments {
    Plain,
    AngleBracketed(AngleBracketedGenericArguments),
    Parenthesized(ParenthesizedGenericArguments),
}

/// Angle-bracketed generic arguments, as in `Vec<T>`.
#[derive(Debug, PartialEq, Eq)]
pub struct AngleBracketedGenericArguments {
    pub colon2_token: bool,
    pub args: Vec<GenericArgument>,
}

/// One generic argument inside an argument list.
#[derive(Debug, PartialEq, Eq)]
pub enum GenericArgument {
    Lifetime(Lifetime),
    Type(Type),
    Const(Expr),
    AssocType(AssocType),
    AssocConst(AssocConst),
    Constraint(Constraint),
}

/// An associated-type binding, as in `Item = u8`.
#[derive(Debug, PartialEq, Eq)]
pub struct AssocType {
    pub ident: Ident,
    pub generics: Option<AngleBracketedGenericArguments>,
    pub ty: Type,
}

/// An associated-const binding, as in `N = 16`.
#[derive(Debug, PartialEq, Eq)]
pub struct AssocConst {
    pub ident: Ident,
    pub generics: Option<AngleBracketedGenericArguments>,
    pub value: Expr,
}

/// An associated-type bound, as in `Item: Ord`.
#[derive(Debug, PartialEq, Eq)]
pub struct Constraint {
    pub ident: Ident,
    pub generics: Option<AngleBracketedGenericArguments>,
    pub bounds: Vec<TypeParamBound>,
}

/// Parenthesized arguments of a function-like path, as in `Fn(A) -> B`.
#[derive(Debug, PartialEq, Eq)]
pub struct ParenthesizedGenericArguments {
    pub inputs: Vec<Type>,
    pub output: ReturnType,
}

/// The explicit self type of a qualified path, as in `<T as Trait>::Item`.
#[derive(Debug, PartialEq, Eq)]
pub struct QSelf {
    pub ty: Box<Type>,
    pub position: usize,
    pub as_token: bool,
}

/// Anything that can become a path.
pub trait IntoPath: Sized {
    /// Relates the source value to the `Path` it becomes.
    spec fn into_path_ens(self, r: Path) -> bool;

    fn into_path(self) -> (r: Path)
        ensures
            self.into_path_ens(r),
    ;
}

/// The identity conversion: a `Path` stays exactly itself.
impl IntoPath for Path {
    open spec fn into_path_ens(self, r: Path) -> bool {
        r == self
    }

    fn into_path(self) -> (r: Path) {
        self
    }
}

/// An identifier becomes the one-segment path spelling it.
impl IntoPath for Ident {
    open spec fn into_path_ens(self, r: Path) -> bool {
        r.leading_colon == false && r.segments@.len() == 1
            && r.segments@[0] == (PathSegment {
            ident: self,
            arguments: PathArguments::Plain,
        })
    }

    fn into_path(self) -> (r: Path) {
        let mut segments: Vec<PathSegment> = Vec::new();
        segments.push(PathSegment { ident: self, arguments: PathArguments::Plain });
        Path { leading_colon: false, segments }
    }
}

/// A string slice becomes the one-segment path spelling it.
impl IntoPath for &str {
    open spec fn into_path_ens(self, r: Path) -> bool {
        r.leading_colon == false && r.segments@.len() == 1
            && r.segments@[0].ident.name@ == self@
            && r.segments@[0].arguments == PathArguments::Plain
    }

    fn into_path(self) -> (r: Path) {
        let ident = Ident { name: self.to_owned() };
        ident.into_path()
    }
}

/// Anything that can become a path segment.
pub trait IntoPathSegment: Sized {
    /// Relates the source value to the `PathSegment` it becomes.
    spec fn into_path_segment_ens(self, r: PathSegment) -> bool;

    fn into_path_segment(self) -> (r: PathSegment)
        ensures
            self.into_path_segment_ens(r),
    ;
}

/// The identity conversion: a `PathSegment` stays exactly itself.
impl IntoPathSegment for PathSegment {
    open spec fn into_path_segment_ens(self, r: PathSegment) -> bool {
        r == self
    }

    fn into_path_segment(self) -> (r: PathSegment) {
        self
    }
}

/// An identifier becomes an argument-free segment.
impl IntoPathSegment for Ident {
    open spec fn into_path_segment_ens(self, r: PathSegment) -> bool {
        r == (PathSegment { ident: self, arguments: PathArguments::Plain })
    }

    fn into_path_segment(self) -> (r: PathSegment) {
        PathSegment { ident: self, arguments: PathArguments::Plain }
    }
}

/// A string slice becomes an argument-free segment spelling it.
impl IntoPathSegment for &str {
    open spec fn into_path_segment_ens(self, r: PathSegment) -> bool {
        r.ident.name@ == self@ && r.arguments == PathArguments::Plain
    }

    fn into_path_segment(self) -> (r: PathSegment) {
        PathSegment { ident: Ident { name: self.to_owned() }, arguments: PathArguments::Plain }
    }
}

/// A bare path is attribute content on its own.
impl IntoMeta for Path {
    open spec fn meta_of(self) -> Meta {
        Meta::Path(self)
    }

    fn into_meta(self) -> (r: Meta) {
        Meta::Path(self)
    }
}

/// A path over the given segments, without a leading separator.
pub fn path<A: IntoPathSegment>(segments: Vec<A>) -> (r: Path)
    ensures
        r.leading_colon == false,
        r.segments@.len() == segments@.len(),
        forall|i: int| 0 <= i < segments@.len() ==> segments@[i].into_path_segment_ens(#[trigger] r.segments@[i]),
{
    let segments = into_path_segment_vec(segments);
    Path {
        leading_colon: false,
        segments: segments,
    }
}

/// The fluent surface of a path.
pub trait PathBuilder: Sized {
    /// Holds iff `r` is the path over the given segments with no leading
    /// separator.
    spec fn new_ens(segments: Seq<PathSegment>, r: Self) -> bool;

    /// Holds iff `r` is `self` with the leading-separator marker set as given.
    spec fn leading_colon_ens(self, leading_colon: bool, r: Self) -> bool;

    fn new<S: IntoPathSegment>(segments: Vec<S>) -> (r: Self)
        ensures
            exists|ss: Seq<PathSegment>|
                #![auto]
                ss.len() == segments@.len() && (forall|i: int|
                    0 <= i < segments@.len() ==> segments@[i].into_path_segment_ens(
                        #[trigger] ss[i],
                    )) && Self::new_ens(ss, r),
    ;

    /// Keep or drop the leading path separator.
    fn leading_colon(self, leading_colon: bool) -> (r: Self)
        ensures
            self.leading_colon_ens(leading_colon, r),
    ;
}

impl PathBuilder for Path {
    open spec fn new_ens(segments: Seq<PathSegment>, r: Self) -> bool {
        r.leading_colon == false && r.segments@ == segments
    }

    open spec fn leading_colon_ens(self, leading_colon: bool, r: Self) -> bool {
        r == (Path { leading_colon, ..self })
    }

    fn new<S: IntoPathSegment>(segments: Vec<S>) -> (r: Self) {
        path(segments)
    }

    fn leading_colon(self, leading_colon: bool) -> (r: Self) {
        Path { leading_colon, ..self }
    }
}

/// A path segment with the given name and no generic arguments.
pub fn path_segment<A: IntoIdent>(ident: A) -> (r: PathSegment)
    ensures
        ident.into_ident_ens(r.ident),
        r.arguments == PathArguments::Plain,
{
    let ident = ident.into_ident();
    PathSegment {
        ident: ident,
        arguments: PathArguments::Plain,
    }
}

/// The fluent surface of a path segment.
pub trait PathSeqmentBuilder: Sized {
    /// Holds iff `r` is the node that the constructor arguments produce.
    spec fn new_ens(ident: Ident, r: Self) -> bool;

    fn new<A: IntoIdent>(ident: A) -> (r: Self)
        ensures
            exists|ident_v: Ident| #[trigger] ident.into_ident_ens(ident_v) && Self::new_ens(ident_v, r),
    ;

    /// Holds iff `r` is `self` with the generic arguments replaced.
    spec fn arguments_ens(self, arguments: PathArguments, r: Self) -> bool;

    /// Replace the segment's generic arguments.
    fn arguments<A: IntoPathArguments>(self, arguments: A) -> (r: Self)
        ensures
            self.arguments_ens(arguments.path_arguments_of(), r),
    ;
}

impl PathSeqmentBuilder for PathSegment {
    open spec fn new_ens(ident: Ident, r: Self) -> bool {
        r.ident == ident && r.arguments == PathArguments::Plain
    }

    fn new<A: IntoIdent>(ident: A) -> (r: Self) {
        path_segment(ident)
    }

    open spec fn arguments_ens(self, arguments: PathArguments, r: Self) -> bool {
        r == (PathSegment { arguments: arguments, ..self })
    }

    fn arguments<A: IntoPathArguments>(self, arguments: A) -> (r: Self) {
        let arguments = arguments.into_path_arguments();
        PathSegment { arguments: arguments, ..self }
    }
}

/// Anything that can become segment arguments.
pub trait IntoPathArguments: Sized {
    /// The `PathArguments` value that `self` becomes.
    spec fn path_arguments_of(self) -> PathArguments;

    fn into_path_arguments(self) -> (r: PathArguments)
        ensures
            r == self.path_arguments_of(),
    ;
}

/// The identity conversion: a `PathArguments` stays exactly itself.
impl IntoPathArguments for PathArguments {
    open spec fn path_arguments_of(self) -> PathArguments {
        self
    }

    fn into_path_arguments(self) -> (r: PathArguments) {
        self
    }
}

impl IntoPathArguments for AngleBracketedGenericArguments {
    open spec fn path_arguments_of(self) -> PathArguments {
        PathArguments::AngleBracketed(self)
    }

    fn into_path_arguments(self) -> (r: PathArguments) {
        PathArguments::AngleBracketed(self)
    }
}

impl IntoPathArguments for ParenthesizedGenericArguments {
    open spec fn path_arguments_of(self) -> PathArguments {
        PathArguments::Parenthesized(self)
    }

    fn into_path_arguments(self) -> (r: PathArguments) {
        PathArguments::Parenthesized(self)
    }
}

/// Anything that can become a generic argument.
pub trait IntoGenericArgument: Sized {
    /// The `GenericArgument` value that `self` becomes.
    spec fn generic_argument_of(self) -> GenericArgument;

    fn into_generic_argument(self) -> (r: GenericArgument)
        ensures
            r == self.generic_argument_of(),
    ;
}

/// The identity conversion: a `GenericArgument` stays exactly itself.
impl IntoGenericArgument for GenericArgument {
    open spec fn generic_argument_of(self) -> GenericArgument {
        self
    }

    fn into_generic_argument(self) -> (r: GenericArgument) {
        self
    }
}

impl IntoGenericArgument for Lifetime {
    open spec fn generic_argument_of(self) -> GenericArgument {
        GenericArgument::Lifetime(self)
    }

    fn into_generic_argument(self) -> (r: GenericArgument) {
        GenericArgument::Lifetime(self)
    }
}

impl IntoGenericArgument for Type {
    open spec fn generic_argument_of(self) -> GenericArgument {
        GenericArgument::Type(self)
    }

    fn into_generic_argument(self) -> (r: GenericArgument) {
        GenericArgument::Type(self)
    }
}

impl IntoGenericArgument for Expr {
    open spec fn generic_argument_of(self) -> GenericArgument {
        GenericArgument::Const(self)
    }

    fn into_generic_argument(self) -> (r: GenericArgument) {
        GenericArgument::Const(self)
    }
}

impl IntoGenericArgument for AssocType {
    open spec fn generic_argument_of(self) -> GenericArgument {
        GenericArgument::AssocType(self)
    }

    fn into_generic_argument(self) -> (r: GenericArgument) {
        GenericArgument::AssocType(self)
    }
}

impl IntoGenericArgument for AssocConst {
    open spec fn generic_argument_of(self) -> GenericArgument {
        GenericArgument::AssocConst(self)
    }

    fn into_generic_argument(self) -> (r: GenericArgument) {
        GenericArgument::AssocConst(self)
    }
}

impl IntoGenericArgument for Constraint {
    open spec fn generic_argument_of(self) -> GenericArgument {
        GenericArgument::Constraint(self)
    }

    fn into_generic_argument(self) -> (r: GenericArgument) {
        GenericArgument::Constraint(self)
    }
}

/// Angle-bracketed generic arguments without the turbofish separator.
pub fn angle_bracketed_generic_arguments<A: IntoGenericArgument>(args: Vec<A>) -> (r: AngleBracketedGenericArguments)
    ensures
        r.colon2_token == false,
        r.args@ == args@.map_values(|e: A| e.generic_argument_of()),
{
    let args = into_generic_argument_vec(args);
    AngleBracketedGenericArguments {
        colon2_token: false,
        args: args,
    }
}

/// The fluent surface of angle-bracketed generic arguments.
pub trait AngleBracketedGenericArgumentsBuilder: Sized {
    /// Holds iff `r` is the node that the constructor arguments produce.
    spec fn new_ens(args: Seq<GenericArgument>, r: Self) -> bool;

    fn new<A: IntoGenericArgument>(args: Vec<A>) -> (r: Self)
        ensures
            Self::new_ens(args@.map_values(|e: A| e.generic_argument_of()), r),
    ;

    /// Holds iff `r` is `self` with the turbofish marker set as given.
    spec fn colon2_token_ens(self, colon2_token: bool, r: Self) -> bool;

    /// Keep or drop the turbofish separator before the brackets.
    fn colon2_token(self, colon2_token: bool) -> (r: Self)
        ensures
            self.colon2_token_ens(colon2_token, r),
    ;
}

impl AngleBracketedGenericArgumentsBuilder for AngleBracketedGenericArguments {
    open spec fn new_ens(args: Seq<GenericArgument>, r: Self) -> bool {
        r.colon2_token == false && r.args@ == args
    }

    fn new<A: IntoGenericArgument>(args: Vec<A>) -> (r: Self) {
        angle_bracketed_generic_arguments(args)
    }

    open spec fn colon2_token_ens(self, colon2_token: bool, r: Self) -> bool {
        r == (AngleBracketedGenericArguments { colon2_token: colon2_token, ..self })
    }

    fn colon2_token(self, colon2_token: bool) -> (r: Self) {
        AngleBracketedGenericArguments { colon2_token: colon2_token, ..self }
    }
}

/// An associated-type binding `ident = ty`.
pub fn assoc_type<A: IntoIdent, B: IntoType>(ident: A, ty: B) -> (r: AssocType)
    ensures
        ident.into_ident_ens(r.ident),
        r.generics is None,
        r.ty == ty.type_of(),
{
    let ident = ident.into_ident();
    let ty = ty.into_type();
    AssocType {
        ident: ident,
        generics: None,
        ty: ty,
    }
}

/// The fluent surface of an associated-type binding.
pub trait AssocTypeBuilder: PathGenericsBuilder {
    /// Holds iff `r` is the node that the constructor arguments produce.
    spec fn new_ens(ident: Ident, ty: Type, r: Self) -> bool;

    fn new<A: IntoIdent, B: IntoType>(ident: A, ty: B) -> (r: Self)
        ensures
            exists|ident_v: Ident| #[trigger] ident.into_ident_ens(ident_v) && Self::new_ens(ident_v, ty.type_of(), r),
    ;
}

impl AssocTypeBuilder for AssocType {
    open spec fn new_ens(ident: Ident, ty: Type, r: Self) -> bool {
        r.ident == ident && r.generics is None && r.ty == ty
    }

    fn new<A: IntoIdent, B: IntoType>(ident: A, ty: B) -> (r: Self) {
        assoc_type(ident, ty)
    }
}

/// An associated-const binding `ident = value`.
pub fn assoc_const<A: IntoIdent, B: IntoExpr>(ident: A, value: B) -> (r: AssocConst)
    ensures
        ident.into_ident_ens(r.ident),
        r.generics is None,
        r.value == value.expr_of(),
{
    let ident = ident.into_ident();
    let value = value.into_expr();
    AssocConst {
        ident: ident,
        generics: None,
        value: value,
    }
}

/// The fluent surface of an associated-const binding.
pub trait AssocConstBuilder: PathGenericsBuilder {
    /// Holds iff `r` is the node that the constructor arguments produce.
    spec fn new_ens(ident: Ident, value: Expr, r: Self) -> bool;

    fn new<A: IntoIdent, B: IntoExpr>(ident: A, value: B) -> (r: Self)
        ensures
            exists|ident_v: Ident| #[trigger] ident.into_ident_ens(ident_v) && Self::new_ens(ident_v, value.expr_of(), r),
    ;
}

impl AssocConstBuilder for AssocConst {
    open spec fn new_ens(ident: Ident, value: Expr, r: Self) -> bool {
        r.ident == ident && r.generics is None && r.value == value
    }

    fn new<A: IntoIdent, B: IntoExpr>(ident: A, value: B) -> (r: Self) {
        assoc_const(ident, value)
    }
}

/// An associated-type bound `ident: bounds`.
pub fn constraint<A: IntoIdent, B: IntoTypeParamBound>(ident: A, bounds: Vec<B>) -> (r: Constraint)
    ensures
        ident.into_ident_ens(r.ident),
        r.generics is None,
        r.bounds@ == bounds@.map_values(|e: B| e.type_param_bound_of()),
{
    let ident = ident.into_ident();
    let bounds = into_type_param_bound_vec(bounds);
    Constraint {
        ident: ident,
        generics: None,
        bounds: bounds,
    }
}

/// The fluent surface of an associated-type bound.
pub trait ConstraintBuilder: PathGenericsBuilder {
    /// Holds iff `r` is the node that the constructor arguments produce.
    spec fn new_ens(ident: Ident, bounds: Seq<TypeParamBound>, r: Self) -> bool;

    fn new<A: IntoIdent, B: IntoTypeParamBound>(ident: A, bounds: Vec<B>) -> (r: Self)
        ensures
            exists|ident_v: Ident| #[trigger] ident.into_ident_ens(ident_v) && Self::new_ens(ident_v, bounds@.map_values(|e: B| e.type_param_bound_of()), r),
    ;
}

impl ConstraintBuilder for Constraint {
    open spec fn new_ens(ident: Ident, bounds: Seq<TypeParamBound>, r: Self) -> bool {
        r.ident == ident && r.generics is None && r.bounds@ == bounds
    }

    fn new<A: IntoIdent, B: IntoTypeParamBound>(ident: A, bounds: Vec<B>) -> (r: Self) {
        constraint(ident, bounds)
    }
}

/// Parenthesized function-like arguments with no explicit return type.
pub fn parenthesized_generic_arguments<A: IntoType>(inputs: Vec<A>) -> (r: ParenthesizedGenericArguments)
    ensures
        r.inputs@ == inputs@.map_values(|e: A| e.type_of()),
        r.output == ReturnType::Inferred,
{
    let inputs = into_type_vec(inputs);
    ParenthesizedGenericArguments {
        inputs: inputs,
        output: ReturnType::Inferred,
    }
}

/// The fluent surface of parenthesized function-like arguments.
pub trait ParenthesizedGenericArgumentsBuilder: OutputPropsBuilder {
    /// Holds iff `r` is the node that the constructor arguments produce.
    spec fn new_ens(inputs: Seq<Type>, r: Self) -> bool;

    fn new<A: IntoType>(inputs: Vec<A>) -> (r: Self)
        ensures
            Self::new_ens(inputs@.map_values(|e: A| e.type_of()), r),
    ;
}

impl ParenthesizedGenericArgumentsBuilder for ParenthesizedGenericArguments {
    open spec fn new_ens(inputs: Seq<Type>, r: Self) -> bool {
        r.inputs@ == inputs && r.output == ReturnType::Inferred
    }

    fn new<A: IntoType>(inputs: Vec<A>) -> (r: Self) {
        parenthesized_generic_arguments(inputs)
    }
}

/// An explicit self type standing before the given segment position.
pub fn q_self<A: IntoType>(ty: A, position: usize) -> (r: QSelf)
    ensures
        *r.ty == ty.type_of(),
        r.position == position,
        r.as_token == false,
{
    let ty = ty.into_type();
    QSelf {
        ty: Box::new(ty),
        position: position,
        as_token: false,
    }
}

/// The fluent surface of a path qualification.
pub trait QSelfBuilder: Sized {
    /// Holds iff `r` is the node that the constructor arguments produce.
    spec fn new_ens(ty: Type, position: usize, r: Self) -> bool;

    fn new<A: IntoType>(ty: A, position: usize) -> (r: Self)
        ensures
            Self::new_ens(ty.type_of(), position, r),
    ;

    /// Holds iff `r` is `self` with the `as` keyword marker set as given.
    spec fn as_token_ens(self, as_token: bool, r: Self) -> bool;

    /// Keep or drop the `as` keyword inside the qualification.
    fn as_token(self, as_token: bool) -> (r: Self)
        ensures
            self.as_token_ens(as_token, r),
    ;
}

impl QSelfBuilder for QSelf {
    open spec fn new_ens(ty: Type, position: usize, r: Self) -> bool {
        *r.ty == ty && r.position == position && r.as_token == false
    }

    fn new<A: IntoType>(ty: A, position: usize) -> (r: Self) {
        q_self(ty, position)
    }

    open spec fn as_token_ens(self, as_token: bool, r: Self) -> bool {
        r == (QSelf { as_token: as_token, ..self })
    }

    fn as_token(self, as_token: bool) -> (r: Self) {
        QSelf { as_token: as_token, ..self }
    }
}

impl PathGenericsBuilder for AssocType {
    open spec fn generics_ens(self, generics: AngleBracketedGenericArguments, r: Self) -> bool {
        r == (AssocType { generics: Some(generics), ..self })
    }

    fn generics(self, generics: AngleBracketedGenericArguments) -> (r: Self) {
        AssocType { generics: Some(generics), ..self }
    }
}

impl PathGenericsBuilder for AssocConst {
    open spec fn generics_ens(self, generics: AngleBracketedGenericArguments, r: Self) -> bool {
        r == (AssocConst { generics: Some(generics), ..self })
    }

    fn generics(self, generics: AngleBracketedGenericArguments) -> (r: Self) {
        AssocConst { generics: Some(generics), ..self }
    }
}

impl PathGenericsBuilder for Constraint {
    open spec fn generics_ens(self, generics: AngleBracketedGenericArguments, r: Self) -> bool {
        r == (Constraint { generics: Some(generics), ..self })
    }

    fn generics(self, generics: AngleBracketedGenericArguments) -> (r: Self) {
        Constraint { generics: Some(generics), ..self }
    }
}

impl OutputPropsBuilder for ParenthesizedGenericArguments {
    open spec fn output_ens(self, ty: Type, r: Self) -> bool {
        r == (ParenthesizedGenericArguments { output: r.output, ..self }) && (r.output matches ReturnType::Explicit(b)
            && *b == ty)
    }

    fn output<T: IntoType>(self, ty: T) -> (r: Self) {
        let ty = ty.into_type();
        ParenthesizedGenericArguments { output: ReturnType::Explicit(Box::new(ty)), ..self }
    }
}

} // verus!
