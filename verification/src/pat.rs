use vstd::prelude::*;
use crate::attr::{Attribute};
use crate::convert::{into_pat_vec};
use crate::expr::{ExprConst, ExprLit, ExprMacro, ExprPath, ExprRange, ExprStructBuilder, IntoMember, Member};
use crate::ident::{Ident, IntoIdent};
use crate::item::{ItemTraitBuilder};
use crate::lit::{Lit, TokenStream};
use crate::mac::{Macro};
use crate::path::{IntoPath, Path, QSelf, path};
use crate::props::{AttrsPropsBuilder, MutabilityPropsBuilder, QSelfPropsBuilder};
use crate::token::{Or, Paren};
use crate::ty::{IntoType, Type};

verus! {

/// A const block in pattern position shares the expression node's shape.
pub type PatConst = ExprConst;

/// A literal in pattern position shares the expression node's shape.
pub type PatLit = ExprLit;

/// A macro in pattern position shares the expression node's shape.
pub type PatMacro = ExprMacro;

/// A path in pattern position shares the expression node's shape.
pub type PatPath = ExprPath;

/// A range in pattern position shares the expression node's shape.
pub type PatRange = ExprRange;

/// A pattern, in any of its shapes.
#[derive(Debug, PartialEq, Eq)]
pub enum Pat {
    Const(PatConst),
    Ident(PatIdent),
    Lit(PatLit),
    Macro(PatMacro),
    Or(PatOr),
    Paren(PatParen),
    Path(PatPath),
    Range(PatRange),
    Reference(PatReference),
    Rest(PatRest),
    Slice(PatSlice),
    Struct(PatStruct),
    Tuple(PatTuple),
    TupleStruct(PatTupleStruct),
    Type(PatType),
    Verbatim(TokenStream),
    Wild(PatWild),
}

/// A pattern binding a name, optionally by reference, mutably, or over a subpattern.
#[derive(Debug, PartialEq, Eq)]
pub struct PatIdent {
    pub attrs: Vec<Attribute>,
    pub by_ref: bool,
    pub mutability: bool,
    pub ident: Ident,
    pub subpat: Option<Box<Pat>>,
}

/// An or-pattern over several cases.
#[derive(Debug, PartialEq, Eq)]
pub struct PatOr {
    pub attrs: Vec<Attribute>,
    pub leading_vert: bool,
    pub cases: Vec<Pat>,
}

/// A parenthesized pattern.
#[derive(Debug, PartialEq, Eq)]
pub struct PatParen {
    pub attrs: Vec<Attribute>,
    pub pat: Box<Pat>,
}

/// A reference pattern.
#[derive(Debug, PartialEq, Eq)]
pub struct PatReference {
    pub attrs: Vec<Attribute>,
    pub mutability: bool,
    pub pat: Box<Pat>,
}

/// The rest pattern `..`.
#[derive(Debug, PartialEq, Eq)]
pub struct PatRest {
    pub attrs: Vec<Attribute>,
}

/// A slice pattern.
#[derive(Debug, PartialEq, Eq)]
pub struct PatSlice {
    pub attrs: Vec<Attribute>,
    pub elems: Vec<Pat>,
}

/// A struct pattern with named fields and an optional rest.
#[derive(Debug, PartialEq, Eq)]
pub struct PatStruct {
    pub attrs: Vec<Attribute>,
    pub qself: Option<QSelf>,
    pub path: Path,
    pub fields: Vec<FieldPat>,
    pub rest: Option<PatRest>,
}

/// A tuple pattern.
#[derive(Debug, PartialEq, Eq)]
pub struct PatTuple {
    pub attrs: Vec<Attribute>,
    pub elems: Vec<Pat>,
}

/// A tuple-struct pattern.
#[derive(Debug, PartialEq, Eq)]
pub struct PatTupleStruct {
    pub attrs: Vec<Attribute>,
    pub qself: Option<QSelf>,
    pub path: Path,
    pub elems: Vec<Pat>,
}

/// A pattern ascribed with a type.
#[derive(Debug, PartialEq, Eq)]
pub struct PatType {
    pub attrs: Vec<Attribute>,
    pub pat: Box<Pat>,
    pub ty: Box<Type>,
}

/// The wildcard pattern `_`.
#[derive(Debug, PartialEq, Eq)]
pub struct PatWild {
    pub attrs: Vec<Attribute>,
}

/// One field of a struct pattern.
#[derive(Debug, PartialEq, Eq)]
pub struct FieldPat {
    pub attrs: Vec<Attribute>,
    pub member: Member,
    pub colon_token: bool,
    pub pat: Box<Pat>,
}

/// Anything that can become a pattern.
pub trait IntoPat: Sized {
    /// The `Pat` value that `self` becomes.
    spec fn pat_of(self) -> Pat;

    fn into_pat(self) -> (r: Pat)
        ensures
            r == self.pat_of(),
    ;
}

/// The identity conversion: a `Pat` stays exactly itself.
impl IntoPat for Pat {
    open spec fn pat_of(self) -> Pat {
        self
    }

    fn into_pat(self) -> (r: Pat) {
        self
    }
}

impl IntoPat for PatConst {
    open spec fn pat_of(self) -> Pat {
        Pat::Const(self)
    }

    fn into_pat(self) -> (r: Pat) {
        Pat::Const(self)
    }
}

impl IntoPat for PatIdent {
    open spec fn pat_of(self) -> Pat {
        Pat::Ident(self)
    }

    fn into_pat(self) -> (r: Pat) {
        Pat::Ident(self)
    }
}

impl IntoPat for PatLit {
    open spec fn pat_of(self) -> Pat {
        Pat::Lit(self)
    }

    fn into_pat(self) -> (r: Pat) {
        Pat::Lit(self)
    }
}

impl IntoPat for PatMacro {
    open spec fn pat_of(self) -> Pat {
        Pat::Macro(self)
    }

    fn into_pat(self) -> (r: Pat) {
        Pat::Macro(self)
    }
}

impl IntoPat for PatOr {
    open spec fn pat_of(self) -> Pat {
        Pat::Or(self)
    }

    fn into_pat(self) -> (r: Pat) {
        Pat::Or(self)
    }
}

impl IntoPat for PatParen {
    open spec fn pat_of(self) -> Pat {
        Pat::Paren(self)
    }

    fn into_pat(self) -> (r: Pat) {
        Pat::Paren(self)
    }
}

impl IntoPat for PatPath {
    open spec fn pat_of(self) -> Pat {
        Pat::Path(self)
    }

    fn into_pat(self) -> (r: Pat) {
        Pat::Path(self)
    }
}

impl IntoPat for PatRange {
    open spec fn pat_of(self) -> Pat {
        Pat::Range(self)
    }

    fn into_pat(self) -> (r: Pat) {
        Pat::Range(self)
    }
}

impl IntoPat for PatReference {
    open spec fn pat_of(self) -> Pat {
        Pat::Reference(self)
    }

    fn into_pat(self) -> (r: Pat) {
        Pat::Reference(self)
    }
}

impl IntoPat for PatRest {
    open spec fn pat_of(self) -> Pat {
        Pat::Rest(self)
    }

    fn into_pat(self) -> (r: Pat) {
        Pat::Rest(self)
    }
}

impl IntoPat for PatSlice {
    open spec fn pat_of(self) -> Pat {
        Pat::Slice(self)
    }

    fn into_pat(self) -> (r: Pat) {
        Pat::Slice(self)
    }
}

impl IntoPat for PatStruct {
    open spec fn pat_of(self) -> Pat {
        Pat::Struct(self)
    }

    fn into_pat(self) -> (r: Pat) {
        Pat::Struct(self)
    }
}

impl IntoPat for PatTuple {
    open spec fn pat_of(self) -> Pat {
        Pat::Tuple(self)
    }

    fn into_pat(self) -> (r: Pat) {
        Pat::Tuple(self)
    }
}

impl IntoPat for PatTupleStruct {
    open spec fn pat_of(self) -> Pat {
        Pat::TupleStruct(self)
    }

    fn into_pat(self) -> (r: Pat) {
        Pat::TupleStruct(self)
    }
}

impl IntoPat for PatType {
    open spec fn pat_of(self) -> Pat {
        Pat::Type(self)
    }

    fn into_pat(self) -> (r: Pat) {
        Pat::Type(self)
    }
}

impl IntoPat for TokenStream {
    open spec fn pat_of(self) -> Pat {
        Pat::Verbatim(self)
    }

    fn into_pat(self) -> (r: Pat) {
        Pat::Verbatim(self)
    }
}

impl IntoPat for PatWild {
    open spec fn pat_of(self) -> Pat {
        Pat::Wild(self)
    }

    fn into_pat(self) -> (r: Pat) {
        Pat::Wild(self)
    }
}

/// A plain binding of the given name.
pub fn pat_ident<A: IntoIdent>(ident: A) -> (r: PatIdent)
    ensures
        r.attrs@ == Seq::<Attribute>::empty(),
        r.by_ref == false,
        r.mutability == false,
        ident.into_ident_ens(r.ident),
        r.subpat is None,
{
    let ident = ident.into_ident();
    PatIdent {
        attrs: Vec::new(),
        by_ref: false,
        mutability: false,
        ident: ident,
        subpat: None,
    }
}

/// The fluent surface of a binding pattern.
pub trait PatIdentBuilder: AttrsPropsBuilder + MutabilityPropsBuilder {
    /// Holds iff `r` is the node that the constructor arguments produce.
    spec fn new_ens(ident: Ident, r: Self) -> bool;

    fn new<A: IntoIdent>(ident: A) -> (r: Self)
        ensures
            exists|ident_v: Ident| #[trigger] ident.into_ident_ens(ident_v) && Self::new_ens(ident_v, r),
    ;

    /// Holds iff `r` is `self` with the by-reference marker set as given.
    spec fn by_ref_ens(self, by_ref: bool, r: Self) -> bool;

    /// Bind by reference, or by value again.
    fn by_ref(self, by_ref: bool) -> (r: Self)
        ensures
            self.by_ref_ens(by_ref, r),
    ;

    /// Holds iff `r` is `self` with the subpattern set.
    spec fn subpat_ens(self, subpat: Pat, r: Self) -> bool;

    /// Attach a subpattern behind an at sign.
    fn subpat<A: IntoPat>(self, subpat: A) -> (r: Self)
        ensures
            self.subpat_ens(subpat.pat_of(), r),
    ;
}

impl PatIdentBuilder for PatIdent {
    open spec fn new_ens(ident: Ident, r: Self) -> bool {
        r.attrs@ == Seq::<Attribute>::empty() && r.by_ref == false && r.mutability == false && r.ident == ident && r.subpat is None
    }

    fn new<A: IntoIdent>(ident: A) -> (r: Self) {
        pat_ident(ident)
    }

    open spec fn by_ref_ens(self, by_ref: bool, r: Self) -> bool {
        r == (PatIdent { by_ref: by_ref, ..self })
    }

    fn by_ref(self, by_ref: bool) -> (r: Self) {
        PatIdent { by_ref: by_ref, ..self }
    }

    open spec fn subpat_ens(self, subpat: Pat, r: Self) -> bool {
        r == (PatIdent { subpat: r.subpat, ..self }) && (r.subpat matches Some(b) && *b == subpat)
    }

    fn subpat<A: IntoPat>(self, subpat: A) -> (r: Self) {
        let subpat = subpat.into_pat();
        PatIdent { subpat: Some(Box::new(subpat)), ..self }
    }
}

/// An or-pattern over the given cases, without a leading bar.
pub fn pat_or<A: IntoPat>(cases: Vec<A>) -> (r: PatOr)
    ensures
        r.attrs@ == Seq::<Attribute>::empty(),
        r.leading_vert == false,
        r.cases@ == cases@.map_values(|e: A| e.pat_of()),
{
    let cases = into_pat_vec(cases);
    PatOr {
        attrs: Vec::new(),
        leading_vert: false,
        cases: cases,
    }
}

/// The fluent surface of an or-pattern.
pub trait PatOrBuilder: AttrsPropsBuilder {
    /// Holds iff `r` is the node that the constructor arguments produce.
    spec fn new_ens(cases: Seq<Pat>, r: Self) -> bool;

    fn new<A: IntoPat>(cases: Vec<A>) -> (r: Self)
        ensures
            Self::new_ens(cases@.map_values(|e: A| e.pat_of()), r),
    ;
}

impl PatOrBuilder for PatOr {
    open spec fn new_ens(cases: Seq<Pat>, r: Self) -> bool {
        r.attrs@ == Seq::<Attribute>::empty() && r.leading_vert == false && r.cases@ == cases
    }

    fn new<A: IntoPat>(cases: Vec<A>) -> (r: Self) {
        pat_or(cases)
    }
}

/// A parenthesized pattern.
pub fn pat_paren<A: IntoPat>(pat: A) -> (r: PatParen)
    ensures
        r.attrs@ == Seq::<Attribute>::empty(),
        *r.pat == pat.pat_of(),
{
    let pat = pat.into_pat();
    PatParen {
        attrs: Vec::new(),
        pat: Box::new(pat),
    }
}

/// The fluent surface of a parenthesized pattern.
pub trait PatParenBuilder: AttrsPropsBuilder {
    /// Holds iff `r` is the node that the constructor arguments produce.
    spec fn new_ens(pat: Pat, r: Self) -> bool;

    fn new<A: IntoPat>(pat: A) -> (r: Self)
        ensures
            Self::new_ens(pat.pat_of(), r),
    ;
}

impl PatParenBuilder for PatParen {
    open spec fn new_ens(pat: Pat, r: Self) -> bool {
        r.attrs@ == Seq::<Attribute>::empty() && *r.pat == pat
    }

    fn new<A: IntoPat>(pat: A) -> (r: Self) {
        pat_paren(pat)
    }
}

/// An immutable reference pattern.
pub fn pat_reference<A: IntoPat>(pat: A) -> (r: PatReference)
    ensures
        r.attrs@ == Seq::<Attribute>::empty(),
        r.mutability == false,
        *r.pat == pat.pat_of(),
{
    let pat = pat.into_pat();
    PatReference {
        attrs: Vec::new(),
        mutability: false,
        pat: Box::new(pat),
    }
}

/// The fluent surface of a reference pattern.
pub trait PatReferenceBuilder: AttrsPropsBuilder + MutabilityPropsBuilder {
    /// Holds iff `r` is the node that the constructor arguments produce.
    spec fn new_ens(pat: Pat, r: Self) -> bool;

    fn new<A: IntoPat>(pat: A) -> (r: Self)
        ensures
            Self::new_ens(pat.pat_of(), r),
    ;
}

impl PatReferenceBuilder for PatReference {
    open spec fn new_ens(pat: Pat, r: Self) -> bool {
        r.attrs@ == Seq::<Attribute>::empty() && r.mutability == false && *r.pat == pat
    }

    fn new<A: IntoPat>(pat: A) -> (r: Self) {
        pat_reference(pat)
    }
}

/// The rest pattern `..`.
pub fn pat_rest() -> (r: PatRest)
    ensures
        r.attrs@ == Seq::<Attribute>::empty(),
{
    PatRest {
        attrs: Vec::new(),
    }
}

/// The fluent surface of the rest pattern.
pub trait PatRestBuilder: AttrsPropsBuilder {
    /// Holds iff `r` is the node that the constructor arguments produce.
    spec fn new_ens(r: Self) -> bool;

    fn new() -> (r: Self)
        ensures
            Self::new_ens(r),
    ;
}

impl PatRestBuilder for PatRest {
    open spec fn new_ens(r: Self) -> bool {
        r.attrs@ == Seq::<Attribute>::empty()
    }

    fn new() -> (r: Self) {
        pat_rest()
    }
}

/// A slice pattern over the given elements.
pub fn pat_slice<A: IntoPat>(elems: Vec<A>) -> (r: PatSlice)
    ensures
        r.attrs@ == Seq::<Attribute>::empty(),
        r.elems@ == elems@.map_values(|e: A| e.pat_of()),
{
    let elems = into_pat_vec(elems);
    PatSlice {
        attrs: Vec::new(),
        elems: elems,
    }
}

/// The fluent surface of a slice pattern.
pub trait PatSliceBuilder: AttrsPropsBuilder {
    /// Holds iff `r` is the node that the constructor arguments produce.
    spec fn new_ens(elems: Seq<Pat>, r: Self) -> bool;

    fn new<A: IntoPat>(elems: Vec<A>) -> (r: Self)
        ensures
            Self::new_ens(elems@.map_values(|e: A| e.pat_of()), r),
    ;
}

impl PatSliceBuilder for PatSlice {
    open spec fn new_ens(elems: Seq<Pat>, r: Self) -> bool {
        r.attrs@ == Seq::<Attribute>::empty() && r.elems@ == elems
    }

    fn new<A: IntoPat>(elems: Vec<A>) -> (r: Self) {
        pat_slice(elems)
    }
}

/// A struct pattern over the given path and fields, without a rest.
pub fn pat_struct<A: IntoPath>(path: A, fields: Vec<FieldPat>) -> (r: PatStruct)
    ensures
        r.attrs@ == Seq::<Attribute>::empty(),
        r.qself is None,
        path.into_path_ens(r.path),
        r.fields == fields,
        r.rest is None,
{
    let path = path.into_path();
    PatStruct {
        attrs: Vec::new(),
        qself: None,
        path: path,
        fields: fields,
        rest: None,
    }
}

/// The fluent surface of a struct pattern.
pub trait PatStructBuilder: AttrsPropsBuilder + QSelfPropsBuilder {
    /// Holds iff `r` is the node that the constructor arguments produce.
    spec fn new_ens(path: Path, fields: Vec<FieldPat>, r: Self) -> bool;

    fn new<A: IntoPath>(path: A, fields: Vec<FieldPat>) -> (r: Self)
        ensures
            exists|path_v: Path| #[trigger] path.into_path_ens(path_v) && Self::new_ens(path_v, fields, r),
    ;

    /// Holds iff `r` is `self` with the rest pattern set.
    spec fn rest_ens(self, rest: PatRest, r: Self) -> bool;

    /// Attach a trailing rest pattern.
    fn rest(self, rest: PatRest) -> (r: Self)
        ensures
            self.rest_ens(rest, r),
    ;
}

impl PatStructBuilder for PatStruct {
    open spec fn new_ens(path: Path, fields: Vec<FieldPat>, r: Self) -> bool {
        r.attrs@ == Seq::<Attribute>::empty() && r.qself is None && r.path == path && r.fields == fields && r.rest is None
    }

    fn new<A: IntoPath>(path: A, fields: Vec<FieldPat>) -> (r: Self) {
        pat_struct(path, fields)
    }

    open spec fn rest_ens(self, rest: PatRest, r: Self) -> bool {
        r == (PatStruct { rest: Some(rest), ..self })
    }

    fn rest(self, rest: PatRest) -> (r: Self) {
        PatStruct { rest: Some(rest), ..self }
    }
}

/// A tuple pattern over the given elements.
pub fn pat_tuple<A: IntoPat>(elems: Vec<A>) -> (r: PatTuple)
    ensures
        r.attrs@ == Seq::<Attribute>::empty(),
        r.elems@ == elems@.map_values(|e: A| e.pat_of()),
{
    let elems = into_pat_vec(elems);
    PatTuple {
        attrs: Vec::new(),
        elems: elems,
    }
}

/// The fluent surface of a tuple pattern.
pub trait PatTupleBuilder: AttrsPropsBuilder {
    /// Holds iff `r` is the node that the constructor arguments produce.
    spec fn new_ens(elems: Seq<Pat>, r: Self) -> bool;

    fn new<A: IntoPat>(elems: Vec<A>) -> (r: Self)
        ensures
            Self::new_ens(elems@.map_values(|e: A| e.pat_of()), r),
    ;
}

impl PatTupleBuilder for PatTuple {
    open spec fn new_ens(elems: Seq<Pat>, r: Self) -> bool {
        r.attrs@ == Seq::<Attribute>::empty() && r.elems@ == elems
    }

    fn new<A: IntoPat>(elems: Vec<A>) -> (r: Self) {
        pat_tuple(elems)
    }
}

/// A tuple-struct pattern over the given path and elements.
pub fn pat_tuple_struct<A: IntoPath, B: IntoPat>(path: A, elems: Vec<B>) -> (r: PatTupleStruct)
    ensures
        r.attrs@ == Seq::<Attribute>::empty(),
        r.qself is None,
        path.into_path_ens(r.path),
        r.elems@ == elems@.map_values(|e: B| e.pat_of()),
{
    let path = path.into_path();
    let elems = into_pat_vec(elems);
    PatTupleStruct {
        attrs: Vec::new(),
        qself: None,
        path: path,
        elems: elems,
    }
}

/// The fluent surface of a tuple-struct pattern.
pub trait PatTupleStructBuilder: AttrsPropsBuilder + QSelfPropsBuilder {
    /// Holds iff `r` is the node that the constructor arguments produce.
    spec fn new_ens(path: Path, elems: Seq<Pat>, r: Self) -> bool;

    fn new<A: IntoPath, B: IntoPat>(path: A, elems: Vec<B>) -> (r: Self)
        ensures
            exists|path_v: Path| #[trigger] path.into_path_ens(path_v) && Self::new_ens(path_v, elems@.map_values(|e: B| e.pat_of()), r),
    ;
}

impl PatTupleStructBuilder for PatTupleStruct {
    open spec fn new_ens(path: Path, elems: Seq<Pat>, r: Self) -> bool {
        r.attrs@ == Seq::<Attribute>::empty() && r.qself is None && r.path == path && r.elems@ == elems
    }

    fn new<A: IntoPath, B: IntoPat>(path: A, elems: Vec<B>) -> (r: Self) {
        pat_tuple_struct(path, elems)
    }
}

/// A pattern ascribed with a type.
pub fn pat_type<A: IntoPat, B: IntoType>(pat: A, ty: B) -> (r: PatType)
    ensures
        r.attrs@ == Seq::<Attribute>::empty(),
        *r.pat == pat.pat_of(),
        *r.ty == ty.type_of(),
{
    let pat = pat.into_pat();
    let ty = ty.into_type();
    PatType {
        attrs: Vec::new(),
        pat: Box::new(pat),
        ty: Box::new(ty),
    }
}

/// The fluent surface of an ascribed pattern.
pub trait PatTypeBuilder: AttrsPropsBuilder {
    /// Holds iff `r` is the node that the constructor arguments produce.
    spec fn new_ens(pat: Pat, ty: Type, r: Self) -> bool;

    fn new<A: IntoPat, B: IntoType>(pat: A, ty: B) -> (r: Self)
        ensures
            Self::new_ens(pat.pat_of(), ty.type_of(), r),
    ;
}

impl PatTypeBuilder for PatType {
    open spec fn new_ens(pat: Pat, ty: Type, r: Self) -> bool {
        r.attrs@ == Seq::<Attribute>::empty() && *r.pat == pat && *r.ty == ty
    }

    fn new<A: IntoPat, B: IntoType>(pat: A, ty: B) -> (r: Self) {
        pat_type(pat, ty)
    }
}

/// The wildcard pattern `_`.
pub fn pat_wild() -> (r: PatWild)
    ensures
        r.attrs@ == Seq::<Attribute>::empty(),
{
    PatWild {
        attrs: Vec::new(),
    }
}

/// The fluent surface of the wildcard pattern.
pub trait PatWildBuilder: AttrsPropsBuilder {
    /// Holds iff `r` is the node that the constructor arguments produce.
    spec fn new_ens(r: Self) -> bool;

    fn new() -> (r: Self)
        ensures
            Self::new_ens(r),
    ;
}

impl PatWildBuilder for PatWild {
    open spec fn new_ens(r: Self) -> bool {
        r.attrs@ == Seq::<Attribute>::empty()
    }

    fn new() -> (r: Self) {
        pat_wild()
    }
}

/// One field of a struct pattern, in shorthand form.
pub fn field_pat<A: IntoMember, B: IntoPat>(member: A, pat: B) -> (r: FieldPat)
    ensures
        r.attrs@ == Seq::<Attribute>::empty(),
        r.member == member.member_of(),
        r.colon_token == false,
        *r.pat == pat.pat_of(),
{
    let member = member.into_member();
    let pat = pat.into_pat();
    FieldPat {
        attrs: Vec::new(),
        member: member,
        colon_token: false,
        pat: Box::new(pat),
    }
}

/// The fluent surface of a struct-pattern field.
pub trait FieldPatBuilder: AttrsPropsBuilder {
    /// Holds iff `r` is the node that the constructor arguments produce.
    spec fn new_ens(member: Member, pat: Pat, r: Self) -> bool;

    fn new<A: IntoMember, B: IntoPat>(member: A, pat: B) -> (r: Self)
        ensures
            Self::new_ens(member.member_of(), pat.pat_of(), r),
    ;

    /// Holds iff `r` is `self` with the colon marker set as given.
    spec fn colon_token_ens(self, colon_token: bool, r: Self) -> bool;

    /// Keep or drop the colon between member and pattern.
    fn colon_token(self, colon_token: bool) -> (r: Self)
        ensures
            self.colon_token_ens(colon_token, r),
    ;
}

impl FieldPatBuilder for FieldPat {
    open spec fn new_ens(member: Member, pat: Pat, r: Self) -> bool {
        r.attrs@ == Seq::<Attribute>::empty() && r.member == member && r.colon_token == false && *r.pat == pat
    }

    fn new<A: IntoMember, B: IntoPat>(member: A, pat: B) -> (r: Self) {
        field_pat(member, pat)
    }

    open spec fn colon_token_ens(self, colon_token: bool, r: Self) -> bool {
        r == (FieldPat { colon_token: colon_token, ..self })
    }

    fn colon_token(self, colon_token: bool) -> (r: Self) {
        FieldPat { colon_token: colon_token, ..self }
    }
}

impl AttrsPropsBuilder for PatIdent {
    open spec fn attr_ens(self, attr: Attribute, r: Self) -> bool {
        r == (PatIdent { attrs: r.attrs, ..self }) && r.attrs@ == self.attrs@.push(attr)
    }

    open spec fn attrs_ens(self, attrs: Vec<Attribute>, r: Self) -> bool {
        r == (PatIdent { attrs, ..self })
    }

    fn attr(self, attr: Attribute) -> (r: Self) {
        let mut node = self;
        node.attrs.push(attr);
        node
    }

    fn attrs(self, attrs: Vec<Attribute>) -> (r: Self) {
        PatIdent { attrs, ..self }
    }
}

impl AttrsPropsBuilder for PatOr {
    open spec fn attr_ens(self, attr: Attribute, r: Self) -> bool {
        r == (PatOr { attrs: r.attrs, ..self }) && r.attrs@ == self.attrs@.push(attr)
    }

    open spec fn attrs_ens(self, attrs: Vec<Attribute>, r: Self) -> bool {
        r == (PatOr { attrs, ..self })
    }

    fn attr(self, attr: Attribute) -> (r: Self) {
        let mut node = self;
        node.attrs.push(attr);
        node
    }

    fn attrs(self, attrs: Vec<Attribute>) -> (r: Self) {
        PatOr { attrs, ..self }
    }
}

impl AttrsPropsBuilder for PatParen {
    open spec fn attr_ens(self, attr: Attribute, r: Self) -> bool {
        r == (PatParen { attrs: r.attrs, ..self }) && r.attrs@ == self.attrs@.push(attr)
    }

    open spec fn attrs_ens(self, attrs: Vec<Attribute>, r: Self) -> bool {
        r == (PatParen { attrs, ..self })
    }

    fn attr(self, attr: Attribute) -> (r: Self) {
        let mut node = self;
        node.attrs.push(attr);
        node
    }

    fn attrs(self, attrs: Vec<Attribute>) -> (r: Self) {
        PatParen { attrs, ..self }
    }
}

impl AttrsPropsBuilder for PatReference {
    open spec fn attr_ens(self, attr: Attribute, r: Self) -> bool {
        r == (PatReference { attrs: r.attrs, ..self }) && r.attrs@ == self.attrs@.push(attr)
    }

    open spec fn attrs_ens(self, attrs: Vec<Attribute>, r: Self) -> bool {
        r == (PatReference { attrs, ..self })
    }

    fn attr(self, attr: Attribute) -> (r: Self) {
        let mut node = self;
        node.attrs.push(attr);
        node
    }

    fn attrs(self, attrs: Vec<Attribute>) -> (r: Self) {
        PatReference { attrs, ..self }
    }
}

impl AttrsPropsBuilder for PatRest {
    open spec fn attr_ens(self, attr: Attribute, r: Self) -> bool {
        r == (PatRest { attrs: r.attrs, ..self }) && r.attrs@ == self.attrs@.push(attr)
    }

    open spec fn attrs_ens(self, attrs: Vec<Attribute>, r: Self) -> bool {
        r == (PatRest { attrs, ..self })
    }

    fn attr(self, attr: Attribute) -> (r: Self) {
        let mut node = self;
        node.attrs.push(attr);
        node
    }

    fn attrs(self, attrs: Vec<Attribute>) -> (r: Self) {
        PatRest { attrs, ..self }
    }
}

impl AttrsPropsBuilder for PatSlice {
    open spec fn attr_ens(self, attr: Attribute, r: Self) -> bool {
        r == (PatSlice { attrs: r.attrs, ..self }) && r.attrs@ == self.attrs@.push(attr)
    }

    open spec fn attrs_ens(self, attrs: Vec<Attribute>, r: Self) -> bool {
        r == (PatSlice { attrs, ..self })
    }

    fn attr(self, attr: Attribute) -> (r: Self) {
        let mut node = self;
        node.attrs.push(attr);
        node
    }

    fn attrs(self, attrs: Vec<Attribute>) -> (r: Self) {
        PatSlice { attrs, ..self }
    }
}

impl AttrsPropsBuilder for PatStruct {
    open spec fn attr_ens(self, attr: Attribute, r: Self) -> bool {
        r == (PatStruct { attrs: r.attrs, ..self }) && r.attrs@ == self.attrs@.push(attr)
    }

    open spec fn attrs_ens(self, attrs: Vec<Attribute>, r: Self) -> bool {
        r == (PatStruct { attrs, ..self })
    }

    fn attr(self, attr: Attribute) -> (r: Self) {
        let mut node = self;
        node.attrs.push(attr);
        node
    }

    fn attrs(self, attrs: Vec<Attribute>) -> (r: Self) {
        PatStruct { attrs, ..self }
    }
}

impl AttrsPropsBuilder for PatTuple {
    open spec fn attr_ens(self, attr: Attribute, r: Self) -> bool {
        r == (PatTuple { attrs: r.attrs, ..self }) && r.attrs@ == self.attrs@.push(attr)
    }

    open spec fn attrs_ens(self, attrs: Vec<Attribute>, r: Self) -> bool {
        r == (PatTuple { attrs, ..self })
    }

    fn attr(self, attr: Attribute) -> (r: Self) {
        let mut node = self;
        node.attrs.push(attr);
        node
    }

    fn attrs(self, attrs: Vec<Attribute>) -> (r: Self) {
        PatTuple { attrs, ..self }
    }
}

impl AttrsPropsBuilder for PatTupleStruct {
    open spec fn attr_ens(self, attr: Attribute, r: Self) -> bool {
        r == (PatTupleStruct { attrs: r.attrs, ..self }) && r.attrs@ == self.attrs@.push(attr)
    }

    open spec fn attrs_ens(self, attrs: Vec<Attribute>, r: Self) -> bool {
        r == (PatTupleStruct { attrs, ..self })
    }

    fn attr(self, attr: Attribute) -> (r: Self) {
        let mut node = self;
        node.attrs.push(attr);
        node
    }

    fn attrs(self, attrs: Vec<Attribute>) -> (r: Self) {
        PatTupleStruct { attrs, ..self }
    }
}

impl AttrsPropsBuilder for PatType {
    open spec fn attr_ens(self, attr: Attribute, r: Self) -> bool {
        r == (PatType { attrs: r.attrs, ..self }) && r.attrs@ == self.attrs@.push(attr)
    }

    open spec fn attrs_ens(self, attrs: Vec<Attribute>, r: Self) -> bool {
        r == (PatType { attrs, ..self })
    }

    fn attr(self, attr: Attribute) -> (r: Self) {
        let mut node = self;
        node.attrs.push(attr);
        node
    }

    fn attrs(self, attrs: Vec<Attribute>) -> (r: Self) {
        PatType { attrs, ..self }
    }
}

impl AttrsPropsBuilder for PatWild {
    open spec fn attr_ens(self, attr: Attribute, r: Self) -> bool {
        r == (PatWild { attrs: r.attrs, ..self }) && r.attrs@ == self.attrs@.push(attr)
    }

    open spec fn attrs_ens(self, attrs: Vec<Attribute>, r: Self) -> bool {
        r == (PatWild { attrs, ..self })
    }

    fn attr(self, attr: Attribute) -> (r: Self) {
        let mut node = self;
        node.attrs.push(attr);
        node
    }

    fn attrs(self, attrs: Vec<Attribute>) -> (r: Self) {
        PatWild { attrs, ..self }
    }
}

impl AttrsPropsBuilder for FieldPat {
    open spec fn attr_ens(self, attr: Attribute, r: Self) -> bool {
        r == (FieldPat { attrs: r.attrs, ..self }) && r.attrs@ == self.attrs@.push(attr)
    }

    open spec fn attrs_ens(self, attrs: Vec<Attribute>, r: Self) -> bool {
        r == (FieldPat { attrs, ..self })
    }

    fn attr(self, attr: Attribute) -> (r: Self) {
        let mut node = self;
        node.attrs.push(attr);
        node
    }

    fn attrs(self, attrs: Vec<Attribute>) -> (r: Self) {
        FieldPat { attrs, ..self }
    }
}

impl MutabilityPropsBuilder for PatIdent {
    open spec fn mutability_ens(self, mutability: bool, r: Self) -> bool {
        r == (PatIdent { mutability, ..self })
    }

    fn mutability(self, mutability: bool) -> (r: Self) {
        PatIdent { mutability, ..self }
    }
}

impl MutabilityPropsBuilder for PatReference {
    open spec fn mutability_ens(self, mutability: bool, r: Self) -> bool {
        r == (PatReference { mutability, ..self })
    }

    fn mutability(self, mutability: bool) -> (r: Self) {
        PatReference { mutability, ..self }
    }
}

impl QSelfPropsBuilder for PatStruct {
    open spec fn qself_ens(self, qself: QSelf, r: Self) -> bool {
        r == (PatStruct { qself: Some(qself), ..self })
    }

    fn qself(self, qself: QSelf) -> (r: Self) {
        PatStruct { qself: Some(qself), ..self }
    }
}

impl QSelfPropsBuilder for PatTupleStruct {
    open spec fn qself_ens(self, qself: QSelf, r: Self) -> bool {
        r == (PatTupleStruct { qself: Some(qself), ..self })
    }

    fn qself(self, qself: QSelf) -> (r: Self) {
        PatTupleStruct { qself: Some(qself), ..self }
    }
}

} // verus!
