use vstd::prelude::*;
use crate::attr::{Attribute};
use crate::convert::{into_type_param_bound_vec, into_type_vec};
use crate::expr::{Expr, ExprClosureBuilder, IntoExpr};
use crate::generics::{BoundLifetimes, IntoTypeParamBound, PredicateTypeBuilder, TraitBoundBuilder, TypeParamBound};
use crate::ident::{Ident, IntoIdent, Lifetime};
use crate::item::{ReceiverBuilder, SignatureBuilder, variadic};
use crate::lit::{LitStr, TokenStream};
use crate::mac::{Macro};
use crate::path::{IntoPath, Path, QSelf, path};
use crate::props::{AttrsPropsBuilder, MutabilityPropsBuilder, OutputPropsBuilder, QSelfPropsBuilder, UnsafetyPropsBuilder};
use crate::token::{Paren};

verus! {

/// A type, in any of its shapes.
#[derive(Debug, PartialEq, Eq)]
pub enum Type {
    Array(TypeArray),
    BareFn(TypeBareFn),
    Group(TypeGroup),
    ImplTrait(TypeImplTrait),
    Infer(TypeInfer),
    Macro(TypeMacro),
    Never(TypeNever),
    Paren(TypeParen),
    Path(TypePath),
    Ptr(TypePtr),
    Reference(TypeReference),
    Slice(TypeSlice),
    TraitObject(TypeTraitObject),
    Tuple(TypeTuple),
    Verbatim(TokenStream),
}

/// A fixed-size array type `[T; n]`.
#[derive(Debug, PartialEq, Eq)]
pub struct TypeArray {
    pub elem: Box<Type>,
    pub len: Expr,
}

/// A bare function pointer type `fn(A) -> B`.
#[derive(Debug, PartialEq, Eq)]
pub struct TypeBareFn {
    pub lifetimes: Option<BoundLifetimes>,
    pub unsafety: bool,
    pub abi: Option<Abi>,
    pub inputs: Vec<BareFnArg>,
    pub variadic: Option<BareVariadic>,
    pub output: ReturnType,
}

/// A type kept grouped by an invisible delimiter.
#[derive(Debug, PartialEq, Eq)]
pub struct TypeGroup {
    pub elem: Box<Type>,
}

/// An `impl Trait` type.
#[derive(Debug, PartialEq, Eq)]
pub struct TypeImplTrait {
    pub bounds: Vec<TypeParamBound>,
}

/// The inferred type `_`.
#[derive(Debug, PartialEq, Eq)]
pub struct TypeInfer {
}

/// A macro in type position.
#[derive(Debug, PartialEq, Eq)]
pub struct TypeMacro {
    pub mac: Macro,
}

/// The never type `!`.
#[derive(Debug, PartialEq, Eq)]
pub struct TypeNever {
}

/// A parenthesized type.
#[derive(Debug, PartialEq, Eq)]
pub struct TypeParen {
    pub elem: Box<Type>,
}

/// A path naming a type, possibly qualified.
#[derive(Debug, PartialEq, Eq)]
pub struct TypePath {
    pub qself: Option<QSelf>,
    pub path: Path,
}

/// A raw pointer type, const or mutable.
#[derive(Debug, PartialEq, Eq)]
pub struct TypePtr {
    pub constness: bool,
    pub mutability: bool,
    pub elem: Box<Type>,
}

/// A reference type, with an optional lifetime and mutability.
#[derive(Debug, PartialEq, Eq)]
pub struct TypeReference {
    pub lifetime: Option<Lifetime>,
    pub mutability: bool,
    pub elem: Box<Type>,
}

/// A slice type `[T]`.
#[derive(Debug, PartialEq, Eq)]
pub struct TypeSlice {
    pub elem: Box<Type>,
}

/// A trait object type over the given bounds.
#[derive(Debug, PartialEq, Eq)]
pub struct TypeTraitObject {
    pub dyn_token: bool,
    pub bounds: Vec<TypeParamBound>,
}

/// A tuple type.
#[derive(Debug, PartialEq, Eq)]
pub struct TypeTuple {
    pub elems: Vec<Type>,
}

/// An extern ABI marking, optionally naming the convention.
#[derive(Debug, PartialEq, Eq)]
pub struct Abi {
    pub name: Option<LitStr>,
}

/// One argument of a bare function pointer type.
#[derive(Debug, PartialEq, Eq)]
pub struct BareFnArg {
    pub attrs: Vec<Attribute>,
    pub name: Option<Ident>,
    pub ty: Type,
}

/// The variadic tail of a bare function pointer type.
#[derive(Debug, PartialEq, Eq)]
pub struct BareVariadic {
    pub attrs: Vec<Attribute>,
    pub name: Option<Ident>,
    pub comma: bool,
}

/// A return-type annotation: absent, or an explicit arrow type.
#[derive(Debug, PartialEq, Eq)]
pub enum ReturnType {
    Inferred,
    Explicit(Box<Type>),
}

/// Anything that can become a type.
pub trait IntoType: Sized {
    /// The `Type` value that `self` becomes.
    spec fn type_of(self) -> Type;

    fn into_type(self) -> (r: Type)
        ensures
            r == self.type_of(),
    ;
}

/// The identity conversion: a `Type` stays exactly itself.
impl IntoType for Type {
    open spec fn type_of(self) -> Type {
        self
    }

    fn into_type(self) -> (r: Type) {
        self
    }
}

impl IntoType for TypeArray {
    open spec fn type_of(self) -> Type {
        Type::Array(self)
    }

    fn into_type(self) -> (r: Type) {
        Type::Array(self)
    }
}

impl IntoType for TypeBareFn {
    open spec fn type_of(self) -> Type {
        Type::BareFn(self)
    }

    fn into_type(self) -> (r: Type) {
        Type::BareFn(self)
    }
}

impl IntoType for TypeGroup {
    open spec fn type_of(self) -> Type {
        Type::Group(self)
    }

    fn into_type(self) -> (r: Type) {
        Type::Group(self)
    }
}

impl IntoType for TypeImplTrait {
    open spec fn type_of(self) -> Type {
        Type::ImplTrait(self)
    }

    fn into_type(self) -> (r: Type) {
        Type::ImplTrait(self)
    }
}

impl IntoType for TypeInfer {
    open spec fn type_of(self) -> Type {
        Type::Infer(self)
    }

    fn into_type(self) -> (r: Type) {
        Type::Infer(self)
    }
}

impl IntoType for TypeMacro {
    open spec fn type_of(self) -> Type {
        Type::Macro(self)
    }

    fn into_type(self) -> (r: Type) {
        Type::Macro(self)
    }
}

impl IntoType for TypeNever {
    open spec fn type_of(self) -> Type {
        Type::Never(self)
    }

    fn into_type(self) -> (r: Type) {
        Type::Never(self)
    }
}

impl IntoType for TypeParen {
    open spec fn type_of(self) -> Type {
        Type::Paren(self)
    }

    fn into_type(self) -> (r: Type) {
        Type::Paren(self)
    }
}

impl IntoType for TypePath {
    open spec fn type_of(self) -> Type {
        Type::Path(self)
    }

    fn into_type(self) -> (r: Type) {
        Type::Path(self)
    }
}

impl IntoType for TypePtr {
    open spec fn type_of(self) -> Type {
        Type::Ptr(self)
    }

    fn into_type(self) -> (r: Type) {
        Type::Ptr(self)
    }
}

impl IntoType for TypeReference {
    open spec fn type_of(self) -> Type {
        Type::Reference(self)
    }

    fn into_type(self) -> (r: Type) {
        Type::Reference(self)
    }
}

impl IntoType for TypeSlice {
    open spec fn type_of(self) -> Type {
        Type::Slice(self)
    }

    fn into_type(self) -> (r: Type) {
        Type::Slice(self)
    }
}

impl IntoType for TypeTraitObject {
    open spec fn type_of(self) -> Type {
        Type::TraitObject(self)
    }

    fn into_type(self) -> (r: Type) {
        Type::TraitObject(self)
    }
}

impl IntoType for TypeTuple {
    open spec fn type_of(self) -> Type {
        Type::Tuple(self)
    }

    fn into_type(self) -> (r: Type) {
        Type::Tuple(self)
    }
}

impl IntoType for TokenStream {
    open spec fn type_of(self) -> Type {
        Type::Verbatim(self)
    }

    fn into_type(self) -> (r: Type) {
        Type::Verbatim(self)
    }
}

/// An array type of the given element type and length expression.
pub fn type_array<A: IntoType, B: IntoExpr>(elem: A, len: B) -> (r: TypeArray)
    ensures
        *r.elem == elem.type_of(),
        r.len == len.expr_of(),
{
    let elem = elem.into_type();
    let len = len.into_expr();
    TypeArray {
        elem: Box::new(elem),
        len: len,
    }
}

/// The fluent surface of an array type.
pub trait TypeArrayBuilder: Sized {
    /// Holds iff `r` is the node that the constructor arguments produce.
    spec fn new_ens(elem: Type, len: Expr, r: Self) -> bool;

    fn new<A: IntoType, B: IntoExpr>(elem: A, len: B) -> (r: Self)
        ensures
            Self::new_ens(elem.type_of(), len.expr_of(), r),
    ;
}

impl TypeArrayBuilder for TypeArray {
    open spec fn new_ens(elem: Type, len: Expr, r: Self) -> bool {
        *r.elem == elem && r.len == len
    }

    fn new<A: IntoType, B: IntoExpr>(elem: A, len: B) -> (r: Self) {
        type_array(elem, len)
    }
}

/// A bare function pointer type over the given arguments.
pub fn type_bare_fn(inputs: Vec<BareFnArg>) -> (r: TypeBareFn)
    ensures
        r.lifetimes is None,
        r.unsafety == false,
        r.abi is None,
        r.inputs == inputs,
        r.variadic is None,
        r.output == ReturnType::Inferred,
{
    TypeBareFn {
        lifetimes: None,
        unsafety: false,
        abi: None,
        inputs: inputs,
        variadic: None,
        output: ReturnType::Inferred,
    }
}

/// The fluent surface of a bare function pointer type.
pub trait TypeBareFnBuilder: OutputPropsBuilder {
    /// Holds iff `r` is the node that the constructor arguments produce.
    spec fn new_ens(inputs: Vec<BareFnArg>, r: Self) -> bool;

    fn new(inputs: Vec<BareFnArg>) -> (r: Self)
        ensures
            Self::new_ens(inputs, r),
    ;

    /// Holds iff `r` is `self` with the lifetime binder replaced.
    spec fn lifetimes_ens(self, lifetimes: BoundLifetimes, r: Self) -> bool;

    /// Attach a `for<...>` lifetime binder.
    fn lifetimes(self, lifetimes: BoundLifetimes) -> (r: Self)
        ensures
            self.lifetimes_ens(lifetimes, r),
    ;

    /// Holds iff `r` is `self` with the unsafety marker set as given.
    spec fn unsafety_ens(self, unsafety: bool, r: Self) -> bool;

    /// Mark or unmark the function pointer unsafe.
    fn unsafety(self, unsafety: bool) -> (r: Self)
        ensures
            self.unsafety_ens(unsafety, r),
    ;

    /// Holds iff `r` is `self` with the ABI replaced.
    spec fn abi_ens(self, abi: Abi, r: Self) -> bool;

    /// Attach an extern ABI marking.
    fn abi(self, abi: Abi) -> (r: Self)
        ensures
            self.abi_ens(abi, r),
    ;

    /// Holds iff `r` is `self` with the variadic tail replaced.
    spec fn variadic_ens(self, variadic: BareVariadic, r: Self) -> bool;

    /// Attach a variadic tail.
    fn variadic(self, variadic: BareVariadic) -> (r: Self)
        ensures
            self.variadic_ens(variadic, r),
    ;
}

impl TypeBareFnBuilder for TypeBareFn {
    open spec fn new_ens(inputs: Vec<BareFnArg>, r: Self) -> bool {
        r.lifetimes is None && r.unsafety == false && r.abi is None && r.inputs == inputs && r.variadic is None && r.output == ReturnType::Inferred
    }

    fn new(inputs: Vec<BareFnArg>) -> (r: Self) {
        type_bare_fn(inputs)
    }

    open spec fn lifetimes_ens(self, lifetimes: BoundLifetimes, r: Self) -> bool {
        r == (TypeBareFn { lifetimes: Some(lifetimes), ..self })
    }

    fn lifetimes(self, lifetimes: BoundLifetimes) -> (r: Self) {
        TypeBareFn { lifetimes: Some(lifetimes), ..self }
    }

    open spec fn unsafety_ens(self, unsafety: bool, r: Self) -> bool {
        r == (TypeBareFn { unsafety: unsafety, ..self })
    }

    fn unsafety(self, unsafety: bool) -> (r: Self) {
        TypeBareFn { unsafety: unsafety, ..self }
    }

    open spec fn abi_ens(self, abi: Abi, r: Self) -> bool {
        r == (TypeBareFn { abi: Some(abi), ..self })
    }

    fn abi(self, abi: Abi) -> (r: Self) {
        TypeBareFn { abi: Some(abi), ..self }
    }

    open spec fn variadic_ens(self, variadic: BareVariadic, r: Self) -> bool {
        r == (TypeBareFn { variadic: Some(variadic), ..self })
    }

    fn variadic(self, variadic: BareVariadic) -> (r: Self) {
        TypeBareFn { variadic: Some(variadic), ..self }
    }
}

/// An invisibly grouped type.
pub fn type_group<A: IntoType>(elem: A) -> (r: TypeGroup)
    ensures
        *r.elem == elem.type_of(),
{
    let elem = elem.into_type();
    TypeGroup {
        elem: Box::new(elem),
    }
}

/// The fluent surface of a grouped type.
pub trait TypeGroupBuilder: Sized {
    /// Holds iff `r` is the node that the constructor arguments produce.
    spec fn new_ens(elem: Type, r: Self) -> bool;

    fn new<A: IntoType>(elem: A) -> (r: Self)
        ensures
            Self::new_ens(elem.type_of(), r),
    ;
}

impl TypeGroupBuilder for TypeGroup {
    open spec fn new_ens(elem: Type, r: Self) -> bool {
        *r.elem == elem
    }

    fn new<A: IntoType>(elem: A) -> (r: Self) {
        type_group(elem)
    }
}

/// An `impl Trait` type over the given bounds.
pub fn type_impl_trait<A: IntoTypeParamBound>(bounds: Vec<A>) -> (r: TypeImplTrait)
    ensures
        r.bounds@ == bounds@.map_values(|e: A| e.type_param_bound_of()),
{
    let bounds = into_type_param_bound_vec(bounds);
    TypeImplTrait {
        bounds: bounds,
    }
}

/// The fluent surface of an `impl Trait` type.
pub trait TypeImplTraitBuilder: Sized {
    /// Holds iff `r` is the node that the constructor arguments produce.
    spec fn new_ens(bounds: Seq<TypeParamBound>, r: Self) -> bool;

    fn new<A: IntoTypeParamBound>(bounds: Vec<A>) -> (r: Self)
        ensures
            Self::new_ens(bounds@.map_values(|e: A| e.type_param_bound_of()), r),
    ;
}

impl TypeImplTraitBuilder for TypeImplTrait {
    open spec fn new_ens(bounds: Seq<TypeParamBound>, r: Self) -> bool {
        r.bounds@ == bounds
    }

    fn new<A: IntoTypeParamBound>(bounds: Vec<A>) -> (r: Self) {
        type_impl_trait(bounds)
    }
}

/// The inferred type `_`.
pub fn type_infer() -> (r: TypeInfer)
    ensures
        r == (TypeInfer {  }),
{
    TypeInfer {  }
}

/// The fluent surface of the inferred type.
pub trait TypeInferBuilder: Sized {
    /// Holds iff `r` is the node that the constructor arguments produce.
    spec fn new_ens(r: Self) -> bool;

    fn new() -> (r: Self)
        ensures
            Self::new_ens(r),
    ;
}

impl TypeInferBuilder for TypeInfer {
    open spec fn new_ens(r: Self) -> bool {
        r == (TypeInfer {  })
    }

    fn new() -> (r: Self) {
        type_infer()
    }
}

/// A macro in type position.
pub fn type_macro(mac: Macro) -> (r: TypeMacro)
    ensures
        r.mac == mac,
{
    TypeMacro {
        mac: mac,
    }
}

/// The fluent surface of a macro type.
pub trait TypeMacroBuilder: Sized {
    /// Holds iff `r` is the node that the constructor arguments produce.
    spec fn new_ens(mac: Macro, r: Self) -> bool;

    fn new(mac: Macro) -> (r: Self)
        ensures
            Self::new_ens(mac, r),
    ;
}

impl TypeMacroBuilder for TypeMacro {
    open spec fn new_ens(mac: Macro, r: Self) -> bool {
        r.mac == mac
    }

    fn new(mac: Macro) -> (r: Self) {
        type_macro(mac)
    }
}

/// The never type `!`.
pub fn type_never() -> (r: TypeNever)
    ensures
        r == (TypeNever {  }),
{
    TypeNever {  }
}

/// The fluent surface of the never type.
pub trait TypeNeverBuilder: Sized {
    /// Holds iff `r` is the node that the constructor arguments produce.
    spec fn new_ens(r: Self) -> bool;

    fn new() -> (r: Self)
        ensures
            Self::new_ens(r),
    ;
}

impl TypeNeverBuilder for TypeNever {
    open spec fn new_ens(r: Self) -> bool {
        r == (TypeNever {  })
    }

    fn new() -> (r: Self) {
        type_never()
    }
}

/// A parenthesized type.
pub fn type_paren<A: IntoType>(elem: A) -> (r: TypeParen)
    ensures
        *r.elem == elem.type_of(),
{
    let elem = elem.into_type();
    TypeParen {
        elem: Box::new(elem),
    }
}

/// The fluent surface of a parenthesized type.
pub trait TypeParenBuilder: Sized {
    /// Holds iff `r` is the node that the constructor arguments produce.
    spec fn new_ens(elem: Type, r: Self) -> bool;

    fn new<A: IntoType>(elem: A) -> (r: Self)
        ensures
            Self::new_ens(elem.type_of(), r),
    ;
}

impl TypeParenBuilder for TypeParen {
    open spec fn new_ens(elem: Type, r: Self) -> bool {
        *r.elem == elem
    }

    fn new<A: IntoType>(elem: A) -> (r: Self) {
        type_paren(elem)
    }
}

/// A type named by the given path, unqualified.
pub fn type_path<A: IntoPath>(path: A) -> (r: TypePath)
    ensures
        r.qself is None,
        path.into_path_ens(r.path),
{
    let path = path.into_path();
    TypePath {
        qself: None,
        path: path,
    }
}

/// The fluent surface of a path type.
pub trait TypePathBuilder: QSelfPropsBuilder {
    /// Holds iff `r` is the node that the constructor arguments produce.
    spec fn new_ens(path: Path, r: Self) -> bool;

    fn new<A: IntoPath>(path: A) -> (r: Self)
        ensures
            exists|path_v: Path| #[trigger] path.into_path_ens(path_v) && Self::new_ens(path_v, r),
    ;
}

impl TypePathBuilder for TypePath {
    open spec fn new_ens(path: Path, r: Self) -> bool {
        r.qself is None && r.path == path
    }

    fn new<A: IntoPath>(path: A) -> (r: Self) {
        type_path(path)
    }
}

/// A `*const` raw pointer to the given type.
pub fn type_ptr_const<A: IntoType>(elem: A) -> (r: TypePtr)
    ensures
        r.constness == true,
        r.mutability == false,
        *r.elem == elem.type_of(),
{
    let elem = elem.into_type();
    TypePtr {
        constness: true,
        mutability: false,
        elem: Box::new(elem),
    }
}

/// A `*mut` raw pointer to the given type.
pub fn type_ptr_mut<A: IntoType>(elem: A) -> (r: TypePtr)
    ensures
        r.constness == false,
        r.mutability == true,
        *r.elem == elem.type_of(),
{
    let elem = elem.into_type();
    TypePtr {
        constness: false,
        mutability: true,
        elem: Box::new(elem),
    }
}

/// The fluent surface of a raw pointer type.
pub trait TypePtrBuilder: Sized {
    /// Holds iff `r` is the const pointer to `elem`.
    spec fn new_const_ens(elem: Type, r: Self) -> bool;

    /// Holds iff `r` is the mutable pointer to `elem`.
    spec fn new_mut_ens(elem: Type, r: Self) -> bool;

    fn new_const<A: IntoType>(elem: A) -> (r: Self)
        ensures
            Self::new_const_ens(elem.type_of(), r),
    ;

    fn new_mut<A: IntoType>(elem: A) -> (r: Self)
        ensures
            Self::new_mut_ens(elem.type_of(), r),
    ;
}

impl TypePtrBuilder for TypePtr {
    open spec fn new_const_ens(elem: Type, r: Self) -> bool {
        r.constness == true && r.mutability == false && *r.elem == elem
    }

    open spec fn new_mut_ens(elem: Type, r: Self) -> bool {
        r.constness == false && r.mutability == true && *r.elem == elem
    }

    fn new_const<A: IntoType>(elem: A) -> (r: Self) {
        type_ptr_const(elem)
    }

    fn new_mut<A: IntoType>(elem: A) -> (r: Self) {
        type_ptr_mut(elem)
    }
}

/// An immutable reference to the given type, with no lifetime.
pub fn type_reference<A: IntoType>(elem: A) -> (r: TypeReference)
    ensures
        r.lifetime is None,
        r.mutability == false,
        *r.elem == elem.type_of(),
{
    let elem = elem.into_type();
    TypeReference {
        lifetime: None,
        mutability: false,
        elem: Box::new(elem),
    }
}

/// The fluent surface of a reference type.
pub trait TypeReferenceBuilder: MutabilityPropsBuilder {
    /// Holds iff `r` is the node that the constructor arguments produce.
    spec fn new_ens(elem: Type, r: Self) -> bool;

    fn new<A: IntoType>(elem: A) -> (r: Self)
        ensures
            Self::new_ens(elem.type_of(), r),
    ;

    /// Holds iff `r` is `self` with the lifetime replaced.
    spec fn lifetime_ens(self, lifetime: Lifetime, r: Self) -> bool;

    /// Attach an explicit lifetime.
    fn lifetime(self, lifetime: Lifetime) -> (r: Self)
        ensures
            self.lifetime_ens(lifetime, r),
    ;
}

impl TypeReferenceBuilder for TypeReference {
    open spec fn new_ens(elem: Type, r: Self) -> bool {
        r.lifetime is None && r.mutability == false && *r.elem == elem
    }

    fn new<A: IntoType>(elem: A) -> (r: Self) {
        type_reference(elem)
    }

    open spec fn lifetime_ens(self, lifetime: Lifetime, r: Self) -> bool {
        r == (TypeReference { lifetime: Some(lifetime), ..self })
    }

    fn lifetime(self, lifetime: Lifetime) -> (r: Self) {
        TypeReference { lifetime: Some(lifetime), ..self }
    }
}

/// A slice type of the given element type.
pub fn type_slice<A: IntoType>(elem: A) -> (r: TypeSlice)
    ensures
        *r.elem == elem.type_of(),
{
    let elem = elem.into_type();
    TypeSlice {
        elem: Box::new(elem),
    }
}

/// The fluent surface of a slice type.
pub trait TypeSliceBuilder: Sized {
    /// Holds iff `r` is the node that the constructor arguments produce.
    spec fn new_ens(elem: Type, r: Self) -> bool;

    fn new<A: IntoType>(elem: A) -> (r: Self)
        ensures
            Self::new_ens(elem.type_of(), r),
    ;
}

impl TypeSliceBuilder for TypeSlice {
    open spec fn new_ens(elem: Type, r: Self) -> bool {
        *r.elem == elem
    }

    fn new<A: IntoType>(elem: A) -> (r: Self) {
        type_slice(elem)
    }
}

/// A trait object type over the given bounds.
pub fn type_trait_object<A: IntoTypeParamBound>(bounds: Vec<A>) -> (r: TypeTraitObject)
    ensures
        r.dyn_token == false,
        r.bounds@ == bounds@.map_values(|e: A| e.type_param_bound_of()),
{
    let bounds = into_type_param_bound_vec(bounds);
    TypeTraitObject {
        dyn_token: false,
        bounds: bounds,
    }
}

/// The fluent surface of a trait object type.
pub trait TypeTraitObjectBuilder: Sized {
    /// Holds iff `r` is the node that the constructor arguments produce.
    spec fn new_ens(bounds: Seq<TypeParamBound>, r: Self) -> bool;

    fn new<A: IntoTypeParamBound>(bounds: Vec<A>) -> (r: Self)
        ensures
            Self::new_ens(bounds@.map_values(|e: A| e.type_param_bound_of()), r),
    ;
}

impl TypeTraitObjectBuilder for TypeTraitObject {
    open spec fn new_ens(bounds: Seq<TypeParamBound>, r: Self) -> bool {
        r.dyn_token == false && r.bounds@ == bounds
    }

    fn new<A: IntoTypeParamBound>(bounds: Vec<A>) -> (r: Self) {
        type_trait_object(bounds)
    }
}

/// A tuple type of the given element types.
pub fn type_tuple<A: IntoType>(elems: Vec<A>) -> (r: TypeTuple)
    ensures
        r.elems@ == elems@.map_values(|e: A| e.type_of()),
{
    let elems = into_type_vec(elems);
    TypeTuple {
        elems: elems,
    }
}

/// The fluent surface of a tuple type.
pub trait TypeTupleBuilder: Sized {
    /// Holds iff `r` is the node that the constructor arguments produce.
    spec fn new_ens(elems: Seq<Type>, r: Self) -> bool;

    fn new<A: IntoType>(elems: Vec<A>) -> (r: Self)
        ensures
            Self::new_ens(elems@.map_values(|e: A| e.type_of()), r),
    ;
}

impl TypeTupleBuilder for TypeTuple {
    open spec fn new_ens(elems: Seq<Type>, r: Self) -> bool {
        r.elems@ == elems
    }

    fn new<A: IntoType>(elems: Vec<A>) -> (r: Self) {
        type_tuple(elems)
    }
}

/// An extern ABI marking naming the given convention.
pub fn abi(name: LitStr) -> (r: Abi)
    ensures
        r.name == Some(name),
{
    Abi {
        name: Some(name),
    }
}

/// The fluent surface of an ABI marking.
pub trait AbiBuilder: Sized {
    /// Holds iff `r` is the node that the constructor arguments produce.
    spec fn new_ens(name: LitStr, r: Self) -> bool;

    fn new(name: LitStr) -> (r: Self)
        ensures
            Self::new_ens(name, r),
    ;
}

impl AbiBuilder for Abi {
    open spec fn new_ens(name: LitStr, r: Self) -> bool {
        r.name == Some(name)
    }

    fn new(name: LitStr) -> (r: Self) {
        abi(name)
    }
}

/// An unnamed bare-function argument of the given type.
pub fn bare_fn_arg<A: IntoType>(ty: A) -> (r: BareFnArg)
    ensures
        r.attrs@ == Seq::<Attribute>::empty(),
        r.name is None,
        r.ty == ty.type_of(),
{
    let ty = ty.into_type();
    BareFnArg {
        attrs: Vec::new(),
        name: None,
        ty: ty,
    }
}

/// The fluent surface of a bare-function argument.
pub trait BareFnArgBuilder: AttrsPropsBuilder {
    /// Holds iff `r` is the node that the constructor arguments produce.
    spec fn new_ens(ty: Type, r: Self) -> bool;

    fn new<A: IntoType>(ty: A) -> (r: Self)
        ensures
            Self::new_ens(ty.type_of(), r),
    ;

    /// Holds iff `r` is `self` with the argument name replaced.
    spec fn name_ens(self, name: Ident, r: Self) -> bool;

    /// Name the argument.
    fn name<A: IntoIdent>(self, name: A) -> (r: Self)
        ensures
            exists|name_v: Ident| #[trigger] name.into_ident_ens(name_v) && self.name_ens(name_v, r),
    ;
}

impl BareFnArgBuilder for BareFnArg {
    open spec fn new_ens(ty: Type, r: Self) -> bool {
        r.attrs@ == Seq::<Attribute>::empty() && r.name is None && r.ty == ty
    }

    fn new<A: IntoType>(ty: A) -> (r: Self) {
        bare_fn_arg(ty)
    }

    open spec fn name_ens(self, name: Ident, r: Self) -> bool {
        r == (BareFnArg { name: Some(name), ..self })
    }

    fn name<A: IntoIdent>(self, name: A) -> (r: Self) {
        let name = name.into_ident();
        BareFnArg { name: Some(name), ..self }
    }
}

/// An unnamed variadic tail.
pub fn bare_variadic() -> (r: BareVariadic)
    ensures
        r.attrs@ == Seq::<Attribute>::empty(),
        r.name is None,
        r.comma == false,
{
    BareVariadic {
        attrs: Vec::new(),
        name: None,
        comma: false,
    }
}

/// The fluent surface of a variadic tail.
pub trait BareVariadicBuilder: AttrsPropsBuilder {
    /// Holds iff `r` is the node that the constructor arguments produce.
    spec fn new_ens(r: Self) -> bool;

    fn new() -> (r: Self)
        ensures
            Self::new_ens(r),
    ;

    /// Holds iff `r` is `self` with the tail name replaced.
    spec fn name_ens(self, name: Ident, r: Self) -> bool;

    /// Name the variadic tail.
    fn name<A: IntoIdent>(self, name: A) -> (r: Self)
        ensures
            exists|name_v: Ident| #[trigger] name.into_ident_ens(name_v) && self.name_ens(name_v, r),
    ;
}

impl BareVariadicBuilder for BareVariadic {
    open spec fn new_ens(r: Self) -> bool {
        r.attrs@ == Seq::<Attribute>::empty() && r.name is None && r.comma == false
    }

    fn new() -> (r: Self) {
        bare_variadic()
    }

    open spec fn name_ens(self, name: Ident, r: Self) -> bool {
        r == (BareVariadic { name: Some(name), ..self })
    }

    fn name<A: IntoIdent>(self, name: A) -> (r: Self) {
        let name = name.into_ident();
        BareVariadic { name: Some(name), ..self }
    }
}

impl MutabilityPropsBuilder for TypeReference {
    open spec fn mutability_ens(self, mutability: bool, r: Self) -> bool {
        r == (TypeReference { mutability, ..self })
    }

    fn mutability(self, mutability: bool) -> (r: Self) {
        TypeReference { mutability, ..self }
    }
}

impl QSelfPropsBuilder for TypePath {
    open spec fn qself_ens(self, qself: QSelf, r: Self) -> bool {
        r == (TypePath { qself: Some(qself), ..self })
    }

    fn qself(self, qself: QSelf) -> (r: Self) {
        TypePath { qself: Some(qself), ..self }
    }
}

impl OutputPropsBuilder for TypeBareFn {
    open spec fn output_ens(self, ty: Type, r: Self) -> bool {
        r == (TypeBareFn { output: r.output, ..self }) && (r.output matches ReturnType::Explicit(b)
            && *b == ty)
    }

    fn output<T: IntoType>(self, ty: T) -> (r: Self) {
        let ty = ty.into_type();
        TypeBareFn { output: ReturnType::Explicit(Box::new(ty)), ..self }
    }
}

impl AttrsPropsBuilder for BareFnArg {
    open spec fn attr_ens(self, attr: Attribute, r: Self) -> bool {
        r == (BareFnArg { attrs: r.attrs, ..self }) && r.attrs@ == self.attrs@.push(attr)
    }

    open spec fn attrs_ens(self, attrs: Vec<Attribute>, r: Self) -> bool {
        r == (BareFnArg { attrs, ..self })
    }

    fn attr(self, attr: Attribute) -> (r: Self) {
        let mut node = self;
        node.attrs.push(attr);
        node
    }

    fn attrs(self, attrs: Vec<Attribute>) -> (r: Self) {
        BareFnArg { attrs, ..self }
    }
}

impl AttrsPropsBuilder for BareVariadic {
    open spec fn attr_ens(self, attr: Attribute, r: Self) -> bool {
        r == (BareVariadic { attrs: r.attrs, ..self }) && r.attrs@ == self.attrs@.push(attr)
    }

    open spec fn attrs_ens(self, attrs: Vec<Attribute>, r: Self) -> bool {
        r == (BareVariadic { attrs, ..self })
    }

    fn attr(self, attr: Attribute) -> (r: Self) {
        let mut node = self;
        node.attrs.push(attr);
        node
    }

    fn attrs(self, attrs: Vec<Attribute>) -> (r: Self) {
        BareVariadic { attrs, ..self }
    }
}

} // verus!
