use vstd::prelude::*;
use crate::attr::{Attribute};
use crate::convert::{into_generic_param_vec, into_type_param_bound_vec, into_where_predicate_vec};
use crate::expr::{Expr, ExprClosureBuilder, IntoExpr};
use crate::ident::{Ident, IntoIdent, Lifetime};
use crate::item::{TraitItemConstBuilder, TraitItemFnBuilder, TraitItemTypeBuilder};
use crate::lit::{TokenStream};
use crate::path::{IntoPath, Path, path};
use crate::props::{AttrsPropsBuilder};
use crate::ty::{IntoType, Type, TypeBareFnBuilder};

verus! {

/// A generic-parameter list with an optional where-clause.
#[derive(Debug, PartialEq, Eq)]
pub struct Generics {
    pub lt_token: bool,
    pub params: Vec<GenericParam>,
    pub gt_token: bool,
    pub where_clause: Option<WhereClause>,
}

/// One generic parameter.
#[derive(Debug, PartialEq, Eq)]
pub enum GenericParam {
    Lifetime(LifetimeParam),
    Type(TypeParam),
    Const(ConstParam),
}

/// A lifetime parameter with its outliving bounds.
#[derive(Debug, PartialEq, Eq)]
pub struct LifetimeParam {
    pub attrs: Vec<Attribute>,
    pub lifetime: Lifetime,
    pub colon_token: bool,
    pub bounds: Vec<Lifetime>,
}

/// A type parameter with its bounds and optional default.
#[derive(Debug, PartialEq, Eq)]
pub struct TypeParam {
    pub attrs: Vec<Attribute>,
    pub ident: Ident,
    pub colon_token: bool,
    pub bounds: Vec<TypeParamBound>,
    pub eq_token: bool,
    pub default: Option<Type>,
}

/// A const parameter with its type and optional default.
#[derive(Debug, PartialEq, Eq)]
pub struct ConstParam {
    pub attrs: Vec<Attribute>,
    pub ident: Ident,
    pub ty: Type,
    pub eq_token: bool,
    pub default: Option<Expr>,
}

/// A `for<...>` binder over lifetimes.
#[derive(Debug, PartialEq, Eq)]
pub struct BoundLifetimes {
    pub lifetimes: Vec<GenericParam>,
}

/// One bound on a type parameter.
#[derive(Debug, PartialEq, Eq)]
pub enum TypeParamBound {
    Trait(TraitBound),
    Lifetime(Lifetime),
    Verbatim(TokenStream),
}

/// A trait bound, possibly relaxed and possibly lifetime-bound.
#[derive(Debug, PartialEq, Eq)]
pub struct TraitBound {
    pub paren_token: bool,
    pub modifier: TraitBoundModifier,
    pub lifetimes: Option<BoundLifetimes>,
    pub path: Path,
}

/// Whether a trait bound is plain or relaxed with a question mark.
#[derive(Debug, PartialEq, Eq)]
pub enum TraitBoundModifier {
    Plain,
    Maybe,
}

/// A where-clause over the given predicates.
#[derive(Debug, PartialEq, Eq)]
pub struct WhereClause {
    pub predicates: Vec<WherePredicate>,
}

/// One predicate of a where-clause.
#[derive(Debug, PartialEq, Eq)]
pub enum WherePredicate {
    Lifetime(PredicateLifetime),
    Type(PredicateType),
}

/// A lifetime predicate of a where-clause.
#[derive(Debug, PartialEq, Eq)]
pub struct PredicateLifetime {
    pub lifetime: Lifetime,
    pub bounds: Vec<Lifetime>,
}

/// A type predicate of a where-clause.
#[derive(Debug, PartialEq, Eq)]
pub struct PredicateType {
    pub lifetimes: Option<BoundLifetimes>,
    pub bounded_ty: Type,
    pub bounds: Vec<TypeParamBound>,
}

/// The all-absent generic-parameter list that every item starts with.
pub open spec fn generics_is_empty(g: Generics) -> bool {
    &&& g.lt_token == false
    &&& g.params@ == Seq::<GenericParam>::empty()
    &&& g.gt_token == false
    &&& g.where_clause is None
}

/// The all-absent generic-parameter list.
pub fn empty_generics() -> (g: Generics)
    ensures
        generics_is_empty(g),
{
    Generics { lt_token: false, params: Vec::new(), gt_token: false, where_clause: None }
}

/// An explicit generic-parameter list over the given parameters.
pub fn generics<A: IntoGenericParam>(params: Vec<A>) -> (r: Generics)
    ensures
        r.lt_token == true,
        r.params@ == params@.map_values(|e: A| e.generic_param_of()),
        r.gt_token == true,
        r.where_clause is None,
{
    let params = into_generic_param_vec(params);
    Generics {
        lt_token: true,
        params: params,
        gt_token: true,
        where_clause: None,
    }
}

/// The fluent surface of a generic-parameter list.
pub trait GenericsBuilder: Sized {
    /// Holds iff `r` is the node that the constructor arguments produce.
    spec fn new_ens(params: Seq<GenericParam>, r: Self) -> bool;

    fn new<A: IntoGenericParam>(params: Vec<A>) -> (r: Self)
        ensures
            Self::new_ens(params@.map_values(|e: A| e.generic_param_of()), r),
    ;

    /// Holds iff `r` is `self` with the where-clause replaced.
    spec fn where_clause_ens(self, where_clause: WhereClause, r: Self) -> bool;

    /// Attach a where-clause.
    fn where_clause(self, where_clause: WhereClause) -> (r: Self)
        ensures
            self.where_clause_ens(where_clause, r),
    ;
}

impl GenericsBuilder for Generics {
    open spec fn new_ens(params: Seq<GenericParam>, r: Self) -> bool {
        r.lt_token == true && r.params@ == params && r.gt_token == true && r.where_clause is None
    }

    fn new<A: IntoGenericParam>(params: Vec<A>) -> (r: Self) {
        generics(params)
    }

    open spec fn where_clause_ens(self, where_clause: WhereClause, r: Self) -> bool {
        r == (Generics { where_clause: Some(where_clause), ..self })
    }

    fn where_clause(self, where_clause: WhereClause) -> (r: Self) {
        Generics { where_clause: Some(where_clause), ..self }
    }
}

/// Anything that can become a generic parameter.
pub trait IntoGenericParam: Sized {
    /// The `GenericParam` value that `self` becomes.
    spec fn generic_param_of(self) -> GenericParam;

    fn into_generic_param(self) -> (r: GenericParam)
        ensures
            r == self.generic_param_of(),
    ;
}

/// The identity conversion: a `GenericParam` stays exactly itself.
impl IntoGenericParam for GenericParam {
    open spec fn generic_param_of(self) -> GenericParam {
        self
    }

    fn into_generic_param(self) -> (r: GenericParam) {
        self
    }
}

impl IntoGenericParam for LifetimeParam {
    open spec fn generic_param_of(self) -> GenericParam {
        GenericParam::Lifetime(self)
    }

    fn into_generic_param(self) -> (r: GenericParam) {
        GenericParam::Lifetime(self)
    }
}

impl IntoGenericParam for TypeParam {
    open spec fn generic_param_of(self) -> GenericParam {
        GenericParam::Type(self)
    }

    fn into_generic_param(self) -> (r: GenericParam) {
        GenericParam::Type(self)
    }
}

impl IntoGenericParam for ConstParam {
    open spec fn generic_param_of(self) -> GenericParam {
        GenericParam::Const(self)
    }

    fn into_generic_param(self) -> (r: GenericParam) {
        GenericParam::Const(self)
    }
}

/// A lifetime parameter with no bounds.
pub fn lifetime_param(lifetime: Lifetime) -> (r: LifetimeParam)
    ensures
        r.attrs@ == Seq::<Attribute>::empty(),
        r.lifetime == lifetime,
        r.colon_token == false,
        r.bounds@ == Seq::<Lifetime>::empty(),
{
    LifetimeParam {
        attrs: Vec::new(),
        lifetime: lifetime,
        colon_token: false,
        bounds: Vec::new(),
    }
}

/// The fluent surface of a lifetime parameter.
pub trait LifetimeParamBuilder: AttrsPropsBuilder {
    /// Holds iff `r` is the node that the constructor arguments produce.
    spec fn new_ens(lifetime: Lifetime, r: Self) -> bool;

    fn new(lifetime: Lifetime) -> (r: Self)
        ensures
            Self::new_ens(lifetime, r),
    ;

    /// Holds iff `r` is `self` with the bounds replaced and the colon present.
    spec fn bounds_ens(self, bounds: Vec<Lifetime>, r: Self) -> bool;

    /// Replace the outliving bounds, introducing the colon.
    fn bounds(self, bounds: Vec<Lifetime>) -> (r: Self)
        ensures
            self.bounds_ens(bounds, r),
    ;
}

impl LifetimeParamBuilder for LifetimeParam {
    open spec fn new_ens(lifetime: Lifetime, r: Self) -> bool {
        r.attrs@ == Seq::<Attribute>::empty() && r.lifetime == lifetime && r.colon_token == false && r.bounds@ == Seq::<Lifetime>::empty()
    }

    fn new(lifetime: Lifetime) -> (r: Self) {
        lifetime_param(lifetime)
    }

    open spec fn bounds_ens(self, bounds: Vec<Lifetime>, r: Self) -> bool {
        r == (LifetimeParam { colon_token: true, bounds: bounds, ..self })
    }

    fn bounds(self, bounds: Vec<Lifetime>) -> (r: Self) {
        LifetimeParam { colon_token: true, bounds: bounds, ..self }
    }
}

/// A bare type parameter.
pub fn type_param<A: IntoIdent>(ident: A) -> (r: TypeParam)
    ensures
        r.attrs@ == Seq::<Attribute>::empty(),
        ident.into_ident_ens(r.ident),
        r.colon_token == false,
        r.bounds@ == Seq::<TypeParamBound>::empty(),
        r.eq_token == false,
        r.default is None,
{
    let ident = ident.into_ident();
    TypeParam {
        attrs: Vec::new(),
        ident: ident,
        colon_token: false,
        bounds: Vec::new(),
        eq_token: false,
        default: None,
    }
}

/// The fluent surface of a type parameter.
pub trait TypeParamBuilder: AttrsPropsBuilder {
    /// Holds iff `r` is the node that the constructor arguments produce.
    spec fn new_ens(ident: Ident, r: Self) -> bool;

    fn new<A: IntoIdent>(ident: A) -> (r: Self)
        ensures
            exists|ident_v: Ident| #[trigger] ident.into_ident_ens(ident_v) && Self::new_ens(ident_v, r),
    ;

    /// Holds iff `r` is `self` with the bounds replaced and the colon present.
    spec fn bounds_ens(self, bounds: Seq<TypeParamBound>, r: Self) -> bool;

    /// Replace the bounds, introducing the colon.
    fn bounds<A: IntoTypeParamBound>(self, bounds: Vec<A>) -> (r: Self)
        ensures
            self.bounds_ens(bounds@.map_values(|e: A| e.type_param_bound_of()), r),
    ;

    /// Holds iff `r` is `self` with the default type set and the equals sign present.
    spec fn default_ens(self, default: Type, r: Self) -> bool;

    /// Set a default type, introducing the equals sign.
    fn default<A: IntoType>(self, default: A) -> (r: Self)
        ensures
            self.default_ens(default.type_of(), r),
    ;
}

impl TypeParamBuilder for TypeParam {
    open spec fn new_ens(ident: Ident, r: Self) -> bool {
        r.attrs@ == Seq::<Attribute>::empty() && r.ident == ident && r.colon_token == false && r.bounds@ == Seq::<TypeParamBound>::empty() && r.eq_token == false && r.default is None
    }

    fn new<A: IntoIdent>(ident: A) -> (r: Self) {
        type_param(ident)
    }

    open spec fn bounds_ens(self, bounds: Seq<TypeParamBound>, r: Self) -> bool {
        r == (TypeParam { colon_token: true, bounds: r.bounds, ..self }) && r.bounds@ == bounds
    }

    fn bounds<A: IntoTypeParamBound>(self, bounds: Vec<A>) -> (r: Self) {
        let bounds = into_type_param_bound_vec(bounds);
        TypeParam { colon_token: true, bounds: bounds, ..self }
    }

    open spec fn default_ens(self, default: Type, r: Self) -> bool {
        r == (TypeParam { eq_token: true, default: Some(default), ..self })
    }

    fn default<A: IntoType>(self, default: A) -> (r: Self) {
        let default = default.into_type();
        TypeParam { eq_token: true, default: Some(default), ..self }
    }
}

/// A const parameter of the given type.
pub fn const_param<A: IntoIdent, B: IntoType>(ident: A, ty: B) -> (r: ConstParam)
    ensures
        r.attrs@ == Seq::<Attribute>::empty(),
        ident.into_ident_ens(r.ident),
        r.ty == ty.type_of(),
        r.eq_token == false,
        r.default is None,
{
    let ident = ident.into_ident();
    let ty = ty.into_type();
    ConstParam {
        attrs: Vec::new(),
        ident: ident,
        ty: ty,
        eq_token: false,
        default: None,
    }
}

/// The fluent surface of a const parameter.
pub trait ConstParamBuilder: AttrsPropsBuilder {
    /// Holds iff `r` is the node that the constructor arguments produce.
    spec fn new_ens(ident: Ident, ty: Type, r: Self) -> bool;

    fn new<A: IntoIdent, B: IntoType>(ident: A, ty: B) -> (r: Self)
        ensures
            exists|ident_v: Ident| #[trigger] ident.into_ident_ens(ident_v) && Self::new_ens(ident_v, ty.type_of(), r),
    ;

    /// Holds iff `r` is `self` with the default value set and the equals sign present.
    spec fn default_ens(self, default: Expr, r: Self) -> bool;

    /// Set a default value, introducing the equals sign.
    fn default<A: IntoExpr>(self, default: A) -> (r: Self)
        ensures
            self.default_ens(default.expr_of(), r),
    ;
}

impl ConstParamBuilder for ConstParam {
    open spec fn new_ens(ident: Ident, ty: Type, r: Self) -> bool {
        r.attrs@ == Seq::<Attribute>::empty() && r.ident == ident && r.ty == ty && r.eq_token == false && r.default is None
    }

    fn new<A: IntoIdent, B: IntoType>(ident: A, ty: B) -> (r: Self) {
        const_param(ident, ty)
    }

    open spec fn default_ens(self, default: Expr, r: Self) -> bool {
        r == (ConstParam { eq_token: true, default: Some(default), ..self })
    }

    fn default<A: IntoExpr>(self, default: A) -> (r: Self) {
        let default = default.into_expr();
        ConstParam { eq_token: true, default: Some(default), ..self }
    }
}

/// A `for<...>` binder over the given lifetimes.
pub fn bound_lifetimes<A: IntoGenericParam>(lifetimes: Vec<A>) -> (r: BoundLifetimes)
    ensures
        r.lifetimes@ == lifetimes@.map_values(|e: A| e.generic_param_of()),
{
    let lifetimes = into_generic_param_vec(lifetimes);
    BoundLifetimes {
        lifetimes: lifetimes,
    }
}

/// The fluent surface of a lifetime binder.
pub trait BoundLifetimesBuilder: Sized {
    /// Holds iff `r` is the node that the constructor arguments produce.
    spec fn new_ens(lifetimes: Seq<GenericParam>, r: Self) -> bool;

    fn new<A: IntoGenericParam>(lifetimes: Vec<A>) -> (r: Self)
        ensures
            Self::new_ens(lifetimes@.map_values(|e: A| e.generic_param_of()), r),
    ;
}

impl BoundLifetimesBuilder for BoundLifetimes {
    open spec fn new_ens(lifetimes: Seq<GenericParam>, r: Self) -> bool {
        r.lifetimes@ == lifetimes
    }

    fn new<A: IntoGenericParam>(lifetimes: Vec<A>) -> (r: Self) {
        bound_lifetimes(lifetimes)
    }
}

/// Anything that can become a type-parameter bound.
pub trait IntoTypeParamBound: Sized {
    /// The `TypeParamBound` value that `self` becomes.
    spec fn type_param_bound_of(self) -> TypeParamBound;

    fn into_type_param_bound(self) -> (r: TypeParamBound)
        ensures
            r == self.type_param_bound_of(),
    ;
}

/// The identity conversion: a `TypeParamBound` stays exactly itself.
impl IntoTypeParamBound for TypeParamBound {
    open spec fn type_param_bound_of(self) -> TypeParamBound {
        self
    }

    fn into_type_param_bound(self) -> (r: TypeParamBound) {
        self
    }
}

impl IntoTypeParamBound for Lifetime {
    open spec fn type_param_bound_of(self) -> TypeParamBound {
        TypeParamBound::Lifetime(self)
    }

    fn into_type_param_bound(self) -> (r: TypeParamBound) {
        TypeParamBound::Lifetime(self)
    }
}

impl IntoTypeParamBound for TokenStream {
    open spec fn type_param_bound_of(self) -> TypeParamBound {
        TypeParamBound::Verbatim(self)
    }

    fn into_type_param_bound(self) -> (r: TypeParamBound) {
        TypeParamBound::Verbatim(self)
    }
}

impl IntoTypeParamBound for TraitBound {
    open spec fn type_param_bound_of(self) -> TypeParamBound {
        TypeParamBound::Trait(self)
    }

    fn into_type_param_bound(self) -> (r: TypeParamBound) {
        TypeParamBound::Trait(self)
    }
}

/// A plain trait bound on the given path.
pub fn trait_bound<A: IntoPath>(path: A) -> (r: TraitBound)
    ensures
        r.paren_token == false,
        r.modifier == TraitBoundModifier::Plain,
        r.lifetimes is None,
        path.into_path_ens(r.path),
{
    let path = path.into_path();
    TraitBound {
        paren_token: false,
        modifier: TraitBoundModifier::Plain,
        lifetimes: None,
        path: path,
    }
}

/// The fluent surface of a trait bound.
pub trait TraitBoundBuilder: Sized {
    /// Holds iff `r` is the node that the constructor arguments produce.
    spec fn new_ens(path: Path, r: Self) -> bool;

    fn new<A: IntoPath>(path: A) -> (r: Self)
        ensures
            exists|path_v: Path| #[trigger] path.into_path_ens(path_v) && Self::new_ens(path_v, r),
    ;

    /// Holds iff `r` is `self` with the lifetime binder replaced.
    spec fn lifetimes_ens(self, lifetimes: BoundLifetimes, r: Self) -> bool;

    /// Attach a `for<...>` lifetime binder.
    fn lifetimes(self, lifetimes: BoundLifetimes) -> (r: Self)
        ensures
            self.lifetimes_ens(lifetimes, r),
    ;

    /// Holds iff `r` is `self` relaxed when `maybe`, plain otherwise.
    spec fn modifier_ens(self, maybe: bool, r: Self) -> bool;

    /// Relax the bound with a question mark, or make it plain again.
    fn modifier(self, maybe: bool) -> (r: Self)
        ensures
            self.modifier_ens(maybe, r),
    ;
}

impl TraitBoundBuilder for TraitBound {
    open spec fn new_ens(path: Path, r: Self) -> bool {
        r.paren_token == false && r.modifier == TraitBoundModifier::Plain && r.lifetimes is None && r.path == path
    }

    fn new<A: IntoPath>(path: A) -> (r: Self) {
        trait_bound(path)
    }

    open spec fn lifetimes_ens(self, lifetimes: BoundLifetimes, r: Self) -> bool {
        r == (TraitBound { lifetimes: Some(lifetimes), ..self })
    }

    fn lifetimes(self, lifetimes: BoundLifetimes) -> (r: Self) {
        TraitBound { lifetimes: Some(lifetimes), ..self }
    }

    open spec fn modifier_ens(self, maybe: bool, r: Self) -> bool {
        r == (TraitBound { modifier: if maybe { TraitBoundModifier::Maybe } else { TraitBoundModifier::Plain }, ..self })
    }

    fn modifier(self, maybe: bool) -> (r: Self) {
        TraitBound { modifier: if maybe { TraitBoundModifier::Maybe } else { TraitBoundModifier::Plain }, ..self }
    }
}

/// A where-clause over the given predicates.
pub fn where_clause<A: IntoWherePredicate>(predicates: Vec<A>) -> (r: WhereClause)
    ensures
        r.predicates@ == predicates@.map_values(|e: A| e.where_predicate_of()),
{
    let predicates = into_where_predicate_vec(predicates);
    WhereClause {
        predicates: predicates,
    }
}

/// The fluent surface of a where-clause.
pub trait WhereClauseBuilder: Sized {
    /// Holds iff `r` is the node that the constructor arguments produce.
    spec fn new_ens(predicates: Seq<WherePredicate>, r: Self) -> bool;

    fn new<A: IntoWherePredicate>(predicates: Vec<A>) -> (r: Self)
        ensures
            Self::new_ens(predicates@.map_values(|e: A| e.where_predicate_of()), r),
    ;
}

impl WhereClauseBuilder for WhereClause {
    open spec fn new_ens(predicates: Seq<WherePredicate>, r: Self) -> bool {
        r.predicates@ == predicates
    }

    fn new<A: IntoWherePredicate>(predicates: Vec<A>) -> (r: Self) {
        where_clause(predicates)
    }
}

/// Anything that can become a where-clause predicate.
pub trait IntoWherePredicate: Sized {
    /// The `WherePredicate` value that `self` becomes.
    spec fn where_predicate_of(self) -> WherePredicate;

    fn into_where_predicate(self) -> (r: WherePredicate)
        ensures
            r == self.where_predicate_of(),
    ;
}

/// The identity conversion: a `WherePredicate` stays exactly itself.
impl IntoWherePredicate for WherePredicate {
    open spec fn where_predicate_of(self) -> WherePredicate {
        self
    }

    fn into_where_predicate(self) -> (r: WherePredicate) {
        self
    }
}

impl IntoWherePredicate for PredicateLifetime {
    open spec fn where_predicate_of(self) -> WherePredicate {
        WherePredicate::Lifetime(self)
    }

    fn into_where_predicate(self) -> (r: WherePredicate) {
        WherePredicate::Lifetime(self)
    }
}

impl IntoWherePredicate for PredicateType {
    open spec fn where_predicate_of(self) -> WherePredicate {
        WherePredicate::Type(self)
    }

    fn into_where_predicate(self) -> (r: WherePredicate) {
        WherePredicate::Type(self)
    }
}

/// A lifetime predicate over the given bounds.
pub fn predicate_lifetime(lifetime: Lifetime, bounds: Vec<Lifetime>) -> (r: PredicateLifetime)
    ensures
        r.lifetime == lifetime,
        r.bounds == bounds,
{
    PredicateLifetime {
        lifetime: lifetime,
        bounds: bounds,
    }
}

/// The fluent surface of a lifetime predicate.
pub trait PredicateLifetimeBuilder: Sized {
    /// Holds iff `r` is the node that the constructor arguments produce.
    spec fn new_ens(lifetime: Lifetime, bounds: Vec<Lifetime>, r: Self) -> bool;

    fn new(lifetime: Lifetime, bounds: Vec<Lifetime>) -> (r: Self)
        ensures
            Self::new_ens(lifetime, bounds, r),
    ;
}

impl PredicateLifetimeBuilder for PredicateLifetime {
    open spec fn new_ens(lifetime: Lifetime, bounds: Vec<Lifetime>, r: Self) -> bool {
        r.lifetime == lifetime && r.bounds == bounds
    }

    fn new(lifetime: Lifetime, bounds: Vec<Lifetime>) -> (r: Self) {
        predicate_lifetime(lifetime, bounds)
    }
}

/// A type predicate bounding the given type.
pub fn predicate_type<A: IntoType, B: IntoTypeParamBound>(bounded_ty: A, bounds: Vec<B>) -> (r: PredicateType)
    ensures
        r.lifetimes is None,
        r.bounded_ty == bounded_ty.type_of(),
        r.bounds@ == bounds@.map_values(|e: B| e.type_param_bound_of()),
{
    let bounded_ty = bounded_ty.into_type();
    let bounds = into_type_param_bound_vec(bounds);
    PredicateType {
        lifetimes: None,
        bounded_ty: bounded_ty,
        bounds: bounds,
    }
}

/// The fluent surface of a type predicate.
pub trait PredicateTypeBuilder: Sized {
    /// Holds iff `r` is the node that the constructor arguments produce.
    spec fn new_ens(bounded_ty: Type, bounds: Seq<TypeParamBound>, r: Self) -> bool;

    fn new<A: IntoType, B: IntoTypeParamBound>(bounded_ty: A, bounds: Vec<B>) -> (r: Self)
        ensures
            Self::new_ens(bounded_ty.type_of(), bounds@.map_values(|e: B| e.type_param_bound_of()), r),
    ;

    /// Holds iff `r` is `self` with the lifetime binder replaced.
    spec fn lifetimes_ens(self, lifetimes: BoundLifetimes, r: Self) -> bool;

    /// Attach a `for<...>` lifetime binder.
    fn lifetimes(self, lifetimes: BoundLifetimes) -> (r: Self)
        ensures
            self.lifetimes_ens(lifetimes, r),
    ;
}

impl PredicateTypeBuilder for PredicateType {
    open spec fn new_ens(bounded_ty: Type, bounds: Seq<TypeParamBound>, r: Self) -> bool {
        r.lifetimes is None && r.bounded_ty == bounded_ty && r.bounds@ == bounds
    }

    fn new<A: IntoType, B: IntoTypeParamBound>(bounded_ty: A, bounds: Vec<B>) -> (r: Self) {
        predicate_type(bounded_ty, bounds)
    }

    open spec fn lifetimes_ens(self, lifetimes: BoundLifetimes, r: Self) -> bool {
        r == (PredicateType { lifetimes: Some(lifetimes), ..self })
    }

    fn lifetimes(self, lifetimes: BoundLifetimes) -> (r: Self) {
        PredicateType { lifetimes: Some(lifetimes), ..self }
    }
}

impl AttrsPropsBuilder for LifetimeParam {
    open spec fn attr_ens(self, attr: Attribute, r: Self) -> bool {
        r == (LifetimeParam { attrs: r.attrs, ..self }) && r.attrs@ == self.attrs@.push(attr)
    }

    open spec fn attrs_ens(self, attrs: Vec<Attribute>, r: Self) -> bool {
        r == (LifetimeParam { attrs, ..self })
    }

    fn attr(self, attr: Attribute) -> (r: Self) {
        let mut node = self;
        node.attrs.push(attr);
        node
    }

    fn attrs(self, attrs: Vec<Attribute>) -> (r: Self) {
        LifetimeParam { attrs, ..self }
    }
}

impl AttrsPropsBuilder for TypeParam {
    open spec fn attr_ens(self, attr: Attribute, r: Self) -> bool {
        r == (TypeParam { attrs: r.attrs, ..self }) && r.attrs@ == self.attrs@.push(attr)
    }

    open spec fn attrs_ens(self, attrs: Vec<Attribute>, r: Self) -> bool {
        r == (TypeParam { attrs, ..self })
    }

    fn attr(self, attr: Attribute) -> (r: Self) {
        let mut node = self;
        node.attrs.push(attr);
        node
    }

    fn attrs(self, attrs: Vec<Attribute>) -> (r: Self) {
        TypeParam { attrs, ..self }
    }
}

impl AttrsPropsBuilder for ConstParam {
    open spec fn attr_ens(self, attr: Attribute, r: Self) -> bool {
        r == (ConstParam { attrs: r.attrs, ..self }) && r.attrs@ == self.attrs@.push(attr)
    }

    open spec fn attrs_ens(self, attrs: Vec<Attribute>, r: Self) -> bool {
        r == (ConstParam { attrs, ..self })
    }

    fn attr(self, attr: Attribute) -> (r: Self) {
        let mut node = self;
        node.attrs.push(attr);
        node
    }

    fn attrs(self, attrs: Vec<Attribute>) -> (r: Self) {
        ConstParam { attrs, ..self }
    }
}

} // verus!
