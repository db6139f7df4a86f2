use vstd::prelude::*;
use crate::attr::{Attribute};
use crate::expr::{Expr, IntoExpr};
use crate::ident::{Ident, IntoIdent};
use crate::props::{AttrsPropsBuilder, VisPropsBuilder};
use crate::restriction::{FieldMutability, IntoVisibility, Visibility};
use crate::ty::{IntoType, Type};

verus! {

/// One variant of an enum definition.
#[derive(Debug, PartialEq, Eq)]
pub struct Variant {
    pub attrs: Vec<Attribute>,
    pub ident: Ident,
    pub fields: Fields,
    pub discriminant: Option<Expr>,
}

/// The field group of a variant or struct: named, positional, or none.
#[derive(Debug, PartialEq, Eq)]
pub enum Fields {
    Named(FieldsNamed),
    Unnamed(FieldsUnnamed),
    Unit,
}

/// A named field group.
#[derive(Debug, PartialEq, Eq)]
pub struct FieldsNamed {
    pub named: Vec<Field>,
}

/// A positional field group.
#[derive(Debug, PartialEq, Eq)]
pub struct FieldsUnnamed {
    pub unnamed: Vec<Field>,
}

/// One field of a struct, union or variant.
#[derive(Debug, PartialEq, Eq)]
pub struct Field {
    pub attrs: Vec<Attribute>,
    pub vis: Visibility,
    pub mutability: FieldMutability,
    pub ident: Option<Ident>,
    pub colon_token: bool,
    pub ty: Type,
}

/// A unit variant of the given name.
pub fn variant<A: IntoIdent>(ident: A) -> (r: Variant)
    ensures
        r.attrs@ == Seq::<Attribute>::empty(),
        ident.into_ident_ens(r.ident),
        r.fields == Fields::Unit,
        r.discriminant is None,
{
    let ident = ident.into_ident();
    Variant {
        attrs: Vec::new(),
        ident: ident,
        fields: Fields::Unit,
        discriminant: None,
    }
}

/// The fluent surface of an enum variant.
pub trait VariantBuilder: AttrsPropsBuilder {
    /// Holds iff `r` is the node that the constructor arguments produce.
    spec fn new_ens(ident: Ident, r: Self) -> bool;

    fn new<A: IntoIdent>(ident: A) -> (r: Self)
        ensures
            exists|ident_v: Ident| #[trigger] ident.into_ident_ens(ident_v) && Self::new_ens(ident_v, r),
    ;

    /// Holds iff `r` is `self` with the discriminant set.
    spec fn discriminant_ens(self, expr: Expr, r: Self) -> bool;

    /// Attach an explicit discriminant.
    fn discriminant<A: IntoExpr>(self, expr: A) -> (r: Self)
        ensures
            self.discriminant_ens(expr.expr_of(), r),
    ;

    /// Holds iff `r` is `self` with the field group replaced.
    spec fn fields_ens(self, fields: Fields, r: Self) -> bool;

    /// Swap in a named or positional field group.
    fn fields<A: IntoFields>(self, fields: A) -> (r: Self)
        ensures
            self.fields_ens(fields.fields_of(), r),
    ;
}

impl VariantBuilder for Variant {
    open spec fn new_ens(ident: Ident, r: Self) -> bool {
        r.attrs@ == Seq::<Attribute>::empty() && r.ident == ident && r.fields == Fields::Unit && r.discriminant is None
    }

    fn new<A: IntoIdent>(ident: A) -> (r: Self) {
        variant(ident)
    }

    open spec fn discriminant_ens(self, expr: Expr, r: Self) -> bool {
        r == (Variant { discriminant: Some(expr), ..self })
    }

    fn discriminant<A: IntoExpr>(self, expr: A) -> (r: Self) {
        let expr = expr.into_expr();
        Variant { discriminant: Some(expr), ..self }
    }

    open spec fn fields_ens(self, fields: Fields, r: Self) -> bool {
        r == (Variant { fields: fields, ..self })
    }

    fn fields<A: IntoFields>(self, fields: A) -> (r: Self) {
        let fields = fields.into_fields();
        Variant { fields: fields, ..self }
    }
}

/// Anything that can become a field group.
pub trait IntoFields: Sized {
    /// The `Fields` value that `self` becomes.
    spec fn fields_of(self) -> Fields;

    fn into_fields(self) -> (r: Fields)
        ensures
            r == self.fields_of(),
    ;
}

/// The identity conversion: a `Fields` stays exactly itself.
impl IntoFields for Fields {
    open spec fn fields_of(self) -> Fields {
        self
    }

    fn into_fields(self) -> (r: Fields) {
        self
    }
}

impl IntoFields for FieldsNamed {
    open spec fn fields_of(self) -> Fields {
        Fields::Named(self)
    }

    fn into_fields(self) -> (r: Fields) {
        Fields::Named(self)
    }
}

impl IntoFields for FieldsUnnamed {
    open spec fn fields_of(self) -> Fields {
        Fields::Unnamed(self)
    }

    fn into_fields(self) -> (r: Fields) {
        Fields::Unnamed(self)
    }
}

/// A named field group over the given fields.
pub fn fields_named(fields: Vec<Field>) -> (r: FieldsNamed)
    ensures
        r.named == fields,
{
    FieldsNamed {
        named: fields,
    }
}

/// The fluent surface of a named field group.
pub trait FieldsNamedBuilder: Sized {
    /// Holds iff `r` is the node that the constructor arguments produce.
    spec fn new_ens(fields: Vec<Field>, r: Self) -> bool;

    fn new(fields: Vec<Field>) -> (r: Self)
        ensures
            Self::new_ens(fields, r),
    ;
}

impl FieldsNamedBuilder for FieldsNamed {
    open spec fn new_ens(fields: Vec<Field>, r: Self) -> bool {
        r.named == fields
    }

    fn new(fields: Vec<Field>) -> (r: Self) {
        fields_named(fields)
    }
}

/// A positional field group over the given fields.
pub fn fields_unamed(fields: Vec<Field>) -> (r: FieldsUnnamed)
    ensures
        r.unnamed == fields,
{
    FieldsUnnamed {
        unnamed: fields,
    }
}

/// The fluent surface of a positional field group.
pub trait FieldsUnamedBuilder: Sized {
    /// Holds iff `r` is the node that the constructor arguments produce.
    spec fn new_ens(fields: Vec<Field>, r: Self) -> bool;

    fn new(fields: Vec<Field>) -> (r: Self)
        ensures
            Self::new_ens(fields, r),
    ;
}

impl FieldsUnamedBuilder for FieldsUnnamed {
    open spec fn new_ens(fields: Vec<Field>, r: Self) -> bool {
        r.unnamed == fields
    }

    fn new(fields: Vec<Field>) -> (r: Self) {
        fields_unamed(fields)
    }
}

/// An anonymous private field of the given type.
pub fn field<A: IntoType>(ty: A) -> (r: Field)
    ensures
        r.attrs@ == Seq::<Attribute>::empty(),
        r.vis == Visibility::Inherited,
        r.mutability == FieldMutability::Inherited,
        r.ident is None,
        r.colon_token == false,
        r.ty == ty.type_of(),
{
    let ty = ty.into_type();
    Field {
        attrs: Vec::new(),
        vis: Visibility::Inherited,
        mutability: FieldMutability::Inherited,
        ident: None,
        colon_token: false,
        ty: ty,
    }
}

/// The fluent surface of a field.
pub trait FieldBuilder: AttrsPropsBuilder + VisPropsBuilder {
    /// Holds iff `r` is the node that the constructor arguments produce.
    spec fn new_ens(ty: Type, r: Self) -> bool;

    fn new<A: IntoType>(ty: A) -> (r: Self)
        ensures
            Self::new_ens(ty.type_of(), r),
    ;

    /// Holds iff `r` is `self` named as given, with the separating colon present.
    spec fn ident_ens(self, ident: Ident, r: Self) -> bool;

    /// Name the field, which turns it into a named field with its colon.
    fn ident<A: IntoIdent>(self, ident: A) -> (r: Self)
        ensures
            exists|ident_v: Ident| #[trigger] ident.into_ident_ens(ident_v) && self.ident_ens(ident_v, r),
    ;
}

impl FieldBuilder for Field {
    open spec fn new_ens(ty: Type, r: Self) -> bool {
        r.attrs@ == Seq::<Attribute>::empty() && r.vis == Visibility::Inherited && r.mutability == FieldMutability::Inherited && r.ident is None && r.colon_token == false && r.ty == ty
    }

    fn new<A: IntoType>(ty: A) -> (r: Self) {
        field(ty)
    }

    open spec fn ident_ens(self, ident: Ident, r: Self) -> bool {
        r == (Field { ident: Some(ident), colon_token: true, ..self })
    }

    fn ident<A: IntoIdent>(self, ident: A) -> (r: Self) {
        let ident = ident.into_ident();
        Field { ident: Some(ident), colon_token: true, ..self }
    }
}

impl AttrsPropsBuilder for Variant {
    open spec fn attr_ens(self, attr: Attribute, r: Self) -> bool {
        r == (Variant { attrs: r.attrs, ..self }) && r.attrs@ == self.attrs@.push(attr)
    }

    open spec fn attrs_ens(self, attrs: Vec<Attribute>, r: Self) -> bool {
        r == (Variant { attrs, ..self })
    }

    fn attr(self, attr: Attribute) -> (r: Self) {
        let mut node = self;
        node.attrs.push(attr);
        node
    }

    fn attrs(self, attrs: Vec<Attribute>) -> (r: Self) {
        Variant { attrs, ..self }
    }
}

impl AttrsPropsBuilder for Field {
    open spec fn attr_ens(self, attr: Attribute, r: Self) -> bool {
        r == (Field { attrs: r.attrs, ..self }) && r.attrs@ == self.attrs@.push(attr)
    }

    open spec fn attrs_ens(self, attrs: Vec<Attribute>, r: Self) -> bool {
        r == (Field { attrs, ..self })
    }

    fn attr(self, attr: Attribute) -> (r: Self) {
        let mut node = self;
        node.attrs.push(attr);
        node
    }

    fn attrs(self, attrs: Vec<Attribute>) -> (r: Self) {
        Field { attrs, ..self }
    }
}

impl VisPropsBuilder for Field {
    open spec fn vis_ens(self, vis: Visibility, r: Self) -> bool {
        r == (Field { vis, ..self })
    }

    fn vis<V: IntoVisibility>(self, vis: V) -> (r: Self) {
        let vis = vis.into_visibility();
        Field { vis, ..self }
    }
}

} // verus!
