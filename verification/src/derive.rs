use vstd::prelude::*;
use crate::attr::{Attribute};
use crate::data::{Fields, FieldsNamed, IntoFields, Variant};
use crate::generics::{Generics, empty_generics, generics, generics_is_empty};
use crate::ident::{Ident, IntoIdent};
use crate::props::{AttrsPropsBuilder, ItemGenericsPropsBuilder, PathGenericsBuilder, VisPropsBuilder};
use crate::restriction::{IntoVisibility, Visibility};

verus! {

/// A data definition as a derive macro sees it.
#[derive(Debug, PartialEq, Eq)]
pub struct DeriveInput {
    pub attrs: Vec<Attribute>,
    pub vis: Visibility,
    pub ident: Ident,
    pub generics: Generics,
    pub data: Data,
}

/// The body of a data definition.
#[derive(Debug, PartialEq, Eq)]
pub enum Data {
    Struct(DataStruct),
    Enum(DataEnum),
    Union(DataUnion),
}

/// A struct body.
#[derive(Debug, PartialEq, Eq)]
pub struct DataStruct {
    pub fields: Fields,
    pub semi_token: bool,
}

/// An enum body.
#[derive(Debug, PartialEq, Eq)]
pub struct DataEnum {
    pub variants: Vec<Variant>,
}

/// A union body.
#[derive(Debug, PartialEq, Eq)]
pub struct DataUnion {
    pub fields: FieldsNamed,
}

/// A private, non-generic data definition of the given name and body.
pub fn derive_input<A: IntoIdent, B: IntoData>(ident: A, data: B) -> (r: DeriveInput)
    ensures
        r.attrs@ == Seq::<Attribute>::empty(),
        r.vis == Visibility::Inherited,
        ident.into_ident_ens(r.ident),
        generics_is_empty(r.generics),
        r.data == data.data_of(),
{
    let ident = ident.into_ident();
    let data = data.into_data();
    DeriveInput {
        attrs: Vec::new(),
        vis: Visibility::Inherited,
        ident: ident,
        generics: empty_generics(),
        data: data,
    }
}

/// The fluent surface of a data definition.
pub trait DeriveInputBuilder: AttrsPropsBuilder + VisPropsBuilder {
    /// Holds iff `r` is the node that the constructor arguments produce.
    spec fn new_ens(ident: Ident, data: Data, r: Self) -> bool;

    fn new<A: IntoIdent, B: IntoData>(ident: A, data: B) -> (r: Self)
        ensures
            exists|ident_v: Ident| #[trigger] ident.into_ident_ens(ident_v) && Self::new_ens(ident_v, data.data_of(), r),
    ;

    /// Holds iff `r` is `self` with the generics replaced.
    spec fn generics_ens(self, generics: Generics, r: Self) -> bool;

    /// Replace the generic-parameter list wholesale.
    fn generics(self, generics: Generics) -> (r: Self)
        ensures
            self.generics_ens(generics, r),
    ;
}

impl DeriveInputBuilder for DeriveInput {
    open spec fn new_ens(ident: Ident, data: Data, r: Self) -> bool {
        r.attrs@ == Seq::<Attribute>::empty() && r.vis == Visibility::Inherited && r.ident == ident && generics_is_empty(r.generics) && r.data == data
    }

    fn new<A: IntoIdent, B: IntoData>(ident: A, data: B) -> (r: Self) {
        derive_input(ident, data)
    }

    open spec fn generics_ens(self, generics: Generics, r: Self) -> bool {
        r == (DeriveInput { generics: generics, ..self })
    }

    fn generics(self, generics: Generics) -> (r: Self) {
        DeriveInput { generics: generics, ..self }
    }
}

/// Anything that can become a data-definition body.
pub trait IntoData: Sized {
    /// The `Data` value that `self` becomes.
    spec fn data_of(self) -> Data;

    fn into_data(self) -> (r: Data)
        ensures
            r == self.data_of(),
    ;
}

/// The identity conversion: a `Data` stays exactly itself.
impl IntoData for Data {
    open spec fn data_of(self) -> Data {
        self
    }

    fn into_data(self) -> (r: Data) {
        self
    }
}

impl IntoData for DataStruct {
    open spec fn data_of(self) -> Data {
        Data::Struct(self)
    }

    fn into_data(self) -> (r: Data) {
        Data::Struct(self)
    }
}

impl IntoData for DataEnum {
    open spec fn data_of(self) -> Data {
        Data::Enum(self)
    }

    fn into_data(self) -> (r: Data) {
        Data::Enum(self)
    }
}

impl IntoData for DataUnion {
    open spec fn data_of(self) -> Data {
        Data::Union(self)
    }

    fn into_data(self) -> (r: Data) {
        Data::Union(self)
    }
}

/// A struct body over the given field group.
pub fn data_struct<A: IntoFields>(fields: A) -> (r: DataStruct)
    ensures
        r.fields == fields.fields_of(),
        r.semi_token == false,
{
    let fields = fields.into_fields();
    DataStruct {
        fields: fields,
        semi_token: false,
    }
}

/// The fluent surface of a struct body.
pub trait DataStructBuilder: Sized {
    /// Holds iff `r` is the node that the constructor arguments produce.
    spec fn new_ens(fields: Fields, r: Self) -> bool;

    fn new<A: IntoFields>(fields: A) -> (r: Self)
        ensures
            Self::new_ens(fields.fields_of(), r),
    ;
}

impl DataStructBuilder for DataStruct {
    open spec fn new_ens(fields: Fields, r: Self) -> bool {
        r.fields == fields && r.semi_token == false
    }

    fn new<A: IntoFields>(fields: A) -> (r: Self) {
        data_struct(fields)
    }
}

/// An enum body over the given variants.
pub fn data_enum(variants: Vec<Variant>) -> (r: DataEnum)
    ensures
        r.variants == variants,
{
    DataEnum {
        variants: variants,
    }
}

/// The fluent surface of an enum body.
pub trait DataEnumBuilder: Sized {
    /// Holds iff `r` is the node that the constructor arguments produce.
    spec fn new_ens(variants: Vec<Variant>, r: Self) -> bool;

    fn new(variants: Vec<Variant>) -> (r: Self)
        ensures
            Self::new_ens(variants, r),
    ;
}

impl DataEnumBuilder for DataEnum {
    open spec fn new_ens(variants: Vec<Variant>, r: Self) -> bool {
        r.variants == variants
    }

    fn new(variants: Vec<Variant>) -> (r: Self) {
        data_enum(variants)
    }
}

/// A union body; a union's fields are always the named group.
pub fn data_union(fields: FieldsNamed) -> (r: DataUnion)
    ensures
        r.fields == fields,
{
    DataUnion {
        fields: fields,
    }
}

/// The fluent surface of a union body.
pub trait DataUnionBuilder: Sized {
    /// Holds iff `r` is the node that the constructor arguments produce.
    spec fn new_ens(fields: FieldsNamed, r: Self) -> bool;

    fn new(fields: FieldsNamed) -> (r: Self)
        ensures
            Self::new_ens(fields, r),
    ;
}

impl DataUnionBuilder for DataUnion {
    open spec fn new_ens(fields: FieldsNamed, r: Self) -> bool {
        r.fields == fields
    }

    fn new(fields: FieldsNamed) -> (r: Self) {
        data_union(fields)
    }
}

impl AttrsPropsBuilder for DeriveInput {
    open spec fn attr_ens(self, attr: Attribute, r: Self) -> bool {
        r == (DeriveInput { attrs: r.attrs, ..self }) && r.attrs@ == self.attrs@.push(attr)
    }

    open spec fn attrs_ens(self, attrs: Vec<Attribute>, r: Self) -> bool {
        r == (DeriveInput { attrs, ..self })
    }

    fn attr(self, attr: Attribute) -> (r: Self) {
        let mut node = self;
        node.attrs.push(attr);
        node
    }

    fn attrs(self, attrs: Vec<Attribute>) -> (r: Self) {
        DeriveInput { attrs, ..self }
    }
}

impl VisPropsBuilder for DeriveInput {
    open spec fn vis_ens(self, vis: Visibility, r: Self) -> bool {
        r == (DeriveInput { vis, ..self })
    }

    fn vis<V: IntoVisibility>(self, vis: V) -> (r: Self) {
        let vis = vis.into_visibility();
        DeriveInput { vis, ..self }
    }
}

} // verus!
