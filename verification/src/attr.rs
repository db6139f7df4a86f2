use vstd::prelude::*;
use crate::token;
use crate::expr::{Expr, IntoExpr};
use crate::lit::{TokenStream};
use crate::mac::{IntoMacroDelimiter, MacroDelimiter};
use crate::path::{IntoPath, Path, path};

verus! {

/// Whether an attribute applies to the item after it or the item around it.
#[derive(Debug, PartialEq, Eq)]
pub enum AttrStyle {
    Outer,
    Inner,
}

/// An attribute: its style and its content.
#[derive(Debug, PartialEq, Eq)]
pub struct Attribute {
    pub style: AttrStyle,
    pub meta: Meta,
}

/// The content of an attribute.
#[derive(Debug, PartialEq, Eq)]
pub enum Meta {
    Path(Path),
    List(MetaList),
    NameValue(MetaNameValue),
}

/// Attribute content of the shape `name(...)`.
#[derive(Debug, PartialEq, Eq)]
pub struct MetaList {
    pub path: Path,
    pub delimiter: MacroDelimiter,
    pub tokens: TokenStream,
}

/// Attribute content of the shape `name = value`.
#[derive(Debug, PartialEq, Eq)]
pub struct MetaNameValue {
    pub path: Path,
    pub value: Expr,
}

/// An outer attribute with the given content.
pub fn attribute<A: IntoMeta>(meta: A) -> (r: Attribute)
    ensures
        r.style == AttrStyle::Outer,
        r.meta == meta.meta_of(),
{
    let meta = meta.into_meta();
    Attribute {
        style: AttrStyle::Outer,
        meta: meta,
    }
}

/// The inner attribute style.
pub fn attr_style_inner() -> (r: AttrStyle)
    ensures
        r == AttrStyle::Inner,
{
    AttrStyle::Inner
}

/// The fluent surface of an attribute.
pub trait AttributeBuilder: Sized {
    /// Holds iff `r` is the node that the constructor arguments produce.
    spec fn new_ens(meta: Meta, r: Self) -> bool;

    fn new<A: IntoMeta>(meta: A) -> (r: Self)
        ensures
            Self::new_ens(meta.meta_of(), r),
    ;

    /// Holds iff `r` is `self` restyled inner when `inside`, outer otherwise.
    spec fn style_ens(self, inside: bool, r: Self) -> bool;

    /// Choose the attribute style: inner when `inside`, else outer.
    fn style(self, inside: bool) -> (r: Self)
        ensures
            self.style_ens(inside, r),
    ;
}

impl AttributeBuilder for Attribute {
    open spec fn new_ens(meta: Meta, r: Self) -> bool {
        r.style == AttrStyle::Outer && r.meta == meta
    }

    fn new<A: IntoMeta>(meta: A) -> (r: Self) {
        attribute(meta)
    }

    open spec fn style_ens(self, inside: bool, r: Self) -> bool {
        r == (Attribute { style: if inside { AttrStyle::Inner } else { AttrStyle::Outer }, ..self })
    }

    fn style(self, inside: bool) -> (r: Self) {
        Attribute { style: if inside { AttrStyle::Inner } else { AttrStyle::Outer }, ..self }
    }
}

/// Anything that can become an attribute style.
pub trait IntoAttrStyle: Sized {
    /// The `AttrStyle` value that `self` becomes.
    spec fn attr_style_of(self) -> AttrStyle;

    fn into_attr_style(self) -> (r: AttrStyle)
        ensures
            r == self.attr_style_of(),
    ;
}

/// The identity conversion: a `AttrStyle` stays exactly itself.
impl IntoAttrStyle for AttrStyle {
    open spec fn attr_style_of(self) -> AttrStyle {
        self
    }

    fn into_attr_style(self) -> (r: AttrStyle) {
        self
    }
}

/// The bang token marks an inner attribute.
impl IntoAttrStyle for token::Not {
    open spec fn attr_style_of(self) -> AttrStyle {
        AttrStyle::Inner
    }

    fn into_attr_style(self) -> (r: AttrStyle) {
        AttrStyle::Inner
    }
}

/// Anything that can become attribute content.
pub trait IntoMeta: Sized {
    /// The `Meta` value that `self` becomes.
    spec fn meta_of(self) -> Meta;

    fn into_meta(self) -> (r: Meta)
        ensures
            r == self.meta_of(),
    ;
}

/// The identity conversion: a `Meta` stays exactly itself.
impl IntoMeta for Meta {
    open spec fn meta_of(self) -> Meta {
        self
    }

    fn into_meta(self) -> (r: Meta) {
        self
    }
}

impl IntoMeta for MetaList {
    open spec fn meta_of(self) -> Meta {
        Meta::List(self)
    }

    fn into_meta(self) -> (r: Meta) {
        Meta::List(self)
    }
}

impl IntoMeta for MetaNameValue {
    open spec fn meta_of(self) -> Meta {
        Meta::NameValue(self)
    }

    fn into_meta(self) -> (r: Meta) {
        Meta::NameValue(self)
    }
}

/// Attribute content of the shape `name(...)`.
pub fn meta_list<A: IntoPath, B: IntoMacroDelimiter>(path: A, delimiter: B, tokens: TokenStream) -> (r: MetaList)
    ensures
        path.into_path_ens(r.path),
        r.delimiter == delimiter.macro_delimiter_of(),
        r.tokens == tokens,
{
    let path = path.into_path();
    let delimiter = delimiter.into_macro_delimiter();
    MetaList {
        path: path,
        delimiter: delimiter,
        tokens: tokens,
    }
}

/// The fluent surface of list-shaped attribute content.
pub trait MetaListBuilder: Sized {
    /// Holds iff `r` is the node that the constructor arguments produce.
    spec fn new_ens(path: Path, delimiter: MacroDelimiter, tokens: TokenStream, r: Self) -> bool;

    fn new<A: IntoPath, B: IntoMacroDelimiter>(path: A, delimiter: B, tokens: TokenStream) -> (r: Self)
        ensures
            exists|path_v: Path| #[trigger] path.into_path_ens(path_v) && Self::new_ens(path_v, delimiter.macro_delimiter_of(), tokens, r),
    ;
}

impl MetaListBuilder for MetaList {
    open spec fn new_ens(path: Path, delimiter: MacroDelimiter, tokens: TokenStream, r: Self) -> bool {
        r.path == path && r.delimiter == delimiter && r.tokens == tokens
    }

    fn new<A: IntoPath, B: IntoMacroDelimiter>(path: A, delimiter: B, tokens: TokenStream) -> (r: Self) {
        meta_list(path, delimiter, tokens)
    }
}

/// Attribute content of the shape `name = value`.
pub fn meta_name_value<A: IntoPath, B: IntoExpr>(path: A, value: B) -> (r: MetaNameValue)
    ensures
        path.into_path_ens(r.path),
        r.value == value.expr_of(),
{
    let path = path.into_path();
    let value = value.into_expr();
    MetaNameValue {
        path: path,
        value: value,
    }
}

/// The fluent surface of name-value attribute content.
pub trait MetaNameValueBuilder: Sized {
    /// Holds iff `r` is the node that the constructor arguments produce.
    spec fn new_ens(path: Path, value: Expr, r: Self) -> bool;

    fn new<A: IntoPath, B: IntoExpr>(path: A, value: B) -> (r: Self)
        ensures
            exists|path_v: Path| #[trigger] path.into_path_ens(path_v) && Self::new_ens(path_v, value.expr_of(), r),
    ;
}

impl MetaNameValueBuilder for MetaNameValue {
    open spec fn new_ens(path: Path, value: Expr, r: Self) -> bool {
        r.path == path && r.value == value
    }

    fn new<A: IntoPath, B: IntoExpr>(path: A, value: B) -> (r: Self) {
        meta_name_value(path, value)
    }
}

} // verus!
