use vstd::prelude::*;
use crate::attr::{Attribute};
use crate::convert::{into_fn_arg_vec, into_foreign_item_vec, into_impl_item_vec, into_item_vec, into_trait_item_vec, into_type_param_bound_vec, into_use_tree_vec};
use crate::data::{Fields, FieldsNamed, IntoFields, Variant, variant};
use crate::expr::{Expr, ExprClosureBuilder, IntoExpr};
use crate::generics::{ConstParamBuilder, Generics, IntoTypeParamBound, LifetimeParamBuilder, TypeParamBound, TypeParamBuilder, empty_generics, generics, generics_is_empty};
use crate::ident::{Ident, IntoIdent, Lifetime};
use crate::lit::{TokenStream};
use crate::mac::{Macro};
use crate::pat::{FieldPatBuilder, IntoPat, Pat, PatType};
use crate::path::{IntoPath, Path, PathArguments, PathSegment, path};
use crate::props::{AttrsPropsBuilder, DefaultnessPropsBuilder, ItemGenericsPropsBuilder, MutabilityPropsBuilder, OutputPropsBuilder, UnsafetyPropsBuilder, VisPropsBuilder};
use crate::restriction::{IntoVisibility, Visibility};
use crate::stmt::{Block, block};
use crate::ty::{Abi, IntoType, ReturnType, Type, TypeBareFnBuilder, TypePath, TypeReferenceBuilder, abi};

verus! {

/// An item, in any of its shapes.
#[derive(Debug, PartialEq, Eq)]
pub enum Item {
    Const(ItemConst),
    Enum(ItemEnum),
    ExternCrate(ItemExternCrate),
    Fn(ItemFn),
    ForeignMod(ItemForeignMod),
    Impl(ItemImpl),
    Macro(ItemMacro),
    Mod(ItemMod),
    Static(ItemStatic),
    Struct(ItemStruct),
    Trait(ItemTrait),
    TraitAlias(ItemTraitAlias),
    Type(ItemType),
    Union(ItemUnion),
    Use(ItemUse),
    Verbatim(TokenStream),
}

/// A const item.
#[derive(Debug, PartialEq, Eq)]
pub struct ItemConst {
    pub attrs: Vec<Attribute>,
    pub vis: Visibility,
    pub ident: Ident,
    pub generics: Generics,
    pub ty: Box<Type>,
    pub expr: Box<Expr>,
}

/// An enum definition.
#[derive(Debug, PartialEq, Eq)]
pub struct ItemEnum {
    pub attrs: Vec<Attribute>,
    pub vis: Visibility,
    pub ident: Ident,
    pub generics: Generics,
    pub variants: Vec<Variant>,
}

/// An extern-crate declaration.
#[derive(Debug, PartialEq, Eq)]
pub struct ItemExternCrate {
    pub attrs: Vec<Attribute>,
    pub vis: Visibility,
    pub ident: Ident,
    pub rename: Option<Ident>,
}

/// A free function definition.
#[derive(Debug, PartialEq, Eq)]
pub struct ItemFn {
    pub attrs: Vec<Attribute>,
    pub vis: Visibility,
    pub sig: Signature,
    pub block: Box<Block>,
}

/// An extern block.
#[derive(Debug, PartialEq, Eq)]
pub struct ItemForeignMod {
    pub attrs: Vec<Attribute>,
    pub unsafety: bool,
    pub abi: Abi,
    pub items: Vec<ForeignItem>,
}

/// An impl block, inherent or of a trait; the trait part carries whether the impl is negated.
#[derive(Debug, PartialEq, Eq)]
pub struct ItemImpl {
    pub attrs: Vec<Attribute>,
    pub defaultness: bool,
    pub unsafety: bool,
    pub generics: Generics,
    pub trait_: Option<(bool, Path)>,
    pub self_ty: Box<Type>,
    pub items: Vec<ImplItem>,
}

/// A macro definition or invocation in item position.
#[derive(Debug, PartialEq, Eq)]
pub struct ItemMacro {
    pub attrs: Vec<Attribute>,
    pub ident: Option<Ident>,
    pub mac: Macro,
    pub semi_token: bool,
}

/// A module, inline or declared.
#[derive(Debug, PartialEq, Eq)]
pub struct ItemMod {
    pub attrs: Vec<Attribute>,
    pub vis: Visibility,
    pub unsafety: bool,
    pub ident: Ident,
    pub content: Option<Vec<Item>>,
    pub semi: bool,
}

/// A static item.
#[derive(Debug, PartialEq, Eq)]
pub struct ItemStatic {
    pub attrs: Vec<Attribute>,
    pub vis: Visibility,
    pub mutability: StaticMutability,
    pub ident: Ident,
    pub ty: Box<Type>,
    pub expr: Box<Expr>,
}

/// A struct definition.
#[derive(Debug, PartialEq, Eq)]
pub struct ItemStruct {
    pub attrs: Vec<Attribute>,
    pub vis: Visibility,
    pub ident: Ident,
    pub generics: Generics,
    pub fields: Fields,
    pub semi_token: bool,
}

/// A trait definition.
#[derive(Debug, PartialEq, Eq)]
pub struct ItemTrait {
    pub attrs: Vec<Attribute>,
    pub vis: Visibility,
    pub unsafety: bool,
    pub auto_token: bool,
    pub ident: Ident,
    pub generics: Generics,
    pub colon_token: bool,
    pub supertraits: Vec<TypeParamBound>,
    pub items: Vec<TraitItem>,
}

/// A trait alias.
#[derive(Debug, PartialEq, Eq)]
pub struct ItemTraitAlias {
    pub attrs: Vec<Attribute>,
    pub vis: Visibility,
    pub ident: Ident,
    pub generics: Generics,
    pub bounds: Vec<TypeParamBound>,
}

/// A type alias.
#[derive(Debug, PartialEq, Eq)]
pub struct ItemType {
    pub attrs: Vec<Attribute>,
    pub vis: Visibility,
    pub ident: Ident,
    pub generics: Generics,
    pub ty: Box<Type>,
}

/// A union definition; a union's fields are always the named group.
#[derive(Debug, PartialEq, Eq)]
pub struct ItemUnion {
    pub attrs: Vec<Attribute>,
    pub vis: Visibility,
    pub ident: Ident,
    pub generics: Generics,
    pub fields: FieldsNamed,
}

/// A use declaration.
#[derive(Debug, PartialEq, Eq)]
pub struct ItemUse {
    pub attrs: Vec<Attribute>,
    pub vis: Visibility,
    pub leading_colon: bool,
    pub tree: UseTree,
}

/// One node of a use-declaration tree.
#[derive(Debug, PartialEq, Eq)]
pub enum UseTree {
    Path(UsePath),
    Name(UseName),
    Rename(UseRename),
    Glob(UseGlob),
    Group(UseGroup),
}

/// A use-tree prefix segment.
#[derive(Debug, PartialEq, Eq)]
pub struct UsePath {
    pub ident: Ident,
    pub tree: Box<UseTree>,
}

/// A use-tree leaf naming one item.
#[derive(Debug, PartialEq, Eq)]
pub struct UseName {
    pub ident: Ident,
}

/// A use-tree leaf renaming one item.
#[derive(Debug, PartialEq, Eq)]
pub struct UseRename {
    pub ident: Ident,
    pub rename: Ident,
}

/// A use-tree glob leaf.
#[derive(Debug, PartialEq, Eq)]
pub struct UseGlob {
}

/// A braced group of use-tree nodes.
#[derive(Debug, PartialEq, Eq)]
pub struct UseGroup {
    pub items: Vec<UseTree>,
}

/// An item inside an extern block.
#[derive(Debug, PartialEq, Eq)]
pub enum ForeignItem {
    Fn(ForeignItemFn),
    Static(ForeignItemStatic),
    Type(ForeignItemType),
    Macro(ForeignItemMacro),
    Verbatim(TokenStream),
}

/// A function declaration inside an extern block.
#[derive(Debug, PartialEq, Eq)]
pub struct ForeignItemFn {
    pub attrs: Vec<Attribute>,
    pub vis: Visibility,
    pub sig: Signature,
}

/// A static declaration inside an extern block.
#[derive(Debug, PartialEq, Eq)]
pub struct ForeignItemStatic {
    pub attrs: Vec<Attribute>,
    pub vis: Visibility,
    pub mutability: StaticMutability,
    pub ident: Ident,
    pub ty: Box<Type>,
}

/// A type declaration inside an extern block.
#[derive(Debug, PartialEq, Eq)]
pub struct ForeignItemType {
    pub attrs: Vec<Attribute>,
    pub vis: Visibility,
    pub ident: Ident,
    pub generics: Generics,
}

/// A macro inside an extern block.
#[derive(Debug, PartialEq, Eq)]
pub struct ForeignItemMacro {
    pub attrs: Vec<Attribute>,
    pub mac: Macro,
    pub semi_token: bool,
}

/// An item inside a trait definition.
#[derive(Debug, PartialEq, Eq)]
pub enum TraitItem {
    Const(TraitItemConst),
    Fn(TraitItemFn),
    Type(TraitItemType),
    Macro(TraitItemMacro),
    Verbatim(TokenStream),
}

/// An associated const inside a trait.
#[derive(Debug, PartialEq, Eq)]
pub struct TraitItemConst {
    pub attrs: Vec<Attribute>,
    pub ident: Ident,
    pub generics: Generics,
    pub ty: Type,
    pub default: Option<Expr>,
}

/// An associated function inside a trait, with an optional default body.
#[derive(Debug, PartialEq, Eq)]
pub struct TraitItemFn {
    pub attrs: Vec<Attribute>,
    pub sig: Signature,
    pub default: Option<Block>,
    pub semi_token: bool,
}

/// An associated type inside a trait.
#[derive(Debug, PartialEq, Eq)]
pub struct TraitItemType {
    pub attrs: Vec<Attribute>,
    pub ident: Ident,
    pub generics: Generics,
    pub colon_token: bool,
    pub bounds: Vec<TypeParamBound>,
    pub default: Option<Type>,
}

/// A macro inside a trait definition.
#[derive(Debug, PartialEq, Eq)]
pub struct TraitItemMacro {
    pub attrs: Vec<Attribute>,
    pub mac: Macro,
    pub semi_token: bool,
}

/// An item inside an impl block.
#[derive(Debug, PartialEq, Eq)]
pub enum ImplItem {
    Const(ImplItemConst),
    Fn(ImplItemFn),
    Type(ImplItemType),
    Macro(ImplItemMacro),
    Verbatim(TokenStream),
}

/// An associated const inside an impl block.
#[derive(Debug, PartialEq, Eq)]
pub struct ImplItemConst {
    pub attrs: Vec<Attribute>,
    pub vis: Visibility,
    pub defaultness: bool,
    pub ident: Ident,
    pub generics: Generics,
    pub ty: Type,
    pub expr: Expr,
}

/// An associated function inside an impl block.
#[derive(Debug, PartialEq, Eq)]
pub struct ImplItemFn {
    pub attrs: Vec<Attribute>,
    pub vis: Visibility,
    pub defaultness: bool,
    pub sig: Signature,
    pub block: Block,
}

/// An associated type inside an impl block.
#[derive(Debug, PartialEq, Eq)]
pub struct ImplItemType {
    pub attrs: Vec<Attribute>,
    pub vis: Visibility,
    pub defaultness: bool,
    pub ident: Ident,
    pub generics: Generics,
    pub ty: Type,
}

/// A macro inside an impl block.
#[derive(Debug, PartialEq, Eq)]
pub struct ImplItemMacro {
    pub attrs: Vec<Attribute>,
    pub mac: Macro,
    pub semi_token: bool,
}

/// A function signature.
#[derive(Debug, PartialEq, Eq)]
pub struct Signature {
    pub constness: bool,
    pub asyncness: bool,
    pub unsafety: bool,
    pub abi: Option<Abi>,
    pub ident: Ident,
    pub generics: Generics,
    pub inputs: Vec<FnArg>,
    pub variadic: Option<Variadic>,
    pub output: ReturnType,
}

/// One function argument: the receiver or a typed pattern.
#[derive(Debug, PartialEq, Eq)]
pub enum FnArg {
    Receiver(Receiver),
    Typed(PatType),
}

/// The self argument: by value, by reference, or by reference with a lifetime.
#[derive(Debug, PartialEq, Eq)]
pub struct Receiver {
    pub attrs: Vec<Attribute>,
    pub reference: Option<Option<Lifetime>>,
    pub mutability: bool,
    pub colon_token: bool,
    pub ty: Box<Type>,
}

/// The variadic tail of a signature.
#[derive(Debug, PartialEq, Eq)]
pub struct Variadic {
    pub attrs: Vec<Attribute>,
    pub pat: Option<Box<Pat>>,
    pub comma: bool,
}

/// Whether a static is mutable.
#[derive(Debug, PartialEq, Eq)]
pub enum StaticMutability {
    Mut,
    Immutable,
}

/// Anything that can become an item.
pub trait IntoItem: Sized {
    /// The `Item` value that `self` becomes.
    spec fn item_of(self) -> Item;

    fn into_item(self) -> (r: Item)
        ensures
            r == self.item_of(),
    ;
}

/// The identity conversion: a `Item` stays exactly itself.
impl IntoItem for Item {
    open spec fn item_of(self) -> Item {
        self
    }

    fn into_item(self) -> (r: Item) {
        self
    }
}

impl IntoItem for ItemConst {
    open spec fn item_of(self) -> Item {
        Item::Const(self)
    }

    fn into_item(self) -> (r: Item) {
        Item::Const(self)
    }
}

impl IntoItem for ItemEnum {
    open spec fn item_of(self) -> Item {
        Item::Enum(self)
    }

    fn into_item(self) -> (r: Item) {
        Item::Enum(self)
    }
}

impl IntoItem for ItemExternCrate {
    open spec fn item_of(self) -> Item {
        Item::ExternCrate(self)
    }

    fn into_item(self) -> (r: Item) {
        Item::ExternCrate(self)
    }
}

impl IntoItem for ItemFn {
    open spec fn item_of(self) -> Item {
        Item::Fn(self)
    }

    fn into_item(self) -> (r: Item) {
        Item::Fn(self)
    }
}

impl IntoItem for ItemForeignMod {
    open spec fn item_of(self) -> Item {
        Item::ForeignMod(self)
    }

    fn into_item(self) -> (r: Item) {
        Item::ForeignMod(self)
    }
}

impl IntoItem for ItemImpl {
    open spec fn item_of(self) -> Item {
        Item::Impl(self)
    }

    fn into_item(self) -> (r: Item) {
        Item::Impl(self)
    }
}

impl IntoItem for ItemMacro {
    open spec fn item_of(self) -> Item {
        Item::Macro(self)
    }

    fn into_item(self) -> (r: Item) {
        Item::Macro(self)
    }
}

impl IntoItem for ItemMod {
    open spec fn item_of(self) -> Item {
        Item::Mod(self)
    }

    fn into_item(self) -> (r: Item) {
        Item::Mod(self)
    }
}

impl IntoItem for ItemStatic {
    open spec fn item_of(self) -> Item {
        Item::Static(self)
    }

    fn into_item(self) -> (r: Item) {
        Item::Static(self)
    }
}

impl IntoItem for ItemStruct {
    open spec fn item_of(self) -> Item {
        Item::Struct(self)
    }

    fn into_item(self) -> (r: Item) {
        Item::Struct(self)
    }
}

impl IntoItem for ItemTrait {
    open spec fn item_of(self) -> Item {
        Item::Trait(self)
    }

    fn into_item(self) -> (r: Item) {
        Item::Trait(self)
    }
}

impl IntoItem for ItemTraitAlias {
    open spec fn item_of(self) -> Item {
        Item::TraitAlias(self)
    }

    fn into_item(self) -> (r: Item) {
        Item::TraitAlias(self)
    }
}

impl IntoItem for ItemType {
    open spec fn item_of(self) -> Item {
        Item::Type(self)
    }

    fn into_item(self) -> (r: Item) {
        Item::Type(self)
    }
}

impl IntoItem for ItemUnion {
    open spec fn item_of(self) -> Item {
        Item::Union(self)
    }

    fn into_item(self) -> (r: Item) {
        Item::Union(self)
    }
}

impl IntoItem for ItemUse {
    open spec fn item_of(self) -> Item {
        Item::Use(self)
    }

    fn into_item(self) -> (r: Item) {
        Item::Use(self)
    }
}

impl IntoItem for TokenStream {
    open spec fn item_of(self) -> Item {
        Item::Verbatim(self)
    }

    fn into_item(self) -> (r: Item) {
        Item::Verbatim(self)
    }
}

/// Anything that can become a use-tree node.
pub trait IntoUseTree: Sized {
    /// The `UseTree` value that `self` becomes.
    spec fn use_tree_of(self) -> UseTree;

    fn into_use_tree(self) -> (r: UseTree)
        ensures
            r == self.use_tree_of(),
    ;
}

/// The identity conversion: a `UseTree` stays exactly itself.
impl IntoUseTree for UseTree {
    open spec fn use_tree_of(self) -> UseTree {
        self
    }

    fn into_use_tree(self) -> (r: UseTree) {
        self
    }
}

impl IntoUseTree for UsePath {
    open spec fn use_tree_of(self) -> UseTree {
        UseTree::Path(self)
    }

    fn into_use_tree(self) -> (r: UseTree) {
        UseTree::Path(self)
    }
}

impl IntoUseTree for UseName {
    open spec fn use_tree_of(self) -> UseTree {
        UseTree::Name(self)
    }

    fn into_use_tree(self) -> (r: UseTree) {
        UseTree::Name(self)
    }
}

impl IntoUseTree for UseRename {
    open spec fn use_tree_of(self) -> UseTree {
        UseTree::Rename(self)
    }

    fn into_use_tree(self) -> (r: UseTree) {
        UseTree::Rename(self)
    }
}

impl IntoUseTree for UseGlob {
    open spec fn use_tree_of(self) -> UseTree {
        UseTree::Glob(self)
    }

    fn into_use_tree(self) -> (r: UseTree) {
        UseTree::Glob(self)
    }
}

impl IntoUseTree for UseGroup {
    open spec fn use_tree_of(self) -> UseTree {
        UseTree::Group(self)
    }

    fn into_use_tree(self) -> (r: UseTree) {
        UseTree::Group(self)
    }
}

/// Anything that can become an extern-block item.
pub trait IntoForeignItem: Sized {
    /// The `ForeignItem` value that `self` becomes.
    spec fn foreign_item_of(self) -> ForeignItem;

    fn into_foreign_item(self) -> (r: ForeignItem)
        ensures
            r == self.foreign_item_of(),
    ;
}

/// The identity conversion: a `ForeignItem` stays exactly itself.
impl IntoForeignItem for ForeignItem {
    open spec fn foreign_item_of(self) -> ForeignItem {
        self
    }

    fn into_foreign_item(self) -> (r: ForeignItem) {
        self
    }
}

impl IntoForeignItem for ForeignItemFn {
    open spec fn foreign_item_of(self) -> ForeignItem {
        ForeignItem::Fn(self)
    }

    fn into_foreign_item(self) -> (r: ForeignItem) {
        ForeignItem::Fn(self)
    }
}

impl IntoForeignItem for ForeignItemStatic {
    open spec fn foreign_item_of(self) -> ForeignItem {
        ForeignItem::Static(self)
    }

    fn into_foreign_item(self) -> (r: ForeignItem) {
        ForeignItem::Static(self)
    }
}

impl IntoForeignItem for ForeignItemType {
    open spec fn foreign_item_of(self) -> ForeignItem {
        ForeignItem::Type(self)
    }

    fn into_foreign_item(self) -> (r: ForeignItem) {
        ForeignItem::Type(self)
    }
}

impl IntoForeignItem for ForeignItemMacro {
    open spec fn foreign_item_of(self) -> ForeignItem {
        ForeignItem::Macro(self)
    }

    fn into_foreign_item(self) -> (r: ForeignItem) {
        ForeignItem::Macro(self)
    }
}

impl IntoForeignItem for TokenStream {
    open spec fn foreign_item_of(self) -> ForeignItem {
        ForeignItem::Verbatim(self)
    }

    fn into_foreign_item(self) -> (r: ForeignItem) {
        ForeignItem::Verbatim(self)
    }
}

/// Anything that can become a trait item.
pub trait IntoTraitItem: Sized {
    /// The `TraitItem` value that `self` becomes.
    spec fn trait_item_of(self) -> TraitItem;

    fn into_trait_item(self) -> (r: TraitItem)
        ensures
            r == self.trait_item_of(),
    ;
}

/// The identity conversion: a `TraitItem` stays exactly itself.
impl IntoTraitItem for TraitItem {
    open spec fn trait_item_of(self) -> TraitItem {
        self
    }

    fn into_trait_item(self) -> (r: TraitItem) {
        self
    }
}

impl IntoTraitItem for TraitItemConst {
    open spec fn trait_item_of(self) -> TraitItem {
        TraitItem::Const(self)
    }

    fn into_trait_item(self) -> (r: TraitItem) {
        TraitItem::Const(self)
    }
}

impl IntoTraitItem for TraitItemFn {
    open spec fn trait_item_of(self) -> TraitItem {
        TraitItem::Fn(self)
    }

    fn into_trait_item(self) -> (r: TraitItem) {
        TraitItem::Fn(self)
    }
}

impl IntoTraitItem for TraitItemType {
    open spec fn trait_item_of(self) -> TraitItem {
        TraitItem::Type(self)
    }

    fn into_trait_item(self) -> (r: TraitItem) {
        TraitItem::Type(self)
    }
}

impl IntoTraitItem for TraitItemMacro {
    open spec fn trait_item_of(self) -> TraitItem {
        TraitItem::Macro(self)
    }

    fn into_trait_item(self) -> (r: TraitItem) {
        TraitItem::Macro(self)
    }
}

impl IntoTraitItem for TokenStream {
    open spec fn trait_item_of(self) -> TraitItem {
        TraitItem::Verbatim(self)
    }

    fn into_trait_item(self) -> (r: TraitItem) {
        TraitItem::Verbatim(self)
    }
}

/// Anything that can become an impl-block item.
pub trait IntoImplItem: Sized {
    /// The `ImplItem` value that `self` becomes.
    spec fn impl_item_of(self) -> ImplItem;

    fn into_impl_item(self) -> (r: ImplItem)
        ensures
            r == self.impl_item_of(),
    ;
}

/// The identity conversion: a `ImplItem` stays exactly itself.
impl IntoImplItem for ImplItem {
    open spec fn impl_item_of(self) -> ImplItem {
        self
    }

    fn into_impl_item(self) -> (r: ImplItem) {
        self
    }
}

impl IntoImplItem for ImplItemConst {
    open spec fn impl_item_of(self) -> ImplItem {
        ImplItem::Const(self)
    }

    fn into_impl_item(self) -> (r: ImplItem) {
        ImplItem::Const(self)
    }
}

impl IntoImplItem for ImplItemFn {
    open spec fn impl_item_of(self) -> ImplItem {
        ImplItem::Fn(self)
    }

    fn into_impl_item(self) -> (r: ImplItem) {
        ImplItem::Fn(self)
    }
}

impl IntoImplItem for ImplItemType {
    open spec fn impl_item_of(self) -> ImplItem {
        ImplItem::Type(self)
    }

    fn into_impl_item(self) -> (r: ImplItem) {
        ImplItem::Type(self)
    }
}

impl IntoImplItem for ImplItemMacro {
    open spec fn impl_item_of(self) -> ImplItem {
        ImplItem::Macro(self)
    }

    fn into_impl_item(self) -> (r: ImplItem) {
        ImplItem::Macro(self)
    }
}

impl IntoImplItem for TokenStream {
    open spec fn impl_item_of(self) -> ImplItem {
        ImplItem::Verbatim(self)
    }

    fn into_impl_item(self) -> (r: ImplItem) {
        ImplItem::Verbatim(self)
    }
}

/// Anything that can become a function argument.
pub trait IntoFnArg: Sized {
    /// The `FnArg` value that `self` becomes.
    spec fn fn_arg_of(self) -> FnArg;

    fn into_fn_arg(self) -> (r: FnArg)
        ensures
            r == self.fn_arg_of(),
    ;
}

/// The identity conversion: a `FnArg` stays exactly itself.
impl IntoFnArg for FnArg {
    open spec fn fn_arg_of(self) -> FnArg {
        self
    }

    fn into_fn_arg(self) -> (r: FnArg) {
        self
    }
}

impl IntoFnArg for Receiver {
    open spec fn fn_arg_of(self) -> FnArg {
        FnArg::Receiver(self)
    }

    fn into_fn_arg(self) -> (r: FnArg) {
        FnArg::Receiver(self)
    }
}

impl IntoFnArg for PatType {
    open spec fn fn_arg_of(self) -> FnArg {
        FnArg::Typed(self)
    }

    fn into_fn_arg(self) -> (r: FnArg) {
        FnArg::Typed(self)
    }
}

/// A private const item.
pub fn item_const<A: IntoIdent, B: IntoType, C: IntoExpr>(ident: A, ty: B, expr: C) -> (r: ItemConst)
    ensures
        r.attrs@ == Seq::<Attribute>::empty(),
        r.vis == Visibility::Inherited,
        ident.into_ident_ens(r.ident),
        generics_is_empty(r.generics),
        *r.ty == ty.type_of(),
        *r.expr == expr.expr_of(),
{
    let ident = ident.into_ident();
    let ty = ty.into_type();
    let expr = expr.into_expr();
    ItemConst {
        attrs: Vec::new(),
        vis: Visibility::Inherited,
        ident: ident,
        generics: empty_generics(),
        ty: Box::new(ty),
        expr: Box::new(expr),
    }
}

/// The fluent surface of a const item.
pub trait ItemConstBuilder: AttrsPropsBuilder + VisPropsBuilder + ItemGenericsPropsBuilder {
    /// Holds iff `r` is the node that the constructor arguments produce.
    spec fn new_ens(ident: Ident, ty: Type, expr: Expr, r: Self) -> bool;

    fn new<A: IntoIdent, B: IntoType, C: IntoExpr>(ident: A, ty: B, expr: C) -> (r: Self)
        ensures
            exists|ident_v: Ident| #[trigger] ident.into_ident_ens(ident_v) && Self::new_ens(ident_v, ty.type_of(), expr.expr_of(), r),
    ;
}

impl ItemConstBuilder for ItemConst {
    open spec fn new_ens(ident: Ident, ty: Type, expr: Expr, r: Self) -> bool {
        r.attrs@ == Seq::<Attribute>::empty() && r.vis == Visibility::Inherited && r.ident == ident && generics_is_empty(r.generics) && *r.ty == ty && *r.expr == expr
    }

    fn new<A: IntoIdent, B: IntoType, C: IntoExpr>(ident: A, ty: B, expr: C) -> (r: Self) {
        item_const(ident, ty, expr)
    }
}

/// A public enum definition with no variants yet.
pub fn item_enum<A: IntoIdent>(ident: A) -> (r: ItemEnum)
    ensures
        r.attrs@ == Seq::<Attribute>::empty(),
        r.vis == Visibility::Public,
        ident.into_ident_ens(r.ident),
        generics_is_empty(r.generics),
        r.variants@ == Seq::<Variant>::empty(),
{
    let ident = ident.into_ident();
    ItemEnum {
        attrs: Vec::new(),
        vis: Visibility::Public,
        ident: ident,
        generics: empty_generics(),
        variants: Vec::new(),
    }
}

/// The fluent surface of an enum definition.
pub trait ItemEnumBuilder: AttrsPropsBuilder + VisPropsBuilder + ItemGenericsPropsBuilder {
    /// Holds iff `r` is the node that the constructor arguments produce.
    spec fn new_ens(ident: Ident, r: Self) -> bool;

    fn new<A: IntoIdent>(ident: A) -> (r: Self)
        ensures
            exists|ident_v: Ident| #[trigger] ident.into_ident_ens(ident_v) && Self::new_ens(ident_v, r),
    ;

    /// Holds iff `r` is `self` with one variant appended.
    spec fn variant_ens(self, variant: Variant, r: Self) -> bool;

    /// Append one variant, keeping the ones already there.
    fn variant(self, variant: Variant) -> (r: Self)
        ensures
            self.variant_ens(variant, r),
    ;

    /// Holds iff `r` is `self` with the variant list replaced wholesale.
    spec fn variants_ens(self, variants: Vec<Variant>, r: Self) -> bool;

    /// Replace the variant list wholesale.
    fn variants(self, variants: Vec<Variant>) -> (r: Self)
        ensures
            self.variants_ens(variants, r),
    ;
}

impl ItemEnumBuilder for ItemEnum {
    open spec fn new_ens(ident: Ident, r: Self) -> bool {
        r.attrs@ == Seq::<Attribute>::empty() && r.vis == Visibility::Public && r.ident == ident && generics_is_empty(r.generics) && r.variants@ == Seq::<Variant>::empty()
    }

    fn new<A: IntoIdent>(ident: A) -> (r: Self) {
        item_enum(ident)
    }

    open spec fn variant_ens(self, variant: Variant, r: Self) -> bool {
        r == (ItemEnum { variants: r.variants, ..self }) && r.variants@ == self.variants@.push(variant)
    }

    fn variant(self, variant: Variant) -> (r: Self) {
        let mut node = self;
        node.variants.push(variant);
        node
    }

    open spec fn variants_ens(self, variants: Vec<Variant>, r: Self) -> bool {
        r == (ItemEnum { variants: variants, ..self })
    }

    fn variants(self, variants: Vec<Variant>) -> (r: Self) {
        ItemEnum { variants: variants, ..self }
    }
}

/// A private extern-crate declaration without a rename.
pub fn item_extern_crate<A: IntoIdent>(ident: A) -> (r: ItemExternCrate)
    ensures
        r.attrs@ == Seq::<Attribute>::empty(),
        r.vis == Visibility::Inherited,
        ident.into_ident_ens(r.ident),
        r.rename is None,
{
    let ident = ident.into_ident();
    ItemExternCrate {
        attrs: Vec::new(),
        vis: Visibility::Inherited,
        ident: ident,
        rename: None,
    }
}

/// The fluent surface of an extern-crate declaration.
pub trait ItemExternCrateBuilder: AttrsPropsBuilder + VisPropsBuilder {
    /// Holds iff `r` is the node that the constructor arguments produce.
    spec fn new_ens(ident: Ident, r: Self) -> bool;

    fn new<A: IntoIdent>(ident: A) -> (r: Self)
        ensures
            exists|ident_v: Ident| #[trigger] ident.into_ident_ens(ident_v) && Self::new_ens(ident_v, r),
    ;

    /// Holds iff `r` is `self` with the rename set.
    spec fn rename_ens(self, rename: Ident, r: Self) -> bool;

    /// Rename the crate locally.
    fn rename<A: IntoIdent>(self, rename: A) -> (r: Self)
        ensures
            exists|rename_v: Ident| #[trigger] rename.into_ident_ens(rename_v) && self.rename_ens(rename_v, r),
    ;
}

impl ItemExternCrateBuilder for ItemExternCrate {
    open spec fn new_ens(ident: Ident, r: Self) -> bool {
        r.attrs@ == Seq::<Attribute>::empty() && r.vis == Visibility::Inherited && r.ident == ident && r.rename is None
    }

    fn new<A: IntoIdent>(ident: A) -> (r: Self) {
        item_extern_crate(ident)
    }

    open spec fn rename_ens(self, rename: Ident, r: Self) -> bool {
        r == (ItemExternCrate { rename: Some(rename), ..self })
    }

    fn rename<A: IntoIdent>(self, rename: A) -> (r: Self) {
        let rename = rename.into_ident();
        ItemExternCrate { rename: Some(rename), ..self }
    }
}

/// A private free function with the given signature and body.
pub fn item_fn(sig: Signature, block: Block) -> (r: ItemFn)
    ensures
        r.attrs@ == Seq::<Attribute>::empty(),
        r.vis == Visibility::Inherited,
        r.sig == sig,
        *r.block == block,
{
    ItemFn {
        attrs: Vec::new(),
        vis: Visibility::Inherited,
        sig: sig,
        block: Box::new(block),
    }
}

/// The fluent surface of a free function.
pub trait ItemFnBuilder: AttrsPropsBuilder + VisPropsBuilder {
    /// Holds iff `r` is the node that the constructor arguments produce.
    spec fn new_ens(sig: Signature, block: Block, r: Self) -> bool;

    fn new(sig: Signature, block: Block) -> (r: Self)
        ensures
            Self::new_ens(sig, block, r),
    ;
}

impl ItemFnBuilder for ItemFn {
    open spec fn new_ens(sig: Signature, block: Block, r: Self) -> bool {
        r.attrs@ == Seq::<Attribute>::empty() && r.vis == Visibility::Inherited && r.sig == sig && *r.block == block
    }

    fn new(sig: Signature, block: Block) -> (r: Self) {
        item_fn(sig, block)
    }
}

/// An empty extern block with the given ABI.
pub fn item_foreign_mod(abi: Abi) -> (r: ItemForeignMod)
    ensures
        r.attrs@ == Seq::<Attribute>::empty(),
        r.unsafety == false,
        r.abi == abi,
        r.items@ == Seq::<ForeignItem>::empty(),
{
    ItemForeignMod {
        attrs: Vec::new(),
        unsafety: false,
        abi: abi,
        items: Vec::new(),
    }
}

/// The fluent surface of an extern block.
pub trait ItemForeignModBuilder: AttrsPropsBuilder + UnsafetyPropsBuilder {
    /// Holds iff `r` is the node that the constructor arguments produce.
    spec fn new_ens(abi: Abi, r: Self) -> bool;

    fn new(abi: Abi) -> (r: Self)
        ensures
            Self::new_ens(abi, r),
    ;

    /// Holds iff `r` is `self` with the item list replaced wholesale.
    spec fn items_ens(self, items: Seq<ForeignItem>, r: Self) -> bool;

    /// Replace the contained items wholesale.
    fn items<A: IntoForeignItem>(self, items: Vec<A>) -> (r: Self)
        ensures
            self.items_ens(items@.map_values(|e: A| e.foreign_item_of()), r),
    ;

    /// Holds iff `r` is `self` with one item appended.
    spec fn item_ens(self, item: ForeignItem, r: Self) -> bool;

    /// Append one item, keeping the ones already there.
    fn item<A: IntoForeignItem>(self, item: A) -> (r: Self)
        ensures
            self.item_ens(item.foreign_item_of(), r),
    ;
}

impl ItemForeignModBuilder for ItemForeignMod {
    open spec fn new_ens(abi: Abi, r: Self) -> bool {
        r.attrs@ == Seq::<Attribute>::empty() && r.unsafety == false && r.abi == abi && r.items@ == Seq::<ForeignItem>::empty()
    }

    fn new(abi: Abi) -> (r: Self) {
        item_foreign_mod(abi)
    }

    open spec fn items_ens(self, items: Seq<ForeignItem>, r: Self) -> bool {
        r == (ItemForeignMod { items: r.items, ..self }) && r.items@ == items
    }

    fn items<A: IntoForeignItem>(self, items: Vec<A>) -> (r: Self) {
        let items = into_foreign_item_vec(items);
        ItemForeignMod { items: items, ..self }
    }

    open spec fn item_ens(self, item: ForeignItem, r: Self) -> bool {
        r == (ItemForeignMod { items: r.items, ..self }) && r.items@ == self.items@.push(item)
    }

    fn item<A: IntoForeignItem>(self, item: A) -> (r: Self) {
        let item = item.into_foreign_item();
        let mut node = self;
        node.items.push(item);
        node
    }
}

/// An empty inherent impl block for the given type.
pub fn item_impl<A: IntoType>(self_ty: A) -> (r: ItemImpl)
    ensures
        r.attrs@ == Seq::<Attribute>::empty(),
        r.defaultness == false,
        r.unsafety == false,
        generics_is_empty(r.generics),
        r.trait_ is None,
        *r.self_ty == self_ty.type_of(),
        r.items@ == Seq::<ImplItem>::empty(),
{
    let self_ty = self_ty.into_type();
    ItemImpl {
        attrs: Vec::new(),
        defaultness: false,
        unsafety: false,
        generics: empty_generics(),
        trait_: None,
        self_ty: Box::new(self_ty),
        items: Vec::new(),
    }
}

/// The fluent surface of an impl block.
pub trait ItemImplBuilder: AttrsPropsBuilder + DefaultnessPropsBuilder + UnsafetyPropsBuilder + ItemGenericsPropsBuilder {
    /// Holds iff `r` is the node that the constructor arguments produce.
    spec fn new_ens(self_ty: Type, r: Self) -> bool;

    fn new<A: IntoType>(self_ty: A) -> (r: Self)
        ensures
            Self::new_ens(self_ty.type_of(), r),
    ;

    /// Holds iff `r` is `self` implementing the given trait, negated when `bang`.
    spec fn trait__ens(self, bang: bool, path: Path, r: Self) -> bool;

    /// Make the impl implement a trait, negated when `bang`.
    fn trait_<A: IntoPath>(self, bang: bool, path: A) -> (r: Self)
        ensures
            exists|path_v: Path| #[trigger] path.into_path_ens(path_v) && self.trait__ens(bang, path_v, r),
    ;

    /// Holds iff `r` is `self` with the item list replaced wholesale.
    spec fn items_ens(self, items: Seq<ImplItem>, r: Self) -> bool;

    /// Replace the contained items wholesale.
    fn items<A: IntoImplItem>(self, items: Vec<A>) -> (r: Self)
        ensures
            self.items_ens(items@.map_values(|e: A| e.impl_item_of()), r),
    ;

    /// Holds iff `r` is `self` with one item appended.
    spec fn item_ens(self, item: ImplItem, r: Self) -> bool;

    /// Append one item, keeping the ones already there.
    fn item<A: IntoImplItem>(self, item: A) -> (r: Self)
        ensures
            self.item_ens(item.impl_item_of(), r),
    ;
}

impl ItemImplBuilder for ItemImpl {
    open spec fn new_ens(self_ty: Type, r: Self) -> bool {
        r.attrs@ == Seq::<Attribute>::empty() && r.defaultness == false && r.unsafety == false && generics_is_empty(r.generics) && r.trait_ is None && *r.self_ty == self_ty && r.items@ == Seq::<ImplItem>::empty()
    }

    fn new<A: IntoType>(self_ty: A) -> (r: Self) {
        item_impl(self_ty)
    }

    open spec fn trait__ens(self, bang: bool, path: Path, r: Self) -> bool {
        r == (ItemImpl { trait_: r.trait_, ..self }) && (r.trait_ matches Some(tp) && tp.0 == bang && tp.1 == path)
    }

    fn trait_<A: IntoPath>(self, bang: bool, path: A) -> (r: Self) {
        let path = path.into_path();
        ItemImpl { trait_: Some((bang, path)), ..self }
    }

    open spec fn items_ens(self, items: Seq<ImplItem>, r: Self) -> bool {
        r == (ItemImpl { items: r.items, ..self }) && r.items@ == items
    }

    fn items<A: IntoImplItem>(self, items: Vec<A>) -> (r: Self) {
        let items = into_impl_item_vec(items);
        ItemImpl { items: items, ..self }
    }

    open spec fn item_ens(self, item: ImplItem, r: Self) -> bool {
        r == (ItemImpl { items: r.items, ..self }) && r.items@ == self.items@.push(item)
    }

    fn item<A: IntoImplItem>(self, item: A) -> (r: Self) {
        let item = item.into_impl_item();
        let mut node = self;
        node.items.push(item);
        node
    }
}

/// A named macro in item position.
pub fn item_macro<A: IntoIdent>(ident: A, mac: Macro) -> (r: ItemMacro)
    ensures
        r.attrs@ == Seq::<Attribute>::empty(),
        r.ident matches Some(x) && ident.into_ident_ens(x),
        r.mac == mac,
        r.semi_token == false,
{
    let ident = ident.into_ident();
    ItemMacro {
        attrs: Vec::new(),
        ident: Some(ident),
        mac: mac,
        semi_token: false,
    }
}

/// The fluent surface of an item-position macro.
pub trait ItemMacroBuilder: AttrsPropsBuilder {
    /// Holds iff `r` is the node that the constructor arguments produce.
    spec fn new_ens(ident: Ident, mac: Macro, r: Self) -> bool;

    fn new<A: IntoIdent>(ident: A, mac: Macro) -> (r: Self)
        ensures
            exists|ident_v: Ident| #[trigger] ident.into_ident_ens(ident_v) && Self::new_ens(ident_v, mac, r),
    ;
}

impl ItemMacroBuilder for ItemMacro {
    open spec fn new_ens(ident: Ident, mac: Macro, r: Self) -> bool {
        r.attrs@ == Seq::<Attribute>::empty() && r.ident == Some(ident) && r.mac == mac && r.semi_token == false
    }

    fn new<A: IntoIdent>(ident: A, mac: Macro) -> (r: Self) {
        item_macro(ident, mac)
    }
}

/// A private module declaration without a body.
pub fn item_mod<A: IntoIdent>(ident: A) -> (r: ItemMod)
    ensures
        r.attrs@ == Seq::<Attribute>::empty(),
        r.vis == Visibility::Inherited,
        r.unsafety == false,
        ident.into_ident_ens(r.ident),
        r.content is None,
        r.semi == false,
{
    let ident = ident.into_ident();
    ItemMod {
        attrs: Vec::new(),
        vis: Visibility::Inherited,
        unsafety: false,
        ident: ident,
        content: None,
        semi: false,
    }
}

/// The fluent surface of a module.
pub trait ItemModBuilder: AttrsPropsBuilder + VisPropsBuilder + UnsafetyPropsBuilder {
    /// Holds iff `r` is the node that the constructor arguments produce.
    spec fn new_ens(ident: Ident, r: Self) -> bool;

    fn new<A: IntoIdent>(ident: A) -> (r: Self)
        ensures
            exists|ident_v: Ident| #[trigger] ident.into_ident_ens(ident_v) && Self::new_ens(ident_v, r),
    ;

    /// Holds iff `r` is `self` with an inline body holding exactly the given items.
    spec fn content_ens(self, items: Seq<Item>, r: Self) -> bool;

    /// Give the module an inline body.
    fn content<A: IntoItem>(self, items: Vec<A>) -> (r: Self)
        ensures
            self.content_ens(items@.map_values(|e: A| e.item_of()), r),
    ;
}

impl ItemModBuilder for ItemMod {
    open spec fn new_ens(ident: Ident, r: Self) -> bool {
        r.attrs@ == Seq::<Attribute>::empty() && r.vis == Visibility::Inherited && r.unsafety == false && r.ident == ident && r.content is None && r.semi == false
    }

    fn new<A: IntoIdent>(ident: A) -> (r: Self) {
        item_mod(ident)
    }

    open spec fn content_ens(self, items: Seq<Item>, r: Self) -> bool {
        r == (ItemMod { content: r.content, ..self }) && (r.content matches Some(v) && v@ == items)
    }

    fn content<A: IntoItem>(self, items: Vec<A>) -> (r: Self) {
        let items = into_item_vec(items);
        ItemMod { content: Some(items), ..self }
    }
}

/// A private immutable static item.
pub fn item_static<A: IntoIdent, B: IntoType, C: IntoExpr>(ident: A, ty: B, expr: C) -> (r: ItemStatic)
    ensures
        r.attrs@ == Seq::<Attribute>::empty(),
        r.vis == Visibility::Inherited,
        r.mutability == StaticMutability::Immutable,
        ident.into_ident_ens(r.ident),
        *r.ty == ty.type_of(),
        *r.expr == expr.expr_of(),
{
    let ident = ident.into_ident();
    let ty = ty.into_type();
    let expr = expr.into_expr();
    ItemStatic {
        attrs: Vec::new(),
        vis: Visibility::Inherited,
        mutability: StaticMutability::Immutable,
        ident: ident,
        ty: Box::new(ty),
        expr: Box::new(expr),
    }
}

/// The fluent surface of a static item.
pub trait ItemStaticBuilder: AttrsPropsBuilder + VisPropsBuilder {
    /// Holds iff `r` is the node that the constructor arguments produce.
    spec fn new_ens(ident: Ident, ty: Type, expr: Expr, r: Self) -> bool;

    fn new<A: IntoIdent, B: IntoType, C: IntoExpr>(ident: A, ty: B, expr: C) -> (r: Self)
        ensures
            exists|ident_v: Ident| #[trigger] ident.into_ident_ens(ident_v) && Self::new_ens(ident_v, ty.type_of(), expr.expr_of(), r),
    ;

    /// Holds iff `r` is `self` made mutable when asked, immutable otherwise.
    spec fn mutability_ens(self, mutability: bool, r: Self) -> bool;

    /// Make the static mutable, or immutable again.
    fn mutability(self, mutability: bool) -> (r: Self)
        ensures
            self.mutability_ens(mutability, r),
    ;
}

impl ItemStaticBuilder for ItemStatic {
    open spec fn new_ens(ident: Ident, ty: Type, expr: Expr, r: Self) -> bool {
        r.attrs@ == Seq::<Attribute>::empty() && r.vis == Visibility::Inherited && r.mutability == StaticMutability::Immutable && r.ident == ident && *r.ty == ty && *r.expr == expr
    }

    fn new<A: IntoIdent, B: IntoType, C: IntoExpr>(ident: A, ty: B, expr: C) -> (r: Self) {
        item_static(ident, ty, expr)
    }

    open spec fn mutability_ens(self, mutability: bool, r: Self) -> bool {
        r == (ItemStatic { mutability: if mutability { StaticMutability::Mut } else { StaticMutability::Immutable }, ..self })
    }

    fn mutability(self, mutability: bool) -> (r: Self) {
        ItemStatic { mutability: if mutability { StaticMutability::Mut } else { StaticMutability::Immutable }, ..self }
    }
}

/// A private struct definition over the given field group.
pub fn item_struct<A: IntoIdent, B: IntoFields>(ident: A, fields: B) -> (r: ItemStruct)
    ensures
        r.attrs@ == Seq::<Attribute>::empty(),
        r.vis == Visibility::Inherited,
        ident.into_ident_ens(r.ident),
        generics_is_empty(r.generics),
        r.fields == fields.fields_of(),
        r.semi_token == false,
{
    let ident = ident.into_ident();
    let fields = fields.into_fields();
    ItemStruct {
        attrs: Vec::new(),
        vis: Visibility::Inherited,
        ident: ident,
        generics: empty_generics(),
        fields: fields,
        semi_token: false,
    }
}

/// The fluent surface of a struct definition.
pub trait ItemStructBuilder: AttrsPropsBuilder + VisPropsBuilder + ItemGenericsPropsBuilder {
    /// Holds iff `r` is the node that the constructor arguments produce.
    spec fn new_ens(ident: Ident, fields: Fields, r: Self) -> bool;

    fn new<A: IntoIdent, B: IntoFields>(ident: A, fields: B) -> (r: Self)
        ensures
            exists|ident_v: Ident| #[trigger] ident.into_ident_ens(ident_v) && Self::new_ens(ident_v, fields.fields_of(), r),
    ;
}

impl ItemStructBuilder for ItemStruct {
    open spec fn new_ens(ident: Ident, fields: Fields, r: Self) -> bool {
        r.attrs@ == Seq::<Attribute>::empty() && r.vis == Visibility::Inherited && r.ident == ident && generics_is_empty(r.generics) && r.fields == fields && r.semi_token == false
    }

    fn new<A: IntoIdent, B: IntoFields>(ident: A, fields: B) -> (r: Self) {
        item_struct(ident, fields)
    }
}

/// A private empty trait definition.
pub fn item_trait<A: IntoIdent>(ident: A) -> (r: ItemTrait)
    ensures
        r.attrs@ == Seq::<Attribute>::empty(),
        r.vis == Visibility::Inherited,
        r.unsafety == false,
        r.auto_token == false,
        ident.into_ident_ens(r.ident),
        generics_is_empty(r.generics),
        r.colon_token == false,
        r.supertraits@ == Seq::<TypeParamBound>::empty(),
        r.items@ == Seq::<TraitItem>::empty(),
{
    let ident = ident.into_ident();
    ItemTrait {
        attrs: Vec::new(),
        vis: Visibility::Inherited,
        unsafety: false,
        auto_token: false,
        ident: ident,
        generics: empty_generics(),
        colon_token: false,
        supertraits: Vec::new(),
        items: Vec::new(),
    }
}

/// The fluent surface of a trait definition.
pub trait ItemTraitBuilder: AttrsPropsBuilder + VisPropsBuilder + UnsafetyPropsBuilder + ItemGenericsPropsBuilder {
    /// Holds iff `r` is the node that the constructor arguments produce.
    spec fn new_ens(ident: Ident, r: Self) -> bool;

    fn new<A: IntoIdent>(ident: A) -> (r: Self)
        ensures
            exists|ident_v: Ident| #[trigger] ident.into_ident_ens(ident_v) && Self::new_ens(ident_v, r),
    ;

    /// Holds iff `r` is `self` with the auto marker set as given.
    spec fn auto_ens(self, auto: bool, r: Self) -> bool;

    /// Mark or unmark the trait auto.
    fn auto(self, auto: bool) -> (r: Self)
        ensures
            self.auto_ens(auto, r),
    ;

    /// Holds iff `r` is `self` with the supertrait colon set as given.
    spec fn colon_token_ens(self, colon_token: bool, r: Self) -> bool;

    /// Keep or drop the supertrait colon.
    fn colon_token(self, colon_token: bool) -> (r: Self)
        ensures
            self.colon_token_ens(colon_token, r),
    ;

    /// Holds iff `r` is `self` with the supertraits replaced wholesale.
    spec fn supertraits_ens(self, supertraits: Seq<TypeParamBound>, r: Self) -> bool;

    /// Replace the supertraits wholesale.
    fn supertraits<A: IntoTypeParamBound>(self, supertraits: Vec<A>) -> (r: Self)
        ensures
            self.supertraits_ens(supertraits@.map_values(|e: A| e.type_param_bound_of()), r),
    ;

    /// Holds iff `r` is `self` with the item list replaced wholesale.
    spec fn items_ens(self, items: Seq<TraitItem>, r: Self) -> bool;

    /// Replace the contained items wholesale.
    fn items<A: IntoTraitItem>(self, items: Vec<A>) -> (r: Self)
        ensures
            self.items_ens(items@.map_values(|e: A| e.trait_item_of()), r),
    ;

    /// Holds iff `r` is `self` with one item appended.
    spec fn item_ens(self, item: TraitItem, r: Self) -> bool;

    /// Append one item, keeping the ones already there.
    fn item<A: IntoTraitItem>(self, item: A) -> (r: Self)
        ensures
            self.item_ens(item.trait_item_of(), r),
    ;
}

impl ItemTraitBuilder for ItemTrait {
    open spec fn new_ens(ident: Ident, r: Self) -> bool {
        r.attrs@ == Seq::<Attribute>::empty() && r.vis == Visibility::Inherited && r.unsafety == false && r.auto_token == false && r.ident == ident && generics_is_empty(r.generics) && r.colon_token == false && r.supertraits@ == Seq::<TypeParamBound>::empty() && r.items@ == Seq::<TraitItem>::empty()
    }

    fn new<A: IntoIdent>(ident: A) -> (r: Self) {
        item_trait(ident)
    }

    open spec fn auto_ens(self, auto: bool, r: Self) -> bool {
        r == (ItemTrait { auto_token: auto, ..self })
    }

    fn auto(self, auto: bool) -> (r: Self) {
        ItemTrait { auto_token: auto, ..self }
    }

    open spec fn colon_token_ens(self, colon_token: bool, r: Self) -> bool {
        r == (ItemTrait { colon_token: colon_token, ..self })
    }

    fn colon_token(self, colon_token: bool) -> (r: Self) {
        ItemTrait { colon_token: colon_token, ..self }
    }

    open spec fn supertraits_ens(self, supertraits: Seq<TypeParamBound>, r: Self) -> bool {
        r == (ItemTrait { supertraits: r.supertraits, ..self }) && r.supertraits@ == supertraits
    }

    fn supertraits<A: IntoTypeParamBound>(self, supertraits: Vec<A>) -> (r: Self) {
        let supertraits = into_type_param_bound_vec(supertraits);
        ItemTrait { supertraits: supertraits, ..self }
    }

    open spec fn items_ens(self, items: Seq<TraitItem>, r: Self) -> bool {
        r == (ItemTrait { items: r.items, ..self }) && r.items@ == items
    }

    fn items<A: IntoTraitItem>(self, items: Vec<A>) -> (r: Self) {
        let items = into_trait_item_vec(items);
        ItemTrait { items: items, ..self }
    }

    open spec fn item_ens(self, item: TraitItem, r: Self) -> bool {
        r == (ItemTrait { items: r.items, ..self }) && r.items@ == self.items@.push(item)
    }

    fn item<A: IntoTraitItem>(self, item: A) -> (r: Self) {
        let item = item.into_trait_item();
        let mut node = self;
        node.items.push(item);
        node
    }
}

/// A private trait alias over the given bounds.
pub fn item_trait_alias<A: IntoIdent, B: IntoTypeParamBound>(ident: A, bounds: Vec<B>) -> (r: ItemTraitAlias)
    ensures
        r.attrs@ == Seq::<Attribute>::empty(),
        r.vis == Visibility::Inherited,
        ident.into_ident_ens(r.ident),
        generics_is_empty(r.generics),
        r.bounds@ == bounds@.map_values(|e: B| e.type_param_bound_of()),
{
    let ident = ident.into_ident();
    let bounds = into_type_param_bound_vec(bounds);
    ItemTraitAlias {
        attrs: Vec::new(),
        vis: Visibility::Inherited,
        ident: ident,
        generics: empty_generics(),
        bounds: bounds,
    }
}

/// The fluent surface of a trait alias.
pub trait ItemTraitAliasBuilder: AttrsPropsBuilder + VisPropsBuilder + ItemGenericsPropsBuilder {
    /// Holds iff `r` is the node that the constructor arguments produce.
    spec fn new_ens(ident: Ident, bounds: Seq<TypeParamBound>, r: Self) -> bool;

    fn new<A: IntoIdent, B: IntoTypeParamBound>(ident: A, bounds: Vec<B>) -> (r: Self)
        ensures
            exists|ident_v: Ident| #[trigger] ident.into_ident_ens(ident_v) && Self::new_ens(ident_v, bounds@.map_values(|e: B| e.type_param_bound_of()), r),
    ;
}

impl ItemTraitAliasBuilder for ItemTraitAlias {
    open spec fn new_ens(ident: Ident, bounds: Seq<TypeParamBound>, r: Self) -> bool {
        r.attrs@ == Seq::<Attribute>::empty() && r.vis == Visibility::Inherited && r.ident == ident && generics_is_empty(r.generics) && r.bounds@ == bounds
    }

    fn new<A: IntoIdent, B: IntoTypeParamBound>(ident: A, bounds: Vec<B>) -> (r: Self) {
        item_trait_alias(ident, bounds)
    }
}

/// A private type alias.
pub fn item_type<A: IntoIdent, B: IntoType>(ident: A, ty: B) -> (r: ItemType)
    ensures
        r.attrs@ == Seq::<Attribute>::empty(),
        r.vis == Visibility::Inherited,
        ident.into_ident_ens(r.ident),
        generics_is_empty(r.generics),
        *r.ty == ty.type_of(),
{
    let ident = ident.into_ident();
    let ty = ty.into_type();
    ItemType {
        attrs: Vec::new(),
        vis: Visibility::Inherited,
        ident: ident,
        generics: empty_generics(),
        ty: Box::new(ty),
    }
}

/// The fluent surface of a type alias.
pub trait ItemTypeBuilder: AttrsPropsBuilder + VisPropsBuilder + ItemGenericsPropsBuilder {
    /// Holds iff `r` is the node that the constructor arguments produce.
    spec fn new_ens(ident: Ident, ty: Type, r: Self) -> bool;

    fn new<A: IntoIdent, B: IntoType>(ident: A, ty: B) -> (r: Self)
        ensures
            exists|ident_v: Ident| #[trigger] ident.into_ident_ens(ident_v) && Self::new_ens(ident_v, ty.type_of(), r),
    ;
}

impl ItemTypeBuilder for ItemType {
    open spec fn new_ens(ident: Ident, ty: Type, r: Self) -> bool {
        r.attrs@ == Seq::<Attribute>::empty() && r.vis == Visibility::Inherited && r.ident == ident && generics_is_empty(r.generics) && *r.ty == ty
    }

    fn new<A: IntoIdent, B: IntoType>(ident: A, ty: B) -> (r: Self) {
        item_type(ident, ty)
    }
}

/// A private union definition; its fields are always the named group.
pub fn item_union<A: IntoIdent>(ident: A, fields: FieldsNamed) -> (r: ItemUnion)
    ensures
        r.attrs@ == Seq::<Attribute>::empty(),
        r.vis == Visibility::Inherited,
        ident.into_ident_ens(r.ident),
        generics_is_empty(r.generics),
        r.fields == fields,
{
    let ident = ident.into_ident();
    ItemUnion {
        attrs: Vec::new(),
        vis: Visibility::Inherited,
        ident: ident,
        generics: empty_generics(),
        fields: fields,
    }
}

/// The fluent surface of a union definition.
pub trait ItemUnionBuilder: AttrsPropsBuilder + VisPropsBuilder + ItemGenericsPropsBuilder {
    /// Holds iff `r` is the node that the constructor arguments produce.
    spec fn new_ens(ident: Ident, fields: FieldsNamed, r: Self) -> bool;

    fn new<A: IntoIdent>(ident: A, fields: FieldsNamed) -> (r: Self)
        ensures
            exists|ident_v: Ident| #[trigger] ident.into_ident_ens(ident_v) && Self::new_ens(ident_v, fields, r),
    ;
}

impl ItemUnionBuilder for ItemUnion {
    open spec fn new_ens(ident: Ident, fields: FieldsNamed, r: Self) -> bool {
        r.attrs@ == Seq::<Attribute>::empty() && r.vis == Visibility::Inherited && r.ident == ident && generics_is_empty(r.generics) && r.fields == fields
    }

    fn new<A: IntoIdent>(ident: A, fields: FieldsNamed) -> (r: Self) {
        item_union(ident, fields)
    }
}

/// A private use declaration without a leading separator.
pub fn item_use<A: IntoUseTree>(tree: A) -> (r: ItemUse)
    ensures
        r.attrs@ == Seq::<Attribute>::empty(),
        r.vis == Visibility::Inherited,
        r.leading_colon == false,
        r.tree == tree.use_tree_of(),
{
    let tree = tree.into_use_tree();
    ItemUse {
        attrs: Vec::new(),
        vis: Visibility::Inherited,
        leading_colon: false,
        tree: tree,
    }
}

/// The fluent surface of a use declaration.
pub trait ItemUseBuilder: AttrsPropsBuilder + VisPropsBuilder {
    /// Holds iff `r` is the node that the constructor arguments produce.
    spec fn new_ens(tree: UseTree, r: Self) -> bool;

    fn new<A: IntoUseTree>(tree: A) -> (r: Self)
        ensures
            Self::new_ens(tree.use_tree_of(), r),
    ;

    /// Holds iff `r` is `self` with the leading-separator marker set as given.
    spec fn leading_ens(self, leading: bool, r: Self) -> bool;

    /// Keep or drop the leading path separator.
    fn leading(self, leading: bool) -> (r: Self)
        ensures
            self.leading_ens(leading, r),
    ;
}

impl ItemUseBuilder for ItemUse {
    open spec fn new_ens(tree: UseTree, r: Self) -> bool {
        r.attrs@ == Seq::<Attribute>::empty() && r.vis == Visibility::Inherited && r.leading_colon == false && r.tree == tree
    }

    fn new<A: IntoUseTree>(tree: A) -> (r: Self) {
        item_use(tree)
    }

    open spec fn leading_ens(self, leading: bool, r: Self) -> bool {
        r == (ItemUse { leading_colon: leading, ..self })
    }

    fn leading(self, leading: bool) -> (r: Self) {
        ItemUse { leading_colon: leading, ..self }
    }
}

/// A use-tree prefix segment over the given subtree.
pub fn use_path<A: IntoIdent, B: IntoUseTree>(ident: A, tree: B) -> (r: UsePath)
    ensures
        ident.into_ident_ens(r.ident),
        *r.tree == tree.use_tree_of(),
{
    let ident = ident.into_ident();
    let tree = tree.into_use_tree();
    UsePath {
        ident: ident,
        tree: Box::new(tree),
    }
}

/// The fluent surface of a use-tree prefix.
pub trait UsePathBuilder: Sized {
    /// Holds iff `r` is the node that the constructor arguments produce.
    spec fn new_ens(ident: Ident, tree: UseTree, r: Self) -> bool;

    fn new<A: IntoIdent, B: IntoUseTree>(ident: A, tree: B) -> (r: Self)
        ensures
            exists|ident_v: Ident| #[trigger] ident.into_ident_ens(ident_v) && Self::new_ens(ident_v, tree.use_tree_of(), r),
    ;
}

impl UsePathBuilder for UsePath {
    open spec fn new_ens(ident: Ident, tree: UseTree, r: Self) -> bool {
        r.ident == ident && *r.tree == tree
    }

    fn new<A: IntoIdent, B: IntoUseTree>(ident: A, tree: B) -> (r: Self) {
        use_path(ident, tree)
    }
}

/// A use-tree leaf naming one item.
pub fn use_name<A: IntoIdent>(ident: A) -> (r: UseName)
    ensures
        ident.into_ident_ens(r.ident),
{
    let ident = ident.into_ident();
    UseName {
        ident: ident,
    }
}

/// The fluent surface of a use-tree leaf.
pub trait UseNameBuilder: Sized {
    /// Holds iff `r` is the node that the constructor arguments produce.
    spec fn new_ens(ident: Ident, r: Self) -> bool;

    fn new<A: IntoIdent>(ident: A) -> (r: Self)
        ensures
            exists|ident_v: Ident| #[trigger] ident.into_ident_ens(ident_v) && Self::new_ens(ident_v, r),
    ;
}

impl UseNameBuilder for UseName {
    open spec fn new_ens(ident: Ident, r: Self) -> bool {
        r.ident == ident
    }

    fn new<A: IntoIdent>(ident: A) -> (r: Self) {
        use_name(ident)
    }
}

/// A use-tree leaf renaming one item.
pub fn use_rename<A: IntoIdent, B: IntoIdent>(name: A, rename: B) -> (r: UseRename)
    ensures
        name.into_ident_ens(r.ident),
        rename.into_ident_ens(r.rename),
{
    let name = name.into_ident();
    let rename = rename.into_ident();
    UseRename {
        ident: name,
        rename: rename,
    }
}

/// The fluent surface of a renaming use-tree leaf.
pub trait UseRenamBuilder: Sized {
    /// Holds iff `r` is the node that the constructor arguments produce.
    spec fn new_ens(name: Ident, rename: Ident, r: Self) -> bool;

    fn new<A: IntoIdent, B: IntoIdent>(name: A, rename: B) -> (r: Self)
        ensures
            exists|name_v: Ident, rename_v: Ident| #[trigger] name.into_ident_ens(name_v) && #[trigger] rename.into_ident_ens(rename_v) && Self::new_ens(name_v, rename_v, r),
    ;
}

impl UseRenamBuilder for UseRename {
    open spec fn new_ens(name: Ident, rename: Ident, r: Self) -> bool {
        r.ident == name && r.rename == rename
    }

    fn new<A: IntoIdent, B: IntoIdent>(name: A, rename: B) -> (r: Self) {
        use_rename(name, rename)
    }
}

/// A use-tree glob leaf.
pub fn use_glob() -> (r: UseGlob)
    ensures
        r == (UseGlob {  }),
{
    UseGlob {  }
}

/// The fluent surface of a use-tree glob.
pub trait UseGlobBuilder: Sized {
    /// Holds iff `r` is the node that the constructor arguments produce.
    spec fn new_ens(r: Self) -> bool;

    fn new() -> (r: Self)
        ensures
            Self::new_ens(r),
    ;
}

impl UseGlobBuilder for UseGlob {
    open spec fn new_ens(r: Self) -> bool {
        r == (UseGlob {  })
    }

    fn new() -> (r: Self) {
        use_glob()
    }
}

/// A braced group of use-tree nodes.
pub fn use_group<A: IntoUseTree>(items: Vec<A>) -> (r: UseGroup)
    ensures
        r.items@ == items@.map_values(|e: A| e.use_tree_of()),
{
    let items = into_use_tree_vec(items);
    UseGroup {
        items: items,
    }
}

/// The fluent surface of a use-tree group.
pub trait UseGroupBuilder: Sized {
    /// Holds iff `r` is the node that the constructor arguments produce.
    spec fn new_ens(items: Seq<UseTree>, r: Self) -> bool;

    fn new<A: IntoUseTree>(items: Vec<A>) -> (r: Self)
        ensures
            Self::new_ens(items@.map_values(|e: A| e.use_tree_of()), r),
    ;
}

impl UseGroupBuilder for UseGroup {
    open spec fn new_ens(items: Seq<UseTree>, r: Self) -> bool {
        r.items@ == items
    }

    fn new<A: IntoUseTree>(items: Vec<A>) -> (r: Self) {
        use_group(items)
    }
}

/// A private function declaration inside an extern block.
pub fn foreign_item_fn(sig: Signature) -> (r: ForeignItemFn)
    ensures
        r.attrs@ == Seq::<Attribute>::empty(),
        r.vis == Visibility::Inherited,
        r.sig == sig,
{
    ForeignItemFn {
        attrs: Vec::new(),
        vis: Visibility::Inherited,
        sig: sig,
    }
}

/// The fluent surface of an extern function declaration.
pub trait ForeignItemFnBuilder: AttrsPropsBuilder + VisPropsBuilder {
    /// Holds iff `r` is the node that the constructor arguments produce.
    spec fn new_ens(sig: Signature, r: Self) -> bool;

    fn new(sig: Signature) -> (r: Self)
        ensures
            Self::new_ens(sig, r),
    ;
}

impl ForeignItemFnBuilder for ForeignItemFn {
    open spec fn new_ens(sig: Signature, r: Self) -> bool {
        r.attrs@ == Seq::<Attribute>::empty() && r.vis == Visibility::Inherited && r.sig == sig
    }

    fn new(sig: Signature) -> (r: Self) {
        foreign_item_fn(sig)
    }
}

/// A private immutable static declaration inside an extern block.
pub fn foreign_item_static<A: IntoIdent, B: IntoType>(ident: A, ty: B) -> (r: ForeignItemStatic)
    ensures
        r.attrs@ == Seq::<Attribute>::empty(),
        r.vis == Visibility::Inherited,
        r.mutability == StaticMutability::Immutable,
        ident.into_ident_ens(r.ident),
        *r.ty == ty.type_of(),
{
    let ident = ident.into_ident();
    let ty = ty.into_type();
    ForeignItemStatic {
        attrs: Vec::new(),
        vis: Visibility::Inherited,
        mutability: StaticMutability::Immutable,
        ident: ident,
        ty: Box::new(ty),
    }
}

/// The fluent surface of an extern static declaration.
pub trait ForeignItemStaticBuilder: AttrsPropsBuilder + VisPropsBuilder {
    /// Holds iff `r` is the node that the constructor arguments produce.
    spec fn new_ens(ident: Ident, ty: Type, r: Self) -> bool;

    fn new<A: IntoIdent, B: IntoType>(ident: A, ty: B) -> (r: Self)
        ensures
            exists|ident_v: Ident| #[trigger] ident.into_ident_ens(ident_v) && Self::new_ens(ident_v, ty.type_of(), r),
    ;

    /// Holds iff `r` is `self` made mutable when asked, immutable otherwise.
    spec fn mutability_ens(self, mutability: bool, r: Self) -> bool;

    /// Make the static mutable, or immutable again.
    fn mutability(self, mutability: bool) -> (r: Self)
        ensures
            self.mutability_ens(mutability, r),
    ;
}

impl ForeignItemStaticBuilder for ForeignItemStatic {
    open spec fn new_ens(ident: Ident, ty: Type, r: Self) -> bool {
        r.attrs@ == Seq::<Attribute>::empty() && r.vis == Visibility::Inherited && r.mutability == StaticMutability::Immutable && r.ident == ident && *r.ty == ty
    }

    fn new<A: IntoIdent, B: IntoType>(ident: A, ty: B) -> (r: Self) {
        foreign_item_static(ident, ty)
    }

    open spec fn mutability_ens(self, mutability: bool, r: Self) -> bool {
        r == (ForeignItemStatic { mutability: if mutability { StaticMutability::Mut } else { StaticMutability::Immutable }, ..self })
    }

    fn mutability(self, mutability: bool) -> (r: Self) {
        ForeignItemStatic { mutability: if mutability { StaticMutability::Mut } else { StaticMutability::Immutable }, ..self }
    }
}

/// A private type declaration inside an extern block.
pub fn foreign_item_type<A: IntoIdent>(ident: A) -> (r: ForeignItemType)
    ensures
        r.attrs@ == Seq::<Attribute>::empty(),
        r.vis == Visibility::Inherited,
        ident.into_ident_ens(r.ident),
        generics_is_empty(r.generics),
{
    let ident = ident.into_ident();
    ForeignItemType {
        attrs: Vec::new(),
        vis: Visibility::Inherited,
        ident: ident,
        generics: empty_generics(),
    }
}

/// The fluent surface of an extern type declaration.
pub trait ForeignItemTypeBuilder: AttrsPropsBuilder + VisPropsBuilder + ItemGenericsPropsBuilder {
    /// Holds iff `r` is the node that the constructor arguments produce.
    spec fn new_ens(ident: Ident, r: Self) -> bool;

    fn new<A: IntoIdent>(ident: A) -> (r: Self)
        ensures
            exists|ident_v: Ident| #[trigger] ident.into_ident_ens(ident_v) && Self::new_ens(ident_v, r),
    ;
}

impl ForeignItemTypeBuilder for ForeignItemType {
    open spec fn new_ens(ident: Ident, r: Self) -> bool {
        r.attrs@ == Seq::<Attribute>::empty() && r.vis == Visibility::Inherited && r.ident == ident && generics_is_empty(r.generics)
    }

    fn new<A: IntoIdent>(ident: A) -> (r: Self) {
        foreign_item_type(ident)
    }
}

/// A macro inside an extern block.
pub fn foreign_item_macro(mac: Macro) -> (r: ForeignItemMacro)
    ensures
        r.attrs@ == Seq::<Attribute>::empty(),
        r.mac == mac,
        r.semi_token == false,
{
    ForeignItemMacro {
        attrs: Vec::new(),
        mac: mac,
        semi_token: false,
    }
}

/// The fluent surface of an extern-block macro.
pub trait ForeignItemMacroBuilder: AttrsPropsBuilder {
    /// Holds iff `r` is the node that the constructor arguments produce.
    spec fn new_ens(mac: Macro, r: Self) -> bool;

    fn new(mac: Macro) -> (r: Self)
        ensures
            Self::new_ens(mac, r),
    ;
}

impl ForeignItemMacroBuilder for ForeignItemMacro {
    open spec fn new_ens(mac: Macro, r: Self) -> bool {
        r.attrs@ == Seq::<Attribute>::empty() && r.mac == mac && r.semi_token == false
    }

    fn new(mac: Macro) -> (r: Self) {
        foreign_item_macro(mac)
    }
}

/// An associated const inside a trait, without a default.
pub fn trait_item_const<A: IntoIdent, B: IntoType>(ident: A, ty: B) -> (r: TraitItemConst)
    ensures
        r.attrs@ == Seq::<Attribute>::empty(),
        ident.into_ident_ens(r.ident),
        generics_is_empty(r.generics),
        r.ty == ty.type_of(),
        r.default is None,
{
    let ident = ident.into_ident();
    let ty = ty.into_type();
    TraitItemConst {
        attrs: Vec::new(),
        ident: ident,
        generics: empty_generics(),
        ty: ty,
        default: None,
    }
}

/// The fluent surface of a trait const.
pub trait TraitItemConstBuilder: AttrsPropsBuilder + ItemGenericsPropsBuilder {
    /// Holds iff `r` is the node that the constructor arguments produce.
    spec fn new_ens(ident: Ident, ty: Type, r: Self) -> bool;

    fn new<A: IntoIdent, B: IntoType>(ident: A, ty: B) -> (r: Self)
        ensures
            exists|ident_v: Ident| #[trigger] ident.into_ident_ens(ident_v) && Self::new_ens(ident_v, ty.type_of(), r),
    ;

    /// Holds iff `r` is `self` with the default value set.
    spec fn default_ens(self, expr: Expr, r: Self) -> bool;

    /// Give the const a default value.
    fn default<A: IntoExpr>(self, expr: A) -> (r: Self)
        ensures
            self.default_ens(expr.expr_of(), r),
    ;
}

impl TraitItemConstBuilder for TraitItemConst {
    open spec fn new_ens(ident: Ident, ty: Type, r: Self) -> bool {
        r.attrs@ == Seq::<Attribute>::empty() && r.ident == ident && generics_is_empty(r.generics) && r.ty == ty && r.default is None
    }

    fn new<A: IntoIdent, B: IntoType>(ident: A, ty: B) -> (r: Self) {
        trait_item_const(ident, ty)
    }

    open spec fn default_ens(self, expr: Expr, r: Self) -> bool {
        r == (TraitItemConst { default: Some(expr), ..self })
    }

    fn default<A: IntoExpr>(self, expr: A) -> (r: Self) {
        let expr = expr.into_expr();
        TraitItemConst { default: Some(expr), ..self }
    }
}

/// An associated function inside a trait, without a default body.
pub fn trait_item_fn(sig: Signature) -> (r: TraitItemFn)
    ensures
        r.attrs@ == Seq::<Attribute>::empty(),
        r.sig == sig,
        r.default is None,
        r.semi_token == false,
{
    TraitItemFn {
        attrs: Vec::new(),
        sig: sig,
        default: None,
        semi_token: false,
    }
}

/// The fluent surface of a trait function.
pub trait TraitItemFnBuilder: AttrsPropsBuilder {
    /// Holds iff `r` is the node that the constructor arguments produce.
    spec fn new_ens(sig: Signature, r: Self) -> bool;

    fn new(sig: Signature) -> (r: Self)
        ensures
            Self::new_ens(sig, r),
    ;

    /// Holds iff `r` is `self` with the default body set.
    spec fn default_ens(self, block: Block, r: Self) -> bool;

    /// Give the function a default body.
    fn default(self, block: Block) -> (r: Self)
        ensures
            self.default_ens(block, r),
    ;
}

impl TraitItemFnBuilder for TraitItemFn {
    open spec fn new_ens(sig: Signature, r: Self) -> bool {
        r.attrs@ == Seq::<Attribute>::empty() && r.sig == sig && r.default is None && r.semi_token == false
    }

    fn new(sig: Signature) -> (r: Self) {
        trait_item_fn(sig)
    }

    open spec fn default_ens(self, block: Block, r: Self) -> bool {
        r == (TraitItemFn { default: Some(block), ..self })
    }

    fn default(self, block: Block) -> (r: Self) {
        TraitItemFn { default: Some(block), ..self }
    }
}

/// An associated type inside a trait, unbounded and without a default.
pub fn trait_item_type<A: IntoIdent>(ident: A) -> (r: TraitItemType)
    ensures
        r.attrs@ == Seq::<Attribute>::empty(),
        ident.into_ident_ens(r.ident),
        generics_is_empty(r.generics),
        r.colon_token == false,
        r.bounds@ == Seq::<TypeParamBound>::empty(),
        r.default is None,
{
    let ident = ident.into_ident();
    TraitItemType {
        attrs: Vec::new(),
        ident: ident,
        generics: empty_generics(),
        colon_token: false,
        bounds: Vec::new(),
        default: None,
    }
}

/// The fluent surface of a trait associated type.
pub trait TraitItemTypeBuilder: AttrsPropsBuilder {
    /// Holds iff `r` is the node that the constructor arguments produce.
    spec fn new_ens(ident: Ident, r: Self) -> bool;

    fn new<A: IntoIdent>(ident: A) -> (r: Self)
        ensures
            exists|ident_v: Ident| #[trigger] ident.into_ident_ens(ident_v) && Self::new_ens(ident_v, r),
    ;

    /// Holds iff `r` is `self` with the bounds replaced and the colon present.
    spec fn bounds_ens(self, bounds: Seq<TypeParamBound>, r: Self) -> bool;

    /// Replace the bounds, introducing the colon.
    fn bounds<A: IntoTypeParamBound>(self, bounds: Vec<A>) -> (r: Self)
        ensures
            self.bounds_ens(bounds@.map_values(|e: A| e.type_param_bound_of()), r),
    ;

    /// Holds iff `r` is `self` with the default type set.
    spec fn default_ens(self, ty: Type, r: Self) -> bool;

    /// Give the type a default.
    fn default<A: IntoType>(self, ty: A) -> (r: Self)
        ensures
            self.default_ens(ty.type_of(), r),
    ;
}

impl TraitItemTypeBuilder for TraitItemType {
    open spec fn new_ens(ident: Ident, r: Self) -> bool {
        r.attrs@ == Seq::<Attribute>::empty() && r.ident == ident && generics_is_empty(r.generics) && r.colon_token == false && r.bounds@ == Seq::<TypeParamBound>::empty() && r.default is None
    }

    fn new<A: IntoIdent>(ident: A) -> (r: Self) {
        trait_item_type(ident)
    }

    open spec fn bounds_ens(self, bounds: Seq<TypeParamBound>, r: Self) -> bool {
        r == (TraitItemType { colon_token: true, bounds: r.bounds, ..self }) && r.bounds@ == bounds
    }

    fn bounds<A: IntoTypeParamBound>(self, bounds: Vec<A>) -> (r: Self) {
        let bounds = into_type_param_bound_vec(bounds);
        TraitItemType { colon_token: true, bounds: bounds, ..self }
    }

    open spec fn default_ens(self, ty: Type, r: Self) -> bool {
        r == (TraitItemType { default: Some(ty), ..self })
    }

    fn default<A: IntoType>(self, ty: A) -> (r: Self) {
        let ty = ty.into_type();
        TraitItemType { default: Some(ty), ..self }
    }
}

/// A macro inside a trait definition.
pub fn trait_item_macro(mac: Macro) -> (r: TraitItemMacro)
    ensures
        r.attrs@ == Seq::<Attribute>::empty(),
        r.mac == mac,
        r.semi_token == false,
{
    TraitItemMacro {
        attrs: Vec::new(),
        mac: mac,
        semi_token: false,
    }
}

/// The fluent surface of a trait macro.
pub trait TraitItemMacroBuilder: AttrsPropsBuilder {
    /// Holds iff `r` is the node that the constructor arguments produce.
    spec fn new_ens(mac: Macro, r: Self) -> bool;

    fn new(mac: Macro) -> (r: Self)
        ensures
            Self::new_ens(mac, r),
    ;
}

impl TraitItemMacroBuilder for TraitItemMacro {
    open spec fn new_ens(mac: Macro, r: Self) -> bool {
        r.attrs@ == Seq::<Attribute>::empty() && r.mac == mac && r.semi_token == false
    }

    fn new(mac: Macro) -> (r: Self) {
        trait_item_macro(mac)
    }
}

/// A private associated const inside an impl block.
pub fn impl_item_const<A: IntoIdent, B: IntoType, C: IntoExpr>(ident: A, ty: B, expr: C) -> (r: ImplItemConst)
    ensures
        r.attrs@ == Seq::<Attribute>::empty(),
        r.vis == Visibility::Inherited,
        r.defaultness == false,
        ident.into_ident_ens(r.ident),
        generics_is_empty(r.generics),
        r.ty == ty.type_of(),
        r.expr == expr.expr_of(),
{
    let ident = ident.into_ident();
    let ty = ty.into_type();
    let expr = expr.into_expr();
    ImplItemConst {
        attrs: Vec::new(),
        vis: Visibility::Inherited,
        defaultness: false,
        ident: ident,
        generics: empty_generics(),
        ty: ty,
        expr: expr,
    }
}

/// The fluent surface of an impl const.
pub trait ImplItemConstBuilder: AttrsPropsBuilder + VisPropsBuilder + DefaultnessPropsBuilder {
    /// Holds iff `r` is the node that the constructor arguments produce.
    spec fn new_ens(ident: Ident, ty: Type, expr: Expr, r: Self) -> bool;

    fn new<A: IntoIdent, B: IntoType, C: IntoExpr>(ident: A, ty: B, expr: C) -> (r: Self)
        ensures
            exists|ident_v: Ident| #[trigger] ident.into_ident_ens(ident_v) && Self::new_ens(ident_v, ty.type_of(), expr.expr_of(), r),
    ;
}

impl ImplItemConstBuilder for ImplItemConst {
    open spec fn new_ens(ident: Ident, ty: Type, expr: Expr, r: Self) -> bool {
        r.attrs@ == Seq::<Attribute>::empty() && r.vis == Visibility::Inherited && r.defaultness == false && r.ident == ident && generics_is_empty(r.generics) && r.ty == ty && r.expr == expr
    }

    fn new<A: IntoIdent, B: IntoType, C: IntoExpr>(ident: A, ty: B, expr: C) -> (r: Self) {
        impl_item_const(ident, ty, expr)
    }
}

/// A private associated function inside an impl block.
pub fn impl_item_fn(sig: Signature, block: Block) -> (r: ImplItemFn)
    ensures
        r.attrs@ == Seq::<Attribute>::empty(),
        r.vis == Visibility::Inherited,
        r.defaultness == false,
        r.sig == sig,
        r.block == block,
{
    ImplItemFn {
        attrs: Vec::new(),
        vis: Visibility::Inherited,
        defaultness: false,
        sig: sig,
        block: block,
    }
}

/// The fluent surface of an impl function.
pub trait ImplItemFnBuilder: AttrsPropsBuilder + VisPropsBuilder + DefaultnessPropsBuilder {
    /// Holds iff `r` is the node that the constructor arguments produce.
    spec fn new_ens(sig: Signature, block: Block, r: Self) -> bool;

    fn new(sig: Signature, block: Block) -> (r: Self)
        ensures
            Self::new_ens(sig, block, r),
    ;
}

impl ImplItemFnBuilder for ImplItemFn {
    open spec fn new_ens(sig: Signature, block: Block, r: Self) -> bool {
        r.attrs@ == Seq::<Attribute>::empty() && r.vis == Visibility::Inherited && r.defaultness == false && r.sig == sig && r.block == block
    }

    fn new(sig: Signature, block: Block) -> (r: Self) {
        impl_item_fn(sig, block)
    }
}

/// A private associated type inside an impl block.
pub fn impl_item_type<A: IntoIdent, B: IntoType>(ident: A, ty: B) -> (r: ImplItemType)
    ensures
        r.attrs@ == Seq::<Attribute>::empty(),
        r.vis == Visibility::Inherited,
        r.defaultness == false,
        ident.into_ident_ens(r.ident),
        generics_is_empty(r.generics),
        r.ty == ty.type_of(),
{
    let ident = ident.into_ident();
    let ty = ty.into_type();
    ImplItemType {
        attrs: Vec::new(),
        vis: Visibility::Inherited,
        defaultness: false,
        ident: ident,
        generics: empty_generics(),
        ty: ty,
    }
}

/// The fluent surface of an impl associated type.
pub trait ImplItemTypeBuilder: AttrsPropsBuilder + VisPropsBuilder + DefaultnessPropsBuilder + ItemGenericsPropsBuilder {
    /// Holds iff `r` is the node that the constructor arguments produce.
    spec fn new_ens(ident: Ident, ty: Type, r: Self) -> bool;

    fn new<A: IntoIdent, B: IntoType>(ident: A, ty: B) -> (r: Self)
        ensures
            exists|ident_v: Ident| #[trigger] ident.into_ident_ens(ident_v) && Self::new_ens(ident_v, ty.type_of(), r),
    ;
}

impl ImplItemTypeBuilder for ImplItemType {
    open spec fn new_ens(ident: Ident, ty: Type, r: Self) -> bool {
        r.attrs@ == Seq::<Attribute>::empty() && r.vis == Visibility::Inherited && r.defaultness == false && r.ident == ident && generics_is_empty(r.generics) && r.ty == ty
    }

    fn new<A: IntoIdent, B: IntoType>(ident: A, ty: B) -> (r: Self) {
        impl_item_type(ident, ty)
    }
}

/// A macro inside an impl block.
pub fn impl_item_macro(mac: Macro) -> (r: ImplItemMacro)
    ensures
        r.attrs@ == Seq::<Attribute>::empty(),
        r.mac == mac,
        r.semi_token == false,
{
    ImplItemMacro {
        attrs: Vec::new(),
        mac: mac,
        semi_token: false,
    }
}

/// The fluent surface of an impl macro.
pub trait ImplItemMacroBuilder: AttrsPropsBuilder {
    /// Holds iff `r` is the node that the constructor arguments produce.
    spec fn new_ens(mac: Macro, r: Self) -> bool;

    fn new(mac: Macro) -> (r: Self)
        ensures
            Self::new_ens(mac, r),
    ;
}

impl ImplItemMacroBuilder for ImplItemMacro {
    open spec fn new_ens(mac: Macro, r: Self) -> bool {
        r.attrs@ == Seq::<Attribute>::empty() && r.mac == mac && r.semi_token == false
    }

    fn new(mac: Macro) -> (r: Self) {
        impl_item_macro(mac)
    }
}

/// A plain signature over the given name and arguments.
pub fn signature<A: IntoIdent, B: IntoFnArg>(ident: A, inputs: Vec<B>) -> (r: Signature)
    ensures
        r.constness == false,
        r.asyncness == false,
        r.unsafety == false,
        r.abi is None,
        ident.into_ident_ens(r.ident),
        generics_is_empty(r.generics),
        r.inputs@ == inputs@.map_values(|e: B| e.fn_arg_of()),
        r.variadic is None,
        r.output == ReturnType::Inferred,
{
    let ident = ident.into_ident();
    let inputs = into_fn_arg_vec(inputs);
    Signature {
        constness: false,
        asyncness: false,
        unsafety: false,
        abi: None,
        ident: ident,
        generics: empty_generics(),
        inputs: inputs,
        variadic: None,
        output: ReturnType::Inferred,
    }
}

/// The fluent surface of a signature.
pub trait SignatureBuilder: UnsafetyPropsBuilder + ItemGenericsPropsBuilder + OutputPropsBuilder {
    /// Holds iff `r` is the node that the constructor arguments produce.
    spec fn new_ens(ident: Ident, inputs: Seq<FnArg>, r: Self) -> bool;

    fn new<A: IntoIdent, B: IntoFnArg>(ident: A, inputs: Vec<B>) -> (r: Self)
        ensures
            exists|ident_v: Ident| #[trigger] ident.into_ident_ens(ident_v) && Self::new_ens(ident_v, inputs@.map_values(|e: B| e.fn_arg_of()), r),
    ;

    /// Holds iff `r` is `self` with the const marker set as given.
    spec fn constness_ens(self, constness: bool, r: Self) -> bool;

    /// Mark or unmark the function const.
    fn constness(self, constness: bool) -> (r: Self)
        ensures
            self.constness_ens(constness, r),
    ;

    /// Holds iff `r` is `self` with the async marker set as given.
    spec fn asyncness_ens(self, asyncness: bool, r: Self) -> bool;

    /// Mark or unmark the function async.
    fn asyncness(self, asyncness: bool) -> (r: Self)
        ensures
            self.asyncness_ens(asyncness, r),
    ;

    /// Holds iff `r` is `self` with the ABI replaced.
    spec fn abi_ens(self, abi: Abi, r: Self) -> bool;

    /// Attach an extern ABI marking.
    fn abi(self, abi: Abi) -> (r: Self)
        ensures
            self.abi_ens(abi, r),
    ;

    /// Holds iff `r` is `self` with the variadic tail replaced.
    spec fn variadic_ens(self, variadic: Variadic, r: Self) -> bool;

    /// Attach a variadic tail.
    fn variadic(self, variadic: Variadic) -> (r: Self)
        ensures
            self.variadic_ens(variadic, r),
    ;
}

impl SignatureBuilder for Signature {
    open spec fn new_ens(ident: Ident, inputs: Seq<FnArg>, r: Self) -> bool {
        r.constness == false && r.asyncness == false && r.unsafety == false && r.abi is None && r.ident == ident && generics_is_empty(r.generics) && r.inputs@ == inputs && r.variadic is None && r.output == ReturnType::Inferred
    }

    fn new<A: IntoIdent, B: IntoFnArg>(ident: A, inputs: Vec<B>) -> (r: Self) {
        signature(ident, inputs)
    }

    open spec fn constness_ens(self, constness: bool, r: Self) -> bool {
        r == (Signature { constness: constness, ..self })
    }

    fn constness(self, constness: bool) -> (r: Self) {
        Signature { constness: constness, ..self }
    }

    open spec fn asyncness_ens(self, asyncness: bool, r: Self) -> bool {
        r == (Signature { asyncness: asyncness, ..self })
    }

    fn asyncness(self, asyncness: bool) -> (r: Self) {
        Signature { asyncness: asyncness, ..self }
    }

    open spec fn abi_ens(self, abi: Abi, r: Self) -> bool {
        r == (Signature { abi: Some(abi), ..self })
    }

    fn abi(self, abi: Abi) -> (r: Self) {
        Signature { abi: Some(abi), ..self }
    }

    open spec fn variadic_ens(self, variadic: Variadic, r: Self) -> bool {
        r == (Signature { variadic: Some(variadic), ..self })
    }

    fn variadic(self, variadic: Variadic) -> (r: Self) {
        Signature { variadic: Some(variadic), ..self }
    }
}

/// Whether a type is the bare `Self` path every receiver starts with.
pub open spec fn is_self_type(t: Type) -> bool {
    &&& t matches Type::Path(tp)
    &&& tp.qself is None
    &&& tp.path.leading_colon == false
    &&& tp.path.segments@.len() == 1
    &&& tp.path.segments@[0].ident.name@ == "Self"@
    &&& tp.path.segments@[0].arguments == PathArguments::Plain
}

fn self_type() -> (t: Type)
    ensures
        is_self_type(t),
{
    let mut segments: Vec<PathSegment> = Vec::new();
    segments.push(PathSegment {
        ident: Ident { name: "Self".to_owned() },
        arguments: PathArguments::Plain,
    });
    Type::Path(TypePath { qself: None, path: Path { leading_colon: false, segments } })
}

/// The default receiver: by value, immutable, explicitly typed `Self`.
pub fn receiver() -> (r: Receiver)
    ensures
        r.attrs@ == Seq::<Attribute>::empty(),
        r.reference is None,
        r.mutability == false,
        r.colon_token == true,
        is_self_type(*r.ty),
{
    Receiver {
        attrs: Vec::new(),
        reference: None,
        mutability: false,
        colon_token: true,
        ty: Box::new(self_type()),
    }
}

/// The fluent surface of a receiver.
pub trait ReceiverBuilder: AttrsPropsBuilder {
    /// Holds iff `r` is the node that the constructor arguments produce.
    spec fn new_ens(r: Self) -> bool;

    fn new() -> (r: Self)
        ensures
            Self::new_ens(r),
    ;

    /// Holds iff `r` is `self` taken by plain reference when asked, by value otherwise.
    spec fn reference_ens(self, reference: bool, r: Self) -> bool;

    /// Take the receiver by reference without a lifetime, or by value again; this overwrites any lifetime set before.
    fn reference(self, reference: bool) -> (r: Self)
        ensures
            self.reference_ens(reference, r),
    ;

    /// Holds iff `r` is `self` taken by reference with the given lifetime.
    spec fn lifetime_ens(self, lifetime: Lifetime, r: Self) -> bool;

    /// Take the receiver by reference with an explicit lifetime; this overwrites a plain reference set before.
    fn lifetime(self, lifetime: Lifetime) -> (r: Self)
        ensures
            self.lifetime_ens(lifetime, r),
    ;

    /// Holds iff `r` is `self` with the mutability marker set as given.
    spec fn mutability_ens(self, mutability: bool, r: Self) -> bool;

    /// Make the receiver mutable, or immutable again.
    fn mutability(self, mutability: bool) -> (r: Self)
        ensures
            self.mutability_ens(mutability, r),
    ;

    /// Holds iff `r` is `self` retyped as given, with the colon present.
    spec fn ty_ens(self, ty: Type, r: Self) -> bool;

    /// Retype the receiver explicitly.
    fn ty<A: IntoType>(self, ty: A) -> (r: Self)
        ensures
            self.ty_ens(ty.type_of(), r),
    ;
}

impl ReceiverBuilder for Receiver {
    open spec fn new_ens(r: Self) -> bool {
        r.attrs@ == Seq::<Attribute>::empty() && r.reference is None && r.mutability == false && r.colon_token == true && is_self_type(*r.ty)
    }

    fn new() -> (r: Self) {
        receiver()
    }

    open spec fn reference_ens(self, reference: bool, r: Self) -> bool {
        r == (Receiver { reference: if reference { Some(None) } else { None }, ..self })
    }

    fn reference(self, reference: bool) -> (r: Self) {
        Receiver { reference: if reference { Some(None) } else { None }, ..self }
    }

    open spec fn lifetime_ens(self, lifetime: Lifetime, r: Self) -> bool {
        r == (Receiver { reference: Some(Some(lifetime)), ..self })
    }

    fn lifetime(self, lifetime: Lifetime) -> (r: Self) {
        Receiver { reference: Some(Some(lifetime)), ..self }
    }

    open spec fn mutability_ens(self, mutability: bool, r: Self) -> bool {
        r == (Receiver { mutability: mutability, ..self })
    }

    fn mutability(self, mutability: bool) -> (r: Self) {
        Receiver { mutability: mutability, ..self }
    }

    open spec fn ty_ens(self, ty: Type, r: Self) -> bool {
        r == (Receiver { colon_token: true, ty: r.ty, ..self }) && *r.ty == ty
    }

    fn ty<A: IntoType>(self, ty: A) -> (r: Self) {
        let ty = ty.into_type();
        Receiver { colon_token: true, ty: Box::new(ty), ..self }
    }
}

/// An unnamed variadic tail.
pub fn variadic() -> (r: Variadic)
    ensures
        r.attrs@ == Seq::<Attribute>::empty(),
        r.pat is None,
        r.comma == false,
{
    Variadic {
        attrs: Vec::new(),
        pat: None,
        comma: false,
    }
}

/// The fluent surface of a variadic tail.
pub trait VariadicBuilder: AttrsPropsBuilder {
    /// Holds iff `r` is the node that the constructor arguments produce.
    spec fn new_ens(r: Self) -> bool;

    fn new() -> (r: Self)
        ensures
            Self::new_ens(r),
    ;

    /// Holds iff `r` is `self` with the tail pattern set.
    spec fn pat_ens(self, pat: Pat, r: Self) -> bool;

    /// Bind the variadic tail to a pattern.
    fn pat<A: IntoPat>(self, pat: A) -> (r: Self)
        ensures
            self.pat_ens(pat.pat_of(), r),
    ;
}

impl VariadicBuilder for Variadic {
    open spec fn new_ens(r: Self) -> bool {
        r.attrs@ == Seq::<Attribute>::empty() && r.pat is None && r.comma == false
    }

    fn new() -> (r: Self) {
        variadic()
    }

    open spec fn pat_ens(self, pat: Pat, r: Self) -> bool {
        r == (Variadic { pat: r.pat, ..self }) && (r.pat matches Some(b) && *b == pat)
    }

    fn pat<A: IntoPat>(self, pat: A) -> (r: Self) {
        let pat = pat.into_pat();
        Variadic { pat: Some(Box::new(pat)), ..self }
    }
}

/// The mutable static marking.
pub fn static_mutability_mut_variant() -> (r: StaticMutability)
    ensures
        r == StaticMutability::Mut,
{
    StaticMutability::Mut
}

impl AttrsPropsBuilder for ItemConst {
    open spec fn attr_ens(self, attr: Attribute, r: Self) -> bool {
        r == (ItemConst { attrs: r.attrs, ..self }) && r.attrs@ == self.attrs@.push(attr)
    }

    open spec fn attrs_ens(self, attrs: Vec<Attribute>, r: Self) -> bool {
        r == (ItemConst { attrs, ..self })
    }

    fn attr(self, attr: Attribute) -> (r: Self) {
        let mut node = self;
        node.attrs.push(attr);
        node
    }

    fn attrs(self, attrs: Vec<Attribute>) -> (r: Self) {
        ItemConst { attrs, ..self }
    }
}

impl AttrsPropsBuilder for ItemEnum {
    open spec fn attr_ens(self, attr: Attribute, r: Self) -> bool {
        r == (ItemEnum { attrs: r.attrs, ..self }) && r.attrs@ == self.attrs@.push(attr)
    }

    open spec fn attrs_ens(self, attrs: Vec<Attribute>, r: Self) -> bool {
        r == (ItemEnum { attrs, ..self })
    }

    fn attr(self, attr: Attribute) -> (r: Self) {
        let mut node = self;
        node.attrs.push(attr);
        node
    }

    fn attrs(self, attrs: Vec<Attribute>) -> (r: Self) {
        ItemEnum { attrs, ..self }
    }
}

impl AttrsPropsBuilder for ItemExternCrate {
    open spec fn attr_ens(self, attr: Attribute, r: Self) -> bool {
        r == (ItemExternCrate { attrs: r.attrs, ..self }) && r.attrs@ == self.attrs@.push(attr)
    }

    open spec fn attrs_ens(self, attrs: Vec<Attribute>, r: Self) -> bool {
        r == (ItemExternCrate { attrs, ..self })
    }

    fn attr(self, attr: Attribute) -> (r: Self) {
        let mut node = self;
        node.attrs.push(attr);
        node
    }

    fn attrs(self, attrs: Vec<Attribute>) -> (r: Self) {
        ItemExternCrate { attrs, ..self }
    }
}

impl AttrsPropsBuilder for ItemFn {
    open spec fn attr_ens(self, attr: Attribute, r: Self) -> bool {
        r == (ItemFn { attrs: r.attrs, ..self }) && r.attrs@ == self.attrs@.push(attr)
    }

    open spec fn attrs_ens(self, attrs: Vec<Attribute>, r: Self) -> bool {
        r == (ItemFn { attrs, ..self })
    }

    fn attr(self, attr: Attribute) -> (r: Self) {
        let mut node = self;
        node.attrs.push(attr);
        node
    }

    fn attrs(self, attrs: Vec<Attribute>) -> (r: Self) {
        ItemFn { attrs, ..self }
    }
}

impl AttrsPropsBuilder for ItemForeignMod {
    open spec fn attr_ens(self, attr: Attribute, r: Self) -> bool {
        r == (ItemForeignMod { attrs: r.attrs, ..self }) && r.attrs@ == self.attrs@.push(attr)
    }

    open spec fn attrs_ens(self, attrs: Vec<Attribute>, r: Self) -> bool {
        r == (ItemForeignMod { attrs, ..self })
    }

    fn attr(self, attr: Attribute) -> (r: Self) {
        let mut node = self;
        node.attrs.push(attr);
        node
    }

    fn attrs(self, attrs: Vec<Attribute>) -> (r: Self) {
        ItemForeignMod { attrs, ..self }
    }
}

impl AttrsPropsBuilder for ItemImpl {
    open spec fn attr_ens(self, attr: Attribute, r: Self) -> bool {
        r == (ItemImpl { attrs: r.attrs, ..self }) && r.attrs@ == self.attrs@.push(attr)
    }

    open spec fn attrs_ens(self, attrs: Vec<Attribute>, r: Self) -> bool {
        r == (ItemImpl { attrs, ..self })
    }

    fn attr(self, attr: Attribute) -> (r: Self) {
        let mut node = self;
        node.attrs.push(attr);
        node
    }

    fn attrs(self, attrs: Vec<Attribute>) -> (r: Self) {
        ItemImpl { attrs, ..self }
    }
}

impl AttrsPropsBuilder for ItemMacro {
    open spec fn attr_ens(self, attr: Attribute, r: Self) -> bool {
        r == (ItemMacro { attrs: r.attrs, ..self }) && r.attrs@ == self.attrs@.push(attr)
    }

    open spec fn attrs_ens(self, attrs: Vec<Attribute>, r: Self) -> bool {
        r == (ItemMacro { attrs, ..self })
    }

    fn attr(self, attr: Attribute) -> (r: Self) {
        let mut node = self;
        node.attrs.push(attr);
        node
    }

    fn attrs(self, attrs: Vec<Attribute>) -> (r: Self) {
        ItemMacro { attrs, ..self }
    }
}

impl AttrsPropsBuilder for ItemMod {
    open spec fn attr_ens(self, attr: Attribute, r: Self) -> bool {
        r == (ItemMod { attrs: r.attrs, ..self }) && r.attrs@ == self.attrs@.push(attr)
    }

    open spec fn attrs_ens(self, attrs: Vec<Attribute>, r: Self) -> bool {
        r == (ItemMod { attrs, ..self })
    }

    fn attr(self, attr: Attribute) -> (r: Self) {
        let mut node = self;
        node.attrs.push(attr);
        node
    }

    fn attrs(self, attrs: Vec<Attribute>) -> (r: Self) {
        ItemMod { attrs, ..self }
    }
}

impl AttrsPropsBuilder for ItemStatic {
    open spec fn attr_ens(self, attr: Attribute, r: Self) -> bool {
        r == (ItemStatic { attrs: r.attrs, ..self }) && r.attrs@ == self.attrs@.push(attr)
    }

    open spec fn attrs_ens(self, attrs: Vec<Attribute>, r: Self) -> bool {
        r == (ItemStatic { attrs, ..self })
    }

    fn attr(self, attr: Attribute) -> (r: Self) {
        let mut node = self;
        node.attrs.push(attr);
        node
    }

    fn attrs(self, attrs: Vec<Attribute>) -> (r: Self) {
        ItemStatic { attrs, ..self }
    }
}

impl AttrsPropsBuilder for ItemStruct {
    open spec fn attr_ens(self, attr: Attribute, r: Self) -> bool {
        r == (ItemStruct { attrs: r.attrs, ..self }) && r.attrs@ == self.attrs@.push(attr)
    }

    open spec fn attrs_ens(self, attrs: Vec<Attribute>, r: Self) -> bool {
        r == (ItemStruct { attrs, ..self })
    }

    fn attr(self, attr: Attribute) -> (r: Self) {
        let mut node = self;
        node.attrs.push(attr);
        node
    }

    fn attrs(self, attrs: Vec<Attribute>) -> (r: Self) {
        ItemStruct { attrs, ..self }
    }
}

impl AttrsPropsBuilder for ItemTrait {
    open spec fn attr_ens(self, attr: Attribute, r: Self) -> bool {
        r == (ItemTrait { attrs: r.attrs, ..self }) && r.attrs@ == self.attrs@.push(attr)
    }

    open spec fn attrs_ens(self, attrs: Vec<Attribute>, r: Self) -> bool {
        r == (ItemTrait { attrs, ..self })
    }

    fn attr(self, attr: Attribute) -> (r: Self) {
        let mut node = self;
        node.attrs.push(attr);
        node
    }

    fn attrs(self, attrs: Vec<Attribute>) -> (r: Self) {
        ItemTrait { attrs, ..self }
    }
}

impl AttrsPropsBuilder for ItemTraitAlias {
    open spec fn attr_ens(self, attr: Attribute, r: Self) -> bool {
        r == (ItemTraitAlias { attrs: r.attrs, ..self }) && r.attrs@ == self.attrs@.push(attr)
    }

    open spec fn attrs_ens(self, attrs: Vec<Attribute>, r: Self) -> bool {
        r == (ItemTraitAlias { attrs, ..self })
    }

    fn attr(self, attr: Attribute) -> (r: Self) {
        let mut node = self;
        node.attrs.push(attr);
        node
    }

    fn attrs(self, attrs: Vec<Attribute>) -> (r: Self) {
        ItemTraitAlias { attrs, ..self }
    }
}

impl AttrsPropsBuilder for ItemType {
    open spec fn attr_ens(self, attr: Attribute, r: Self) -> bool {
        r == (ItemType { attrs: r.attrs, ..self }) && r.attrs@ == self.attrs@.push(attr)
    }

    open spec fn attrs_ens(self, attrs: Vec<Attribute>, r: Self) -> bool {
        r == (ItemType { attrs, ..self })
    }

    fn attr(self, attr: Attribute) -> (r: Self) {
        let mut node = self;
        node.attrs.push(attr);
        node
    }

    fn attrs(self, attrs: Vec<Attribute>) -> (r: Self) {
        ItemType { attrs, ..self }
    }
}

impl AttrsPropsBuilder for ItemUnion {
    open spec fn attr_ens(self, attr: Attribute, r: Self) -> bool {
        r == (ItemUnion { attrs: r.attrs, ..self }) && r.attrs@ == self.attrs@.push(attr)
    }

    open spec fn attrs_ens(self, attrs: Vec<Attribute>, r: Self) -> bool {
        r == (ItemUnion { attrs, ..self })
    }

    fn attr(self, attr: Attribute) -> (r: Self) {
        let mut node = self;
        node.attrs.push(attr);
        node
    }

    fn attrs(self, attrs: Vec<Attribute>) -> (r: Self) {
        ItemUnion { attrs, ..self }
    }
}

impl AttrsPropsBuilder for ItemUse {
    open spec fn attr_ens(self, attr: Attribute, r: Self) -> bool {
        r == (ItemUse { attrs: r.attrs, ..self }) && r.attrs@ == self.attrs@.push(attr)
    }

    open spec fn attrs_ens(self, attrs: Vec<Attribute>, r: Self) -> bool {
        r == (ItemUse { attrs, ..self })
    }

    fn attr(self, attr: Attribute) -> (r: Self) {
        let mut node = self;
        node.attrs.push(attr);
        node
    }

    fn attrs(self, attrs: Vec<Attribute>) -> (r: Self) {
        ItemUse { attrs, ..self }
    }
}

impl AttrsPropsBuilder for ForeignItemFn {
    open spec fn attr_ens(self, attr: Attribute, r: Self) -> bool {
        r == (ForeignItemFn { attrs: r.attrs, ..self }) && r.attrs@ == self.attrs@.push(attr)
    }

    open spec fn attrs_ens(self, attrs: Vec<Attribute>, r: Self) -> bool {
        r == (ForeignItemFn { attrs, ..self })
    }

    fn attr(self, attr: Attribute) -> (r: Self) {
        let mut node = self;
        node.attrs.push(attr);
        node
    }

    fn attrs(self, attrs: Vec<Attribute>) -> (r: Self) {
        ForeignItemFn { attrs, ..self }
    }
}

impl AttrsPropsBuilder for ForeignItemStatic {
    open spec fn attr_ens(self, attr: Attribute, r: Self) -> bool {
        r == (ForeignItemStatic { attrs: r.attrs, ..self }) && r.attrs@ == self.attrs@.push(attr)
    }

    open spec fn attrs_ens(self, attrs: Vec<Attribute>, r: Self) -> bool {
        r == (ForeignItemStatic { attrs, ..self })
    }

    fn attr(self, attr: Attribute) -> (r: Self) {
        let mut node = self;
        node.attrs.push(attr);
        node
    }

    fn attrs(self, attrs: Vec<Attribute>) -> (r: Self) {
        ForeignItemStatic { attrs, ..self }
    }
}

impl AttrsPropsBuilder for ForeignItemType {
    open spec fn attr_ens(self, attr: Attribute, r: Self) -> bool {
        r == (ForeignItemType { attrs: r.attrs, ..self }) && r.attrs@ == self.attrs@.push(attr)
    }

    open spec fn attrs_ens(self, attrs: Vec<Attribute>, r: Self) -> bool {
        r == (ForeignItemType { attrs, ..self })
    }

    fn attr(self, attr: Attribute) -> (r: Self) {
        let mut node = self;
        node.attrs.push(attr);
        node
    }

    fn attrs(self, attrs: Vec<Attribute>) -> (r: Self) {
        ForeignItemType { attrs, ..self }
    }
}

impl AttrsPropsBuilder for ForeignItemMacro {
    open spec fn attr_ens(self, attr: Attribute, r: Self) -> bool {
        r == (ForeignItemMacro { attrs: r.attrs, ..self }) && r.attrs@ == self.attrs@.push(attr)
    }

    open spec fn attrs_ens(self, attrs: Vec<Attribute>, r: Self) -> bool {
        r == (ForeignItemMacro { attrs, ..self })
    }

    fn attr(self, attr: Attribute) -> (r: Self) {
        let mut node = self;
        node.attrs.push(attr);
        node
    }

    fn attrs(self, attrs: Vec<Attribute>) -> (r: Self) {
        ForeignItemMacro { attrs, ..self }
    }
}

impl AttrsPropsBuilder for TraitItemConst {
    open spec fn attr_ens(self, attr: Attribute, r: Self) -> bool {
        r == (TraitItemConst { attrs: r.attrs, ..self }) && r.attrs@ == self.attrs@.push(attr)
    }

    open spec fn attrs_ens(self, attrs: Vec<Attribute>, r: Self) -> bool {
        r == (TraitItemConst { attrs, ..self })
    }

    fn attr(self, attr: Attribute) -> (r: Self) {
        let mut node = self;
        node.attrs.push(attr);
        node
    }

    fn attrs(self, attrs: Vec<Attribute>) -> (r: Self) {
        TraitItemConst { attrs, ..self }
    }
}

impl AttrsPropsBuilder for TraitItemFn {
    open spec fn attr_ens(self, attr: Attribute, r: Self) -> bool {
        r == (TraitItemFn { attrs: r.attrs, ..self }) && r.attrs@ == self.attrs@.push(attr)
    }

    open spec fn attrs_ens(self, attrs: Vec<Attribute>, r: Self) -> bool {
        r == (TraitItemFn { attrs, ..self })
    }

    fn attr(self, attr: Attribute) -> (r: Self) {
        let mut node = self;
        node.attrs.push(attr);
        node
    }

    fn attrs(self, attrs: Vec<Attribute>) -> (r: Self) {
        TraitItemFn { attrs, ..self }
    }
}

impl AttrsPropsBuilder for TraitItemType {
    open spec fn attr_ens(self, attr: Attribute, r: Self) -> bool {
        r == (TraitItemType { attrs: r.attrs, ..self }) && r.attrs@ == self.attrs@.push(attr)
    }

    open spec fn attrs_ens(self, attrs: Vec<Attribute>, r: Self) -> bool {
        r == (TraitItemType { attrs, ..self })
    }

    fn attr(self, attr: Attribute) -> (r: Self) {
        let mut node = self;
        node.attrs.push(attr);
        node
    }

    fn attrs(self, attrs: Vec<Attribute>) -> (r: Self) {
        TraitItemType { attrs, ..self }
    }
}

impl AttrsPropsBuilder for TraitItemMacro {
    open spec fn attr_ens(self, attr: Attribute, r: Self) -> bool {
        r == (TraitItemMacro { attrs: r.attrs, ..self }) && r.attrs@ == self.attrs@.push(attr)
    }

    open spec fn attrs_ens(self, attrs: Vec<Attribute>, r: Self) -> bool {
        r == (TraitItemMacro { attrs, ..self })
    }

    fn attr(self, attr: Attribute) -> (r: Self) {
        let mut node = self;
        node.attrs.push(attr);
        node
    }

    fn attrs(self, attrs: Vec<Attribute>) -> (r: Self) {
        TraitItemMacro { attrs, ..self }
    }
}

impl AttrsPropsBuilder for ImplItemConst {
    open spec fn attr_ens(self, attr: Attribute, r: Self) -> bool {
        r == (ImplItemConst { attrs: r.attrs, ..self }) && r.attrs@ == self.attrs@.push(attr)
    }

    open spec fn attrs_ens(self, attrs: Vec<Attribute>, r: Self) -> bool {
        r == (ImplItemConst { attrs, ..self })
    }

    fn attr(self, attr: Attribute) -> (r: Self) {
        let mut node = self;
        node.attrs.push(attr);
        node
    }

    fn attrs(self, attrs: Vec<Attribute>) -> (r: Self) {
        ImplItemConst { attrs, ..self }
    }
}

impl AttrsPropsBuilder for ImplItemFn {
    open spec fn attr_ens(self, attr: Attribute, r: Self) -> bool {
        r == (ImplItemFn { attrs: r.attrs, ..self }) && r.attrs@ == self.attrs@.push(attr)
    }

    open spec fn attrs_ens(self, attrs: Vec<Attribute>, r: Self) -> bool {
        r == (ImplItemFn { attrs, ..self })
    }

    fn attr(self, attr: Attribute) -> (r: Self) {
        let mut node = self;
        node.attrs.push(attr);
        node
    }

    fn attrs(self, attrs: Vec<Attribute>) -> (r: Self) {
        ImplItemFn { attrs, ..self }
    }
}

impl AttrsPropsBuilder for ImplItemType {
    open spec fn attr_ens(self, attr: Attribute, r: Self) -> bool {
        r == (ImplItemType { attrs: r.attrs, ..self }) && r.attrs@ == self.attrs@.push(attr)
    }

    open spec fn attrs_ens(self, attrs: Vec<Attribute>, r: Self) -> bool {
        r == (ImplItemType { attrs, ..self })
    }

    fn attr(self, attr: Attribute) -> (r: Self) {
        let mut node = self;
        node.attrs.push(attr);
        node
    }

    fn attrs(self, attrs: Vec<Attribute>) -> (r: Self) {
        ImplItemType { attrs, ..self }
    }
}

impl AttrsPropsBuilder for ImplItemMacro {
    open spec fn attr_ens(self, attr: Attribute, r: Self) -> bool {
        r == (ImplItemMacro { attrs: r.attrs, ..self }) && r.attrs@ == self.attrs@.push(attr)
    }

    open spec fn attrs_ens(self, attrs: Vec<Attribute>, r: Self) -> bool {
        r == (ImplItemMacro { attrs, ..self })
    }

    fn attr(self, attr: Attribute) -> (r: Self) {
        let mut node = self;
        node.attrs.push(attr);
        node
    }

    fn attrs(self, attrs: Vec<Attribute>) -> (r: Self) {
        ImplItemMacro { attrs, ..self }
    }
}

impl AttrsPropsBuilder for Receiver {
    open spec fn attr_ens(self, attr: Attribute, r: Self) -> bool {
        r == (Receiver { attrs: r.attrs, ..self }) && r.attrs@ == self.attrs@.push(attr)
    }

    open spec fn attrs_ens(self, attrs: Vec<Attribute>, r: Self) -> bool {
        r == (Receiver { attrs, ..self })
    }

    fn attr(self, attr: Attribute) -> (r: Self) {
        let mut node = self;
        node.attrs.push(attr);
        node
    }

    fn attrs(self, attrs: Vec<Attribute>) -> (r: Self) {
        Receiver { attrs, ..self }
    }
}

impl AttrsPropsBuilder for Variadic {
    open spec fn attr_ens(self, attr: Attribute, r: Self) -> bool {
        r == (Variadic { attrs: r.attrs, ..self }) && r.attrs@ == self.attrs@.push(attr)
    }

    open spec fn attrs_ens(self, attrs: Vec<Attribute>, r: Self) -> bool {
        r == (Variadic { attrs, ..self })
    }

    fn attr(self, attr: Attribute) -> (r: Self) {
        let mut node = self;
        node.attrs.push(attr);
        node
    }

    fn attrs(self, attrs: Vec<Attribute>) -> (r: Self) {
        Variadic { attrs, ..self }
    }
}

impl VisPropsBuilder for ItemConst {
    open spec fn vis_ens(self, vis: Visibility, r: Self) -> bool {
        r == (ItemConst { vis, ..self })
    }

    fn vis<V: IntoVisibility>(self, vis: V) -> (r: Self) {
        let vis = vis.into_visibility();
        ItemConst { vis, ..self }
    }
}

impl VisPropsBuilder for ItemEnum {
    open spec fn vis_ens(self, vis: Visibility, r: Self) -> bool {
        r == (ItemEnum { vis, ..self })
    }

    fn vis<V: IntoVisibility>(self, vis: V) -> (r: Self) {
        let vis = vis.into_visibility();
        ItemEnum { vis, ..self }
    }
}

impl VisPropsBuilder for ItemExternCrate {
    open spec fn vis_ens(self, vis: Visibility, r: Self) -> bool {
        r == (ItemExternCrate { vis, ..self })
    }

    fn vis<V: IntoVisibility>(self, vis: V) -> (r: Self) {
        let vis = vis.into_visibility();
        ItemExternCrate { vis, ..self }
    }
}

impl VisPropsBuilder for ItemFn {
    open spec fn vis_ens(self, vis: Visibility, r: Self) -> bool {
        r == (ItemFn { vis, ..self })
    }

    fn vis<V: IntoVisibility>(self, vis: V) -> (r: Self) {
        let vis = vis.into_visibility();
        ItemFn { vis, ..self }
    }
}

impl VisPropsBuilder for ItemMod {
    open spec fn vis_ens(self, vis: Visibility, r: Self) -> bool {
        r == (ItemMod { vis, ..self })
    }

    fn vis<V: IntoVisibility>(self, vis: V) -> (r: Self) {
        let vis = vis.into_visibility();
        ItemMod { vis, ..self }
    }
}

impl VisPropsBuilder for ItemStatic {
    open spec fn vis_ens(self, vis: Visibility, r: Self) -> bool {
        r == (ItemStatic { vis, ..self })
    }

    fn vis<V: IntoVisibility>(self, vis: V) -> (r: Self) {
        let vis = vis.into_visibility();
        ItemStatic { vis, ..self }
    }
}

impl VisPropsBuilder for ItemStruct {
    open spec fn vis_ens(self, vis: Visibility, r: Self) -> bool {
        r == (ItemStruct { vis, ..self })
    }

    fn vis<V: IntoVisibility>(self, vis: V) -> (r: Self) {
        let vis = vis.into_visibility();
        ItemStruct { vis, ..self }
    }
}

impl VisPropsBuilder for ItemTrait {
    open spec fn vis_ens(self, vis: Visibility, r: Self) -> bool {
        r == (ItemTrait { vis, ..self })
    }

    fn vis<V: IntoVisibility>(self, vis: V) -> (r: Self) {
        let vis = vis.into_visibility();
        ItemTrait { vis, ..self }
    }
}

impl VisPropsBuilder for ItemTraitAlias {
    open spec fn vis_ens(self, vis: Visibility, r: Self) -> bool {
        r == (ItemTraitAlias { vis, ..self })
    }

    fn vis<V: IntoVisibility>(self, vis: V) -> (r: Self) {
        let vis = vis.into_visibility();
        ItemTraitAlias { vis, ..self }
    }
}

impl VisPropsBuilder for ItemType {
    open spec fn vis_ens(self, vis: Visibility, r: Self) -> bool {
        r == (ItemType { vis, ..self })
    }

    fn vis<V: IntoVisibility>(self, vis: V) -> (r: Self) {
        let vis = vis.into_visibility();
        ItemType { vis, ..self }
    }
}

impl VisPropsBuilder for ItemUnion {
    open spec fn vis_ens(self, vis: Visibility, r: Self) -> bool {
        r == (ItemUnion { vis, ..self })
    }

    fn vis<V: IntoVisibility>(self, vis: V) -> (r: Self) {
        let vis = vis.into_visibility();
        ItemUnion { vis, ..self }
    }
}

impl VisPropsBuilder for ItemUse {
    open spec fn vis_ens(self, vis: Visibility, r: Self) -> bool {
        r == (ItemUse { vis, ..self })
    }

    fn vis<V: IntoVisibility>(self, vis: V) -> (r: Self) {
        let vis = vis.into_visibility();
        ItemUse { vis, ..self }
    }
}

impl VisPropsBuilder for ForeignItemFn {
    open spec fn vis_ens(self, vis: Visibility, r: Self) -> bool {
        r == (ForeignItemFn { vis, ..self })
    }

    fn vis<V: IntoVisibility>(self, vis: V) -> (r: Self) {
        let vis = vis.into_visibility();
        ForeignItemFn { vis, ..self }
    }
}

impl VisPropsBuilder for ForeignItemStatic {
    open spec fn vis_ens(self, vis: Visibility, r: Self) -> bool {
        r == (ForeignItemStatic { vis, ..self })
    }

    fn vis<V: IntoVisibility>(self, vis: V) -> (r: Self) {
        let vis = vis.into_visibility();
        ForeignItemStatic { vis, ..self }
    }
}

impl VisPropsBuilder for ForeignItemType {
    open spec fn vis_ens(self, vis: Visibility, r: Self) -> bool {
        r == (ForeignItemType { vis, ..self })
    }

    fn vis<V: IntoVisibility>(self, vis: V) -> (r: Self) {
        let vis = vis.into_visibility();
        ForeignItemType { vis, ..self }
    }
}

impl VisPropsBuilder for ImplItemConst {
    open spec fn vis_ens(self, vis: Visibility, r: Self) -> bool {
        r == (ImplItemConst { vis, ..self })
    }

    fn vis<V: IntoVisibility>(self, vis: V) -> (r: Self) {
        let vis = vis.into_visibility();
        ImplItemConst { vis, ..self }
    }
}

impl VisPropsBuilder for ImplItemFn {
    open spec fn vis_ens(self, vis: Visibility, r: Self) -> bool {
        r == (ImplItemFn { vis, ..self })
    }

    fn vis<V: IntoVisibility>(self, vis: V) -> (r: Self) {
        let vis = vis.into_visibility();
        ImplItemFn { vis, ..self }
    }
}

impl VisPropsBuilder for ImplItemType {
    open spec fn vis_ens(self, vis: Visibility, r: Self) -> bool {
        r == (ImplItemType { vis, ..self })
    }

    fn vis<V: IntoVisibility>(self, vis: V) -> (r: Self) {
        let vis = vis.into_visibility();
        ImplItemType { vis, ..self }
    }
}

impl ItemGenericsPropsBuilder for ItemConst {
    open spec fn generics_ens(self, generics: Generics, r: Self) -> bool {
        r == (ItemConst { generics, ..self })
    }

    fn generics(self, generics: Generics) -> (r: Self) {
        ItemConst { generics, ..self }
    }
}

impl ItemGenericsPropsBuilder for ItemEnum {
    open spec fn generics_ens(self, generics: Generics, r: Self) -> bool {
        r == (ItemEnum { generics, ..self })
    }

    fn generics(self, generics: Generics) -> (r: Self) {
        ItemEnum { generics, ..self }
    }
}

impl ItemGenericsPropsBuilder for ItemImpl {
    open spec fn generics_ens(self, generics: Generics, r: Self) -> bool {
        r == (ItemImpl { generics, ..self })
    }

    fn generics(self, generics: Generics) -> (r: Self) {
        ItemImpl { generics, ..self }
    }
}

impl ItemGenericsPropsBuilder for ItemStruct {
    open spec fn generics_ens(self, generics: Generics, r: Self) -> bool {
        r == (ItemStruct { generics, ..self })
    }

    fn generics(self, generics: Generics) -> (r: Self) {
        ItemStruct { generics, ..self }
    }
}

impl ItemGenericsPropsBuilder for ItemTrait {
    open spec fn generics_ens(self, generics: Generics, r: Self) -> bool {
        r == (ItemTrait { generics, ..self })
    }

    fn generics(self, generics: Generics) -> (r: Self) {
        ItemTrait { generics, ..self }
    }
}

impl ItemGenericsPropsBuilder for ItemTraitAlias {
    open spec fn generics_ens(self, generics: Generics, r: Self) -> bool {
        r == (ItemTraitAlias { generics, ..self })
    }

    fn generics(self, generics: Generics) -> (r: Self) {
        ItemTraitAlias { generics, ..self }
    }
}

impl ItemGenericsPropsBuilder for ItemType {
    open spec fn generics_ens(self, generics: Generics, r: Self) -> bool {
        r == (ItemType { generics, ..self })
    }

    fn generics(self, generics: Generics) -> (r: Self) {
        ItemType { generics, ..self }
    }
}

impl ItemGenericsPropsBuilder for ItemUnion {
    open spec fn generics_ens(self, generics: Generics, r: Self) -> bool {
        r == (ItemUnion { generics, ..self })
    }

    fn generics(self, generics: Generics) -> (r: Self) {
        ItemUnion { generics, ..self }
    }
}

impl ItemGenericsPropsBuilder for ForeignItemType {
    open spec fn generics_ens(self, generics: Generics, r: Self) -> bool {
        r == (ForeignItemType { generics, ..self })
    }

    fn generics(self, generics: Generics) -> (r: Self) {
        ForeignItemType { generics, ..self }
    }
}

impl ItemGenericsPropsBuilder for TraitItemConst {
    open spec fn generics_ens(self, generics: Generics, r: Self) -> bool {
        r == (TraitItemConst { generics, ..self })
    }

    fn generics(self, generics: Generics) -> (r: Self) {
        TraitItemConst { generics, ..self }
    }
}

impl ItemGenericsPropsBuilder for ImplItemType {
    open spec fn generics_ens(self, generics: Generics, r: Self) -> bool {
        r == (ImplItemType { generics, ..self })
    }

    fn generics(self, generics: Generics) -> (r: Self) {
        ImplItemType { generics, ..self }
    }
}

impl ItemGenericsPropsBuilder for Signature {
    open spec fn generics_ens(self, generics: Generics, r: Self) -> bool {
        r == (Signature { generics, ..self })
    }

    fn generics(self, generics: Generics) -> (r: Self) {
        Signature { generics, ..self }
    }
}

impl UnsafetyPropsBuilder for ItemForeignMod {
    open spec fn unsafety_ens(self, unsafety: bool, r: Self) -> bool {
        r == (ItemForeignMod { unsafety, ..self })
    }

    fn unsafety(self, unsafety: bool) -> (r: Self) {
        ItemForeignMod { unsafety, ..self }
    }
}

impl UnsafetyPropsBuilder for ItemImpl {
    open spec fn unsafety_ens(self, unsafety: bool, r: Self) -> bool {
        r == (ItemImpl { unsafety, ..self })
    }

    fn unsafety(self, unsafety: bool) -> (r: Self) {
        ItemImpl { unsafety, ..self }
    }
}

impl UnsafetyPropsBuilder for ItemMod {
    open spec fn unsafety_ens(self, unsafety: bool, r: Self) -> bool {
        r == (ItemMod { unsafety, ..self })
    }

    fn unsafety(self, unsafety: bool) -> (r: Self) {
        ItemMod { unsafety, ..self }
    }
}

impl UnsafetyPropsBuilder for ItemTrait {
    open spec fn unsafety_ens(self, unsafety: bool, r: Self) -> bool {
        r == (ItemTrait { unsafety, ..self })
    }

    fn unsafety(self, unsafety: bool) -> (r: Self) {
        ItemTrait { unsafety, ..self }
    }
}

impl UnsafetyPropsBuilder for Signature {
    open spec fn unsafety_ens(self, unsafety: bool, r: Self) -> bool {
        r == (Signature { unsafety, ..self })
    }

    fn unsafety(self, unsafety: bool) -> (r: Self) {
        Signature { unsafety, ..self }
    }
}

impl DefaultnessPropsBuilder for ItemImpl {
    open spec fn defaultness_ens(self, defaultness: bool, r: Self) -> bool {
        r == (ItemImpl { defaultness, ..self })
    }

    fn defaultness(self, defaultness: bool) -> (r: Self) {
        ItemImpl { defaultness, ..self }
    }
}

impl DefaultnessPropsBuilder for ImplItemConst {
    open spec fn defaultness_ens(self, defaultness: bool, r: Self) -> bool {
        r == (ImplItemConst { defaultness, ..self })
    }

    fn defaultness(self, defaultness: bool) -> (r: Self) {
        ImplItemConst { defaultness, ..self }
    }
}

impl DefaultnessPropsBuilder for ImplItemFn {
    open spec fn defaultness_ens(self, defaultness: bool, r: Self) -> bool {
        r == (ImplItemFn { defaultness, ..self })
    }

    fn defaultness(self, defaultness: bool) -> (r: Self) {
        ImplItemFn { defaultness, ..self }
    }
}

impl DefaultnessPropsBuilder for ImplItemType {
    open spec fn defaultness_ens(self, defaultness: bool, r: Self) -> bool {
        r == (ImplItemType { defaultness, ..self })
    }

    fn defaultness(self, defaultness: bool) -> (r: Self) {
        ImplItemType { defaultness, ..self }
    }
}

impl OutputPropsBuilder for Signature {
    open spec fn output_ens(self, ty: Type, r: Self) -> bool {
        r == (Signature { output: r.output, ..self }) && (r.output matches ReturnType::Explicit(b)
            && *b == ty)
    }

    fn output<T: IntoType>(self, ty: T) -> (r: Self) {
        let ty = ty.into_type();
        Signature { output: ReturnType::Explicit(Box::new(ty)), ..self }
    }
}

} // verus!
