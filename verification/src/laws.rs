//! The conversion and modifier laws of the builder surface, stated once
//! and proved from the contracts alone.
use vstd::prelude::*;
use crate::attr::{AttrStyle, Attribute, IntoAttrStyle, IntoMeta, Meta, MetaList, MetaNameValue};
use crate::data::{Field, FieldBuilder, Fields, FieldsNamed, FieldsUnnamed, IntoFields};
use crate::derive::{Data, DataEnum, DataStruct, DataUnion, DeriveInputBuilder, IntoData};
use crate::expr::{Expr, ExprArray, ExprAssign, ExprAsync, ExprAwait, ExprBinary, ExprBlock, ExprBreak, ExprCall, ExprCast, ExprClosure, ExprConst, ExprContinue, ExprField, ExprForLoop, ExprGroup, ExprIf, ExprIndex, ExprInfer, ExprLet, ExprLit, ExprLoop, ExprMacro, ExprMatch, ExprMethodCall, ExprParen, ExprPath, ExprRange, ExprReference, ExprRepeat, ExprReturn, ExprStruct, ExprStructBuilder, ExprTry, ExprTryBlock, ExprTuple, ExprUnary, ExprUnsafe, ExprWhile, ExprYield, Index, IntoExpr, IntoMember, IntoRangeLimits, Member, RangeLimits};
use crate::generics::{ConstParam, GenericParam, Generics, IntoGenericParam, IntoTypeParamBound, IntoWherePredicate, LifetimeParam, PredicateLifetime, PredicateType, TraitBound, TypeParam, TypeParamBound, WherePredicate};
use crate::ident::{Ident, IntoIdent, Lifetime};
use crate::item::{FnArg, ForeignItem, ForeignItemFn, ForeignItemMacro, ForeignItemStatic, ForeignItemType, ImplItem, ImplItemConst, ImplItemFn, ImplItemMacro, ImplItemType, IntoFnArg, IntoForeignItem, IntoImplItem, IntoItem, IntoTraitItem, IntoUseTree, Item, ItemConst, ItemEnum, ItemExternCrate, ItemFn, ItemForeignMod, ItemImpl, ItemMacro, ItemMod, ItemStatic, ItemStruct, ItemTrait, ItemTraitAlias, ItemType, ItemUnion, ItemUse, Receiver, ReceiverBuilder, TraitItem, TraitItemConst, TraitItemFn, TraitItemMacro, TraitItemType, UseGlob, UseGroup, UseName, UsePath, UseRename, UseTree};
use crate::lit::{IntoLit, Lit, LitBool, LitByte, LitByteStr, LitChar, LitFloat, LitInt, LitStr, TokenStream};
use crate::mac::{IntoMacroDelimiter, Macro, MacroDelimiter};
use crate::op::{BinOp, IntoBinOp, IntoUnOp, UnOp};
use crate::pat::{IntoPat, Pat, PatConst, PatIdent, PatLit, PatMacro, PatOr, PatParen, PatPath, PatRange, PatReference, PatRest, PatSlice, PatStruct, PatStructBuilder, PatTuple, PatTupleStruct, PatType, PatWild};
use crate::path::{AngleBracketedGenericArguments, AssocConst, AssocType, Constraint, GenericArgument, IntoGenericArgument, IntoPath, IntoPathArguments, IntoPathSegment, ParenthesizedGenericArguments, Path, PathArguments, PathSegment};
use crate::props::{AttrsPropsBuilder, ItemGenericsPropsBuilder, PathGenericsBuilder, VisPropsBuilder};
use crate::restriction::{IntoVisibility, VisRestricted, Visibility};
use crate::stmt::{Block, IntoStmt, Local, Stmt, StmtMacro};
use crate::token::{Or, Paren};
use crate::ty::{IntoType, Type, TypeArray, TypeBareFn, TypeGroup, TypeImplTrait, TypeInfer, TypeMacro, TypeNever, TypeParen, TypePath, TypePtr, TypeReference, TypeReferenceBuilder, TypeSlice, TypeTraitObject, TypeTuple};

verus! {

/// Converting a `Expr` into a `Expr` is the identity.
pub proof fn lemma_into_expr_identity(v: Expr)
    ensures
        v.expr_of() == v,
{
}

/// Converting a `Type` into a `Type` is the identity.
pub proof fn lemma_into_type_identity(v: Type)
    ensures
        v.type_of() == v,
{
}

/// Converting a `Pat` into a `Pat` is the identity.
pub proof fn lemma_into_pat_identity(v: Pat)
    ensures
        v.pat_of() == v,
{
}

/// Converting a `Item` into a `Item` is the identity.
pub proof fn lemma_into_item_identity(v: Item)
    ensures
        v.item_of() == v,
{
}

/// Converting a `Stmt` into a `Stmt` is the identity.
pub proof fn lemma_into_stmt_identity(v: Stmt)
    ensures
        v.stmt_of() == v,
{
}

/// Converting a `Lit` into a `Lit` is the identity.
pub proof fn lemma_into_lit_identity(v: Lit)
    ensures
        v.lit_of() == v,
{
}

/// Converting a `Meta` into a `Meta` is the identity.
pub proof fn lemma_into_meta_identity(v: Meta)
    ensures
        v.meta_of() == v,
{
}

/// Converting a `Data` into a `Data` is the identity.
pub proof fn lemma_into_data_identity(v: Data)
    ensures
        v.data_of() == v,
{
}

/// Converting a `Fields` into a `Fields` is the identity.
pub proof fn lemma_into_fields_identity(v: Fields)
    ensures
        v.fields_of() == v,
{
}

/// Converting a `Visibility` into a `Visibility` is the identity.
pub proof fn lemma_into_visibility_identity(v: Visibility)
    ensures
        v.visibility_of() == v,
{
}

/// Converting a `AttrStyle` into a `AttrStyle` is the identity.
pub proof fn lemma_into_attr_style_identity(v: AttrStyle)
    ensures
        v.attr_style_of() == v,
{
}

/// Converting a `MacroDelimiter` into a `MacroDelimiter` is the identity.
pub proof fn lemma_into_macro_delimiter_identity(v: MacroDelimiter)
    ensures
        v.macro_delimiter_of() == v,
{
}

/// Converting a `BinOp` into a `BinOp` is the identity.
pub proof fn lemma_into_bin_op_identity(v: BinOp)
    ensures
        v.bin_op_of() == v,
{
}

/// Converting a `UnOp` into a `UnOp` is the identity.
pub proof fn lemma_into_un_op_identity(v: UnOp)
    ensures
        v.un_op_of() == v,
{
}

/// Converting a `RangeLimits` into a `RangeLimits` is the identity.
pub proof fn lemma_into_range_limits_identity(v: RangeLimits)
    ensures
        v.range_limits_of() == v,
{
}

/// Converting a `GenericParam` into a `GenericParam` is the identity.
pub proof fn lemma_into_generic_param_identity(v: GenericParam)
    ensures
        v.generic_param_of() == v,
{
}

/// Converting a `TypeParamBound` into a `TypeParamBound` is the identity.
pub proof fn lemma_into_type_param_bound_identity(v: TypeParamBound)
    ensures
        v.type_param_bound_of() == v,
{
}

/// Converting a `WherePredicate` into a `WherePredicate` is the identity.
pub proof fn lemma_into_where_predicate_identity(v: WherePredicate)
    ensures
        v.where_predicate_of() == v,
{
}

/// Converting a `PathArguments` into a `PathArguments` is the identity.
pub proof fn lemma_into_path_arguments_identity(v: PathArguments)
    ensures
        v.path_arguments_of() == v,
{
}

/// Converting a `GenericArgument` into a `GenericArgument` is the identity.
pub proof fn lemma_into_generic_argument_identity(v: GenericArgument)
    ensures
        v.generic_argument_of() == v,
{
}

/// Converting a `FnArg` into a `FnArg` is the identity.
pub proof fn lemma_into_fn_arg_identity(v: FnArg)
    ensures
        v.fn_arg_of() == v,
{
}

/// Converting a `UseTree` into a `UseTree` is the identity.
pub proof fn lemma_into_use_tree_identity(v: UseTree)
    ensures
        v.use_tree_of() == v,
{
}

/// Converting a `ForeignItem` into a `ForeignItem` is the identity.
pub proof fn lemma_into_foreign_item_identity(v: ForeignItem)
    ensures
        v.foreign_item_of() == v,
{
}

/// Converting a `TraitItem` into a `TraitItem` is the identity.
pub proof fn lemma_into_trait_item_identity(v: TraitItem)
    ensures
        v.trait_item_of() == v,
{
}

/// Converting a `ImplItem` into a `ImplItem` is the identity.
pub proof fn lemma_into_impl_item_identity(v: ImplItem)
    ensures
        v.impl_item_of() == v,
{
}

/// Converting a `Member` into a `Member` is the identity.
pub proof fn lemma_into_member_identity(v: Member)
    ensures
        v.member_of() == v,
{
}

/// Converting a `Ident` into a `Ident` is the identity: the relation the
/// conversion establishes pins the result to the input itself.
pub proof fn lemma_into_ident_identity(v: Ident, r: Ident)
    requires
        v.into_ident_ens(r),
    ensures
        r == v,
{
}

/// Converting a `Path` into a `Path` is the identity: the relation the
/// conversion establishes pins the result to the input itself.
pub proof fn lemma_into_path_identity(v: Path, r: Path)
    requires
        v.into_path_ens(r),
    ensures
        r == v,
{
}

/// Converting a `PathSegment` into a `PathSegment` is the identity: the relation the
/// conversion establishes pins the result to the input itself.
pub proof fn lemma_into_path_segment_identity(v: PathSegment, r: PathSegment)
    requires
        v.into_path_segment_ens(r),
    ensures
        r == v,
{
}

/// Embedding a `LitStr` into `Lit` loses nothing: matching the converted
/// value back out yields the original node.
pub proof fn lemma_lit_str_into_lit_lossless(v: LitStr)
    ensures
        v.lit_of() matches Lit::Str(w) && w == v,
{
}

/// Embedding a `LitByteStr` into `Lit` loses nothing: matching the converted
/// value back out yields the original node.
pub proof fn lemma_lit_byte_str_into_lit_lossless(v: LitByteStr)
    ensures
        v.lit_of() matches Lit::ByteStr(w) && w == v,
{
}

/// Embedding a `LitByte` into `Lit` loses nothing: matching the converted
/// value back out yields the original node.
pub proof fn lemma_lit_byte_into_lit_lossless(v: LitByte)
    ensures
        v.lit_of() matches Lit::Byte(w) && w == v,
{
}

/// Embedding a `LitChar` into `Lit` loses nothing: matching the converted
/// value back out yields the original node.
pub proof fn lemma_lit_char_into_lit_lossless(v: LitChar)
    ensures
        v.lit_of() matches Lit::Char(w) && w == v,
{
}

/// Embedding a `LitInt` into `Lit` loses nothing: matching the converted
/// value back out yields the original node.
pub proof fn lemma_lit_int_into_lit_lossless(v: LitInt)
    ensures
        v.lit_of() matches Lit::Int(w) && w == v,
{
}

/// Embedding a `LitFloat` into `Lit` loses nothing: matching the converted
/// value back out yields the original node.
pub proof fn lemma_lit_float_into_lit_lossless(v: LitFloat)
    ensures
        v.lit_of() matches Lit::Float(w) && w == v,
{
}

/// Embedding a `LitBool` into `Lit` loses nothing: matching the converted
/// value back out yields the original node.
pub proof fn lemma_lit_bool_into_lit_lossless(v: LitBool)
    ensures
        v.lit_of() matches Lit::Bool(w) && w == v,
{
}

/// Embedding a `MetaList` into `Meta` loses nothing: matching the converted
/// value back out yields the original node.
pub proof fn lemma_meta_list_into_meta_lossless(v: MetaList)
    ensures
        v.meta_of() matches Meta::List(w) && w == v,
{
}

/// Embedding a `MetaNameValue` into `Meta` loses nothing: matching the converted
/// value back out yields the original node.
pub proof fn lemma_meta_name_value_into_meta_lossless(v: MetaNameValue)
    ensures
        v.meta_of() matches Meta::NameValue(w) && w == v,
{
}

/// Embedding a `VisRestricted` into `Visibility` loses nothing: matching the converted
/// value back out yields the original node.
pub proof fn lemma_vis_restricted_into_visibility_lossless(v: VisRestricted)
    ensures
        v.visibility_of() matches Visibility::Restricted(w) && w == v,
{
}

/// Embedding a `Path` into `Meta` loses nothing: matching the converted
/// value back out yields the original node.
pub proof fn lemma_path_into_meta_lossless(v: Path)
    ensures
        v.meta_of() matches Meta::Path(w) && w == v,
{
}

/// Embedding a `AngleBracketedGenericArguments` into `PathArguments` loses nothing: matching the converted
/// value back out yields the original node.
pub proof fn lemma_angle_bracketed_generic_arguments_into_path_arguments_lossless(v: AngleBracketedGenericArguments)
    ensures
        v.path_arguments_of() matches PathArguments::AngleBracketed(w) && w == v,
{
}

/// Embedding a `ParenthesizedGenericArguments` into `PathArguments` loses nothing: matching the converted
/// value back out yields the original node.
pub proof fn lemma_parenthesized_generic_arguments_into_path_arguments_lossless(v: ParenthesizedGenericArguments)
    ensures
        v.path_arguments_of() matches PathArguments::Parenthesized(w) && w == v,
{
}

/// Embedding a `Lifetime` into `GenericArgument` loses nothing: matching the converted
/// value back out yields the original node.
pub proof fn lemma_lifetime_into_generic_argument_lossless(v: Lifetime)
    ensures
        v.generic_argument_of() matches GenericArgument::Lifetime(w) && w == v,
{
}

/// Embedding a `Type` into `GenericArgument` loses nothing: matching the converted
/// value back out yields the original node.
pub proof fn lemma_type_into_generic_argument_lossless(v: Type)
    ensures
        v.generic_argument_of() matches GenericArgument::Type(w) && w == v,
{
}

/// Embedding a `Expr` into `GenericArgument` loses nothing: matching the converted
/// value back out yields the original node.
pub proof fn lemma_expr_into_generic_argument_lossless(v: Expr)
    ensures
        v.generic_argument_of() matches GenericArgument::Const(w) && w == v,
{
}

/// Embedding a `AssocType` into `GenericArgument` loses nothing: matching the converted
/// value back out yields the original node.
pub proof fn lemma_assoc_type_into_generic_argument_lossless(v: AssocType)
    ensures
        v.generic_argument_of() matches GenericArgument::AssocType(w) && w == v,
{
}

/// Embedding a `AssocConst` into `GenericArgument` loses nothing: matching the converted
/// value back out yields the original node.
pub proof fn lemma_assoc_const_into_generic_argument_lossless(v: AssocConst)
    ensures
        v.generic_argument_of() matches GenericArgument::AssocConst(w) && w == v,
{
}

/// Embedding a `Constraint` into `GenericArgument` loses nothing: matching the converted
/// value back out yields the original node.
pub proof fn lemma_constraint_into_generic_argument_lossless(v: Constraint)
    ensures
        v.generic_argument_of() matches GenericArgument::Constraint(w) && w == v,
{
}

/// Embedding a `TypeArray` into `Type` loses nothing: matching the converted
/// value back out yields the original node.
pub proof fn lemma_type_array_into_type_lossless(v: TypeArray)
    ensures
        v.type_of() matches Type::Array(w) && w == v,
{
}

/// Embedding a `TypeBareFn` into `Type` loses nothing: matching the converted
/// value back out yields the original node.
pub proof fn lemma_type_bare_fn_into_type_lossless(v: TypeBareFn)
    ensures
        v.type_of() matches Type::BareFn(w) && w == v,
{
}

/// Embedding a `TypeGroup` into `Type` loses nothing: matching the converted
/// value back out yields the original node.
pub proof fn lemma_type_group_into_type_lossless(v: TypeGroup)
    ensures
        v.type_of() matches Type::Group(w) && w == v,
{
}

/// Embedding a `TypeImplTrait` into `Type` loses nothing: matching the converted
/// value back out yields the original node.
pub proof fn lemma_type_impl_trait_into_type_lossless(v: TypeImplTrait)
    ensures
        v.type_of() matches Type::ImplTrait(w) && w == v,
{
}

/// Embedding a `TypeInfer` into `Type` loses nothing: matching the converted
/// value back out yields the original node.
pub proof fn lemma_type_infer_into_type_lossless(v: TypeInfer)
    ensures
        v.type_of() matches Type::Infer(w) && w == v,
{
}

/// Embedding a `TypeMacro` into `Type` loses nothing: matching the converted
/// value back out yields the original node.
pub proof fn lemma_type_macro_into_type_lossless(v: TypeMacro)
    ensures
        v.type_of() matches Type::Macro(w) && w == v,
{
}

/// Embedding a `TypeNever` into `Type` loses nothing: matching the converted
/// value back out yields the original node.
pub proof fn lemma_type_never_into_type_lossless(v: TypeNever)
    ensures
        v.type_of() matches Type::Never(w) && w == v,
{
}

/// Embedding a `TypeParen` into `Type` loses nothing: matching the converted
/// value back out yields the original node.
pub proof fn lemma_type_paren_into_type_lossless(v: TypeParen)
    ensures
        v.type_of() matches Type::Paren(w) && w == v,
{
}

/// Embedding a `TypePath` into `Type` loses nothing: matching the converted
/// value back out yields the original node.
pub proof fn lemma_type_path_into_type_lossless(v: TypePath)
    ensures
        v.type_of() matches Type::Path(w) && w == v,
{
}

/// Embedding a `TypePtr` into `Type` loses nothing: matching the converted
/// value back out yields the original node.
pub proof fn lemma_type_ptr_into_type_lossless(v: TypePtr)
    ensures
        v.type_of() matches Type::Ptr(w) && w == v,
{
}

/// Embedding a `TypeReference` into `Type` loses nothing: matching the converted
/// value back out yields the original node.
pub proof fn lemma_type_reference_into_type_lossless(v: TypeReference)
    ensures
        v.type_of() matches Type::Reference(w) && w == v,
{
}

/// Embedding a `TypeSlice` into `Type` loses nothing: matching the converted
/// value back out yields the original node.
pub proof fn lemma_type_slice_into_type_lossless(v: TypeSlice)
    ensures
        v.type_of() matches Type::Slice(w) && w == v,
{
}

/// Embedding a `TypeTraitObject` into `Type` loses nothing: matching the converted
/// value back out yields the original node.
pub proof fn lemma_type_trait_object_into_type_lossless(v: TypeTraitObject)
    ensures
        v.type_of() matches Type::TraitObject(w) && w == v,
{
}

/// Embedding a `TypeTuple` into `Type` loses nothing: matching the converted
/// value back out yields the original node.
pub proof fn lemma_type_tuple_into_type_lossless(v: TypeTuple)
    ensures
        v.type_of() matches Type::Tuple(w) && w == v,
{
}

/// Embedding a `TokenStream` into `Type` loses nothing: matching the converted
/// value back out yields the original node.
pub proof fn lemma_token_stream_into_type_lossless(v: TokenStream)
    ensures
        v.type_of() matches Type::Verbatim(w) && w == v,
{
}

/// Embedding a `LifetimeParam` into `GenericParam` loses nothing: matching the converted
/// value back out yields the original node.
pub proof fn lemma_lifetime_param_into_generic_param_lossless(v: LifetimeParam)
    ensures
        v.generic_param_of() matches GenericParam::Lifetime(w) && w == v,
{
}

/// Embedding a `TypeParam` into `GenericParam` loses nothing: matching the converted
/// value back out yields the original node.
pub proof fn lemma_type_param_into_generic_param_lossless(v: TypeParam)
    ensures
        v.generic_param_of() matches GenericParam::Type(w) && w == v,
{
}

/// Embedding a `ConstParam` into `GenericParam` loses nothing: matching the converted
/// value back out yields the original node.
pub proof fn lemma_const_param_into_generic_param_lossless(v: ConstParam)
    ensures
        v.generic_param_of() matches GenericParam::Const(w) && w == v,
{
}

/// Embedding a `Lifetime` into `TypeParamBound` loses nothing: matching the converted
/// value back out yields the original node.
pub proof fn lemma_lifetime_into_type_param_bound_lossless(v: Lifetime)
    ensures
        v.type_param_bound_of() matches TypeParamBound::Lifetime(w) && w == v,
{
}

/// Embedding a `TraitBound` into `TypeParamBound` loses nothing: matching the converted
/// value back out yields the original node.
pub proof fn lemma_trait_bound_into_type_param_bound_lossless(v: TraitBound)
    ensures
        v.type_param_bound_of() matches TypeParamBound::Trait(w) && w == v,
{
}

/// Embedding a `PredicateLifetime` into `WherePredicate` loses nothing: matching the converted
/// value back out yields the original node.
pub proof fn lemma_predicate_lifetime_into_where_predicate_lossless(v: PredicateLifetime)
    ensures
        v.where_predicate_of() matches WherePredicate::Lifetime(w) && w == v,
{
}

/// Embedding a `PredicateType` into `WherePredicate` loses nothing: matching the converted
/// value back out yields the original node.
pub proof fn lemma_predicate_type_into_where_predicate_lossless(v: PredicateType)
    ensures
        v.where_predicate_of() matches WherePredicate::Type(w) && w == v,
{
}

/// Embedding a `PatConst` into `Pat` loses nothing: matching the converted
/// value back out yields the original node.
pub proof fn lemma_pat_const_into_pat_lossless(v: PatConst)
    ensures
        v.pat_of() matches Pat::Const(w) && w == v,
{
}

/// Embedding a `PatIdent` into `Pat` loses nothing: matching the converted
/// value back out yields the original node.
pub proof fn lemma_pat_ident_into_pat_lossless(v: PatIdent)
    ensures
        v.pat_of() matches Pat::Ident(w) && w == v,
{
}

/// Embedding a `PatLit` into `Pat` loses nothing: matching the converted
/// value back out yields the original node.
pub proof fn lemma_pat_lit_into_pat_lossless(v: PatLit)
    ensures
        v.pat_of() matches Pat::Lit(w) && w == v,
{
}

/// Embedding a `PatMacro` into `Pat` loses nothing: matching the converted
/// value back out yields the original node.
pub proof fn lemma_pat_macro_into_pat_lossless(v: PatMacro)
    ensures
        v.pat_of() matches Pat::Macro(w) && w == v,
{
}

/// Embedding a `PatOr` into `Pat` loses nothing: matching the converted
/// value back out yields the original node.
pub proof fn lemma_pat_or_into_pat_lossless(v: PatOr)
    ensures
        v.pat_of() matches Pat::Or(w) && w == v,
{
}

/// Embedding a `PatParen` into `Pat` loses nothing: matching the converted
/// value back out yields the original node.
pub proof fn lemma_pat_paren_into_pat_lossless(v: PatParen)
    ensures
        v.pat_of() matches Pat::Paren(w) && w == v,
{
}

/// Embedding a `PatPath` into `Pat` loses nothing: matching the converted
/// value back out yields the original node.
pub proof fn lemma_pat_path_into_pat_lossless(v: PatPath)
    ensures
        v.pat_of() matches Pat::Path(w) && w == v,
{
}

/// Embedding a `PatRange` into `Pat` loses nothing: matching the converted
/// value back out yields the original node.
pub proof fn lemma_pat_range_into_pat_lossless(v: PatRange)
    ensures
        v.pat_of() matches Pat::Range(w) && w == v,
{
}

/// Embedding a `PatReference` into `Pat` loses nothing: matching the converted
/// value back out yields the original node.
pub proof fn lemma_pat_reference_into_pat_lossless(v: PatReference)
    ensures
        v.pat_of() matches Pat::Reference(w) && w == v,
{
}

/// Embedding a `PatRest` into `Pat` loses nothing: matching the converted
/// value back out yields the original node.
pub proof fn lemma_pat_rest_into_pat_lossless(v: PatRest)
    ensures
        v.pat_of() matches Pat::Rest(w) && w == v,
{
}

/// Embedding a `PatSlice` into `Pat` loses nothing: matching the converted
/// value back out yields the original node.
pub proof fn lemma_pat_slice_into_pat_lossless(v: PatSlice)
    ensures
        v.pat_of() matches Pat::Slice(w) && w == v,
{
}

/// Embedding a `PatStruct` into `Pat` loses nothing: matching the converted
/// value back out yields the original node.
pub proof fn lemma_pat_struct_into_pat_lossless(v: PatStruct)
    ensures
        v.pat_of() matches Pat::Struct(w) && w == v,
{
}

/// Embedding a `PatTuple` into `Pat` loses nothing: matching the converted
/// value back out yields the original node.
pub proof fn lemma_pat_tuple_into_pat_lossless(v: PatTuple)
    ensures
        v.pat_of() matches Pat::Tuple(w) && w == v,
{
}

/// Embedding a `PatTupleStruct` into `Pat` loses nothing: matching the converted
/// value back out yields the original node.
pub proof fn lemma_pat_tuple_struct_into_pat_lossless(v: PatTupleStruct)
    ensures
        v.pat_of() matches Pat::TupleStruct(w) && w == v,
{
}

/// Embedding a `PatType` into `Pat` loses nothing: matching the converted
/// value back out yields the original node.
pub proof fn lemma_pat_type_into_pat_lossless(v: PatType)
    ensures
        v.pat_of() matches Pat::Type(w) && w == v,
{
}

/// Embedding a `TokenStream` into `Pat` loses nothing: matching the converted
/// value back out yields the original node.
pub proof fn lemma_token_stream_into_pat_lossless(v: TokenStream)
    ensures
        v.pat_of() matches Pat::Verbatim(w) && w == v,
{
}

/// Embedding a `PatWild` into `Pat` loses nothing: matching the converted
/// value back out yields the original node.
pub proof fn lemma_pat_wild_into_pat_lossless(v: PatWild)
    ensures
        v.pat_of() matches Pat::Wild(w) && w == v,
{
}

/// Embedding a `ExprArray` into `Expr` loses nothing: matching the converted
/// value back out yields the original node.
pub proof fn lemma_expr_array_into_expr_lossless(v: ExprArray)
    ensures
        v.expr_of() matches Expr::Array(w) && w == v,
{
}

/// Embedding a `ExprAssign` into `Expr` loses nothing: matching the converted
/// value back out yields the original node.
pub proof fn lemma_expr_assign_into_expr_lossless(v: ExprAssign)
    ensures
        v.expr_of() matches Expr::Assign(w) && w == v,
{
}

/// Embedding a `ExprAsync` into `Expr` loses nothing: matching the converted
/// value back out yields the original node.
pub proof fn lemma_expr_async_into_expr_lossless(v: ExprAsync)
    ensures
        v.expr_of() matches Expr::Async(w) && w == v,
{
}

/// Embedding a `ExprAwait` into `Expr` loses nothing: matching the converted
/// value back out yields the original node.
pub proof fn lemma_expr_await_into_expr_lossless(v: ExprAwait)
    ensures
        v.expr_of() matches Expr::Await(w) && w == v,
{
}

/// Embedding a `ExprBinary` into `Expr` loses nothing: matching the converted
/// value back out yields the original node.
pub proof fn lemma_expr_binary_into_expr_lossless(v: ExprBinary)
    ensures
        v.expr_of() matches Expr::Binary(w) && w == v,
{
}

/// Embedding a `ExprBlock` into `Expr` loses nothing: matching the converted
/// value back out yields the original node.
pub proof fn lemma_expr_block_into_expr_lossless(v: ExprBlock)
    ensures
        v.expr_of() matches Expr::Block(w) && w == v,
{
}

/// Embedding a `ExprBreak` into `Expr` loses nothing: matching the converted
/// value back out yields the original node.
pub proof fn lemma_expr_break_into_expr_lossless(v: ExprBreak)
    ensures
        v.expr_of() matches Expr::Break(w) && w == v,
{
}

/// Embedding a `ExprCall` into `Expr` loses nothing: matching the converted
/// value back out yields the original node.
pub proof fn lemma_expr_call_into_expr_lossless(v: ExprCall)
    ensures
        v.expr_of() matches Expr::Call(w) && w == v,
{
}

/// Embedding a `ExprCast` into `Expr` loses nothing: matching the converted
/// value back out yields the original node.
pub proof fn lemma_expr_cast_into_expr_lossless(v: ExprCast)
    ensures
        v.expr_of() matches Expr::Cast(w) && w == v,
{
}

/// Embedding a `ExprClosure` into `Expr` loses nothing: matching the converted
/// value back out yields the original node.
pub proof fn lemma_expr_closure_into_expr_lossless(v: ExprClosure)
    ensures
        v.expr_of() matches Expr::Closure(w) && w == v,
{
}

/// Embedding a `ExprConst` into `Expr` loses nothing: matching the converted
/// value back out yields the original node.
pub proof fn lemma_expr_const_into_expr_lossless(v: ExprConst)
    ensures
        v.expr_of() matches Expr::Const(w) && w == v,
{
}

/// Embedding a `ExprContinue` into `Expr` loses nothing: matching the converted
/// value back out yields the original node.
pub proof fn lemma_expr_continue_into_expr_lossless(v: ExprContinue)
    ensures
        v.expr_of() matches Expr::Continue(w) && w == v,
{
}

/// Embedding a `ExprField` into `Expr` loses nothing: matching the converted
/// value back out yields the original node.
pub proof fn lemma_expr_field_into_expr_lossless(v: ExprField)
    ensures
        v.expr_of() matches Expr::Field(w) && w == v,
{
}

/// Embedding a `ExprForLoop` into `Expr` loses nothing: matching the converted
/// value back out yields the original node.
pub proof fn lemma_expr_for_loop_into_expr_lossless(v: ExprForLoop)
    ensures
        v.expr_of() matches Expr::ForLoop(w) && w == v,
{
}

/// Embedding a `ExprGroup` into `Expr` loses nothing: matching the converted
/// value back out yields the original node.
pub proof fn lemma_expr_group_into_expr_lossless(v: ExprGroup)
    ensures
        v.expr_of() matches Expr::Group(w) && w == v,
{
}

/// Embedding a `ExprIf` into `Expr` loses nothing: matching the converted
/// value back out yields the original node.
pub proof fn lemma_expr_if_into_expr_lossless(v: ExprIf)
    ensures
        v.expr_of() matches Expr::If(w) && w == v,
{
}

/// Embedding a `ExprIndex` into `Expr` loses nothing: matching the converted
/// value back out yields the original node.
pub proof fn lemma_expr_index_into_expr_lossless(v: ExprIndex)
    ensures
        v.expr_of() matches Expr::Index(w) && w == v,
{
}

/// Embedding a `ExprInfer` into `Expr` loses nothing: matching the converted
/// value back out yields the original node.
pub proof fn lemma_expr_infer_into_expr_lossless(v: ExprInfer)
    ensures
        v.expr_of() matches Expr::Infer(w) && w == v,
{
}

/// Embedding a `ExprLet` into `Expr` loses nothing: matching the converted
/// value back out yields the original node.
pub proof fn lemma_expr_let_into_expr_lossless(v: ExprLet)
    ensures
        v.expr_of() matches Expr::Let(w) && w == v,
{
}

/// Embedding a `ExprLit` into `Expr` loses nothing: matching the converted
/// value back out yields the original node.
pub proof fn lemma_expr_lit_into_expr_lossless(v: ExprLit)
    ensures
        v.expr_of() matches Expr::Lit(w) && w == v,
{
}

/// Embedding a `ExprLoop` into `Expr` loses nothing: matching the converted
/// value back out yields the original node.
pub proof fn lemma_expr_loop_into_expr_lossless(v: ExprLoop)
    ensures
        v.expr_of() matches Expr::Loop(w) && w == v,
{
}

/// Embedding a `ExprMacro` into `Expr` loses nothing: matching the converted
/// value back out yields the original node.
pub proof fn lemma_expr_macro_into_expr_lossless(v: ExprMacro)
    ensures
        v.expr_of() matches Expr::Macro(w) && w == v,
{
}

/// Embedding a `ExprMatch` into `Expr` loses nothing: matching the converted
/// value back out yields the original node.
pub proof fn lemma_expr_match_into_expr_lossless(v: ExprMatch)
    ensures
        v.expr_of() matches Expr::Match(w) && w == v,
{
}

/// Embedding a `ExprMethodCall` into `Expr` loses nothing: matching the converted
/// value back out yields the original node.
pub proof fn lemma_expr_method_call_into_expr_lossless(v: ExprMethodCall)
    ensures
        v.expr_of() matches Expr::MethodCall(w) && w == v,
{
}

/// Embedding a `ExprParen` into `Expr` loses nothing: matching the converted
/// value back out yields the original node.
pub proof fn lemma_expr_paren_into_expr_lossless(v: ExprParen)
    ensures
        v.expr_of() matches Expr::Paren(w) && w == v,
{
}

/// Embedding a `ExprPath` into `Expr` loses nothing: matching the converted
/// value back out yields the original node.
pub proof fn lemma_expr_path_into_expr_lossless(v: ExprPath)
    ensures
        v.expr_of() matches Expr::Path(w) && w == v,
{
}

/// Embedding a `ExprRange` into `Expr` loses nothing: matching the converted
/// value back out yields the original node.
pub proof fn lemma_expr_range_into_expr_lossless(v: ExprRange)
    ensures
        v.expr_of() matches Expr::Range(w) && w == v,
{
}

/// Embedding a `ExprReference` into `Expr` loses nothing: matching the converted
/// value back out yields the original node.
pub proof fn lemma_expr_reference_into_expr_lossless(v: ExprReference)
    ensures
        v.expr_of() matches Expr::Reference(w) && w == v,
{
}

/// Embedding a `ExprRepeat` into `Expr` loses nothing: matching the converted
/// value back out yields the original node.
pub proof fn lemma_expr_repeat_into_expr_lossless(v: ExprRepeat)
    ensures
        v.expr_of() matches Expr::Repeat(w) && w == v,
{
}

/// Embedding a `ExprReturn` into `Expr` loses nothing: matching the converted
/// value back out yields the original node.
pub proof fn lemma_expr_return_into_expr_lossless(v: ExprReturn)
    ensures
        v.expr_of() matches Expr::Return(w) && w == v,
{
}

/// Embedding a `ExprStruct` into `Expr` loses nothing: matching the converted
/// value back out yields the original node.
pub proof fn lemma_expr_struct_into_expr_lossless(v: ExprStruct)
    ensures
        v.expr_of() matches Expr::Struct(w) && w == v,
{
}

/// Embedding a `ExprTry` into `Expr` loses nothing: matching the converted
/// value back out yields the original node.
pub proof fn lemma_expr_try_into_expr_lossless(v: ExprTry)
    ensures
        v.expr_of() matches Expr::Try(w) && w == v,
{
}

/// Embedding a `ExprTryBlock` into `Expr` loses nothing: matching the converted
/// value back out yields the original node.
pub proof fn lemma_expr_try_block_into_expr_lossless(v: ExprTryBlock)
    ensures
        v.expr_of() matches Expr::TryBlock(w) && w == v,
{
}

/// Embedding a `ExprTuple` into `Expr` loses nothing: matching the converted
/// value back out yields the original node.
pub proof fn lemma_expr_tuple_into_expr_lossless(v: ExprTuple)
    ensures
        v.expr_of() matches Expr::Tuple(w) && w == v,
{
}

/// Embedding a `ExprUnary` into `Expr` loses nothing: matching the converted
/// value back out yields the original node.
pub proof fn lemma_expr_unary_into_expr_lossless(v: ExprUnary)
    ensures
        v.expr_of() matches Expr::Unary(w) && w == v,
{
}

/// Embedding a `ExprUnsafe` into `Expr` loses nothing: matching the converted
/// value back out yields the original node.
pub proof fn lemma_expr_unsafe_into_expr_lossless(v: ExprUnsafe)
    ensures
        v.expr_of() matches Expr::Unsafe(w) && w == v,
{
}

/// Embedding a `TokenStream` into `Expr` loses nothing: matching the converted
/// value back out yields the original node.
pub proof fn lemma_token_stream_into_expr_lossless(v: TokenStream)
    ensures
        v.expr_of() matches Expr::Verbatim(w) && w == v,
{
}

/// Embedding a `ExprWhile` into `Expr` loses nothing: matching the converted
/// value back out yields the original node.
pub proof fn lemma_expr_while_into_expr_lossless(v: ExprWhile)
    ensures
        v.expr_of() matches Expr::While(w) && w == v,
{
}

/// Embedding a `ExprYield` into `Expr` loses nothing: matching the converted
/// value back out yields the original node.
pub proof fn lemma_expr_yield_into_expr_lossless(v: ExprYield)
    ensures
        v.expr_of() matches Expr::Yield(w) && w == v,
{
}

/// Embedding a `Ident` into `Member` loses nothing: matching the converted
/// value back out yields the original node.
pub proof fn lemma_ident_into_member_lossless(v: Ident)
    ensures
        v.member_of() matches Member::Named(w) && w == v,
{
}

/// Embedding a `Index` into `Member` loses nothing: matching the converted
/// value back out yields the original node.
pub proof fn lemma_index_into_member_lossless(v: Index)
    ensures
        v.member_of() matches Member::Unnamed(w) && w == v,
{
}

/// Embedding a `Local` into `Stmt` loses nothing: matching the converted
/// value back out yields the original node.
pub proof fn lemma_local_into_stmt_lossless(v: Local)
    ensures
        v.stmt_of() matches Stmt::Local(w) && w == v,
{
}

/// Embedding a `Item` into `Stmt` loses nothing: matching the converted
/// value back out yields the original node.
pub proof fn lemma_item_into_stmt_lossless(v: Item)
    ensures
        v.stmt_of() matches Stmt::Item(w) && w == v,
{
}

/// Embedding a `StmtMacro` into `Stmt` loses nothing: matching the converted
/// value back out yields the original node.
pub proof fn lemma_stmt_macro_into_stmt_lossless(v: StmtMacro)
    ensures
        v.stmt_of() matches Stmt::Macro(w) && w == v,
{
}

/// Embedding a `FieldsNamed` into `Fields` loses nothing: matching the converted
/// value back out yields the original node.
pub proof fn lemma_fields_named_into_fields_lossless(v: FieldsNamed)
    ensures
        v.fields_of() matches Fields::Named(w) && w == v,
{
}

/// Embedding a `FieldsUnnamed` into `Fields` loses nothing: matching the converted
/// value back out yields the original node.
pub proof fn lemma_fields_unnamed_into_fields_lossless(v: FieldsUnnamed)
    ensures
        v.fields_of() matches Fields::Unnamed(w) && w == v,
{
}

/// Embedding a `DataStruct` into `Data` loses nothing: matching the converted
/// value back out yields the original node.
pub proof fn lemma_data_struct_into_data_lossless(v: DataStruct)
    ensures
        v.data_of() matches Data::Struct(w) && w == v,
{
}

/// Embedding a `DataEnum` into `Data` loses nothing: matching the converted
/// value back out yields the original node.
pub proof fn lemma_data_enum_into_data_lossless(v: DataEnum)
    ensures
        v.data_of() matches Data::Enum(w) && w == v,
{
}

/// Embedding a `DataUnion` into `Data` loses nothing: matching the converted
/// value back out yields the original node.
pub proof fn lemma_data_union_into_data_lossless(v: DataUnion)
    ensures
        v.data_of() matches Data::Union(w) && w == v,
{
}

/// Embedding a `ItemConst` into `Item` loses nothing: matching the converted
/// value back out yields the original node.
pub proof fn lemma_item_const_into_item_lossless(v: ItemConst)
    ensures
        v.item_of() matches Item::Const(w) && w == v,
{
}

/// Embedding a `ItemEnum` into `Item` loses nothing: matching the converted
/// value back out yields the original node.
pub proof fn lemma_item_enum_into_item_lossless(v: ItemEnum)
    ensures
        v.item_of() matches Item::Enum(w) && w == v,
{
}

/// Embedding a `ItemExternCrate` into `Item` loses nothing: matching the converted
/// value back out yields the original node.
pub proof fn lemma_item_extern_crate_into_item_lossless(v: ItemExternCrate)
    ensures
        v.item_of() matches Item::ExternCrate(w) && w == v,
{
}

/// Embedding a `ItemFn` into `Item` loses nothing: matching the converted
/// value back out yields the original node.
pub proof fn lemma_item_fn_into_item_lossless(v: ItemFn)
    ensures
        v.item_of() matches Item::Fn(w) && w == v,
{
}

/// Embedding a `ItemForeignMod` into `Item` loses nothing: matching the converted
/// value back out yields the original node.
pub proof fn lemma_item_foreign_mod_into_item_lossless(v: ItemForeignMod)
    ensures
        v.item_of() matches Item::ForeignMod(w) && w == v,
{
}

/// Embedding a `ItemImpl` into `Item` loses nothing: matching the converted
/// value back out yields the original node.
pub proof fn lemma_item_impl_into_item_lossless(v: ItemImpl)
    ensures
        v.item_of() matches Item::Impl(w) && w == v,
{
}

/// Embedding a `ItemMacro` into `Item` loses nothing: matching the converted
/// value back out yields the original node.
pub proof fn lemma_item_macro_into_item_lossless(v: ItemMacro)
    ensures
        v.item_of() matches Item::Macro(w) && w == v,
{
}

/// Embedding a `ItemMod` into `Item` loses nothing: matching the converted
/// value back out yields the original node.
pub proof fn lemma_item_mod_into_item_lossless(v: ItemMod)
    ensures
        v.item_of() matches Item::Mod(w) && w == v,
{
}

/// Embedding a `ItemStatic` into `Item` loses nothing: matching the converted
/// value back out yields the original node.
pub proof fn lemma_item_static_into_item_lossless(v: ItemStatic)
    ensures
        v.item_of() matches Item::Static(w) && w == v,
{
}

/// Embedding a `ItemStruct` into `Item` loses nothing: matching the converted
/// value back out yields the original node.
pub proof fn lemma_item_struct_into_item_lossless(v: ItemStruct)
    ensures
        v.item_of() matches Item::Struct(w) && w == v,
{
}

/// Embedding a `ItemTrait` into `Item` loses nothing: matching the converted
/// value back out yields the original node.
pub proof fn lemma_item_trait_into_item_lossless(v: ItemTrait)
    ensures
        v.item_of() matches Item::Trait(w) && w == v,
{
}

/// Embedding a `ItemTraitAlias` into `Item` loses nothing: matching the converted
/// value back out yields the original node.
pub proof fn lemma_item_trait_alias_into_item_lossless(v: ItemTraitAlias)
    ensures
        v.item_of() matches Item::TraitAlias(w) && w == v,
{
}

/// Embedding a `ItemType` into `Item` loses nothing: matching the converted
/// value back out yields the original node.
pub proof fn lemma_item_type_into_item_lossless(v: ItemType)
    ensures
        v.item_of() matches Item::Type(w) && w == v,
{
}

/// Embedding a `ItemUnion` into `Item` loses nothing: matching the converted
/// value back out yields the original node.
pub proof fn lemma_item_union_into_item_lossless(v: ItemUnion)
    ensures
        v.item_of() matches Item::Union(w) && w == v,
{
}

/// Embedding a `ItemUse` into `Item` loses nothing: matching the converted
/// value back out yields the original node.
pub proof fn lemma_item_use_into_item_lossless(v: ItemUse)
    ensures
        v.item_of() matches Item::Use(w) && w == v,
{
}

/// Embedding a `TokenStream` into `Item` loses nothing: matching the converted
/// value back out yields the original node.
pub proof fn lemma_token_stream_into_item_lossless(v: TokenStream)
    ensures
        v.item_of() matches Item::Verbatim(w) && w == v,
{
}

/// Embedding a `UsePath` into `UseTree` loses nothing: matching the converted
/// value back out yields the original node.
pub proof fn lemma_use_path_into_use_tree_lossless(v: UsePath)
    ensures
        v.use_tree_of() matches UseTree::Path(w) && w == v,
{
}

/// Embedding a `UseName` into `UseTree` loses nothing: matching the converted
/// value back out yields the original node.
pub proof fn lemma_use_name_into_use_tree_lossless(v: UseName)
    ensures
        v.use_tree_of() matches UseTree::Name(w) && w == v,
{
}

/// Embedding a `UseRename` into `UseTree` loses nothing: matching the converted
/// value back out yields the original node.
pub proof fn lemma_use_rename_into_use_tree_lossless(v: UseRename)
    ensures
        v.use_tree_of() matches UseTree::Rename(w) && w == v,
{
}

/// Embedding a `UseGlob` into `UseTree` loses nothing: matching the converted
/// value back out yields the original node.
pub proof fn lemma_use_glob_into_use_tree_lossless(v: UseGlob)
    ensures
        v.use_tree_of() matches UseTree::Glob(w) && w == v,
{
}

/// Embedding a `UseGroup` into `UseTree` loses nothing: matching the converted
/// value back out yields the original node.
pub proof fn lemma_use_group_into_use_tree_lossless(v: UseGroup)
    ensures
        v.use_tree_of() matches UseTree::Group(w) && w == v,
{
}

/// Embedding a `ForeignItemFn` into `ForeignItem` loses nothing: matching the converted
/// value back out yields the original node.
pub proof fn lemma_foreign_item_fn_into_foreign_item_lossless(v: ForeignItemFn)
    ensures
        v.foreign_item_of() matches ForeignItem::Fn(w) && w == v,
{
}

/// Embedding a `ForeignItemStatic` into `ForeignItem` loses nothing: matching the converted
/// value back out yields the original node.
pub proof fn lemma_foreign_item_static_into_foreign_item_lossless(v: ForeignItemStatic)
    ensures
        v.foreign_item_of() matches ForeignItem::Static(w) && w == v,
{
}

/// Embedding a `ForeignItemType` into `ForeignItem` loses nothing: matching the converted
/// value back out yields the original node.
pub proof fn lemma_foreign_item_type_into_foreign_item_lossless(v: ForeignItemType)
    ensures
        v.foreign_item_of() matches ForeignItem::Type(w) && w == v,
{
}

/// Embedding a `ForeignItemMacro` into `ForeignItem` loses nothing: matching the converted
/// value back out yields the original node.
pub proof fn lemma_foreign_item_macro_into_foreign_item_lossless(v: ForeignItemMacro)
    ensures
        v.foreign_item_of() matches ForeignItem::Macro(w) && w == v,
{
}

/// Embedding a `TraitItemConst` into `TraitItem` loses nothing: matching the converted
/// value back out yields the original node.
pub proof fn lemma_trait_item_const_into_trait_item_lossless(v: TraitItemConst)
    ensures
        v.trait_item_of() matches TraitItem::Const(w) && w == v,
{
}

/// Embedding a `TraitItemFn` into `TraitItem` loses nothing: matching the converted
/// value back out yields the original node.
pub proof fn lemma_trait_item_fn_into_trait_item_lossless(v: TraitItemFn)
    ensures
        v.trait_item_of() matches TraitItem::Fn(w) && w == v,
{
}

/// Embedding a `TraitItemType` into `TraitItem` loses nothing: matching the converted
/// value back out yields the original node.
pub proof fn lemma_trait_item_type_into_trait_item_lossless(v: TraitItemType)
    ensures
        v.trait_item_of() matches TraitItem::Type(w) && w == v,
{
}

/// Embedding a `TraitItemMacro` into `TraitItem` loses nothing: matching the converted
/// value back out yields the original node.
pub proof fn lemma_trait_item_macro_into_trait_item_lossless(v: TraitItemMacro)
    ensures
        v.trait_item_of() matches TraitItem::Macro(w) && w == v,
{
}

/// Embedding a `ImplItemConst` into `ImplItem` loses nothing: matching the converted
/// value back out yields the original node.
pub proof fn lemma_impl_item_const_into_impl_item_lossless(v: ImplItemConst)
    ensures
        v.impl_item_of() matches ImplItem::Const(w) && w == v,
{
}

/// Embedding a `ImplItemFn` into `ImplItem` loses nothing: matching the converted
/// value back out yields the original node.
pub proof fn lemma_impl_item_fn_into_impl_item_lossless(v: ImplItemFn)
    ensures
        v.impl_item_of() matches ImplItem::Fn(w) && w == v,
{
}

/// Embedding a `ImplItemType` into `ImplItem` loses nothing: matching the converted
/// value back out yields the original node.
pub proof fn lemma_impl_item_type_into_impl_item_lossless(v: ImplItemType)
    ensures
        v.impl_item_of() matches ImplItem::Type(w) && w == v,
{
}

/// Embedding a `ImplItemMacro` into `ImplItem` loses nothing: matching the converted
/// value back out yields the original node.
pub proof fn lemma_impl_item_macro_into_impl_item_lossless(v: ImplItemMacro)
    ensures
        v.impl_item_of() matches ImplItem::Macro(w) && w == v,
{
}

/// Embedding a `Receiver` into `FnArg` loses nothing: matching the converted
/// value back out yields the original node.
pub proof fn lemma_receiver_into_fn_arg_lossless(v: Receiver)
    ensures
        v.fn_arg_of() matches FnArg::Receiver(w) && w == v,
{
}

/// Embedding a `PatType` into `FnArg` loses nothing: matching the converted
/// value back out yields the original node.
pub proof fn lemma_pat_type_into_fn_arg_lossless(v: PatType)
    ensures
        v.fn_arg_of() matches FnArg::Typed(w) && w == v,
{
}

/// Overriding a replacing field twice leaves the node exactly as the second
/// write alone would have: the last write wins. Shown for the visibility of
/// a struct definition; every replacing modifier has the same contract shape.
pub proof fn lemma_vis_last_write_wins(
    x: ItemStruct,
    v1: Visibility,
    v2: Visibility,
    y: ItemStruct,
    z: ItemStruct,
    w: ItemStruct,
)
    requires
        x.vis_ens(v1, y),
        y.vis_ens(v2, z),
        x.vis_ens(v2, w),
    ensures
        z == w,
{
}

/// Writing a field the value it already holds changes nothing: a no-op
/// modifier call between construction and an override leaves the final node
/// exactly as the override alone would. Shown for the visibility of a
/// struct definition.
pub proof fn lemma_noop_override_is_identity(x: ItemStruct, y: ItemStruct)
    requires
        x.vis_ens(x.vis, y),
    ensures
        y == x,
{
}

/// Modifiers of disjoint fields commute: visibility and generics may be
/// written in either order. Shown for a struct definition.
pub proof fn lemma_disjoint_modifiers_commute(
    x: ItemStruct,
    v: Visibility,
    g: Generics,
    y1: ItemStruct,
    z1: ItemStruct,
    y2: ItemStruct,
    z2: ItemStruct,
)
    requires
        x.vis_ens(v, y1),
        y1.generics_ens(g, z1),
        x.generics_ens(g, y2),
        y2.vis_ens(v, z2),
    ensures
        z1 == z2,
{
}

/// Appending attributes one at a time accumulates them in call order and
/// touches nothing else. Shown for a field; every attribute carrier has the
/// same contract shape.
pub proof fn lemma_attr_append_order(
    x: Field,
    a1: Attribute,
    a2: Attribute,
    y: Field,
    z: Field,
)
    requires
        x.attr_ens(a1, y),
        y.attr_ens(a2, z),
    ensures
        z.attrs@ == x.attrs@.push(a1).push(a2),
        z == (Field { attrs: z.attrs, ..x }),
{
}

/// Replacing the attribute list discards everything appended before it.
pub proof fn lemma_attrs_replace_discards(
    x: Field,
    a: Attribute,
    attrs: Vec<Attribute>,
    y: Field,
    z: Field,
)
    requires
        x.attr_ens(a, y),
        y.attrs_ens(attrs, z),
    ensures
        z.attrs == attrs,
        z == (Field { attrs, ..x }),
{
}

/// A receiver's reference shape is one field: asking for a plain reference
/// and then for a lifetime-carrying one leaves exactly the latter, with no
/// trace of the former.
pub proof fn lemma_receiver_reference_then_lifetime(
    x: Receiver,
    lt: Lifetime,
    y: Receiver,
    z: Receiver,
)
    requires
        x.reference_ens(true, y),
        y.lifetime_ens(lt, z),
    ensures
        z.reference == Some(Some(lt)),
        z == (Receiver { reference: z.reference, ..x }),
{
}

/// Setting a struct literal's rest expression always raises the double-dot
/// marker along with it: the two fields move together.
pub proof fn lemma_struct_rest_sets_marker(x: ExprStruct, e: Expr, y: ExprStruct)
    requires
        x.rest_ens(e, y),
    ensures
        y.dot2_token == true,
        y.rest matches Some(b) && *b == e,
        y == (ExprStruct { dot2_token: true, rest: y.rest, ..x }),
{
}

/// Naming a field raises the separating colon along with the name: an
/// anonymous field becomes a named one in one step.
pub proof fn lemma_field_ident_sets_colon(x: Field, i: Ident, y: Field)
    requires
        x.ident_ens(i, y),
    ensures
        y.ident == Some(i),
        y.colon_token == true,
        y == (Field { ident: y.ident, colon_token: true, ..x }),
{
}

} // verus!
