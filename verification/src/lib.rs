//! Fluent construction of source-syntax-tree values.
//!
//! Every grammar node has a constructor that fills the semantically required
//! fields from its arguments and every other field with its empty default,
//! and a builder trait whose chainable methods each return the same node with
//! exactly one field changed. A family of conversion traits lets any concrete
//! node stand wherever its grammar category is expected, and each conversion
//! is the plain variant embedding, stated in its contract.

mod ident;
pub mod token;
mod lit;
mod op;
mod mac;
mod attr;
mod restriction;
mod path;
mod ty;
mod generics;
mod data;
mod derive;
mod pat;
mod expr;
mod stmt;
mod item;
pub mod file;
mod props;
mod convert;
mod laws;

pub use ident::{Ident, IntoIdent, Lifetime};
pub use lit::{IntoLit, Lit, LitBool, LitByte, LitByteStr, LitChar, LitFloat, LitInt, LitStr, TokenStream, lit_bool, lit_byte, lit_byte_str, lit_char, lit_float, lit_int, lit_str};
pub use op::{BinOp, IntoBinOp, IntoUnOp, UnOp, bin_op_add_assign_variant, bin_op_add_variant, bin_op_and_variant, bin_op_bit_and_assign_variant, bin_op_bit_and_variant, bin_op_bit_or_assign_variant, bin_op_bit_or_variant, bin_op_bit_xor_assign_variant, bin_op_bit_xor_variant, bin_op_div_assign_variant, bin_op_div_variant, bin_op_eq_variant, bin_op_ge_variant, bin_op_gt_variant, bin_op_le_variant, bin_op_lt_variant, bin_op_mul_assign_variant, bin_op_mul_variant, bin_op_ne_variant, bin_op_or_variant, bin_op_rem_assign_variant, bin_op_rem_variant, bin_op_shl_assign_variant, bin_op_shl_variant, bin_op_shr_assign_variant, bin_op_shr_variant, bin_op_sub_assign_variant, bin_op_sub_variant, un_op_deref, un_op_neg, un_op_not};
pub use mac::{IntoMacroDelimiter, Macro, MacroBuilder, MacroDelimiter, macro_delimiter_brace_variant, macro_delimiter_bracket_variant, macro_delimiter_paren_variant, macro_invocation};
pub use attr::{AttrStyle, Attribute, AttributeBuilder, IntoAttrStyle, IntoMeta, Meta, MetaList, MetaListBuilder, MetaNameValue, MetaNameValueBuilder, attr_style_inner, attribute, meta_list, meta_name_value};
pub use restriction::{FieldMutability, IntoVisibility, VisRestricted, VisRestrictedBuilder, Visibility, field_mutability_none_variant, is_reserved_name, path_is_reserved_component, reserved_name, vis_restricted, visibility_public_variant};
pub use path::{AngleBracketedGenericArguments, AngleBracketedGenericArgumentsBuilder, AssocConst, AssocConstBuilder, AssocType, AssocTypeBuilder, Constraint, ConstraintBuilder, GenericArgument, IntoGenericArgument, IntoPath, IntoPathArguments, IntoPathSegment, ParenthesizedGenericArguments, ParenthesizedGenericArgumentsBuilder, Path, PathArguments, PathBuilder, PathSegment, PathSeqmentBuilder, QSelf, QSelfBuilder, angle_bracketed_generic_arguments, assoc_const, assoc_type, constraint, parenthesized_generic_arguments, path, path_segment, q_self};
pub use ty::{Abi, AbiBuilder, BareFnArg, BareFnArgBuilder, BareVariadic, BareVariadicBuilder, IntoType, ReturnType, Type, TypeArray, TypeArrayBuilder, TypeBareFn, TypeBareFnBuilder, TypeGroup, TypeGroupBuilder, TypeImplTrait, TypeImplTraitBuilder, TypeInfer, TypeInferBuilder, TypeMacro, TypeMacroBuilder, TypeNever, TypeNeverBuilder, TypeParen, TypeParenBuilder, TypePath, TypePathBuilder, TypePtr, TypePtrBuilder, TypeReference, TypeReferenceBuilder, TypeSlice, TypeSliceBuilder, TypeTraitObject, TypeTraitObjectBuilder, TypeTuple, TypeTupleBuilder, abi, bare_fn_arg, bare_variadic, type_array, type_bare_fn, type_group, type_impl_trait, type_infer, type_macro, type_never, type_paren, type_path, type_ptr_const, type_ptr_mut, type_reference, type_slice, type_trait_object, type_tuple};
pub use generics::{BoundLifetimes, BoundLifetimesBuilder, ConstParam, ConstParamBuilder, GenericParam, Generics, GenericsBuilder, IntoGenericParam, IntoTypeParamBound, IntoWherePredicate, LifetimeParam, LifetimeParamBuilder, PredicateLifetime, PredicateLifetimeBuilder, PredicateType, PredicateTypeBuilder, TraitBound, TraitBoundBuilder, TraitBoundModifier, TypeParam, TypeParamBound, TypeParamBuilder, WhereClause, WhereClauseBuilder, WherePredicate, bound_lifetimes, const_param, empty_generics, generics, generics_is_empty, lifetime_param, predicate_lifetime, predicate_type, trait_bound, type_param, where_clause};
pub use data::{Field, FieldBuilder, Fields, FieldsNamed, FieldsNamedBuilder, FieldsUnamedBuilder, FieldsUnnamed, IntoFields, Variant, VariantBuilder, field, fields_named, fields_unamed, variant};
pub use derive::{Data, DataEnum, DataEnumBuilder, DataStruct, DataStructBuilder, DataUnion, DataUnionBuilder, DeriveInput, DeriveInputBuilder, IntoData, data_enum, data_struct, data_union, derive_input};
pub use pat::{FieldPat, FieldPatBuilder, IntoPat, Pat, PatConst, PatIdent, PatIdentBuilder, PatLit, PatMacro, PatOr, PatOrBuilder, PatParen, PatParenBuilder, PatPath, PatRange, PatReference, PatReferenceBuilder, PatRest, PatRestBuilder, PatSlice, PatSliceBuilder, PatStruct, PatStructBuilder, PatTuple, PatTupleBuilder, PatTupleStruct, PatTupleStructBuilder, PatType, PatTypeBuilder, PatWild, PatWildBuilder, field_pat, pat_ident, pat_or, pat_paren, pat_reference, pat_rest, pat_slice, pat_struct, pat_tuple, pat_tuple_struct, pat_type, pat_wild};
pub use expr::{Arm, ArmBuilder, Expr, ExprArray, ExprArrayBuilder, ExprAssign, ExprAssignBuilder, ExprAsync, ExprAsyncBuilder, ExprAwait, ExprAwaitBuilder, ExprBinary, ExprBinaryBuilder, ExprBlock, ExprBlockBuilder, ExprBreak, ExprBreakBuilder, ExprCall, ExprCallBuilder, ExprCast, ExprCastBuilder, ExprClosure, ExprClosureBuilder, ExprConst, ExprConstBuilder, ExprContinue, ExprContinueBuilder, ExprField, ExprFieldBuilder, ExprForLoop, ExprForLoopBuilder, ExprGroup, ExprGroupBuilder, ExprIf, ExprIfBuilder, ExprIndex, ExprIndexBuilder, ExprInfer, ExprInferBuilder, ExprLet, ExprLetBuilder, ExprLit, ExprLitBuilder, ExprLoop, ExprLoopBuilder, ExprMacro, ExprMacroBuilder, ExprMatch, ExprMatchBuilder, ExprMethodCall, ExprMethodCallBuilder, ExprParen, ExprParenBuilder, ExprPath, ExprPathBuilder, ExprRange, ExprRangeBuilder, ExprReference, ExprReferenceBuilder, ExprRepeat, ExprRepeatBuilder, ExprReturn, ExprReturnBuilder, ExprStruct, ExprStructBuilder, ExprTry, ExprTryBlock, ExprTryBlockBuilder, ExprTryBuilder, ExprTuple, ExprTupleBuilder, ExprUnary, ExprUnaryBuilder, ExprUnsafe, ExprUnsafeBuilder, ExprWhile, ExprWhileBuilder, ExprYield, ExprYieldBuilder, FieldValue, FieldValueBuilder, Index, IndexBuilder, IntoExpr, IntoMember, IntoRangeLimits, Label, LabelBuilder, Member, RangeLimits, arm, expr_array, expr_assign, expr_async, expr_await, expr_binary, expr_block, expr_break, expr_call, expr_cast, expr_closure, expr_const, expr_continue, expr_field, expr_for_loop, expr_group, expr_if, expr_index, expr_infer, expr_let, expr_lit, expr_loop, expr_macro, expr_match, expr_method_call, expr_paren, expr_path, expr_range, expr_reference, expr_repeat, expr_return, expr_struct, expr_try, expr_try_block, expr_tuple, expr_unary, expr_unsafe, expr_while, expr_yield, field_value, index, label, range_limits_closed_variant, range_limits_half_open_variant};
pub use stmt::{Block, BlockBuilder, IntoStmt, Local, LocalBuilder, LocalInit, LocalInitBuilder, Stmt, StmtMacro, StmtMacroBuilder, block, local, local_init, stmt_macro};
pub use item::{FnArg, ForeignItem, ForeignItemFn, ForeignItemFnBuilder, ForeignItemMacro, ForeignItemMacroBuilder, ForeignItemStatic, ForeignItemStaticBuilder, ForeignItemType, ForeignItemTypeBuilder, ImplItem, ImplItemConst, ImplItemConstBuilder, ImplItemFn, ImplItemFnBuilder, ImplItemMacro, ImplItemMacroBuilder, ImplItemType, ImplItemTypeBuilder, IntoFnArg, IntoForeignItem, IntoImplItem, IntoItem, IntoTraitItem, IntoUseTree, Item, ItemConst, ItemConstBuilder, ItemEnum, ItemEnumBuilder, ItemExternCrate, ItemExternCrateBuilder, ItemFn, ItemFnBuilder, ItemForeignMod, ItemForeignModBuilder, ItemImpl, ItemImplBuilder, ItemMacro, ItemMacroBuilder, ItemMod, ItemModBuilder, ItemStatic, ItemStaticBuilder, ItemStruct, ItemStructBuilder, ItemTrait, ItemTraitAlias, ItemTraitAliasBuilder, ItemTraitBuilder, ItemType, ItemTypeBuilder, ItemUnion, ItemUnionBuilder, ItemUse, ItemUseBuilder, Receiver, ReceiverBuilder, Signature, SignatureBuilder, StaticMutability, TraitItem, TraitItemConst, TraitItemConstBuilder, TraitItemFn, TraitItemFnBuilder, TraitItemMacro, TraitItemMacroBuilder, TraitItemType, TraitItemTypeBuilder, UseGlob, UseGlobBuilder, UseGroup, UseGroupBuilder, UseName, UseNameBuilder, UsePath, UsePathBuilder, UseRenamBuilder, UseRename, UseTree, Variadic, VariadicBuilder, foreign_item_fn, foreign_item_macro, foreign_item_static, foreign_item_type, impl_item_const, impl_item_fn, impl_item_macro, impl_item_type, is_self_type, item_const, item_enum, item_extern_crate, item_fn, item_foreign_mod, item_impl, item_macro, item_mod, item_static, item_struct, item_trait, item_trait_alias, item_type, item_union, item_use, receiver, signature, static_mutability_mut_variant, trait_item_const, trait_item_fn, trait_item_macro, trait_item_type, use_glob, use_group, use_name, use_path, use_rename, variadic};
pub use file::{File, FileBuilder};
pub use props::{AttrsPropsBuilder, DefaultnessPropsBuilder, ItemGenericsPropsBuilder, LabelPropsBuilder, MutabilityPropsBuilder, OutputPropsBuilder, PathGenericsBuilder, QSelfPropsBuilder, UnsafetyPropsBuilder, VisPropsBuilder};
pub use convert::{str_content_eq};
pub use laws::{lemma_angle_bracketed_generic_arguments_into_path_arguments_lossless, lemma_assoc_const_into_generic_argument_lossless, lemma_assoc_type_into_generic_argument_lossless, lemma_attr_append_order, lemma_attrs_replace_discards, lemma_const_param_into_generic_param_lossless, lemma_constraint_into_generic_argument_lossless, lemma_data_enum_into_data_lossless, lemma_data_struct_into_data_lossless, lemma_data_union_into_data_lossless, lemma_disjoint_modifiers_commute, lemma_expr_array_into_expr_lossless, lemma_expr_assign_into_expr_lossless, lemma_expr_async_into_expr_lossless, lemma_expr_await_into_expr_lossless, lemma_expr_binary_into_expr_lossless, lemma_expr_block_into_expr_lossless, lemma_expr_break_into_expr_lossless, lemma_expr_call_into_expr_lossless, lemma_expr_cast_into_expr_lossless, lemma_expr_closure_into_expr_lossless, lemma_expr_const_into_expr_lossless, lemma_expr_continue_into_expr_lossless, lemma_expr_field_into_expr_lossless, lemma_expr_for_loop_into_expr_lossless, lemma_expr_group_into_expr_lossless, lemma_expr_if_into_expr_lossless, lemma_expr_index_into_expr_lossless, lemma_expr_infer_into_expr_lossless, lemma_expr_into_generic_argument_lossless, lemma_expr_let_into_expr_lossless, lemma_expr_lit_into_expr_lossless, lemma_expr_loop_into_expr_lossless, lemma_expr_macro_into_expr_lossless, lemma_expr_match_into_expr_lossless, lemma_expr_method_call_into_expr_lossless, lemma_expr_paren_into_expr_lossless, lemma_expr_path_into_expr_lossless, lemma_expr_range_into_expr_lossless, lemma_expr_reference_into_expr_lossless, lemma_expr_repeat_into_expr_lossless, lemma_expr_return_into_expr_lossless, lemma_expr_struct_into_expr_lossless, lemma_expr_try_block_into_expr_lossless, lemma_expr_try_into_expr_lossless, lemma_expr_tuple_into_expr_lossless, lemma_expr_unary_into_expr_lossless, lemma_expr_unsafe_into_expr_lossless, lemma_expr_while_into_expr_lossless, lemma_expr_yield_into_expr_lossless, lemma_field_ident_sets_colon, lemma_fields_named_into_fields_lossless, lemma_fields_unnamed_into_fields_lossless, lemma_foreign_item_fn_into_foreign_item_lossless, lemma_foreign_item_macro_into_foreign_item_lossless, lemma_foreign_item_static_into_foreign_item_lossless, lemma_foreign_item_type_into_foreign_item_lossless, lemma_ident_into_member_lossless, lemma_impl_item_const_into_impl_item_lossless, lemma_impl_item_fn_into_impl_item_lossless, lemma_impl_item_macro_into_impl_item_lossless, lemma_impl_item_type_into_impl_item_lossless, lemma_index_into_member_lossless, lemma_into_attr_style_identity, lemma_into_bin_op_identity, lemma_into_data_identity, lemma_into_expr_identity, lemma_into_fields_identity, lemma_into_fn_arg_identity, lemma_into_foreign_item_identity, lemma_into_generic_argument_identity, lemma_into_generic_param_identity, lemma_into_ident_identity, lemma_into_impl_item_identity, lemma_into_item_identity, lemma_into_lit_identity, lemma_into_macro_delimiter_identity, lemma_into_member_identity, lemma_into_meta_identity, lemma_into_pat_identity, lemma_into_path_arguments_identity, lemma_into_path_identity, lemma_into_path_segment_identity, lemma_into_range_limits_identity, lemma_into_stmt_identity, lemma_into_trait_item_identity, lemma_into_type_identity, lemma_into_type_param_bound_identity, lemma_into_un_op_identity, lemma_into_use_tree_identity, lemma_into_visibility_identity, lemma_into_where_predicate_identity, lemma_item_const_into_item_lossless, lemma_item_enum_into_item_lossless, lemma_item_extern_crate_into_item_lossless, lemma_item_fn_into_item_lossless, lemma_item_foreign_mod_into_item_lossless, lemma_item_impl_into_item_lossless, lemma_item_into_stmt_lossless, lemma_item_macro_into_item_lossless, lemma_item_mod_into_item_lossless, lemma_item_static_into_item_lossless, lemma_item_struct_into_item_lossless, lemma_item_trait_alias_into_item_lossless, lemma_item_trait_into_item_lossless, lemma_item_type_into_item_lossless, lemma_item_union_into_item_lossless, lemma_item_use_into_item_lossless, lemma_lifetime_into_generic_argument_lossless, lemma_lifetime_into_type_param_bound_lossless, lemma_lifetime_param_into_generic_param_lossless, lemma_lit_bool_into_lit_lossless, lemma_lit_byte_into_lit_lossless, lemma_lit_byte_str_into_lit_lossless, lemma_lit_char_into_lit_lossless, lemma_lit_float_into_lit_lossless, lemma_lit_int_into_lit_lossless, lemma_lit_str_into_lit_lossless, lemma_local_into_stmt_lossless, lemma_meta_list_into_meta_lossless, lemma_meta_name_value_into_meta_lossless, lemma_noop_override_is_identity, lemma_parenthesized_generic_arguments_into_path_arguments_lossless, lemma_pat_const_into_pat_lossless, lemma_pat_ident_into_pat_lossless, lemma_pat_lit_into_pat_lossless, lemma_pat_macro_into_pat_lossless, lemma_pat_or_into_pat_lossless, lemma_pat_paren_into_pat_lossless, lemma_pat_path_into_pat_lossless, lemma_pat_range_into_pat_lossless, lemma_pat_reference_into_pat_lossless, lemma_pat_rest_into_pat_lossless, lemma_pat_slice_into_pat_lossless, lemma_pat_struct_into_pat_lossless, lemma_pat_tuple_into_pat_lossless, lemma_pat_tuple_struct_into_pat_lossless, lemma_pat_type_into_fn_arg_lossless, lemma_pat_type_into_pat_lossless, lemma_pat_wild_into_pat_lossless, lemma_path_into_meta_lossless, lemma_predicate_lifetime_into_where_predicate_lossless, lemma_predicate_type_into_where_predicate_lossless, lemma_receiver_into_fn_arg_lossless, lemma_receiver_reference_then_lifetime, lemma_stmt_macro_into_stmt_lossless, lemma_struct_rest_sets_marker, lemma_token_stream_into_expr_lossless, lemma_token_stream_into_item_lossless, lemma_token_stream_into_pat_lossless, lemma_token_stream_into_type_lossless, lemma_trait_bound_into_type_param_bound_lossless, lemma_trait_item_const_into_trait_item_lossless, lemma_trait_item_fn_into_trait_item_lossless, lemma_trait_item_macro_into_trait_item_lossless, lemma_trait_item_type_into_trait_item_lossless, lemma_type_array_into_type_lossless, lemma_type_bare_fn_into_type_lossless, lemma_type_group_into_type_lossless, lemma_type_impl_trait_into_type_lossless, lemma_type_infer_into_type_lossless, lemma_type_into_generic_argument_lossless, lemma_type_macro_into_type_lossless, lemma_type_never_into_type_lossless, lemma_type_param_into_generic_param_lossless, lemma_type_paren_into_type_lossless, lemma_type_path_into_type_lossless, lemma_type_ptr_into_type_lossless, lemma_type_reference_into_type_lossless, lemma_type_slice_into_type_lossless, lemma_type_trait_object_into_type_lossless, lemma_type_tuple_into_type_lossless, lemma_use_glob_into_use_tree_lossless, lemma_use_group_into_use_tree_lossless, lemma_use_name_into_use_tree_lossless, lemma_use_path_into_use_tree_lossless, lemma_use_rename_into_use_tree_lossless, lemma_vis_last_write_wins, lemma_vis_restricted_into_visibility_lossless};
