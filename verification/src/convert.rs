//! Element-wise conversion of vectors into their grammar categories, and
//! the character comparison the visibility restriction relies on.
use vstd::prelude::*;
use vstd::string::StrSliceExecFns;
use crate::expr::{Expr, IntoExpr};
use crate::generics::{GenericParam, IntoGenericParam, IntoTypeParamBound, IntoWherePredicate, TypeParamBound, WherePredicate};
use crate::item::{FnArg, ForeignItem, ImplItem, IntoFnArg, IntoForeignItem, IntoImplItem, IntoItem, IntoTraitItem, IntoUseTree, Item, TraitItem, UseTree};
use crate::pat::{IntoPat, Pat};
use crate::path::{GenericArgument, IntoGenericArgument, IntoPathSegment, PathSegment};
use crate::stmt::{IntoStmt, Stmt};
use crate::ty::{IntoType, Type};

verus! {

/// Whether two string slices spell the same characters.
pub fn str_content_eq(a: &str, b: &str) -> (r: bool)
    ensures
        r == (a@ == b@),
{
    let alen = a.unicode_len();
    let blen = b.unicode_len();
    if alen != blen {
        return false;
    }
    let mut i: usize = 0;
    while i < alen
        invariant
            i <= alen,
            alen == a@.len(),
            blen == b@.len(),
            alen == blen,
            forall|j: int| 0 <= j < i ==> a@[j] == b@[j],
        decreases alen - i,
    {
        if a.get_char(i) != b.get_char(i) {
            return false;
        }
        i += 1;
    }
    assert(a@ =~= b@);
    true
}

/// Converts each element into a path segment, keeping order.
pub(crate) fn into_path_segment_vec<S: IntoPathSegment>(v: Vec<S>) -> (r: Vec<PathSegment>)
    ensures
        r@.len() == v@.len(),
        forall|i: int| 0 <= i < v@.len() ==> v@[i].into_path_segment_ens(#[trigger] r@[i]),
{
    let ghost orig = v@;
    let mut rest = v;
    let mut r: Vec<PathSegment> = Vec::new();
    while rest.len() > 0
        invariant
            r@.len() + rest@.len() == orig.len(),
            rest@ =~= orig.skip(r@.len() as int),
            forall|i: int| 0 <= i < r@.len() ==> orig[i].into_path_segment_ens(#[trigger] r@[i]),
        decreases rest.len(),
    {
        let s = rest.remove(0);
        r.push(s.into_path_segment());
        assert(rest@ =~= orig.skip(r@.len() as int));
    }
    r
}

/// Converts each element into its `Expr`, keeping order.
pub(crate) fn into_expr_vec<E: IntoExpr>(v: Vec<E>) -> (r: Vec<Expr>)
    ensures
        r@ == v@.map_values(|e: E| e.expr_of()),
{
    let ghost orig = v@;
    let mut rest = v;
    let mut r: Vec<Expr> = Vec::new();
    while rest.len() > 0
        invariant
            orig.map_values(|e: E| e.expr_of()) =~= r@ + rest@.map_values(|e: E| e.expr_of()),
        decreases rest.len(),
    {
        let e = rest.remove(0);
        r.push(e.into_expr());
        assert(orig.map_values(|e: E| e.expr_of()) =~= r@ + rest@.map_values(|e: E| e.expr_of()));
    }
    assert(r@ =~= orig.map_values(|e: E| e.expr_of()));
    r
}

/// Converts each element into its `Type`, keeping order.
pub(crate) fn into_type_vec<E: IntoType>(v: Vec<E>) -> (r: Vec<Type>)
    ensures
        r@ == v@.map_values(|e: E| e.type_of()),
{
    let ghost orig = v@;
    let mut rest = v;
    let mut r: Vec<Type> = Vec::new();
    while rest.len() > 0
        invariant
            orig.map_values(|e: E| e.type_of()) =~= r@ + rest@.map_values(|e: E| e.type_of()),
        decreases rest.len(),
    {
        let e = rest.remove(0);
        r.push(e.into_type());
        assert(orig.map_values(|e: E| e.type_of()) =~= r@ + rest@.map_values(|e: E| e.type_of()));
    }
    assert(r@ =~= orig.map_values(|e: E| e.type_of()));
    r
}

/// Converts each element into its `Pat`, keeping order.
pub(crate) fn into_pat_vec<E: IntoPat>(v: Vec<E>) -> (r: Vec<Pat>)
    ensures
        r@ == v@.map_values(|e: E| e.pat_of()),
{
    let ghost orig = v@;
    let mut rest = v;
    let mut r: Vec<Pat> = Vec::new();
    while rest.len() > 0
        invariant
            orig.map_values(|e: E| e.pat_of()) =~= r@ + rest@.map_values(|e: E| e.pat_of()),
        decreases rest.len(),
    {
        let e = rest.remove(0);
        r.push(e.into_pat());
        assert(orig.map_values(|e: E| e.pat_of()) =~= r@ + rest@.map_values(|e: E| e.pat_of()));
    }
    assert(r@ =~= orig.map_values(|e: E| e.pat_of()));
    r
}

/// Converts each element into its `Item`, keeping order.
pub(crate) fn into_item_vec<E: IntoItem>(v: Vec<E>) -> (r: Vec<Item>)
    ensures
        r@ == v@.map_values(|e: E| e.item_of()),
{
    let ghost orig = v@;
    let mut rest = v;
    let mut r: Vec<Item> = Vec::new();
    while rest.len() > 0
        invariant
            orig.map_values(|e: E| e.item_of()) =~= r@ + rest@.map_values(|e: E| e.item_of()),
        decreases rest.len(),
    {
        let e = rest.remove(0);
        r.push(e.into_item());
        assert(orig.map_values(|e: E| e.item_of()) =~= r@ + rest@.map_values(|e: E| e.item_of()));
    }
    assert(r@ =~= orig.map_values(|e: E| e.item_of()));
    r
}

/// Converts each element into its `Stmt`, keeping order.
pub(crate) fn into_stmt_vec<E: IntoStmt>(v: Vec<E>) -> (r: Vec<Stmt>)
    ensures
        r@ == v@.map_values(|e: E| e.stmt_of()),
{
    let ghost orig = v@;
    let mut rest = v;
    let mut r: Vec<Stmt> = Vec::new();
    while rest.len() > 0
        invariant
            orig.map_values(|e: E| e.stmt_of()) =~= r@ + rest@.map_values(|e: E| e.stmt_of()),
        decreases rest.len(),
    {
        let e = rest.remove(0);
        r.push(e.into_stmt());
        assert(orig.map_values(|e: E| e.stmt_of()) =~= r@ + rest@.map_values(|e: E| e.stmt_of()));
    }
    assert(r@ =~= orig.map_values(|e: E| e.stmt_of()));
    r
}

/// Converts each element into its `GenericParam`, keeping order.
pub(crate) fn into_generic_param_vec<E: IntoGenericParam>(v: Vec<E>) -> (r: Vec<GenericParam>)
    ensures
        r@ == v@.map_values(|e: E| e.generic_param_of()),
{
    let ghost orig = v@;
    let mut rest = v;
    let mut r: Vec<GenericParam> = Vec::new();
    while rest.len() > 0
        invariant
            orig.map_values(|e: E| e.generic_param_of()) =~= r@ + rest@.map_values(|e: E| e.generic_param_of()),
        decreases rest.len(),
    {
        let e = rest.remove(0);
        r.push(e.into_generic_param());
        assert(orig.map_values(|e: E| e.generic_param_of()) =~= r@ + rest@.map_values(|e: E| e.generic_param_of()));
    }
    assert(r@ =~= orig.map_values(|e: E| e.generic_param_of()));
    r
}

/// Converts each element into its `TypeParamBound`, keeping order.
pub(crate) fn into_type_param_bound_vec<E: IntoTypeParamBound>(v: Vec<E>) -> (r: Vec<TypeParamBound>)
    ensures
        r@ == v@.map_values(|e: E| e.type_param_bound_of()),
{
    let ghost orig = v@;
    let mut rest = v;
    let mut r: Vec<TypeParamBound> = Vec::new();
    while rest.len() > 0
        invariant
            orig.map_values(|e: E| e.type_param_bound_of()) =~= r@ + rest@.map_values(|e: E| e.type_param_bound_of()),
        decreases rest.len(),
    {
        let e = rest.remove(0);
        r.push(e.into_type_param_bound());
        assert(orig.map_values(|e: E| e.type_param_bound_of()) =~= r@ + rest@.map_values(|e: E| e.type_param_bound_of()));
    }
    assert(r@ =~= orig.map_values(|e: E| e.type_param_bound_of()));
    r
}

/// Converts each element into its `WherePredicate`, keeping order.
pub(crate) fn into_where_predicate_vec<E: IntoWherePredicate>(v: Vec<E>) -> (r: Vec<WherePredicate>)
    ensures
        r@ == v@.map_values(|e: E| e.where_predicate_of()),
{
    let ghost orig = v@;
    let mut rest = v;
    let mut r: Vec<WherePredicate> = Vec::new();
    while rest.len() > 0
        invariant
            orig.map_values(|e: E| e.where_predicate_of()) =~= r@ + rest@.map_values(|e: E| e.where_predicate_of()),
        decreases rest.len(),
    {
        let e = rest.remove(0);
        r.push(e.into_where_predicate());
        assert(orig.map_values(|e: E| e.where_predicate_of()) =~= r@ + rest@.map_values(|e: E| e.where_predicate_of()));
    }
    assert(r@ =~= orig.map_values(|e: E| e.where_predicate_of()));
    r
}

/// Converts each element into its `GenericArgument`, keeping order.
pub(crate) fn into_generic_argument_vec<E: IntoGenericArgument>(v: Vec<E>) -> (r: Vec<GenericArgument>)
    ensures
        r@ == v@.map_values(|e: E| e.generic_argument_of()),
{
    let ghost orig = v@;
    let mut rest = v;
    let mut r: Vec<GenericArgument> = Vec::new();
    while rest.len() > 0
        invariant
            orig.map_values(|e: E| e.generic_argument_of()) =~= r@ + rest@.map_values(|e: E| e.generic_argument_of()),
        decreases rest.len(),
    {
        let e = rest.remove(0);
        r.push(e.into_generic_argument());
        assert(orig.map_values(|e: E| e.generic_argument_of()) =~= r@ + rest@.map_values(|e: E| e.generic_argument_of()));
    }
    assert(r@ =~= orig.map_values(|e: E| e.generic_argument_of()));
    r
}

/// Converts each element into its `FnArg`, keeping order.
pub(crate) fn into_fn_arg_vec<E: IntoFnArg>(v: Vec<E>) -> (r: Vec<FnArg>)
    ensures
        r@ == v@.map_values(|e: E| e.fn_arg_of()),
{
    let ghost orig = v@;
    let mut rest = v;
    let mut r: Vec<FnArg> = Vec::new();
    while rest.len() > 0
        invariant
            orig.map_values(|e: E| e.fn_arg_of()) =~= r@ + rest@.map_values(|e: E| e.fn_arg_of()),
        decreases rest.len(),
    {
        let e = rest.remove(0);
        r.push(e.into_fn_arg());
        assert(orig.map_values(|e: E| e.fn_arg_of()) =~= r@ + rest@.map_values(|e: E| e.fn_arg_of()));
    }
    assert(r@ =~= orig.map_values(|e: E| e.fn_arg_of()));
    r
}

/// Converts each element into its `UseTree`, keeping order.
pub(crate) fn into_use_tree_vec<E: IntoUseTree>(v: Vec<E>) -> (r: Vec<UseTree>)
    ensures
        r@ == v@.map_values(|e: E| e.use_tree_of()),
{
    let ghost orig = v@;
    let mut rest = v;
    let mut r: Vec<UseTree> = Vec::new();
    while rest.len() > 0
        invariant
            orig.map_values(|e: E| e.use_tree_of()) =~= r@ + rest@.map_values(|e: E| e.use_tree_of()),
        decreases rest.len(),
    {
        let e = rest.remove(0);
        r.push(e.into_use_tree());
        assert(orig.map_values(|e: E| e.use_tree_of()) =~= r@ + rest@.map_values(|e: E| e.use_tree_of()));
    }
    assert(r@ =~= orig.map_values(|e: E| e.use_tree_of()));
    r
}

/// Converts each element into its `ForeignItem`, keeping order.
pub(crate) fn into_foreign_item_vec<E: IntoForeignItem>(v: Vec<E>) -> (r: Vec<ForeignItem>)
    ensures
        r@ == v@.map_values(|e: E| e.foreign_item_of()),
{
    let ghost orig = v@;
    let mut rest = v;
    let mut r: Vec<ForeignItem> = Vec::new();
    while rest.len() > 0
        invariant
            orig.map_values(|e: E| e.foreign_item_of()) =~= r@ + rest@.map_values(|e: E| e.foreign_item_of()),
        decreases rest.len(),
    {
        let e = rest.remove(0);
        r.push(e.into_foreign_item());
        assert(orig.map_values(|e: E| e.foreign_item_of()) =~= r@ + rest@.map_values(|e: E| e.foreign_item_of()));
    }
    assert(r@ =~= orig.map_values(|e: E| e.foreign_item_of()));
    r
}

/// Converts each element into its `TraitItem`, keeping order.
pub(crate) fn into_trait_item_vec<E: IntoTraitItem>(v: Vec<E>) -> (r: Vec<TraitItem>)
    ensures
        r@ == v@.map_values(|e: E| e.trait_item_of()),
{
    let ghost orig = v@;
    let mut rest = v;
    let mut r: Vec<TraitItem> = Vec::new();
    while rest.len() > 0
        invariant
            orig.map_values(|e: E| e.trait_item_of()) =~= r@ + rest@.map_values(|e: E| e.trait_item_of()),
        decreases rest.len(),
    {
        let e = rest.remove(0);
        r.push(e.into_trait_item());
        assert(orig.map_values(|e: E| e.trait_item_of()) =~= r@ + rest@.map_values(|e: E| e.trait_item_of()));
    }
    assert(r@ =~= orig.map_values(|e: E| e.trait_item_of()));
    r
}

/// Converts each element into its `ImplItem`, keeping order.
pub(crate) fn into_impl_item_vec<E: IntoImplItem>(v: Vec<E>) -> (r: Vec<ImplItem>)
    ensures
        r@ == v@.map_values(|e: E| e.impl_item_of()),
{
    let ghost orig = v@;
    let mut rest = v;
    let mut r: Vec<ImplItem> = Vec::new();
    while rest.len() > 0
        invariant
            orig.map_values(|e: E| e.impl_item_of()) =~= r@ + rest@.map_values(|e: E| e.impl_item_of()),
        decreases rest.len(),
    {
        let e = rest.remove(0);
        r.push(e.into_impl_item());
        assert(orig.map_values(|e: E| e.impl_item_of()) =~= r@ + rest@.map_values(|e: E| e.impl_item_of()));
    }
    assert(r@ =~= orig.map_values(|e: E| e.impl_item_of()));
    r
}

} // verus!
