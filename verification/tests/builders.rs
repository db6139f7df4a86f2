use syn_builder::{
    arm, attr_style_inner, attribute, bin_op_add_variant, block, expr_array, expr_break,
    expr_if, expr_lit, expr_path, expr_range, expr_struct, expr_tuple, field, field_value,
    fields_named, fields_unamed, generics, index, item_enum, item_static, item_struct,
    lit_bool, lit_int, lit_str, macro_delimiter_paren_variant, macro_invocation, path,
    path_segment, range_limits_closed_variant, range_limits_half_open_variant, receiver,
    signature, type_param, type_path, use_name, variant, vis_restricted,
    visibility_public_variant, AttrStyle, AttrsPropsBuilder, Attribute, BinOp, Expr,
    ExprRangeBuilder, ExprStructBuilder, Fields, FieldBuilder, Ident, IntoAttrStyle,
    IntoBinOp, IntoExpr, IntoIdent, IntoLit, IntoMember, IntoPath, IntoRangeLimits,
    IntoStmt, IntoVisibility, ItemEnumBuilder, Lifetime, Lit, MacroDelimiter, Member,
    OutputPropsBuilder, Pat, PathArguments, RangeLimits, ReceiverBuilder, ReturnType,
    SignatureBuilder, StaticMutability, Stmt, TokenStream, TypeParamBuilder,
    VisPropsBuilder, Visibility, AttributeBuilder, ExprIfBuilder, IntoPathSegment,
    IntoType, ItemStaticBuilder, VariantBuilder,
};

fn ident(name: &str) -> Ident {
    Ident { name: name.to_string() }
}

fn lifetime(name: &str) -> Lifetime {
    Lifetime { ident: ident(name) }
}

fn sample_attr(name: &str) -> Attribute {
    attribute(path(vec![name]))
}

#[test]
fn constructors_are_total_on_ordinary_inputs() {
    variant("A");
    field(type_path("T"));
    item_enum("E");
    receiver();
    expr_break();
    lit_str("hello");
    lit_int("42u8");
    macro_invocation("m", TokenStream { text: String::new() });
    signature("f", Vec::<syn_builder::FnArg>::new());
    block(Vec::<Stmt>::new());
}

#[test]
fn identity_conversion_is_a_no_op() {
    let once: Expr = expr_break().into_expr();
    let twice: Expr = expr_break().into_expr().into_expr();
    assert_eq!(once, twice);

    let l: Lit = lit_bool(true).into_lit();
    assert_eq!(l.into_lit(), lit_bool(true).into_lit());

    let v: Visibility = visibility_public_variant();
    assert_eq!(v.into_visibility(), Visibility::Public);

    let p = path(vec!["a", "b"]);
    let q = path(vec!["a", "b"]).into_path();
    assert_eq!(p, q);
}

#[test]
fn variant_embedding_is_lossless() {
    match lit_bool(true).into_lit() {
        Lit::Bool(b) => assert_eq!(b, lit_bool(true)),
        other => panic!("wrong variant: {:?}", other),
    }
    match expr_tuple(Vec::<Expr>::new()).into_expr() {
        Expr::Tuple(t) => assert_eq!(t, expr_tuple(Vec::<Expr>::new())),
        other => panic!("wrong variant: {:?}", other),
    }
    match vis_restricted("crate").into_visibility() {
        Visibility::Restricted(r) => assert_eq!(r, vis_restricted("crate")),
        other => panic!("wrong variant: {:?}", other),
    }
}

#[test]
fn overriding_a_field_is_last_write_wins() {
    let a = item_struct("S", fields_named(vec![])).vis(visibility_public_variant());
    let a = a.vis(Visibility::Inherited);
    let b = item_struct("S", fields_named(vec![])).vis(Visibility::Inherited);
    assert_eq!(a, b);

    let r1 = receiver().mutability(true).mutability(true);
    let r2 = receiver().mutability(true);
    assert_eq!(r1, r2);
}

#[test]
fn attr_appends_in_call_order_and_attrs_replaces() {
    let f = field(type_path("T")).attr(sample_attr("a")).attr(sample_attr("b"));
    assert_eq!(f.attrs, vec![sample_attr("a"), sample_attr("b")]);

    let f = f.attrs(vec![sample_attr("c")]);
    assert_eq!(f.attrs, vec![sample_attr("c")]);
}

#[test]
fn restricted_visibility_reserved_paths_take_no_in_keyword() {
    assert!(!vis_restricted("crate").in_token);
    assert!(!vis_restricted("self").in_token);
    assert!(!vis_restricted("super").in_token);
}

#[test]
fn restricted_visibility_other_paths_take_the_in_keyword() {
    assert!(vis_restricted("my_mod").in_token);
    assert!(vis_restricted(path(vec!["a", "b"])).in_token);
}

#[test]
fn struct_rest_marker_alone_leaves_no_expression() {
    let s = expr_struct("P", vec![]).dot2_token(true);
    assert!(s.dot2_token);
    assert!(s.rest.is_none());
}

#[test]
fn struct_rest_expression_brings_the_marker() {
    let s = expr_struct("P", vec![]).rest(expr_path("base"));
    assert!(s.dot2_token);
    assert_eq!(s.rest, Some(Box::new(expr_path("base").into_expr())));
}

#[test]
fn struct_without_rest_has_neither_marker_nor_expression() {
    let s = expr_struct("P", vec![]);
    assert!(!s.dot2_token);
    assert!(s.rest.is_none());
}

#[test]
fn receiver_lifetime_supersedes_plain_reference() {
    let r = receiver().reference(true).lifetime(lifetime("a"));
    assert_eq!(r.reference, Some(Some(lifetime("a"))));

    let plain = receiver().lifetime(lifetime("a")).reference(true);
    assert_eq!(plain.reference, Some(None));
}

#[test]
fn receiver_defaults_to_explicit_self_type() {
    let r = receiver();
    assert_eq!(r.reference, None);
    assert!(!r.mutability);
    assert!(r.colon_token);
    match *r.ty {
        syn_builder::Type::Path(tp) => {
            assert_eq!(tp.path.segments.len(), 1);
            assert_eq!(tp.path.segments[0].ident.name, "Self");
        }
        other => panic!("wrong default receiver type: {:?}", other),
    }
}

#[test]
fn attribute_defaults_to_outer_and_can_switch() {
    let a = attribute(path(vec!["derive"]));
    assert_eq!(a.style, AttrStyle::Outer);
    let a = a.style(true);
    assert_eq!(a.style, AttrStyle::Inner);
    assert_eq!(attr_style_inner(), AttrStyle::Inner);
    assert_eq!(syn_builder::token::Not.into_attr_style(), AttrStyle::Inner);
}

#[test]
fn enum_items_default_public_while_structs_default_inherited() {
    assert_eq!(item_enum("E").vis, Visibility::Public);
    assert_eq!(item_struct("S", fields_named(vec![])).vis, Visibility::Inherited);
    assert_eq!(item_static("X", type_path("u8"), expr_lit(lit_int("1"))).vis,
               Visibility::Inherited);
}

#[test]
fn enum_variant_append_keeps_order_and_replace_discards() {
    let e = item_enum("E").variant(variant("A")).variant(variant("B"));
    assert_eq!(e.variants, vec![variant("A"), variant("B")]);
    let e = e.variants(vec![variant("C")]);
    assert_eq!(e.variants, vec![variant("C")]);
}

#[test]
fn field_ident_modifier_introduces_the_colon() {
    let anon = field(type_path("T"));
    assert_eq!(anon.ident, None);
    assert!(!anon.colon_token);
    let named = field(type_path("T")).ident("x");
    assert_eq!(named.ident, Some(ident("x")));
    assert!(named.colon_token);
}

#[test]
fn enum_variants_default_to_unit_fields() {
    assert_eq!(variant("A").fields, Fields::Unit);
    let v = variant("A").fields(fields_unamed(vec![field(type_path("T"))]));
    assert!(matches!(v.fields, Fields::Unnamed(_)));
}

#[test]
fn return_types_default_to_inferred_until_set() {
    let sig = signature("f", Vec::<syn_builder::FnArg>::new());
    assert_eq!(sig.output, ReturnType::Inferred);
    let sig = sig.output(type_path("u8"));
    match sig.output {
        ReturnType::Explicit(t) => assert_eq!(*t, type_path("u8").into_type()),
        other => panic!("wrong output: {:?}", other),
    }
}

#[test]
fn range_limits_convert_from_token_shapes() {
    assert_eq!(syn_builder::token::DotDot.into_range_limits(), RangeLimits::HalfOpen);
    assert_eq!(syn_builder::token::DotDotEq.into_range_limits(), RangeLimits::Closed);
    assert_eq!(range_limits_half_open_variant(), RangeLimits::HalfOpen);
    assert_eq!(range_limits_closed_variant(), RangeLimits::Closed);
}

#[test]
fn range_start_and_end_set_their_own_endpoints() {
    let r = expr_range(range_limits_half_open_variant())
        .start(expr_lit(lit_int("1")))
        .end(expr_lit(lit_int("9")));
    assert_eq!(r.start, Some(Box::new(expr_lit(lit_int("1")).into_expr())));
    assert_eq!(r.end, Some(Box::new(expr_lit(lit_int("9")).into_expr())));
}

#[test]
fn binary_operator_tokens_convert_to_their_variants() {
    assert_eq!(syn_builder::token::Plus.into_bin_op(), BinOp::Add);
    assert_eq!(syn_builder::token::EqEq.into_bin_op(), BinOp::Eq);
    assert_eq!(syn_builder::token::ShlEq.into_bin_op(), BinOp::ShlAssign);
    assert_eq!(bin_op_add_variant(), BinOp::Add);
}

#[test]
fn macro_invocations_default_to_parentheses() {
    let m = macro_invocation("println", TokenStream { text: "\"hi\"".to_string() });
    assert_eq!(m.delimiter, MacroDelimiter::Paren);
    assert_eq!(macro_delimiter_paren_variant(), MacroDelimiter::Paren);
}

#[test]
fn members_convert_from_names_and_positions() {
    assert_eq!(ident("x").into_member(), Member::Named(ident("x")));
    assert_eq!(2usize.into_member(), Member::Unnamed(index(2)));
    assert_eq!(index(3).into_member(), Member::Unnamed(index(3)));
    let fv = field_value(0usize, expr_path("v"));
    assert!(fv.colon_token);
}

#[test]
fn bare_strings_become_single_segment_paths() {
    let p = "x".into_path();
    assert!(!p.leading_colon);
    assert_eq!(p.segments.len(), 1);
    assert_eq!(p.segments[0].ident.name, "x");
    assert_eq!(p.segments[0].arguments, PathArguments::Plain);
    assert_eq!(p, ident("x").into_path());
    assert_eq!(path_segment("x"), "x".into_path_segment());
}

#[test]
fn expression_statements_take_no_semicolon() {
    let s = expr_path("x").into_expr().into_stmt();
    assert_eq!(s, Stmt::Expr(expr_path("x").into_expr(), false));
}

#[test]
fn items_start_without_generics_until_replaced() {
    let s = item_struct("S", fields_named(vec![]));
    assert!(!s.generics.lt_token);
    assert!(s.generics.params.is_empty());
    assert!(s.generics.where_clause.is_none());

    let g = generics(vec![type_param("T")]);
    assert!(g.lt_token && g.gt_token);
    assert_eq!(g.params.len(), 1);
}

#[test]
fn static_mutability_modifier_switches_both_ways() {
    let base = item_static("X", type_path("u8"), expr_lit(lit_int("1")));
    assert_eq!(base.mutability, StaticMutability::Immutable);
    let m = item_static("X", type_path("u8"), expr_lit(lit_int("1"))).mutability(true);
    assert_eq!(m.mutability, StaticMutability::Mut);
    let back = item_static("X", type_path("u8"), expr_lit(lit_int("1")))
        .mutability(true)
        .mutability(false);
    assert_eq!(back.mutability, StaticMutability::Immutable);
}

#[test]
fn type_param_bounds_introduce_the_colon() {
    let p = type_param("T");
    assert!(!p.colon_token);
    let p = p.bounds(vec![lifetime("a")]);
    assert!(p.colon_token);
    assert_eq!(p.bounds.len(), 1);
}

#[test]
fn match_arms_end_with_a_comma_by_default() {
    let a = arm(Pat::Wild(syn_builder::pat_wild()), expr_path("x"));
    assert!(a.comma);
    assert!(a.guard.is_none());
}

#[test]
fn if_expressions_gain_else_branches_by_modifier() {
    let e = expr_if(expr_path("c"), block(Vec::<Stmt>::new()));
    assert!(e.else_branch.is_none());
    let e = e.else_branch(expr_path("d"));
    assert_eq!(e.else_branch, Some(Box::new(expr_path("d").into_expr())));
}

#[test]
fn array_elements_convert_in_order() {
    let a = expr_array(vec![expr_lit(lit_int("1")), expr_lit(lit_int("2"))]);
    assert_eq!(a.elems.len(), 2);
    assert_eq!(a.elems[0], expr_lit(lit_int("1")).into_expr());
    assert_eq!(a.elems[1], expr_lit(lit_int("2")).into_expr());
}

#[test]
fn use_tree_leaves_carry_their_names() {
    let u = use_name("x");
    assert_eq!(u.ident, ident("x"));
    let r = syn_builder::use_rename("x", "y");
    assert_eq!((r.ident, r.rename), (ident("x"), ident("y")));
}

#[test]
fn literal_constructors_keep_their_values() {
    assert_eq!(lit_str("hi").value, "hi");
    assert_eq!(lit_int("42u8").repr, "42u8");
    assert_eq!(syn_builder::lit_byte(7).value, 7);
    assert_eq!(syn_builder::lit_char('q').value, 'q');
    assert_eq!(syn_builder::lit_byte_str(b"ab").value, b"ab".to_vec());
    assert!(lit_bool(true).value);
}
