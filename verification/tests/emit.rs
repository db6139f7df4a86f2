//! End to end: a small enum assembled with the builders, handed to the
//! emitter's own node types, must print exactly the expected source text.

use proc_macro2::Span;
use quote::ToTokens;
use syn_builder::{
    field, fields_named, fields_unamed, item_enum, type_path, variant, Fields,
    FieldBuilder, ItemEnumBuilder, Type, VariantBuilder, Visibility,
};

fn emit_ident(i: syn_builder::Ident) -> proc_macro2::Ident {
    proc_macro2::Ident::new(&i.name, Span::call_site())
}

fn emit_type(t: Type) -> syn::Type {
    match t {
        Type::Path(tp) => syn::Type::Path(syn::TypePath {
            qself: None,
            path: emit_path(tp.path),
        }),
        other => panic!("only path types are emitted here: {:?}", other),
    }
}

fn emit_path(p: syn_builder::Path) -> syn::Path {
    let mut segments = syn::punctuated::Punctuated::new();
    for seg in p.segments {
        segments.push(syn::PathSegment {
            ident: emit_ident(seg.ident),
            arguments: syn::PathArguments::None,
        });
    }
    syn::Path { leading_colon: None, segments }
}

fn emit_vis(v: Visibility) -> syn::Visibility {
    match v {
        Visibility::Public => syn::Visibility::Public(Default::default()),
        Visibility::Inherited => syn::Visibility::Inherited,
        other => panic!("only plain visibilities are emitted here: {:?}", other),
    }
}

fn emit_field(f: syn_builder::Field) -> syn::Field {
    syn::Field {
        attrs: Vec::new(),
        vis: emit_vis(f.vis),
        mutability: syn::FieldMutability::None,
        ident: f.ident.map(emit_ident),
        colon_token: if f.colon_token { Some(Default::default()) } else { None },
        ty: emit_type(f.ty),
    }
}

fn emit_fields(f: Fields) -> syn::Fields {
    match f {
        Fields::Unit => syn::Fields::Unit,
        Fields::Named(named) => syn::Fields::Named(syn::FieldsNamed {
            brace_token: Default::default(),
            named: named.named.into_iter().map(emit_field).collect(),
        }),
        Fields::Unnamed(unnamed) => syn::Fields::Unnamed(syn::FieldsUnnamed {
            paren_token: Default::default(),
            unnamed: unnamed.unnamed.into_iter().map(emit_field).collect(),
        }),
    }
}

fn emit_variant(v: syn_builder::Variant) -> syn::Variant {
    syn::Variant {
        attrs: Vec::new(),
        ident: emit_ident(v.ident),
        fields: emit_fields(v.fields),
        discriminant: None,
    }
}

fn emit_item_enum(e: syn_builder::ItemEnum) -> syn::ItemEnum {
    syn::ItemEnum {
        attrs: Vec::new(),
        vis: emit_vis(e.vis),
        enum_token: Default::default(),
        ident: emit_ident(e.ident),
        generics: syn::Generics::default(),
        brace_token: Default::default(),
        variants: e.variants.into_iter().map(emit_variant).collect(),
    }
}

#[test]
fn assembled_enum_prints_the_expected_source() {
    let code = item_enum("my_enum").variants(vec![
        variant("A").fields(fields_unamed(vec![
            field(type_path("A")),
            field(type_path("B")),
        ])),
        variant("B"),
        variant("C").fields(fields_named(vec![
            field(type_path("A")).ident("other"),
            field(type_path("B")).ident("one"),
        ])),
    ]);

    let printed = emit_item_enum(code).to_token_stream().to_string();

    let expected: syn::ItemEnum = syn::parse_str(
        "pub enum my_enum { A(A, B), B, C { other: A, one: B } }",
    )
    .expect("the expected text parses");
    assert_eq!(printed, expected.to_token_stream().to_string());
}

#[test]
fn printed_enum_parses_back_to_the_same_shape() {
    let code = item_enum("tiny").variant(variant("Only"));
    let printed = emit_item_enum(code).to_token_stream().to_string();
    let back: syn::ItemEnum = syn::parse_str(&printed).expect("printed text parses");
    assert_eq!(back.ident, proc_macro2::Ident::new("tiny", Span::call_site()));
    assert_eq!(back.variants.len(), 1);
    assert!(matches!(back.vis, syn::Visibility::Public(_)));
}
