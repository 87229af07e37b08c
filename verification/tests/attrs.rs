use std::str::FromStr;

use optfield::args::{Args, Attrs, Doc};
use optfield::attrs::generator::{
    doc_attr, is_doc_attr, is_marker_attr, is_optfield_attr, select, AttrGenerator, Part,
};
use optfield::attrs::{generate, AttrGen};
use optfield::schema::{Attr, Field, Fields, Ident, RecordSchema, Style, Visibility};
use optfield::tokens::Tokens;
use proc_macro2::TokenStream;
use quote::ToTokens;
use syn::parse::Parser;

fn tokens(source: &str) -> Tokens {
    Tokens(TokenStream::from_str(source).unwrap())
}

fn attr_of(attr: &syn::Attribute) -> Attr {
    Attr::parse(Tokens(attr.meta.to_token_stream())).unwrap()
}

fn ident_of(ident: &syn::Ident) -> Ident {
    Ident { name: ident.to_string(), tokens: Tokens(ident.to_token_stream()) }
}

fn visibility_of(vis: &syn::Visibility) -> Visibility {
    match vis {
        syn::Visibility::Inherited => Visibility::Inherited,
        other => Visibility::Declared(Tokens(other.to_token_stream())),
    }
}

fn field_of(field: &syn::Field) -> Field {
    Field {
        attrs: field.attrs.iter().map(attr_of).collect(),
        vis: visibility_of(&field.vis),
        name: field.ident.as_ref().map(ident_of),
        ty: Tokens(field.ty.to_token_stream()),
    }
}

fn schema_of(item: &syn::ItemStruct) -> RecordSchema {
    let style = match &item.fields {
        syn::Fields::Named(_) => Style::Named,
        syn::Fields::Unnamed(_) => Style::Unnamed,
        syn::Fields::Unit => Style::Unit,
    };
    RecordSchema {
        attrs: item.attrs.iter().map(attr_of).collect(),
        vis: visibility_of(&item.vis),
        name: ident_of(&item.ident),
        generics: Tokens(item.generics.to_token_stream()),
        fields: Fields { style, list: item.fields.iter().map(field_of).collect() },
        where_clause: Tokens(item.generics.where_clause.to_token_stream()),
    }
}

fn parse_item(source: &str) -> (syn::ItemStruct, RecordSchema) {
    let item: syn::ItemStruct = syn::parse_str(source).unwrap();
    let schema = schema_of(&item);
    (item, schema)
}

fn parse_args(source: &str) -> Args {
    Args::parse(&tokens(source)).unwrap()
}

fn to_syn(attr: &Attr) -> syn::Attribute {
    let source = format!("#[{}]", attr.tokens.0);
    parse_attrs(&source).remove(0)
}

fn all_to_syn(attrs: &[Attr]) -> Vec<syn::Attribute> {
    attrs.iter().map(to_syn).collect()
}

fn parse_attrs(source: &str) -> Vec<syn::Attribute> {
    syn::Attribute::parse_outer
        .parse2(TokenStream::from_str(source).unwrap())
        .unwrap()
}

fn parse_attr(source: &str) -> syn::Attribute {
    parse_attrs(source).remove(0)
}

fn attrs_contain_all(attrs: &[syn::Attribute], other_attrs: &[syn::Attribute]) -> bool {
    for attr in other_attrs {
        if !attrs.contains(attr) {
            return false;
        }
    }

    true
}

fn attrs_contain_any(attrs: &[syn::Attribute], any_attrs: &[syn::Attribute]) -> bool {
    for attr in any_attrs {
        if attrs.contains(attr) {
            return true;
        }
    }

    false
}

fn doc_attrs(attrs: &[syn::Attribute]) -> Vec<syn::Attribute> {
    attrs
        .iter()
        .filter(|a| a.path().is_ident("doc"))
        .map(|a| a.clone())
        .collect()
}

fn generated(schema: &RecordSchema, args: &Args) -> Vec<syn::Attribute> {
    all_to_syn(&generate(schema, args))
}

#[test]
fn keep_same_docs() {
    let (item, schema) = parse_item("/// some\n/// docs\n#[some_attr]\nstruct S;");

    let cases = vec![
        "Opt, doc",
        "Opt, doc, attrs",
        "Opt, doc, attrs = (new_attr)",
        "Opt, doc, attrs = add(new_attr)",
    ];

    let item_docs = doc_attrs(&item.attrs);
    assert_eq!(item_docs.len(), 2);

    for case in cases {
        let args = parse_args(case);

        let generated = generated(&schema, &args);

        assert!(attrs_contain_all(&generated, &item_docs));
    }
}

#[test]
fn mod_remove_docs() {
    let (item, schema) = parse_item("/// some\n/// docs\n#[some_attr]\nstruct S;");

    let cases = vec![
        "Opt",
        "Opt, attrs",
        "Opt, attrs = (new_attr)",
        "Opt, attrs = add(new_attr)",
    ];

    let item_docs = doc_attrs(&item.attrs);

    for case in cases {
        let args = parse_args(case);

        let generated = generated(&schema, &args);

        assert!(!attrs_contain_any(&generated, &item_docs));
    }
}

#[test]
fn replace_docs() {
    let (item, schema) = parse_item("/// some\n/// old\n/// docs\n#[some_attr]\nstruct S;");

    let new_doc_text = r#"docs
            that will
            replace the old
            ones"#;
    let literal = proc_macro2::Literal::string(new_doc_text).to_string();

    let cases = vec![
        format!("Opt, doc = {}", literal),
        format!("Opt, doc = {}, attrs", literal),
        format!("Opt, doc = {}, attrs = (new_attr),", literal),
        format!("Opt, doc = {}, attrs = add(new_attr),", literal),
    ];

    let new_doc_attr = parse_attr(&format!("#[doc = {}]", literal));

    let item_docs = doc_attrs(&item.attrs);

    for case in cases {
        let args = parse_args(&case);
        assert_eq!(args.doc, Some(Doc::Custom(new_doc_text.to_string())));

        let generated = generated(&schema, &args);

        assert!(!attrs_contain_any(&generated, &item_docs));
        assert!(generated.contains(&new_doc_attr));
    }
}

#[test]
fn mod_remove_attrs() {
    let (item, schema) = parse_item("#[some]\n#[attrs]\nstruct S;");
    let args = parse_args("Opt");

    let generated = generated(&schema, &args);

    assert!(!attrs_contain_any(&generated, &item.attrs));
    assert!(generated.is_empty());
}

#[test]
fn mod_keep_attrs() {
    let (item, schema) = parse_item("#[some]\n#[attrs]\nstruct S;");
    let args = parse_args("Opt, attrs");

    let generated = generated(&schema, &args);

    assert!(attrs_contain_all(&generated, &item.attrs));
    assert_eq!(generated, item.attrs);
}

#[test]
fn mod_replace_attrs() {
    let (item, schema) = parse_item("#[some]\n#[attrs]\nstruct S;");
    let args = parse_args("Opt, attrs = (other attributes)");

    let new_attrs = parse_attrs("#[other] #[attributes]");

    let generated = generated(&schema, &args);

    assert!(!attrs_contain_any(&generated, &item.attrs));
    assert!(attrs_contain_all(&generated, &new_attrs));
    assert_eq!(generated, new_attrs);
}

#[test]
fn mod_add_attrs() {
    let (item, schema) = parse_item("#[some]\n#[attrs]\nstruct S;");
    let args = parse_args("Opt, attrs = add(other attributes)");

    let new_attrs = parse_attrs("#[other] #[attributes]");

    let generated = generated(&schema, &args);

    assert!(attrs_contain_all(&generated, &item.attrs));
    assert!(attrs_contain_all(&generated, &new_attrs));
    assert_eq!(generated, parse_attrs("#[some] #[attrs] #[other] #[attributes]"));
}

#[test]
fn remove_other_optfield_attrs() {
    let optfield_attr1 = parse_attr("#[optfield(Opt1, attrs)]");

    let optfield_attr2 = parse_attr("#[optfield(Opt2, attrs, doc)]");

    let (_, schema) = parse_item(
        "#[attr]\n#[optfield(Opt1, attrs)]\n#[optfield(Opt2, attrs, doc)]\nstruct S;",
    );

    let cases = vec!["Opt, attrs", "Opt, attrs = add(new)"];

    for case in cases {
        let args = parse_args(case);

        let generated = generated(&schema, &args);

        assert!(!generated.contains(&optfield_attr1));
        assert!(!generated.contains(&optfield_attr2));
        assert!(generated.contains(&parse_attr("#[attr]")));
    }
}

#[test]
fn given_markers_are_taken_as_given() {
    let (_, schema) = parse_item("#[optfield(Other)]\n#[derive(Debug)]\nstruct S;");
    let replaced = generated(&schema, &parse_args("Opt, attrs = (optfield(Nested))"));
    assert_eq!(replaced, parse_attrs("#[optfield(Nested)]"));
    let added = generated(&schema, &parse_args("Opt, attrs = add(optfield(Nested))"));
    assert_eq!(added, parse_attrs("#[derive(Debug)] #[optfield(Nested)]"));
}

#[test]
fn documentation_comes_first() {
    let (_, schema) = parse_item("#[first]\n/// one\n#[second]\n/// two\nstruct S;");
    let generated = generated(&schema, &parse_args("Opt, doc, attrs"));
    assert_eq!(
        generated,
        parse_attrs("#[doc = \" one\"] #[doc = \" two\"] #[first] #[second]")
    );
}

#[test]
fn keep_reproduces_the_original() {
    let (item, schema) = parse_item(
        "/// docs\n#[derive(Debug)]\n#[serde(rename_all = \"camelCase\")]\nstruct S { a: u8 }",
    );
    let generated = generated(&schema, &parse_args("Opt, doc, attrs"));
    assert_eq!(generated, item.attrs);
}

#[test]
fn custom_docs_replace_the_original() {
    let (_, schema) = parse_item("/// old\n#[attr]\nstruct S;");
    let generated = generated(&schema, &parse_args("Opt, doc = \"new\", attrs"));
    assert_eq!(generated, parse_attrs("#[doc = \"new\"] #[attr]"));
}

#[test]
fn parts_of_the_original() {
    let (_, schema) = parse_item(
        "/// docs\n#[optfield(A)]\n#[derive(Debug)]\n#[optfield_field(, doc)]\n#[cfg(test)]\nstruct S;",
    );
    let docs = select(&schema.attrs, Part::Docs);
    assert_eq!(all_to_syn(&docs), parse_attrs("#[doc = \" docs\"]"));
    let plain = select(&schema.attrs, Part::Plain);
    assert_eq!(all_to_syn(&plain), parse_attrs("#[derive(Debug)] #[cfg(test)]"));
    let flags: Vec<(bool, bool, bool)> = schema
        .attrs
        .iter()
        .map(|a| (is_doc_attr(a), is_optfield_attr(a), is_marker_attr(a)))
        .collect();
    assert_eq!(
        flags,
        vec![
            (true, false, false),
            (false, true, true),
            (false, false, false),
            (false, false, true),
            (false, false, false),
        ]
    );
}

#[test]
fn attribute_names() {
    let named = Attr::parse(tokens("doc = \"text\"")).unwrap();
    assert_eq!(named.name.as_deref(), Some("doc"));
    assert!(named.is_named("doc"));
    assert!(!named.is_named("docs"));
    let path = Attr::parse(tokens("doc::hidden")).unwrap();
    assert_eq!(path.name, None);
    assert!(!is_doc_attr(&path));
    let list = Attr::parse(tokens("optfield(Opt, doc)")).unwrap();
    assert!(is_optfield_attr(&list));
    assert!(Attr::parse(tokens("5")).is_err());
    assert!(Attr::parse(tokens("a b")).is_err());
    let copy = list.duplicate();
    assert_eq!(copy.name, list.name);
    assert_eq!(copy.tokens.0.to_string(), list.tokens.0.to_string());
}

#[test]
fn doc_attr_holds_the_text() {
    let attr = doc_attr("a \"quoted\"\nline");
    assert_eq!(attr.name.as_deref(), Some("doc"));
    let meta: syn::Meta = syn::parse2(attr.tokens.0.clone()).unwrap();
    match meta {
        syn::Meta::NameValue(pair) => match pair.value {
            syn::Expr::Lit(syn::ExprLit { lit: syn::Lit::Str(text), .. }) => {
                assert_eq!(text.value(), "a \"quoted\"\nline")
            }
            other => panic!("{:?}", other),
        },
        other => panic!("{:?}", other),
    }
}

#[test]
fn strategy_of_a_record() {
    let (_, schema) = parse_item("/// docs\n#[attr]\nstruct Thing;");
    let args = parse_args("Opt, doc = \"text\", attrs");
    let strategy = AttrGen::new(&schema, &args);
    assert!(!strategy.no_docs());
    assert!(!strategy.keep_original_docs());
    assert!(strategy.custom_docs().is_some());
    assert!(matches!(strategy.attrs_arg(), Some(Attrs::Keep)));
    assert_eq!(strategy.original_attrs().len(), 2);
    assert_eq!(strategy.error_action_text(), "generating Thing attrs");
    assert_eq!(all_to_syn(&strategy.new_non_doc_attrs()), parse_attrs("#[attr]"));
    assert_eq!(all_to_syn(&strategy.new_doc_attrs()), parse_attrs("#[doc = \"text\"]"));

    let plain = parse_args("Opt");
    let strategy = AttrGen::new(&schema, &plain);
    assert!(strategy.no_docs());
    assert!(strategy.custom_docs().is_none());
    assert!(strategy.attrs_arg().is_none());
    assert!(strategy.new_doc_attrs().is_empty());

    let same = parse_args("Opt, doc");
    let strategy = AttrGen::new(&schema, &same);
    assert!(strategy.keep_original_docs());
}

#[test]
fn custom_docs_carry_their_text() {
    let (item, schema) = parse_item("/// old\n/// docs\n#[attr]\nstruct S;");
    let texts = vec!["new", "", "two\nlines", "a \"quote\" and a \\ and a \u{e9}"];
    for text in texts {
        let literal = proc_macro2::Literal::string(text).to_string();
        for rest in ["", ", attrs", ", attrs = (other)", ", attrs = add(other)"] {
            let args = parse_args(&format!("Opt, doc = {}{}", literal, rest));
            let made = generate(&schema, &args);
            // the text comes first, as the value of one literal
            assert_eq!(made[0].name.as_deref(), Some("doc"));
            let meta: syn::Meta = syn::parse2(made[0].tokens.0.clone()).unwrap();
            let value = match meta {
                syn::Meta::NameValue(syn::MetaNameValue {
                    value: syn::Expr::Lit(syn::ExprLit { lit: syn::Lit::Str(value), .. }),
                    ..
                }) => value.value(),
                other => panic!("{:?}", other),
            };
            assert_eq!(value, text);
            // none of the documentation of the original is there
            let made_syn = all_to_syn(&made);
            assert!(!attrs_contain_any(&made_syn, &doc_attrs(&item.attrs)));
            // and the rest is what it is without documentation
            let without = generate(&schema, &parse_args(&format!("Opt{}", rest)));
            assert_eq!(made_syn[1..].to_vec(), all_to_syn(&without));
        }
    }
}
