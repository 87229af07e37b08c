use std::str::FromStr;

use optfield::args::keyword::ParseError;
use optfield::args::Args;
use optfield::error::{FieldError, GenError};
use optfield::generate::{
    consume_attrs, consume_fields, generate, index_of_first_optfield_field_attr, sanitise_attrs,
    sanitise_fields,
};
use optfield::schema::{Attr, Field, Fields, Ident, RecordSchema, Style, Visibility};
use optfield::tokens::Tokens;
use optfield::{optfield, Error};
use proc_macro2::TokenStream;
use quote::ToTokens;

fn tokens(source: &str) -> Tokens {
    Tokens(TokenStream::from_str(source).unwrap())
}

fn attr_of(attr: &syn::Attribute) -> Attr {
    Attr::parse(Tokens(attr.meta.to_token_stream())).unwrap()
}

fn ident_of(ident: &syn::Ident) -> Ident {
    Ident { name: ident.to_string(), tokens: Tokens(ident.to_token_stream()) }
}

fn visibility_of(vis: &syn::Visibility) -> Visibility {
    match vis {
        syn::Visibility::Inherited => Visibility::Inherited,
        other => Visibility::Declared(Tokens(other.to_token_stream())),
    }
}

fn field_of(field: &syn::Field) -> Field {
    Field {
        attrs: field.attrs.iter().map(attr_of).collect(),
        vis: visibility_of(&field.vis),
        name: field.ident.as_ref().map(ident_of),
        ty: Tokens(field.ty.to_token_stream()),
    }
}

fn schema_of(item: &syn::ItemStruct) -> RecordSchema {
    let style = match &item.fields {
        syn::Fields::Named(_) => Style::Named,
        syn::Fields::Unnamed(_) => Style::Unnamed,
        syn::Fields::Unit => Style::Unit,
    };
    RecordSchema {
        attrs: item.attrs.iter().map(attr_of).collect(),
        vis: visibility_of(&item.vis),
        name: ident_of(&item.ident),
        generics: Tokens(item.generics.to_token_stream()),
        fields: Fields { style, list: item.fields.iter().map(field_of).collect() },
        where_clause: Tokens(item.generics.where_clause.to_token_stream()),
    }
}

fn parse_item(source: &str) -> RecordSchema {
    let item: syn::ItemStruct = syn::parse_str(source).unwrap();
    schema_of(&item)
}

fn parse_args(source: &str) -> Args {
    Args::parse(&tokens(source)).unwrap()
}

fn spell(stream: TokenStream) -> String {
    let mut words: Vec<String> = Vec::new();
    for tree in stream {
        match tree {
            proc_macro2::TokenTree::Group(group) => {
                let (open, close) = match group.delimiter() {
                    proc_macro2::Delimiter::Parenthesis => ("(", ")"),
                    proc_macro2::Delimiter::Brace => ("{", "}"),
                    proc_macro2::Delimiter::Bracket => ("[", "]"),
                    proc_macro2::Delimiter::None => ("<<", ">>"),
                };
                words.push(open.to_string());
                let inner = spell(group.stream());
                if !inner.is_empty() {
                    words.push(inner);
                }
                words.push(close.to_string());
            }
            proc_macro2::TokenTree::Punct(punct) => words.push(punct.as_char().to_string()),
            other => words.push(other.to_string()),
        }
    }
    words.join(" ")
}

fn same_tokens(made: &Tokens, expected: &str) {
    assert_eq!(spell(made.0.clone()), spell(TokenStream::from_str(expected).unwrap()));
}

fn names(attrs: &[Attr]) -> Vec<String> {
    attrs.iter().map(|attr| spell(attr.tokens.0.clone())).collect()
}

fn visibility_text(visibility: &Visibility) -> String {
    match visibility {
        Visibility::Inherited => String::new(),
        Visibility::Declared(tokens) => spell(tokens.0.clone()),
    }
}

fn field_types(item: &RecordSchema) -> Vec<String> {
    item.fields.list.iter().map(|f| spell(f.ty.0.clone())).collect()
}

#[test]
fn sets_name() {
    let mut item = parse_item("struct S;");
    let args = parse_args("Opt");

    let generated = generate(&mut item, args).unwrap();

    assert_eq!(generated.opt_struct.name.name, "Opt");
    assert_eq!(spell(generated.opt_struct.name.tokens.0), "Opt");
}

#[test]
fn sets_generics() {
    let mut item = parse_item(
        "struct S<'a, 'b, T, G> {
            t: &'a T,
            g: &'b G
        }",
    );
    let args = parse_args("Opt");

    let generated = generate(&mut item, args).unwrap();

    assert_eq!(
        spell(item.generics.0.clone()),
        spell(generated.opt_struct.generics.0.clone())
    );
    assert_eq!(spell(item.generics.0), "< ' a , ' b , T , G >");
}

#[test]
fn sets_visibility() {
    let mut item = parse_item("struct S;");

    let cases = vec![
        ("Opt", ""),
        ("pub Opt", "pub"),
        ("pub(crate) Opt", "pub(crate)"),
        ("pub(in test::path) Opt", "pub(in test::path)"),
    ];

    for (args_tokens, vis_tokens) in cases {
        let args = parse_args(args_tokens);
        let vis = spell(TokenStream::from_str(vis_tokens).unwrap());

        let generated = generate(&mut item, args).unwrap();

        assert_eq!(visibility_text(&generated.opt_struct.vis), vis);
    }
}

#[test]
fn derives_with_everything_stripped() {
    let mut item = parse_item(
        "/// docs\n#[derive(Debug)]\npub struct Original { /// number\n #[a] number: u32, text: String }",
    );
    let generated = generate(&mut item, parse_args("Opt")).unwrap();
    let opt = generated.opt_struct;
    assert_eq!(opt.name.name, "Opt");
    assert!(matches!(opt.vis, Visibility::Inherited));
    assert!(opt.attrs.is_empty());
    assert_eq!(opt.fields.style, Style::Named);
    assert_eq!(field_types(&opt), vec!["Option < u32 >", "Option < String >"]);
    assert!(opt.fields.list.iter().all(|f| f.attrs.is_empty()));
    let field_names: Vec<&str> =
        opt.fields.list.iter().map(|f| f.name.as_ref().unwrap().name.as_str()).collect();
    assert_eq!(field_names, vec!["number", "text"]);
    assert!(generated.merge_impl.0.is_empty());
    assert!(generated.from_impl.0.is_empty());
    // the original is left as it was
    assert_eq!(item.name.name, "Original");
    assert_eq!(field_types(&item), vec!["u32", "String"]);
    assert_eq!(item.attrs.len(), 2);
    assert_eq!(item.fields.list[0].attrs.len(), 2);
}

#[test]
fn derives_with_everything_kept() {
    let mut item = parse_item(
        "/// docs\n#[derive(Debug)]\nstruct Original { /// number\n number: u32, /// text\n text: String }",
    );
    let original = item.clone();
    let generated = generate(&mut item, parse_args("Opt, doc, attrs, field_doc")).unwrap();
    let opt = generated.opt_struct;
    assert_eq!(names(&opt.attrs), names(&original.attrs));
    for (made, given) in opt.fields.list.iter().zip(original.fields.list.iter()) {
        assert_eq!(names(&made.attrs), names(&given.attrs));
        assert_eq!(made.attrs.len(), 1);
    }
    assert_eq!(field_types(&opt), vec!["Option < u32 >", "Option < String >"]);
}

#[test]
fn keeps_attributes_and_field_documentation() {
    let mut item = parse_item(
        "#[derive(Debug)]\n#[serde(default)]\nstruct Original { /// the number\n number: u32, /// the text\n /// of it\n text: String }",
    );
    let original = item.clone();
    let generated = generate(&mut item, parse_args("Opt, attrs, field_doc")).unwrap();
    let opt = generated.opt_struct;
    // the original has no documentation, and neither has the derived record
    assert_eq!(names(&opt.attrs), vec!["derive ( Debug )", "serde ( default )"]);
    assert_eq!(names(&opt.attrs), names(&original.attrs));
    assert_eq!(names(&opt.fields.list[0].attrs), vec!["doc = \" the number\""]);
    assert_eq!(
        names(&opt.fields.list[1].attrs),
        vec!["doc = \" the text\"", "doc = \" of it\""]
    );
    for (made, given) in opt.fields.list.iter().zip(original.fields.list.iter()) {
        assert_eq!(names(&made.attrs), names(&given.attrs));
    }
    assert_eq!(field_types(&opt), vec!["Option < u32 >", "Option < String >"]);
}

#[test]
fn derives_merge_and_conversion() {
    let mut item = parse_item("struct S { a: u8 }");
    let generated = generate(&mut item, parse_args("pub Opt, merge_fn, from")).unwrap();
    same_tokens(
        &generated.merge_impl,
        "impl S { fn merge_opt(&mut self, opt: Opt) { { if let Some(value) = opt.a { self.a = value } } } }",
    );
    same_tokens(
        &generated.from_impl,
        "impl From<S> for Opt { fn from(item: S) -> Opt { Opt { a: Some(item.a), } } }",
    );
}

#[test]
fn where_clause_and_style_are_kept() {
    let mut item = parse_item("struct T<X>(X, Option<X>) where X: Clone;");
    let generated = generate(&mut item, parse_args("Opt")).unwrap();
    let opt = generated.opt_struct;
    assert_eq!(opt.fields.style, Style::Unnamed);
    assert_eq!(spell(opt.where_clause.0.clone()), "where X : Clone");
    assert_eq!(spell(opt.generics.0.clone()), "< X >");
    assert_eq!(field_types(&opt), vec!["Option < X >", "Option < X >"]);
}

#[test]
fn each_configuration_takes_one_marker() {
    let mut item = parse_item(
        "struct S {
            #[optfield_field(, attrs = (first))]
            #[keep]
            #[optfield_field(, attrs = (second))]
            a: u8,
            #[plain]
            b: u8,
        }",
    );
    let first = generate(&mut item, parse_args("Opt1, field_attrs")).unwrap();
    assert_eq!(names(&first.opt_struct.fields.list[0].attrs), vec!["first"]);
    assert_eq!(names(&first.opt_struct.fields.list[1].attrs), vec!["plain"]);
    assert_eq!(
        names(&item.fields.list[0].attrs),
        vec!["keep", "optfield_field ( , attrs = ( second ) )"]
    );

    let second = generate(&mut item, parse_args("Opt2, field_attrs")).unwrap();
    assert_eq!(names(&second.opt_struct.fields.list[0].attrs), vec!["second"]);
    assert_eq!(names(&item.fields.list[0].attrs), vec!["keep"]);

    let third = generate(&mut item, parse_args("Opt3, field_attrs")).unwrap();
    assert_eq!(names(&third.opt_struct.fields.list[0].attrs), vec!["keep"]);
    assert_eq!(names(&item.fields.list[0].attrs), vec!["keep"]);
    assert_eq!(names(&item.fields.list[1].attrs), vec!["plain"]);
}

#[test]
fn a_fault_leaves_the_original() {
    let mut item = parse_item("struct S { #[optfield_field(doc)] #[optfield_field(, doc)] a: u8 }");
    let fault = generate(&mut item, parse_args("Opt")).unwrap_err();
    assert_eq!(fault.field, 0);
    assert!(matches!(fault.fault, FieldError::Override(_)));
    assert_eq!(item.fields.list[0].attrs.len(), 2);
}

#[test]
fn markers_of_a_field() {
    let item = parse_item(
        "struct S { #[a] #[optfield_field(, doc)] #[b] #[optfield_field(, attrs)] #[optfield_field()] #[c] x: u8, #[a] y: u8 }",
    );
    let field = &item.fields.list[0];
    assert_eq!(index_of_first_optfield_field_attr(field), Some(1));
    assert_eq!(index_of_first_optfield_field_attr(&item.fields.list[1]), None);
    assert_eq!(
        names(&sanitise_attrs(&field.attrs)),
        vec!["a", "optfield_field ( , doc )", "b", "c"]
    );
    assert_eq!(
        names(&consume_attrs(&field.attrs)),
        vec!["a", "b", "optfield_field ( , attrs )", "optfield_field ( )", "c"]
    );
    assert_eq!(names(&sanitise_attrs(&item.fields.list[1].attrs)), vec!["a"]);
    assert_eq!(names(&consume_attrs(&item.fields.list[1].attrs)), vec!["a"]);
    let seen = sanitise_fields(&item.fields.list);
    assert_eq!(seen.len(), 2);
    assert_eq!(seen[0].attrs.len(), 4);
    assert_eq!(seen[1].name.as_ref().unwrap().name, "y");
    let left = consume_fields(&item.fields.list);
    assert_eq!(left[0].attrs.len(), 5);
    assert_eq!(spell(left[0].ty.0.clone()), "u8");
}

#[test]
fn from_tokens_to_everything() {
    let mut item = parse_item("struct S { a: u8, b: Option<u8> }");
    let made = optfield(&tokens("pub(crate) Opt, merge_fn = pub set, from"), &mut item).unwrap();
    assert_eq!(made.opt_struct.name.name, "Opt");
    assert_eq!(visibility_text(&made.opt_struct.vis), "pub ( crate )");
    assert_eq!(field_types(&made.opt_struct), vec!["Option < u8 >", "Option < u8 >"]);
    assert!(!made.merge_impl.0.is_empty());
    assert!(!made.from_impl.0.is_empty());

    let fault = optfield(&tokens("doc, Opt"), &mut item).unwrap_err();
    assert_eq!(fault, Error::Config(ParseError::NameNotFirst));

    let mut bad = parse_item("struct S { #[optfield_field] a: u8 }");
    let fault = optfield(&tokens("Opt"), &mut bad).unwrap_err();
    assert!(matches!(
        fault,
        Error::Record(GenError { field: 0, fault: FieldError::Override(_) })
    ));
}
