//! The function that merges a derived record back into the original.
//!
//! It takes the original by mutable reference and the derived record by
//! value, and has one statement for each field, in the order of the fields.
//! The statement overwrites the field of the original where the field of
//! the derived record holds a value:
//!
//! ```text
//! { if let Some(value) = opt.f { self.f = value } }                    wrapped in Option
//! { if let Some(value) = Option::<T>::from(opt.f) { self.f = value } } wrapped in W
//! { if opt.f.is_some() { self.f = opt.f; } }                           taken over, Option
//! { if Option::<()>::from(&opt.f).is_some() { self.f = opt.f; } }      taken over, W
//! ```
//!
//! A field that was taken over as it is has the container's type on both
//! sides, so it is asked whether it holds a value and then moved whole.

use vstd::prelude::*;
use crate::args::{Args, ArgsView, MergeFnName};
use crate::bindings::{cfg_attrs, cfg_tokens, lemma_vocabulary, member, member_tokens};
use crate::fields::{is_wrapped_in, mode_of, Mode};
use crate::schema::{field_views, Field, FieldView, Ident, RecordSchema, SchemaView};
use crate::tokens::{braces, ident, joint, parens, punct, Delimiter, Token, Tokens};

verus! {

/// The field of the derived record: `opt.f`.
pub open spec fn incoming(member: Seq<Token>) -> Seq<Token> {
    seq![ident("opt"), punct('.')] + member
}

/// The assignment to the field of the original: `self.f = value`.
pub open spec fn overwrite(member: Seq<Token>, value: Seq<Token>) -> Seq<Token> {
    seq![ident("self"), punct('.')] + member + seq![punct('=')] + value
}

/// `Option::<`
pub open spec fn option_of() -> Seq<Token> {
    seq![ident("Option"), joint(':'), punct(':'), punct('<')]
}

/// `>::from`
pub open spec fn from_call() -> Seq<Token> {
    seq![punct('>'), joint(':'), punct(':'), ident("from")]
}

/// `if let Some(value) =`
pub open spec fn if_some() -> Seq<Token> {
    seq![ident("if"), ident("let"), ident("Some"), parens(seq![ident("value")]), punct('=')]
}

/// The statement for a field that was wrapped in `Option`.
pub open spec fn unwrap_builtin(member: Seq<Token>) -> Seq<Token> {
    if_some() + incoming(member) + seq![braces(overwrite(member, seq![ident("value")]))]
}

/// The statement for a field of type `ty` that was wrapped in a container
/// of the configuration.
pub open spec fn unwrap_custom(member: Seq<Token>, ty: Seq<Token>) -> Seq<Token> {
    if_some() + option_of() + ty + from_call() + seq![
        parens(incoming(member)),
        braces(overwrite(member, seq![ident("value")])),
    ]
}

/// `.is_some() { self.f = opt.f; }`
pub open spec fn when_some(member: Seq<Token>) -> Seq<Token> {
    seq![
        punct('.'),
        ident("is_some"),
        parens(Seq::empty()),
        braces(overwrite(member, incoming(member)).push(punct(';'))),
    ]
}

/// The statement for a field that was taken over and is an `Option`.
pub open spec fn through_builtin(member: Seq<Token>) -> Seq<Token> {
    seq![ident("if")] + incoming(member) + when_some(member)
}

/// The statement for a field that was taken over and is in a container of
/// the configuration.
pub open spec fn through_custom(member: Seq<Token>) -> Seq<Token> {
    seq![ident("if")] + option_of() + seq![parens(Seq::empty())] + from_call() + seq![
        parens(seq![punct('&')] + incoming(member)),
    ] + when_some(member)
}

/// What stands in the braces of the statement for the field at `index`.
pub open spec fn condition(field: FieldView, index: int, args: ArgsView) -> Seq<Token> {
    let member = seq![member(field, index)];
    match mode_of(field.ty, args) {
        Mode::Through => if args.wrapper is Some {
            through_custom(member)
        } else {
            through_builtin(member)
        },
        Mode::Wrapped => if args.wrapper is Some {
            unwrap_custom(member, field.ty)
        } else {
            unwrap_builtin(member)
        },
    }
}

/// The statement for the field at `index`: the conditions on compilation
/// that the field carries, and the block that merges it.
pub open spec fn statement(field: FieldView, index: int, args: ArgsView) -> Seq<Token> {
    cfg_tokens(field.attrs) + seq![braces(condition(field, index, args))]
}

/// The statements for the fields, in their order.
pub open spec fn statements(fields: Seq<FieldView>, args: ArgsView) -> Seq<Token>
    decreases fields.len(),
{
    if fields.len() == 0 {
        Seq::empty()
    } else {
        statements(fields.drop_last(), args) + statement(fields.last(), fields.len() - 1, args)
    }
}

/// The name of the merge function: the one given, or else `merge_opt`.
pub open spec fn function_name(name: Option<Seq<char>>) -> Seq<char> {
    match name {
        Some(name) => name,
        None => "merge_opt"@,
    }
}

/// What stands in the parentheses of the merge function:
/// `&mut self, opt: Opt<..>`.
pub open spec fn parameters(opt_item: SchemaView) -> Seq<Token> {
    seq![
        punct('&'),
        ident("mut"),
        ident("self"),
        punct(','),
        ident("opt"),
        punct(':'),
        Token::Ident(opt_item.name),
    ] + opt_item.generics
}

/// The implementation block with the merge function, or nothing if the
/// configuration does not ask for one.
pub open spec fn merge_impl(item: SchemaView, opt_item: SchemaView, args: ArgsView) -> Seq<Token> {
    match args.merge {
        None => Seq::empty(),
        Some(merge) => seq![ident("impl")] + item.generics + seq![Token::Ident(item.name)]
            + item.generics + seq![
            braces(
                merge.visibility + seq![
                    ident("fn"),
                    Token::Ident(function_name(merge.name)),
                    parens(parameters(opt_item)),
                    braces(statements(item.fields, args)),
                ],
            ),
        ],
    }
}

/// `opt.f`
fn incoming_tokens(member: &Tokens) -> (r: Tokens)
    ensures
        r@ == incoming(member@),
{
    proof {
        lemma_vocabulary();
    }
    let mut tokens = Tokens::new();
    tokens.push_word("opt");
    tokens.push_punct('.');
    tokens.push_all(member);
    assert(tokens@ =~= incoming(member@));
    tokens
}

/// `self.f = value`
fn overwrite_tokens(member: &Tokens, value: &Tokens) -> (r: Tokens)
    ensures
        r@ == overwrite(member@, value@),
{
    proof {
        lemma_vocabulary();
    }
    let mut tokens = Tokens::new();
    tokens.push_word("self");
    tokens.push_punct('.');
    tokens.push_all(member);
    tokens.push_punct('=');
    tokens.push_all(value);
    assert(tokens@ =~= overwrite(member@, value@));
    tokens
}

/// Appends `if let Some(value) =`.
fn push_if_some(tokens: &mut Tokens)
    ensures
        final(tokens)@ == old(tokens)@ + if_some(),
{
    proof {
        lemma_vocabulary();
    }
    let mut value = Tokens::new();
    value.push_word("value");
    assert(value@ =~= seq![ident("value")]);
    tokens.push_word("if");
    tokens.push_word("let");
    tokens.push_word("Some");
    tokens.push_group(Delimiter::Parenthesis, value);
    tokens.push_punct('=');
    assert(tokens@ =~= old(tokens)@ + if_some());
}

/// Appends `Option::<`.
fn push_option_of(tokens: &mut Tokens)
    ensures
        final(tokens)@ == old(tokens)@ + option_of(),
{
    proof {
        lemma_vocabulary();
    }
    tokens.push_word("Option");
    tokens.push_joint(':');
    tokens.push_punct(':');
    tokens.push_punct('<');
    assert(tokens@ =~= old(tokens)@ + option_of());
}

/// Appends `>::from`.
fn push_from_call(tokens: &mut Tokens)
    ensures
        final(tokens)@ == old(tokens)@ + from_call(),
{
    proof {
        lemma_vocabulary();
    }
    tokens.push_punct('>');
    tokens.push_joint(':');
    tokens.push_punct(':');
    tokens.push_word("from");
    assert(tokens@ =~= old(tokens)@ + from_call());
}

/// Appends `{ self.f = value }`.
fn push_take_value(tokens: &mut Tokens, member: &Tokens)
    ensures
        final(tokens)@ == old(tokens)@.push(braces(overwrite(member@, seq![ident("value")]))),
{
    proof {
        lemma_vocabulary();
    }
    let mut value = Tokens::new();
    value.push_word("value");
    assert(value@ =~= seq![ident("value")]);
    tokens.push_group(Delimiter::Brace, overwrite_tokens(member, &value));
}

/// Appends `.is_some() { self.f = opt.f; }`.
fn push_when_some(tokens: &mut Tokens, member: &Tokens)
    ensures
        final(tokens)@ == old(tokens)@ + when_some(member@),
{
    proof {
        lemma_vocabulary();
    }
    let mut assignment = overwrite_tokens(member, &incoming_tokens(member));
    assignment.push_punct(';');
    tokens.push_punct('.');
    tokens.push_word("is_some");
    tokens.push_group(Delimiter::Parenthesis, Tokens::new());
    tokens.push_group(Delimiter::Brace, assignment);
    assert(tokens@ =~= old(tokens)@ + when_some(member@));
}

/// What stands in the braces of the statement for the field at `index`.
fn condition_tokens(field: &Field, index: usize, args: &Args, wrapper: &Ident) -> (r: Tokens)
    requires
        field.wf(),
        index < u32::MAX,
        wrapper@ == Args::wrapper_name(args@),
    ensures
        r@ == condition(field@, index as int, args@),
{
    proof {
        lemma_vocabulary();
    }
    let member = member_tokens(field, index);
    let custom = args.wrapper.is_some();
    let mut tokens = Tokens::new();
    if is_wrapped_in(field, wrapper) && !args.rewrap {
        tokens.push_word("if");
        if custom {
            push_option_of(&mut tokens);
            tokens.push_group(Delimiter::Parenthesis, Tokens::new());
            push_from_call(&mut tokens);
            let mut borrowed = Tokens::new();
            borrowed.push_punct('&');
            borrowed.push_all(&incoming_tokens(&member));
            assert(borrowed@ =~= seq![punct('&')] + incoming(member@));
            tokens.push_group(Delimiter::Parenthesis, borrowed);
            push_when_some(&mut tokens, &member);
            assert(tokens@ =~= through_custom(member@));
        } else {
            tokens.push_all(&incoming_tokens(&member));
            push_when_some(&mut tokens, &member);
            assert(tokens@ =~= through_builtin(member@));
        }
    } else {
        push_if_some(&mut tokens);
        if custom {
            push_option_of(&mut tokens);
            tokens.push_all(&field.ty);
            push_from_call(&mut tokens);
            tokens.push_group(Delimiter::Parenthesis, incoming_tokens(&member));
            push_take_value(&mut tokens, &member);
            assert(tokens@ =~= unwrap_custom(member@, field@.ty));
        } else {
            tokens.push_all(&incoming_tokens(&member));
            push_take_value(&mut tokens, &member);
            assert(tokens@ =~= unwrap_builtin(member@));
        }
    }
    tokens
}

/// The statements that merge the fields, one for each field and in the
/// order of the fields.
pub fn field_bindings(fields: &Vec<Field>, args: &Args) -> (r: Tokens)
    requires
        args.wf(),
        fields@.len() < u32::MAX,
        forall|i: int| 0 <= i < fields@.len() ==> (#[trigger] fields@[i]).wf(),
    ensures
        r@ == statements(field_views(fields@), args@),
{
    let wrapper = args.final_wrapper();
    let mut tokens = Tokens::new();
    let mut i: usize = 0;
    assert(field_views(fields@.take(0)) =~= Seq::empty());
    while i < fields.len()
        invariant
            i <= fields@.len() < u32::MAX,
            forall|k: int| 0 <= k < fields@.len() ==> (#[trigger] fields@[k]).wf(),
            wrapper@ == Args::wrapper_name(args@),
            tokens@ == statements(field_views(fields@.take(i as int)), args@),
        decreases fields@.len() - i,
    {
        let field = &fields[i];
        proof {
            let now = field_views(fields@.take(i + 1));
            assert(now.drop_last() =~= field_views(fields@.take(i as int)));
            assert(now.last() == field@);
        }
        let ghost before = tokens@;
        tokens.push_all(&cfg_attrs(field));
        tokens.push_group(Delimiter::Brace, condition_tokens(field, i, args, &wrapper));
        assert(tokens@ =~= before + statement(field@, i as int, args@));
        i += 1;
    }
    assert(fields@.take(i as int) =~= fields@);
    tokens
}

/// The implementation block that gives the original record the function
/// which merges a derived record into it; nothing if the configuration
/// does not ask for that function.
pub fn generate(item: &RecordSchema, opt_item: &RecordSchema, args: &Args) -> (r: Tokens)
    requires
        item.wf(),
        opt_item.name.wf(),
        args.wf(),
    ensures
        r@ == merge_impl(item@, opt_item@, args@),
{
    proof {
        lemma_vocabulary();
    }
    if let Some(merge_fn) = &args.merge {
        let fn_name = match &merge_fn.name {
            MergeFnName::Custom(n) => n.duplicate(),
            MergeFnName::Default => Ident::new("merge_opt"),
        };

        let mut parameters = Tokens::new();
        parameters.push_punct('&');
        parameters.push_word("mut");
        parameters.push_word("self");
        parameters.push_punct(',');
        parameters.push_word("opt");
        parameters.push_punct(':');
        parameters.push_all(&opt_item.name.tokens);
        parameters.push_all(&opt_item.generics);
        assert(parameters@ =~= self::parameters(opt_item@));

        let mut function = match &merge_fn.visibility {
            crate::schema::Visibility::Inherited => Tokens::new(),
            crate::schema::Visibility::Declared(tokens) => tokens.duplicate(),
        };
        function.push_word("fn");
        function.push_all(&fn_name.tokens);
        function.push_group(Delimiter::Parenthesis, parameters);
        function.push_group(Delimiter::Brace, field_bindings(&item.fields.list, args));
        assert(function@ =~= merge_fn@.visibility + seq![
            ident("fn"),
            Token::Ident(function_name(merge_fn@.name)),
            parens(self::parameters(opt_item@)),
            braces(statements(item@.fields, args@)),
        ]);

        let mut tokens = Tokens::new();
        tokens.push_word("impl");
        tokens.push_all(&item.generics);
        tokens.push_all(&item.name.tokens);
        tokens.push_all(&item.generics);
        tokens.push_group(Delimiter::Brace, function);
        assert(tokens@ =~= merge_impl(item@, opt_item@, args@));
        tokens
    } else {
        Tokens::new()
    }
}

} // verus!
