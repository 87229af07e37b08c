//! The conversion of an original record into the derived one.
//!
//! It is an implementation of `From` with one initialiser for each field, in
//! the order of the fields:
//!
//! ```text
//! f: Some(item.f),     wrapped in Option
//! f: W::from(item.f),  wrapped in W
//! f: item.f,           taken over
//! ```

use vstd::prelude::*;
use crate::args::{Args, ArgsView};
use crate::bindings::{cfg_attrs, cfg_tokens, lemma_vocabulary, member, member_tokens};
use crate::fields::{is_wrapped_in, mode_of, Mode};
use crate::schema::{field_views, Field, FieldView, Ident, RecordSchema, SchemaView};
use crate::tokens::{braces, ident, joint, parens, punct, Delimiter, Token, Tokens};

verus! {

/// The field of the original: `item.f`.
pub open spec fn outgoing(member: Seq<Token>) -> Seq<Token> {
    seq![ident("item"), punct('.')] + member
}

/// The value that the field at `index` of the derived record is given.
pub open spec fn lifted(field: FieldView, index: int, args: ArgsView) -> Seq<Token> {
    let member = seq![member(field, index)];
    match mode_of(field.ty, args) {
        Mode::Through => outgoing(member),
        Mode::Wrapped => match args.wrapper {
            Some(wrapper) => seq![
                Token::Ident(wrapper),
                joint(':'),
                punct(':'),
                ident("from"),
                parens(outgoing(member)),
            ],
            None => seq![ident("Some"), parens(outgoing(member))],
        },
    }
}

/// The initialiser for the field at `index`: the conditions on compilation
/// that the field carries, its name, and its value.
pub open spec fn initializer(field: FieldView, index: int, args: ArgsView) -> Seq<Token> {
    cfg_tokens(field.attrs) + seq![member(field, index), punct(':')] + lifted(field, index, args)
        + seq![punct(',')]
}

/// The initialisers for the fields, in their order.
pub open spec fn initializers(fields: Seq<FieldView>, args: ArgsView) -> Seq<Token>
    decreases fields.len(),
{
    if fields.len() == 0 {
        Seq::empty()
    } else {
        initializers(fields.drop_last(), args) + initializer(
            fields.last(),
            fields.len() - 1,
            args,
        )
    }
}

/// A record as a type: its name and its generic parameters.
pub open spec fn type_of(item: SchemaView) -> Seq<Token> {
    seq![Token::Ident(item.name)] + item.generics
}

/// The function `from` of the conversion.
pub open spec fn from_fn(item: SchemaView, opt_item: SchemaView, args: ArgsView) -> Seq<Token> {
    seq![
        ident("fn"),
        ident("from"),
        parens(seq![ident("item"), punct(':')] + type_of(item)),
        joint('-'),
        punct('>'),
    ] + type_of(opt_item) + seq![
        braces(seq![Token::Ident(opt_item.name), braces(initializers(item.fields, args))]),
    ]
}

/// The implementation of `From` that converts the original record into the
/// derived one, or nothing if the configuration does not ask for it.
pub open spec fn from_impl(item: SchemaView, opt_item: SchemaView, args: ArgsView) -> Seq<Token> {
    if args.from {
        seq![ident("impl")] + opt_item.generics + seq![ident("From"), punct('<')] + type_of(item)
            + seq![punct('>'), ident("for")] + type_of(opt_item) + seq![
            braces(from_fn(item, opt_item, args)),
        ]
    } else {
        Seq::empty()
    }
}

/// `item.f`
fn outgoing_tokens(member: &Tokens) -> (r: Tokens)
    ensures
        r@ == outgoing(member@),
{
    proof {
        lemma_vocabulary();
    }
    let mut tokens = Tokens::new();
    tokens.push_word("item");
    tokens.push_punct('.');
    tokens.push_all(member);
    assert(tokens@ =~= outgoing(member@));
    tokens
}

/// The name and the generic parameters of a record.
fn type_tokens(item: &RecordSchema) -> (r: Tokens)
    requires
        item.name.wf(),
    ensures
        r@ == type_of(item@),
{
    let mut tokens = item.name.tokens.duplicate();
    tokens.push_all(&item.generics);
    tokens
}

/// The value that the field at `index` of the derived record is given.
fn lifted_tokens(field: &Field, index: usize, args: &Args, wrapper: &Ident) -> (r: Tokens)
    requires
        field.wf(),
        index < u32::MAX,
        wrapper.wf(),
        wrapper@ == Args::wrapper_name(args@),
    ensures
        r@ == lifted(field@, index as int, args@),
{
    proof {
        lemma_vocabulary();
    }
    let member = member_tokens(field, index);
    if is_wrapped_in(field, wrapper) && !args.rewrap {
        outgoing_tokens(&member)
    } else if args.wrapper.is_some() {
        let mut tokens = wrapper.tokens.duplicate();
        tokens.push_joint(':');
        tokens.push_punct(':');
        tokens.push_word("from");
        tokens.push_group(Delimiter::Parenthesis, outgoing_tokens(&member));
        assert(tokens@ =~= lifted(field@, index as int, args@));
        tokens
    } else {
        let mut tokens = Tokens::new();
        tokens.push_word("Some");
        tokens.push_group(Delimiter::Parenthesis, outgoing_tokens(&member));
        assert(tokens@ =~= lifted(field@, index as int, args@));
        tokens
    }
}

/// The initialisers of the fields of the derived record, one for each field
/// and in the order of the fields.
pub fn field_bindings(fields: &Vec<Field>, args: &Args) -> (r: Tokens)
    requires
        args.wf(),
        fields@.len() < u32::MAX,
        forall|i: int| 0 <= i < fields@.len() ==> (#[trigger] fields@[i]).wf(),
    ensures
        r@ == initializers(field_views(fields@), args@),
{
    let wrapper = args.final_wrapper();
    let mut tokens = Tokens::new();
    let mut i: usize = 0;
    assert(field_views(fields@.take(0)) =~= Seq::empty());
    while i < fields.len()
        invariant
            i <= fields@.len() < u32::MAX,
            forall|k: int| 0 <= k < fields@.len() ==> (#[trigger] fields@[k]).wf(),
            wrapper.wf(),
            wrapper@ == Args::wrapper_name(args@),
            tokens@ == initializers(field_views(fields@.take(i as int)), args@),
        decreases fields@.len() - i,
    {
        let field = &fields[i];
        proof {
            let now = field_views(fields@.take(i + 1));
            assert(now.drop_last() =~= field_views(fields@.take(i as int)));
            assert(now.last() == field@);
        }
        let ghost before = tokens@;
        tokens.push_all(&cfg_attrs(field));
        tokens.push_all(&member_tokens(field, i));
        tokens.push_punct(':');
        tokens.push_all(&lifted_tokens(field, i, args, &wrapper));
        tokens.push_punct(',');
        assert(tokens@ =~= before + initializer(field@, i as int, args@));
        i += 1;
    }
    assert(fields@.take(i as int) =~= fields@);
    tokens
}

/// The implementation of `From` that converts the original record into the
/// derived one; nothing if the configuration does not ask for it.
pub fn generate(item: &RecordSchema, opt_item: &RecordSchema, args: &Args) -> (r: Tokens)
    requires
        item.wf(),
        opt_item.name.wf(),
        args.wf(),
    ensures
        r@ == from_impl(item@, opt_item@, args@),
{
    proof {
        lemma_vocabulary();
    }
    if args.from {
        let source = type_tokens(item);
        let target = type_tokens(opt_item);

        let mut literal = opt_item.name.tokens.duplicate();
        literal.push_group(Delimiter::Brace, field_bindings(&item.fields.list, args));
        assert(literal@ =~= seq![
            Token::Ident(opt_item@.name),
            braces(initializers(item@.fields, args@)),
        ]);

        let mut parameter = Tokens::new();
        parameter.push_word("item");
        parameter.push_punct(':');
        parameter.push_all(&source);
        assert(parameter@ =~= seq![ident("item"), punct(':')] + type_of(item@));

        let mut function = Tokens::new();
        function.push_word("fn");
        function.push_word("from");
        function.push_group(Delimiter::Parenthesis, parameter);
        function.push_joint('-');
        function.push_punct('>');
        function.push_all(&target);
        function.push_group(Delimiter::Brace, literal);
        assert(function@ =~= from_fn(item@, opt_item@, args@));

        let mut tokens = Tokens::new();
        tokens.push_word("impl");
        tokens.push_all(&opt_item.generics);
        tokens.push_word("From");
        tokens.push_punct('<');
        tokens.push_all(&source);
        tokens.push_punct('>');
        tokens.push_word("for");
        tokens.push_all(&target);
        tokens.push_group(Delimiter::Brace, function);
        assert(tokens@ =~= from_impl(item@, opt_item@, args@));
        tokens
    } else {
        Tokens::new()
    }
}

} // verus!
