//! What the merge function and the conversion share: how a field is named
//! in the code that is made, and the conditions on compilation that go with
//! it.

use vstd::prelude::*;
use crate::attrs::generator::is_cfg;
use crate::schema::{attr_views, AttrView, Field, FieldView};
use crate::tokens::{
    brackets, decimal, is_word, punct, Delimiter, Token, Tokens,
};

verus! {

/// The token that names a field in an expression: its name, or its position
/// in a tuple record.
pub open spec fn member(field: FieldView, index: int) -> Token {
    match field.name {
        Some(name) => Token::Ident(name),
        None => Token::Literal(decimal(index as nat)),
    }
}

/// The token that names the field at position `index`.
pub fn member_tokens(field: &Field, index: usize) -> (r: Tokens)
    requires
        field.wf(),
        index < u32::MAX,
    ensures
        r@ == seq![member(field@, index as int)],
{
    match &field.name {
        // means that original item is a tuple struct
        None => {
            let mut tokens = Tokens::new();
            tokens.push_index(index);
            assert(tokens@ =~= seq![member(field@, index as int)]);
            tokens
        },
        Some(ident) => ident.tokens.duplicate(),
    }
}

/// The conditions on compilation among the attributes, written out as
/// attributes, in their order.
pub open spec fn cfg_tokens(attrs: Seq<AttrView>) -> Seq<Token>
    decreases attrs.len(),
{
    if attrs.len() == 0 {
        Seq::empty()
    } else if is_cfg(attrs.last()) {
        cfg_tokens(attrs.drop_last()) + seq![punct('#'), brackets(attrs.last().tokens)]
    } else {
        cfg_tokens(attrs.drop_last())
    }
}

/// The conditions on compilation that the field carries, written out.
pub fn cfg_attrs(field: &Field) -> (r: Tokens)
    ensures
        r@ == cfg_tokens(field@.attrs),
{
    let mut tokens = Tokens::new();
    let mut i: usize = 0;
    assert(field.attrs@.take(0) =~= Seq::empty());
    assert(attr_views(field.attrs@.take(0)) =~= Seq::empty());
    while i < field.attrs.len()
        invariant
            i <= field.attrs@.len(),
            tokens@ == cfg_tokens(attr_views(field.attrs@.take(i as int))),
        decreases field.attrs@.len() - i,
    {
        let attr = &field.attrs[i];
        proof {
            let now = attr_views(field.attrs@.take(i + 1));
            assert(now.drop_last() =~= attr_views(field.attrs@.take(i as int)));
            assert(now.last() == attr@);
        }
        if attr.is_named("cfg") {
            let ghost before = tokens@;
            tokens.push_punct('#');
            tokens.push_group(Delimiter::Bracket, attr.tokens.duplicate());
            assert(tokens@ =~= before + seq![punct('#'), brackets(attr@.tokens)]);
        }
        i += 1;
    }
    assert(field.attrs@.take(i as int) =~= field.attrs@);
    tokens
}

/// The words that the code made is written with are identifiers or
/// keywords.
pub proof fn lemma_vocabulary()
    ensures
        is_word("impl"@),
        is_word("fn"@),
        is_word("mut"@),
        is_word("self"@),
        is_word("opt"@),
        is_word("if"@),
        is_word("let"@),
        is_word("Some"@),
        is_word("value"@),
        is_word("Option"@),
        is_word("from"@),
        is_word("is_some"@),
        is_word("merge_opt"@),
        is_word("From"@),
        is_word("for"@),
        is_word("item"@),
{
    reveal_strlit("impl");
    reveal_strlit("fn");
    reveal_strlit("mut");
    reveal_strlit("self");
    reveal_strlit("opt");
    reveal_strlit("if");
    reveal_strlit("let");
    reveal_strlit("Some");
    reveal_strlit("value");
    reveal_strlit("Option");
    reveal_strlit("from");
    reveal_strlit("is_some");
    reveal_strlit("merge_opt");
    reveal_strlit("From");
    reveal_strlit("for");
    reveal_strlit("item");
}

} // verus!
