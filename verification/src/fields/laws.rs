//! What holds of every derived field and of the overrides of every field.

use vstd::prelude::*;
use crate::args::grammar::{keyword_at, keyword_parse};
use crate::args::keyword::{lemma_keyword_round_trip, Keyword, ParseError};
use crate::args::laws::lemma_keyword_parse_prefix;
use crate::args::{Args, ArgsView};
use crate::fields::args::{
    field_args_parse, field_keyword_at, field_list_parse, FieldArgListView, FieldArgsView,
};
use crate::fields::{field_made, wrap, wrapped_in};
use crate::schema::FieldView;
use crate::tokens::{is_punct, Token};

verus! {

/// Wrapping once: a field whose type is in the container already keeps its
/// type where the configuration does not ask to wrap again, and gets the
/// type wrapped once more where it does.
pub proof fn lemma_wrap_once(field: FieldView, args: ArgsView, made: FieldView)
    requires
        field_made(field, args, made),
        wrapped_in(field.ty, Args::wrapper_name(args)),
    ensures
        !args.rewrap ==> made.ty == field.ty,
        args.rewrap ==> made.ty == wrap(Args::wrapper_name(args), field.ty),
{
}

/// Wrapping what is not wrapped: a field whose type is not in the container
/// gets exactly its type in the container, and never its type in the
/// container twice over.
pub proof fn lemma_wrap_unwrapped(field: FieldView, args: ArgsView, made: FieldView)
    requires
        field_made(field, args, made),
        !wrapped_in(field.ty, Args::wrapper_name(args)),
    ensures
        made.ty == wrap(Args::wrapper_name(args), field.ty),
        made.ty != wrap(Args::wrapper_name(args), wrap(Args::wrapper_name(args), field.ty)),
{
    let name = Args::wrapper_name(args);
    assert(wrap(name, field.ty).len() == field.ty.len() + 3);
    assert(wrap(name, wrap(name, field.ty)).len() == field.ty.len() + 6);
}

impl FieldArgListView {
    /// Where the keyword was read, if it was.
    pub open spec fn seen(self, keyword: Keyword) -> Option<usize> {
        match keyword {
            Keyword::Doc => self.doc,
            Keyword::Attrs => self.attrs,
            _ => None,
        }
    }
}

/// If the tokens before a comma are read without fault from `pos` on, and
/// no comma ends them, reading all the tokens from `pos` on comes to that
/// comma in the same state.
proof fn lemma_field_list_parse_prefix(
    tokens: Seq<Token>,
    split: int,
    pos: int,
    state: FieldArgListView,
)
    requires
        0 <= pos <= split < tokens.len(),
        0 < split,
        is_punct(tokens, split, ','),
        !is_punct(tokens, split - 1, ','),
        field_list_parse(tokens.take(split), pos, state) is Ok,
    ensures
        field_list_parse(tokens, pos, state) == field_list_parse(
            tokens,
            split,
            field_list_parse(tokens.take(split), pos, state)->Ok_0,
        ),
    decreases split - pos,
{
    let prefix = tokens.take(split);
    if pos < split {
        assert(is_punct(prefix, pos, ','));
        assert(pos + 1 < split);
        assert(keyword_at(tokens, pos + 1) == keyword_at(prefix, pos + 1));
        let keyword = field_keyword_at(prefix, pos + 1)->Some_0;
        assert(field_keyword_at(tokens, pos + 1) == Some(keyword));
        assert(keyword_parse(prefix, pos + 1, keyword) is Ok);
        lemma_keyword_parse_prefix(tokens, split, pos + 1, keyword);
        let (after, next) = match keyword {
            Keyword::Doc => state.step_doc(prefix, pos + 1)->Ok_0,
            _ => state.step_attrs(prefix, pos + 1)->Ok_0,
        };
        lemma_field_list_parse_prefix(tokens, split, next, after);
    }
}

/// A keyword given twice in the overrides of a field is refused as such: if
/// the tokens before a comma are overrides that give `keyword`, and the
/// same keyword follows that comma, the whole fails with the fault that
/// names the keyword, its second place and its first.
pub proof fn lemma_duplicate_override(tokens: Seq<Token>, split: int, keyword: Keyword)
    requires
        keyword == Keyword::Doc || keyword == Keyword::Attrs,
        0 < split,
        split + 1 < tokens.len() <= usize::MAX,
        field_list_parse(tokens.take(split), 0, FieldArgListView::initial()) is Ok,
        field_list_parse(tokens.take(split), 0, FieldArgListView::initial())->Ok_0.seen(keyword)
            is Some,
        !is_punct(tokens, split - 1, ','),
        is_punct(tokens, split, ','),
        tokens[split + 1] == Token::Ident(keyword.text()),
    ensures
        field_args_parse(tokens) == Err::<FieldArgsView, ParseError>(
            ParseError::AlreadyDefined {
                keyword,
                at: (split + 1) as usize,
                first: field_list_parse(
                    tokens.take(split),
                    0,
                    FieldArgListView::initial(),
                )->Ok_0.seen(keyword)->Some_0,
            },
        ),
{
    lemma_keyword_round_trip(keyword);
    lemma_field_list_parse_prefix(tokens, split, 0, FieldArgListView::initial());
}

/// A comma at the end of the overrides of a field changes nothing.
pub proof fn lemma_trailing_comma_override(tokens: Seq<Token>, joint: bool)
    requires
        field_args_parse(tokens) is Ok,
        !is_punct(tokens, tokens.len() - 1, ','),
    ensures
        field_args_parse(tokens.push(Token::Punct(',', joint))) == field_args_parse(tokens),
{
    let longer = tokens.push(Token::Punct(',', joint));
    let split = tokens.len() as int;
    assert(longer.take(split) =~= tokens);
    if split > 0 {
        lemma_field_list_parse_prefix(longer, split, 0, FieldArgListView::initial());
    }
}

} // verus!
