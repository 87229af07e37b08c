//! What holds of every configuration.

use vstd::prelude::*;
use crate::args::grammar::{
    after_visibility, apply, args_parse, collect, config_parse, is_name, item_parse, keyword_at,
    keyword_parse, list_parse,
};
use crate::args::keyword::{lemma_keyword_round_trip, Keyword, ParseError};
use crate::args::{ArgList, ArgListView, ArgView, ArgsView, GenItemView};
use crate::tokens::{is_punct, Token};

verus! {

/// The keyword that a value belongs to.
pub open spec fn kind_of(arg: ArgView) -> Keyword {
    match arg {
        ArgView::Merge(_) => Keyword::MergeFn,
        ArgView::Doc(_) => Keyword::Doc,
        ArgView::Rewrap(_) => Keyword::Rewrap,
        ArgView::Attrs(_) => Keyword::Attrs,
        ArgView::FieldDocs(_) => Keyword::FieldDoc,
        ArgView::FieldAttrs(_) => Keyword::FieldAttrs,
        ArgView::From(_) => Keyword::From,
        ArgView::Wrapper(_) => Keyword::Wrapper,
    }
}

/// A keyword before the name is refused as such: a configuration that
/// starts with a keyword, whichever it is and whatever follows it, fails
/// with the fault that the name must come first.
pub proof fn lemma_keyword_before_name(tokens: Seq<Token>, keyword: Keyword)
    requires
        tokens.len() > 0,
        tokens[0] == Token::Ident(keyword.text()),
    ensures
        args_parse(tokens) == Err::<ArgsView, ParseError>(ParseError::NameNotFirst),
{
    lemma_keyword_round_trip(keyword);
}

/// An empty configuration fails for want of a name.
pub proof fn lemma_empty_configuration()
    ensures
        args_parse(Seq::<Token>::empty()) == Err::<ArgsView, ParseError>(ParseError::MissingName),
{
}

/// A part of the first `split` tokens is the same part of all the tokens.
proof fn lemma_take_subrange(tokens: Seq<Token>, split: int, from: int, to: int)
    requires
        0 <= from <= to <= split <= tokens.len(),
    ensures
        tokens.take(split).subrange(from, to) == tokens.subrange(from, to),
{
    assert(tokens.take(split).subrange(from, to) =~= tokens.subrange(from, to));
}

/// Whether a name stands at a place is the same in the tokens up to a
/// comma as in all of them.
proof fn lemma_is_name_prefix(tokens: Seq<Token>, split: int, pos: int)
    requires
        0 <= pos <= split < tokens.len(),
        is_punct(tokens, split, ','),
    ensures
        is_name(tokens.take(split), pos) == is_name(tokens, pos),
        is_name(tokens, pos) ==> pos < split,
{
    if pos < split {
        lemma_take_subrange(tokens, split, pos, pos + 1);
    }
}

/// Where a visibility ends is the same in the tokens up to a comma as in
/// all of them.
proof fn lemma_after_visibility_prefix(tokens: Seq<Token>, split: int, pos: int)
    requires
        0 <= pos <= split < tokens.len(),
        is_punct(tokens, split, ','),
    ensures
        after_visibility(tokens.take(split), pos) == after_visibility(tokens, pos),
        pos <= after_visibility(tokens, pos) <= split,
        tokens.take(split).subrange(pos, after_visibility(tokens, pos)) == tokens.subrange(
            pos,
            after_visibility(tokens, pos),
        ),
{
    if pos + 2 <= split {
        lemma_take_subrange(tokens, split, pos, pos + 2);
    }
    lemma_take_subrange(tokens, split, pos, after_visibility(tokens, pos));
}

/// A keyword's value that is read from the tokens up to a comma is read
/// from all the tokens too, and ends before that comma.
pub(crate) proof fn lemma_keyword_parse_prefix(tokens: Seq<Token>, split: int, pos: int, keyword: Keyword)
    requires
        0 <= pos < split < tokens.len(),
        is_punct(tokens, split, ','),
        keyword_parse(tokens.take(split), pos, keyword) is Ok,
    ensures
        keyword_parse(tokens, pos, keyword) == keyword_parse(tokens.take(split), pos, keyword),
        pos < keyword_parse(tokens, pos, keyword)->Ok_0.1 <= split,
{
    let prefix = tokens.take(split);
    match keyword {
        Keyword::Doc => {
            if is_punct(prefix, pos + 1, '=') {
                lemma_take_subrange(tokens, split, pos + 2, pos + 3);
            }
        },
        Keyword::MergeFn => {
            if is_punct(prefix, pos + 1, '=') {
                lemma_after_visibility_prefix(tokens, split, pos + 2);
                lemma_is_name_prefix(tokens, split, after_visibility(tokens, pos + 2));
            }
        },
        Keyword::Attrs | Keyword::FieldAttrs => {},
        Keyword::Wrapper => {
            if is_punct(prefix, pos + 1, '=') {
                lemma_is_name_prefix(tokens, split, pos + 2);
            }
        },
        _ => {},
    }
}

/// If the tokens before a comma are read without fault from `pos` on, and
/// no comma ends them, reading all the tokens from `pos` on comes to that
/// comma in the same state.
proof fn lemma_list_parse_prefix(tokens: Seq<Token>, split: int, pos: int, state: ArgListView)
    requires
        0 < pos <= split < tokens.len(),
        is_punct(tokens, split, ','),
        !is_punct(tokens, split - 1, ','),
        list_parse(tokens.take(split), pos, state) is Ok,
    ensures
        list_parse(tokens, pos, state) == list_parse(
            tokens,
            split,
            list_parse(tokens.take(split), pos, state)->Ok_0,
        ),
    decreases split - pos,
{
    let prefix = tokens.take(split);
    if pos < split {
        assert(is_punct(prefix, pos, ','));
        assert(pos + 1 < split);
        let keyword = keyword_at(prefix, pos + 1)->Some_0;
        assert(keyword_at(tokens, pos + 1) == Some(keyword));
        lemma_keyword_parse_prefix(tokens, split, pos + 1, keyword);
        let (after, next) = state.step(prefix, pos + 1, keyword)->Ok_0;
        assert(state.step(tokens, pos + 1, keyword) == Ok::<(ArgListView, int), ParseError>(
            (after, next),
        ));
        lemma_list_parse_prefix(tokens, split, next, after);
    }
}

/// A keyword given twice is refused as such: if the tokens before a comma
/// are a configuration that gives `keyword`, and the same keyword follows
/// that comma, the whole fails with the fault that names the keyword, its
/// second place and its first.
pub proof fn lemma_duplicate_keyword(tokens: Seq<Token>, split: int, keyword: Keyword)
    requires
        0 < split,
        split + 1 < tokens.len() <= usize::MAX,
        config_parse(tokens.take(split)) is Ok,
        config_parse(tokens.take(split))->Ok_0.seen(keyword) is Some,
        !is_punct(tokens, split - 1, ','),
        is_punct(tokens, split, ','),
        tokens[split + 1] == Token::Ident(keyword.text()),
    ensures
        args_parse(tokens) == Err::<ArgsView, ParseError>(
            ParseError::AlreadyDefined {
                keyword,
                at: (split + 1) as usize,
                first: config_parse(tokens.take(split))->Ok_0.seen(keyword)->Some_0,
            },
        ),
{
    let prefix = tokens.take(split);
    lemma_keyword_round_trip(keyword);
    lemma_after_visibility_prefix(tokens, split, 0);
    lemma_is_name_prefix(tokens, split, after_visibility(tokens, 0));
    let (item, next) = item_parse(prefix)->Ok_0;
    assert(item_parse(tokens) == Ok::<(crate::args::GenItemView, int), ParseError>((item, next)));
    lemma_list_parse_prefix(tokens, split, next, ArgList::initial(item));
}

/// A comma at the end changes nothing: a configuration that ends in no
/// comma says the same with one behind it.
pub proof fn lemma_trailing_comma(tokens: Seq<Token>, joint: bool)
    requires
        config_parse(tokens) is Ok,
        !is_punct(tokens, tokens.len() - 1, ','),
    ensures
        config_parse(tokens.push(Token::Punct(',', joint))) == config_parse(tokens),
        args_parse(tokens.push(Token::Punct(',', joint))) == args_parse(tokens),
{
    let longer = tokens.push(Token::Punct(',', joint));
    let split = tokens.len() as int;
    assert(longer.take(split) =~= tokens);
    lemma_after_visibility_prefix(longer, split, 0);
    lemma_is_name_prefix(longer, split, after_visibility(longer, 0));
    let (item, next) = item_parse(tokens)->Ok_0;
    assert(item_parse(longer) == Ok::<(crate::args::GenItemView, int), ParseError>((item, next)));
    assert(keyword_at(longer, 0) == keyword_at(tokens, 0));
    lemma_list_parse_prefix(longer, split, next, ArgList::initial(item));
}

/// Keywords of different kinds may change places: what two values that
/// stand side by side say together does not depend on which comes first,
/// unless both are values of the same keyword.
pub proof fn lemma_apply_commutes(args: ArgsView, first: ArgView, second: ArgView)
    requires
        kind_of(first) != kind_of(second),
    ensures
        apply(apply(args, first), second) == apply(apply(args, second), first),
{
}

/// The order of the keywords does not count: a list of values in which two
/// neighbours of different kinds have changed places makes the same
/// configuration.
pub proof fn lemma_order_does_not_count(item: GenItemView, list: Seq<ArgView>, at: int)
    requires
        0 <= at,
        at + 1 < list.len(),
        kind_of(list[at]) != kind_of(list[at + 1]),
    ensures
        collect(item, list.update(at, list[at + 1]).update(at + 1, list[at])) == collect(
            item,
            list,
        ),
    decreases list.len(),
{
    let swapped = list.update(at, list[at + 1]).update(at + 1, list[at]);
    if at + 2 == list.len() {
        let front = list.drop_last().drop_last();
        assert(swapped.drop_last().drop_last() =~= front);
        assert(swapped.drop_last().last() == list[at + 1]);
        assert(list.drop_last().last() == list[at]);
        assert(swapped.last() == list[at]);
        assert(list.last() == list[at + 1]);
        assert(collect(item, list.drop_last()) == apply(collect(item, front), list[at]));
        assert(collect(item, swapped.drop_last()) == apply(collect(item, front), list[at + 1]));
        lemma_apply_commutes(collect(item, front), list[at], list[at + 1]);
    } else {
        assert(swapped.drop_last() =~= list.drop_last().update(at, list[at + 1]).update(
            at + 1,
            list[at],
        ));
        assert(swapped.last() == list.last());
        lemma_order_does_not_count(item, list.drop_last(), at);
    }
}

} // verus!
