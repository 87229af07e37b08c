//! The grammar of a configuration, as functions on token sequences.
//!
//! A configuration is the name of the derived record, with a visibility
//! before it if wanted, and then keywords, each after a comma and each at
//! most once; a comma may end it:
//!
//! ```text
//! config  := [visibility] name { "," keyword } [","]
//! keyword := "doc" [ "=" string ]
//!          | "merge_fn" [ "=" [visibility] [name] ]
//!          | "attrs" [ "=" ["add"] group ]
//!          | "field_attrs" [ "=" ["add"] group ]
//!          | "wrapper" "=" name
//!          | "rewrap" | "field_doc" | "from"
//! ```
//!
//! Positions count token trees from zero. The grammar reads tokens among
//! which no invisible group stands: the readers open such groups first.

use vstd::prelude::*;
use crate::args::keyword::{keyword_of, Expected, Keyword, ParseError};
use crate::args::{
    ArgListView, ArgView, Args, ArgsView, AttrsView, DocView, GenItemView, MergeFnView,
};
use crate::schema::AttrView;
use crate::syntax::{identifier_ok, meta_parse, meta_split, string_literal, visibility_ok};
use crate::tokens::{is_group, is_ident, is_punct, opened, Delimiter, Token};

verus! {

/// Whether at `pos` stands an identifier that can be a name.
pub open spec fn is_name(tokens: Seq<Token>, pos: int) -> bool {
    &&& 0 <= pos < tokens.len()
    &&& tokens[pos] is Ident
    &&& identifier_ok(tokens.subrange(pos, pos + 1))
}

/// Where the visibility ends that starts with the `pub` at `pos`: behind
/// the group in parentheses after it, if the two together are a visibility,
/// and else behind the `pub`.
pub open spec fn visibility_end(tokens: Seq<Token>, pos: int) -> int {
    if pos + 1 < tokens.len() && tokens[pos + 1] is Group && tokens[pos + 1]->Group_0
        == Delimiter::Parenthesis && visibility_ok(tokens.subrange(pos, pos + 2)) {
        pos + 2
    } else {
        pos + 1
    }
}

/// Where what stands at `pos` ends if it is a visibility: at `pos` itself if
/// no `pub` stands there.
pub open spec fn after_visibility(tokens: Seq<Token>, pos: int) -> int {
    if is_ident(tokens, pos, "pub"@) {
        visibility_end(tokens, pos)
    } else {
        pos
    }
}

/// The visibility and name that a configuration starts with, and where the
/// keywords start.
pub open spec fn item_parse(tokens: Seq<Token>) -> Result<(GenItemView, int), ParseError> {
    let at = after_visibility(tokens, 0);
    if is_name(tokens, at) {
        Ok(
            (
                GenItemView {
                    name: tokens[at]->Ident_0,
                    visibility: if is_ident(tokens, 0, "pub"@) {
                        Some(tokens.subrange(0, at))
                    } else {
                        None
                    },
                },
                at + 1,
            ),
        )
    } else {
        Err(ParseError::Unexpected { at: at as usize, expected: Expected::Identifier })
    }
}

/// The value of the keyword `doc` at `pos`, and where it ends.
pub open spec fn doc_parse(tokens: Seq<Token>, pos: int) -> Result<(DocView, int), ParseError> {
    if is_punct(tokens, pos + 1, '=') {
        if pos + 2 < tokens.len() {
            match string_literal(tokens.subrange(pos + 2, pos + 3)) {
                Some(text) => Ok((DocView::Custom(text), pos + 3)),
                None => Err(
                    ParseError::Unexpected {
                        at: (pos + 2) as usize,
                        expected: Expected::StringLiteral,
                    },
                ),
            }
        } else {
            Err(
                ParseError::Unexpected {
                    at: (pos + 2) as usize,
                    expected: Expected::StringLiteral,
                },
            )
        }
    } else {
        Ok((DocView::Same, pos + 1))
    }
}

/// The value of the keyword `merge_fn` at `pos`, and where it ends.
pub open spec fn merge_parse(tokens: Seq<Token>, pos: int) -> (MergeFnView, int) {
    if is_punct(tokens, pos + 1, '=') {
        let at = after_visibility(tokens, pos + 2);
        let visibility = tokens.subrange(pos + 2, at);
        if is_name(tokens, at) {
            (MergeFnView { visibility, name: Some(tokens[at]->Ident_0) }, at + 1)
        } else {
            (MergeFnView { visibility, name: None }, at)
        }
    } else {
        (MergeFnView { visibility: Seq::empty(), name: None }, pos + 1)
    }
}

/// The tokens without the comma that they may start with.
pub open spec fn skip_comma(tokens: Seq<Token>) -> Seq<Token> {
    if is_punct(tokens, 0, ',') {
        tokens.skip(1)
    } else {
        tokens
    }
}

/// The attributes that the content of a group lists: one after the other,
/// with or without a comma behind each. Nothing if the content is no such
/// list.
pub open spec fn attr_list(tokens: Seq<Token>) -> Option<Seq<AttrView>>
    decreases tokens.len(),
{
    if tokens.len() == 0 {
        Some(Seq::empty())
    } else {
        match meta_split(tokens) {
            None => None,
            Some((meta, rest)) => match meta_parse(meta) {
                Err(_) => None,
                Ok(name) => {
                    let rest = skip_comma(rest);
                    if rest.len() < tokens.len() {
                        match attr_list(rest) {
                            Some(tail) => Some(seq![AttrView { name, tokens: meta }] + tail),
                            None => None,
                        }
                    } else {
                        None
                    }
                },
            },
        }
    }
}

/// The group that lists attributes at `at`. Invisible groups in it are
/// opened.
pub open spec fn group_parse(tokens: Seq<Token>, at: int) -> Result<Seq<AttrView>, ParseError> {
    if is_group(tokens, at) {
        match attr_list(opened(tokens[at]->Group_1)) {
            Some(list) => Ok(list),
            None => Err(
                ParseError::Unexpected { at: at as usize, expected: Expected::AttributeList },
            ),
        }
    } else {
        Err(ParseError::Unexpected { at: at as usize, expected: Expected::Group })
    }
}

/// The value that stands behind the keyword `attrs` or `field_attrs` at
/// `pos`, and where it ends.
pub open spec fn attrs_parse(tokens: Seq<Token>, pos: int) -> Result<(AttrsView, int), ParseError> {
    if is_punct(tokens, pos + 1, '=') {
        if is_ident(tokens, pos + 2, "add"@) {
            match group_parse(tokens, pos + 3) {
                Ok(list) => Ok((AttrsView::Add(list), pos + 4)),
                Err(fault) => Err(fault),
            }
        } else {
            match group_parse(tokens, pos + 2) {
                Ok(list) => Ok((AttrsView::Replace(list), pos + 3)),
                Err(fault) => Err(fault),
            }
        }
    } else {
        Ok((AttrsView::Keep, pos + 1))
    }
}

/// The value of the keyword `wrapper` at `pos`, and where it ends.
pub open spec fn wrapper_parse(tokens: Seq<Token>, pos: int) -> Result<(Seq<char>, int), ParseError> {
    if !is_punct(tokens, pos + 1, '=') {
        Err(ParseError::Unexpected { at: (pos + 1) as usize, expected: Expected::Equals })
    } else if !is_name(tokens, pos + 2) {
        Err(ParseError::Unexpected { at: (pos + 2) as usize, expected: Expected::Identifier })
    } else {
        Ok((tokens[pos + 2]->Ident_0, pos + 3))
    }
}

/// The keyword at `pos`, if one stands there.
pub open spec fn keyword_at(tokens: Seq<Token>, pos: int) -> Option<Keyword> {
    if 0 <= pos < tokens.len() && tokens[pos] is Ident {
        keyword_of(tokens[pos]->Ident_0)
    } else {
        None
    }
}

/// The keyword at `pos` with its value, and where the value ends.
pub open spec fn keyword_parse(tokens: Seq<Token>, pos: int, keyword: Keyword) -> Result<
    (ArgView, int),
    ParseError,
> {
    match keyword {
        Keyword::Doc => match doc_parse(tokens, pos) {
            Ok((doc, next)) => Ok((ArgView::Doc(doc), next)),
            Err(fault) => Err(fault),
        },
        Keyword::MergeFn => Ok((ArgView::Merge(merge_parse(tokens, pos).0), merge_parse(tokens, pos).1)),
        Keyword::Rewrap => Ok((ArgView::Rewrap(true), pos + 1)),
        Keyword::Attrs => match attrs_parse(tokens, pos) {
            Ok((attrs, next)) => Ok((ArgView::Attrs(attrs), next)),
            Err(fault) => Err(fault),
        },
        Keyword::FieldDoc => Ok((ArgView::FieldDocs(true), pos + 1)),
        Keyword::FieldAttrs => match attrs_parse(tokens, pos) {
            Ok((attrs, next)) => Ok((ArgView::FieldAttrs(attrs), next)),
            Err(fault) => Err(fault),
        },
        Keyword::From => Ok((ArgView::From(true), pos + 1)),
        Keyword::Wrapper => match wrapper_parse(tokens, pos) {
            Ok((name, next)) => Ok((ArgView::Wrapper(name), next)),
            Err(fault) => Err(fault),
        },
    }
}

impl ArgListView {
    /// Where the keyword was read, if it was.
    pub open spec fn seen(self, keyword: Keyword) -> Option<usize> {
        match keyword {
            Keyword::Doc => self.doc,
            Keyword::MergeFn => self.merge,
            Keyword::Rewrap => self.rewrap,
            Keyword::Attrs => self.attrs,
            Keyword::FieldDoc => self.field_doc,
            Keyword::FieldAttrs => self.field_attrs,
            Keyword::From => self.from,
            Keyword::Wrapper => self.wrapper,
        }
    }

    /// The state after the keyword was read at `pos` with the value `arg`.
    pub open spec fn record(self, keyword: Keyword, pos: usize, arg: ArgView) -> ArgListView {
        let list = self.list.push(arg);
        match keyword {
            Keyword::Doc => ArgListView { doc: Some(pos), list, ..self },
            Keyword::MergeFn => ArgListView { merge: Some(pos), list, ..self },
            Keyword::Rewrap => ArgListView { rewrap: Some(pos), list, ..self },
            Keyword::Attrs => ArgListView { attrs: Some(pos), list, ..self },
            Keyword::FieldDoc => ArgListView { field_doc: Some(pos), list, ..self },
            Keyword::FieldAttrs => ArgListView { field_attrs: Some(pos), list, ..self },
            Keyword::From => ArgListView { from: Some(pos), list, ..self },
            Keyword::Wrapper => ArgListView { wrapper: Some(pos), list, ..self },
        }
    }

    /// Reading the keyword at `pos`: a fault if it was read before or if its
    /// value is malformed, else the state after it and the place behind it.
    pub open spec fn step(self, tokens: Seq<Token>, pos: int, keyword: Keyword) -> Result<
        (ArgListView, int),
        ParseError,
    > {
        match self.seen(keyword) {
            Some(first) => Err(ParseError::AlreadyDefined { keyword, at: pos as usize, first }),
            None => match keyword_parse(tokens, pos, keyword) {
                Ok((arg, next)) => Ok((self.record(keyword, pos as usize, arg), next)),
                Err(fault) => Err(fault),
            },
        }
    }
}

/// Reading the keywords from `pos` on, where a comma, the end, or a fault
/// stands: the state at the end.
pub open spec fn list_parse(tokens: Seq<Token>, pos: int, state: ArgListView) -> Result<
    ArgListView,
    ParseError,
>
    decreases tokens.len() - pos,
{
    if pos >= tokens.len() {
        Ok(state)
    } else if !is_punct(tokens, pos, ',') {
        Err(ParseError::Unexpected { at: pos as usize, expected: Expected::Comma })
    } else if pos + 1 >= tokens.len() {
        Ok(state)
    } else {
        match keyword_at(tokens, pos + 1) {
            None => Err(
                ParseError::Unexpected { at: (pos + 1) as usize, expected: Expected::Keyword },
            ),
            Some(keyword) => match state.step(tokens, pos + 1, keyword) {
                Err(fault) => Err(fault),
                Ok((after, next)) => if pos < next {
                    list_parse(tokens, next, after)
                } else {
                    Ok(after)
                },
            },
        }
    }
}

/// What a configuration says once one more keyword is taken in.
pub open spec fn apply(args: ArgsView, arg: ArgView) -> ArgsView {
    match arg {
        ArgView::Merge(merge) => ArgsView { merge: Some(merge), ..args },
        ArgView::Doc(doc) => ArgsView { doc: Some(doc), ..args },
        ArgView::Rewrap(rewrap) => ArgsView { rewrap, ..args },
        ArgView::Attrs(attrs) => ArgsView { attrs: Some(attrs), ..args },
        ArgView::FieldDocs(field_doc) => ArgsView { field_doc, ..args },
        ArgView::FieldAttrs(field_attrs) => ArgsView { field_attrs: Some(field_attrs), ..args },
        ArgView::From(from) => ArgsView { from, ..args },
        ArgView::Wrapper(wrapper) => ArgsView { wrapper: Some(wrapper), ..args },
    }
}

/// The configuration that a name and a list of keywords with their values make.
pub open spec fn collect(item: GenItemView, list: Seq<ArgView>) -> ArgsView
    decreases list.len(),
{
    if list.len() == 0 {
        Args::initial(item)
    } else {
        apply(collect(item, list.drop_last()), list.last())
    }
}

/// Reading a whole configuration up to the list of its keywords.
pub open spec fn config_parse(tokens: Seq<Token>) -> Result<ArgListView, ParseError> {
    if tokens.len() == 0 {
        Err(ParseError::MissingName)
    } else if keyword_at(tokens, 0) is Some {
        Err(ParseError::NameNotFirst)
    } else {
        match item_parse(tokens) {
            Err(fault) => Err(fault),
            Ok((item, next)) => list_parse(tokens, next, crate::args::ArgList::initial(item)),
        }
    }
}

/// Reading a whole configuration.
pub open spec fn args_parse(tokens: Seq<Token>) -> Result<ArgsView, ParseError> {
    match config_parse(tokens) {
        Err(fault) => Err(fault),
        Ok(list) => Ok(collect(list.item, list.list)),
    }
}

} // verus!
