//! Reading a configuration from its tokens.

use vstd::prelude::*;
use crate::args::grammar::{
    after_visibility, args_parse, attr_list, attrs_parse, collect, config_parse, doc_parse,
    group_parse, is_name, item_parse, keyword_at, list_parse, merge_parse, skip_comma,
    wrapper_parse,
};
use crate::args::keyword::{Expected, Keyword, ParseError};
use crate::args::{
    arg_views, Arg, ArgList, ArgListView, Args, ArgsView, AttrList, Attrs, AttrsView, Doc, DocView,
    GenItem, GenItemView, MergeFn, MergeFnName,
};
use crate::schema::{attr_views, lemma_attr_views_push, Attr, AttrView, Ident, Visibility};
use crate::syntax::{is_identifier, is_visibility, split_meta, string_value};
use crate::tokens::{is_ident, opened, Delimiter, Token, TokenList, Tokens};

verus! {

/// The name at `pos`, if an identifier that can be a name stands there.
pub fn name_at(input: &TokenList, pos: usize) -> (r: Option<Ident>)
    requires
        input.wf(),
    ensures
        match r {
            Some(name) => is_name(input@, pos as int) && name@ == input@[pos as int]->Ident_0
                && name.wf(),
            None => !is_name(input@, pos as int),
        },
{
    let len = input.len();
    match input.word_at(pos) {
        Some(text) => {
            let tokens = input.slice(pos, pos + 1);
            if is_identifier(&tokens.0) {
                assert(tokens@ =~= seq![Token::Ident(text@)]);
                Some(Ident { name: text, tokens })
            } else {
                None
            }
        },
        None => None,
    }
}

/// The visibility that starts at `pos`, if one does, and where it ends.
pub fn visibility_at(input: &TokenList, pos: usize) -> (r: (Option<Tokens>, usize))
    requires
        input.wf(),
        pos <= input@.len(),
    ensures
        r.1 == after_visibility(input@, pos as int),
        pos <= r.1 <= input@.len(),
        r.0 is Some <==> is_ident(input@, pos as int, "pub"@),
        match r.0 {
            Some(tokens) => tokens@ == input@.subrange(pos as int, r.1 as int),
            None => true,
        },
{
    let len = input.len();
    if input.is_word(pos, "pub") {
        let mut end = pos + 1;
        if end < len {
            match input.group_at(end) {
                Some((Delimiter::Parenthesis, _)) => {
                    if is_visibility(&input.slice(pos, pos + 2).0) {
                        end = pos + 2;
                    }
                },
                _ => {},
            }
        }
        (Some(input.slice(pos, end)), end)
    } else {
        (None, pos)
    }
}

impl GenItem {
    /// Reads the visibility, if there is one, and the name that a
    /// configuration starts with; gives them and the place behind the name.
    pub fn parse(input: &TokenList) -> (r: Result<(GenItem, usize), ParseError>)
        requires
            input.wf(),
        ensures
            match r {
                Ok((item, next)) => item_parse(input@) == Ok::<(GenItemView, int), ParseError>(
                    (item@, next as int),
                ) && item.name.wf() && next <= input@.len(),
                Err(fault) => item_parse(input@) == Err::<(GenItemView, int), ParseError>(fault),
            },
    {
        let len = input.len();
        let (visibility, at) = visibility_at(input, 0);
        match name_at(input, at) {
            Some(name) => {
                let visibility = match visibility {
                    Some(tokens) => Some(Visibility::Declared(tokens)),
                    None => None,
                };
                Ok((GenItem { name, visibility }, at + 1))
            },
            None => Err(ParseError::Unexpected { at, expected: Expected::Identifier }),
        }
    }
}

impl Doc {
    /// Reads the keyword `doc` at `pos` with its value, a string if one is
    /// given; gives the value and the place behind it.
    pub fn parse(input: &TokenList, pos: usize) -> (r: Result<(Doc, usize), ParseError>)
        requires
            input.wf(),
            pos < input@.len(),
        ensures
            match r {
                Ok((doc, next)) => doc_parse(input@, pos as int) == Ok::<(DocView, int), ParseError>(
                    (doc@, next as int),
                ) && pos < next <= input@.len(),
                Err(fault) => doc_parse(input@, pos as int) == Err::<(DocView, int), ParseError>(
                    fault,
                ),
            },
    {
        let len = input.len();
        if input.is_punct(pos + 1, '=') {
            let at = pos + 2;
            if at < len {
                match string_value(&input.slice(at, at + 1).0) {
                    Some(text) => Ok((Doc::Custom(text), at + 1)),
                    None => Err(ParseError::Unexpected { at, expected: Expected::StringLiteral }),
                }
            } else {
                Err(ParseError::Unexpected { at, expected: Expected::StringLiteral })
            }
        } else {
            Ok((Doc::Same, pos + 1))
        }
    }
}

impl MergeFn {
    /// Reads the keyword `merge_fn` at `pos` with its value, a visibility
    /// or a name or both if they are given; gives the value and the place
    /// behind it.
    pub fn parse(input: &TokenList, pos: usize) -> (r: (MergeFn, usize))
        requires
            input.wf(),
            pos < input@.len(),
        ensures
            merge_parse(input@, pos as int) == (r.0@, r.1 as int),
            r.0.name.wf(),
            pos < r.1 <= input@.len(),
    {
        let len = input.len();
        if input.is_punct(pos + 1, '=') {
            let (given, at) = visibility_at(input, pos + 2);
            let visibility = match given {
                Some(tokens) => Visibility::Declared(tokens),
                None => Visibility::Inherited,
            };
            assert(visibility@ =~= input@.subrange(pos + 2, at as int));
            match name_at(input, at) {
                Some(name) => (MergeFn { visibility, name: MergeFnName::Custom(name) }, at + 1),
                None => (MergeFn { visibility, name: MergeFnName::Default }, at),
            }
        } else {
            (MergeFn::default(), pos + 1)
        }
    }
}

/// The list that follows when `head` stands before what `tail` lists.
pub open spec fn prepend(head: Seq<AttrView>, tail: Option<Seq<AttrView>>) -> Option<
    Seq<AttrView>,
> {
    match tail {
        Some(tail) => Some(head + tail),
        None => None,
    }
}

impl AttrList {
    /// Reads the content of a group as a list of attributes, each with or
    /// without a comma behind it. Invisible groups in the content are
    /// opened. Gives nothing if the content is no such list.
    pub fn parse(tokens: Tokens) -> (r: Option<AttrList>)
        ensures
            match r {
                Some(list) => attr_list(opened(tokens@)) == Some(list@),
                None => attr_list(opened(tokens@)) is None,
            },
    {
        let mut attrs: Vec<Attr> = Vec::new();
        let mut rest = TokenList::new(tokens.opened());
        assert(attr_views(attrs@) =~= Seq::empty());
        assert(Seq::<AttrView>::empty() + attr_list(rest@).unwrap() =~= attr_list(rest@).unwrap());
        loop
            invariant
                rest.wf(),
                prepend(attr_views(attrs@), attr_list(rest@)) == attr_list(opened(tokens@)),
            decreases rest@.len(),
        {
            if rest.len() == 0 {
                assert(attr_views(attrs@) + Seq::<AttrView>::empty() =~= attr_views(attrs@));
                return Some(AttrList(attrs));
            }
            match split_meta(&rest.stream.0) {
                None => {
                    return None;
                },
                Some((meta, after)) => {
                    match Attr::parse(Tokens(meta)) {
                        Err(_) => {
                            return None;
                        },
                        Ok(attr) => {
                            let after = TokenList::new(Tokens(after));
                            let next = if after.is_punct(0, ',') {
                                TokenList::new(after.slice(1, after.len()))
                            } else {
                                after
                            };
                            assert(next@ == skip_comma(after@));
                            if next.len() >= rest.len() {
                                return None;
                            }
                            proof {
                                let head = attr_views(attrs@);
                                lemma_attr_views_push(attrs@, attr);
                                match attr_list(next@) {
                                    Some(tail) => {
                                        assert(head + (seq![attr@] + tail) =~= head.push(attr@)
                                            + tail);
                                    },
                                    None => {},
                                }
                            }
                            attrs.push(attr);
                            rest = next;
                        },
                    }
                },
            }
        }
    }
}

impl Attrs {
    /// Reads the group at `at` as a list of attributes.
    pub fn parse_attr_list(input: &TokenList, at: usize) -> (r: Result<Vec<Attr>, ParseError>)
        requires
            input.wf(),
        ensures
            match r {
                Ok(list) => group_parse(input@, at as int) == Ok::<Seq<AttrView>, ParseError>(
                    attr_views(list@),
                ) && at < input@.len(),
                Err(fault) => group_parse(input@, at as int) == Err::<Seq<AttrView>, ParseError>(
                    fault,
                ),
            },
    {
        match input.group_at(at) {
            Some((delimiter, inner)) => {
                if delimiter == Delimiter::Invisible {
                    Err(ParseError::Unexpected { at, expected: Expected::Group })
                } else {
                    match AttrList::parse(inner) {
                        Some(list) => Ok(list.0),
                        None => Err(
                            ParseError::Unexpected { at, expected: Expected::AttributeList },
                        ),
                    }
                }
            },
            None => Err(ParseError::Unexpected { at, expected: Expected::Group }),
        }
    }

    /// Reads what follows the keyword `attrs` or `field_attrs` at `pos`: a
    /// list of attributes to replace the original ones with, or to add to
    /// them, if one is given; gives the value and the place behind it.
    pub fn parse(input: &TokenList, pos: usize) -> (r: Result<(Attrs, usize), ParseError>)
        requires
            input.wf(),
            pos < input@.len(),
        ensures
            match r {
                Ok((attrs, next)) => attrs_parse(input@, pos as int) == Ok::<
                    (AttrsView, int),
                    ParseError,
                >((attrs@, next as int)) && pos < next <= input@.len(),
                Err(fault) => attrs_parse(input@, pos as int) == Err::<
                    (AttrsView, int),
                    ParseError,
                >(fault),
            },
    {
        let len = input.len();
        if input.is_punct(pos + 1, '=') {
            if input.is_word(pos + 2, "add") {
                match Attrs::parse_attr_list(input, pos + 3) {
                    Ok(list) => Ok((Attrs::Add(list), pos + 4)),
                    Err(fault) => Err(fault),
                }
            } else {
                match Attrs::parse_attr_list(input, pos + 2) {
                    Ok(list) => Ok((Attrs::Replace(list), pos + 3)),
                    Err(fault) => Err(fault),
                }
            }
        } else {
            Ok((Attrs::Keep, pos + 1))
        }
    }
}

/// Reads the keyword `wrapper` at `pos` with the name of the container that
/// it must give; gives the name and the place behind it.
pub fn parse_wrapper_name(input: &TokenList, pos: usize) -> (r: Result<(Ident, usize), ParseError>)
    requires
        input.wf(),
        pos < input@.len(),
    ensures
        match r {
            Ok((name, next)) => wrapper_parse(input@, pos as int) == Ok::<
                (Seq<char>, int),
                ParseError,
            >((name@, next as int)) && name.wf() && pos < next <= input@.len(),
            Err(fault) => wrapper_parse(input@, pos as int) == Err::<(Seq<char>, int), ParseError>(
                fault,
            ),
        },
{
    let len = input.len();
    if !input.is_punct(pos + 1, '=') {
        Err(ParseError::Unexpected { at: pos + 1, expected: Expected::Equals })
    } else {
        match name_at(input, pos + 2) {
            Some(name) => Ok((name, pos + 3)),
            None => Err(ParseError::Unexpected { at: pos + 2, expected: Expected::Identifier }),
        }
    }
}

/// The views of a list grow with the list.
pub proof fn lemma_arg_views_push(args: Seq<Arg>, arg: Arg)
    ensures
        arg_views(args.push(arg)) == arg_views(args).push(arg@),
{
    assert(arg_views(args.push(arg)) =~= arg_views(args).push(arg@));
}

impl ArgList {
    /// Whether the configuration starts with a keyword.
    pub fn next_is_kw(input: &TokenList) -> (r: bool)
        requires
            input.wf(),
        ensures
            r == keyword_at(input@, 0) is Some,
    {
        match input.word_at(0) {
            Some(text) => Keyword::of(text.as_str()).is_some(),
            None => false,
        }
    }

    /// The fault of a keyword that stands at `at` and stood at `first` before.
    pub fn already_defined_error(keyword: Keyword, at: usize, first: usize) -> (r: Result<
        usize,
        ParseError,
    >)
        ensures
            r == Err::<usize, ParseError>(ParseError::AlreadyDefined { keyword, at, first }),
    {
        Err(ParseError::AlreadyDefined { keyword, at, first })
    }

    /// Takes in the keyword `doc` at `pos`, unless it was given before.
    pub fn parse_doc(&mut self, input: &TokenList, pos: usize) -> (r: Result<usize, ParseError>)
        requires
            old(self).wf(),
            input.wf(),
            pos < input@.len(),
        ensures
            stepped(old(self)@, input@, pos, Keyword::Doc, final(self)@, r),
            r is Ok ==> final(self).wf(),
    {
        if let Some(first) = self.doc {
            return ArgList::already_defined_error(Keyword::Doc, pos, first);
        }
        match Doc::parse(input, pos) {
            Ok((doc, next)) => {
                proof {
                    lemma_arg_views_push(self.list@, Arg::Doc(doc));
                }
                self.doc = Some(pos);
                self.list.push(Arg::Doc(doc));
                Ok(next)
            },
            Err(fault) => Err(fault),
        }
    }

    /// Takes in the keyword `merge_fn` at `pos`, unless it was given before.
    pub fn parse_merge(&mut self, input: &TokenList, pos: usize) -> (r: Result<usize, ParseError>)
        requires
            old(self).wf(),
            input.wf(),
            pos < input@.len(),
        ensures
            stepped(old(self)@, input@, pos, Keyword::MergeFn, final(self)@, r),
            r is Ok ==> final(self).wf(),
    {
        if let Some(first) = self.merge {
            return ArgList::already_defined_error(Keyword::MergeFn, pos, first);
        }
        let (merge, next) = MergeFn::parse(input, pos);
        proof {
            lemma_arg_views_push(self.list@, Arg::Merge(merge));
        }
        self.merge = Some(pos);
        self.list.push(Arg::Merge(merge));
        Ok(next)
    }

    /// Takes in the keyword `rewrap` at `pos`, unless it was given before.
    pub fn parse_rewrap(&mut self, input: &TokenList, pos: usize) -> (r: Result<usize, ParseError>)
        requires
            old(self).wf(),
            input.wf(),
            pos < input@.len(),
        ensures
            stepped(old(self)@, input@, pos, Keyword::Rewrap, final(self)@, r),
            r is Ok ==> final(self).wf(),
    {
        let len = input.len();
        if let Some(first) = self.rewrap {
            return ArgList::already_defined_error(Keyword::Rewrap, pos, first);
        }
        proof {
            lemma_arg_views_push(self.list@, Arg::Rewrap(true));
        }
        self.rewrap = Some(pos);
        self.list.push(Arg::Rewrap(true));
        Ok(pos + 1)
    }

    /// Takes in the keyword `attrs` at `pos`, unless it was given before.
    pub fn parse_attrs(&mut self, input: &TokenList, pos: usize) -> (r: Result<usize, ParseError>)
        requires
            old(self).wf(),
            input.wf(),
            pos < input@.len(),
        ensures
            stepped(old(self)@, input@, pos, Keyword::Attrs, final(self)@, r),
            r is Ok ==> final(self).wf(),
    {
        if let Some(first) = self.attrs {
            return ArgList::already_defined_error(Keyword::Attrs, pos, first);
        }
        match Attrs::parse(input, pos) {
            Ok((attrs, next)) => {
                proof {
                    lemma_arg_views_push(self.list@, Arg::Attrs(attrs));
                }
                self.attrs = Some(pos);
                self.list.push(Arg::Attrs(attrs));
                Ok(next)
            },
            Err(fault) => Err(fault),
        }
    }

    /// Takes in the keyword `field_doc` at `pos`, unless it was given before.
    pub fn parse_field_doc(&mut self, input: &TokenList, pos: usize) -> (r: Result<
        usize,
        ParseError,
    >)
        requires
            old(self).wf(),
            input.wf(),
            pos < input@.len(),
        ensures
            stepped(old(self)@, input@, pos, Keyword::FieldDoc, final(self)@, r),
            r is Ok ==> final(self).wf(),
    {
        let len = input.len();
        if let Some(first) = self.field_doc {
            return ArgList::already_defined_error(Keyword::FieldDoc, pos, first);
        }
        proof {
            lemma_arg_views_push(self.list@, Arg::FieldDocs(true));
        }
        self.field_doc = Some(pos);
        self.list.push(Arg::FieldDocs(true));
        Ok(pos + 1)
    }

    /// Takes in the keyword `field_attrs` at `pos`, unless it was given before.
    pub fn parse_field_attrs(&mut self, input: &TokenList, pos: usize) -> (r: Result<
        usize,
        ParseError,
    >)
        requires
            old(self).wf(),
            input.wf(),
            pos < input@.len(),
        ensures
            stepped(old(self)@, input@, pos, Keyword::FieldAttrs, final(self)@, r),
            r is Ok ==> final(self).wf(),
    {
        if let Some(first) = self.field_attrs {
            return ArgList::already_defined_error(Keyword::FieldAttrs, pos, first);
        }
        match Attrs::parse(input, pos) {
            Ok((attrs, next)) => {
                proof {
                    lemma_arg_views_push(self.list@, Arg::FieldAttrs(attrs));
                }
                self.field_attrs = Some(pos);
                self.list.push(Arg::FieldAttrs(attrs));
                Ok(next)
            },
            Err(fault) => Err(fault),
        }
    }

    /// Takes in the keyword `from` at `pos`, unless it was given before.
    pub fn parse_from(&mut self, input: &TokenList, pos: usize) -> (r: Result<usize, ParseError>)
        requires
            old(self).wf(),
            input.wf(),
            pos < input@.len(),
        ensures
            stepped(old(self)@, input@, pos, Keyword::From, final(self)@, r),
            r is Ok ==> final(self).wf(),
    {
        let len = input.len();
        if let Some(first) = self.from {
            return ArgList::already_defined_error(Keyword::From, pos, first);
        }
        proof {
            lemma_arg_views_push(self.list@, Arg::From(true));
        }
        self.from = Some(pos);
        self.list.push(Arg::From(true));
        Ok(pos + 1)
    }

    /// Takes in the keyword `wrapper` at `pos`, unless it was given before.
    pub fn parse_wrapper(&mut self, input: &TokenList, pos: usize) -> (r: Result<usize, ParseError>)
        requires
            old(self).wf(),
            input.wf(),
            pos < input@.len(),
        ensures
            stepped(old(self)@, input@, pos, Keyword::Wrapper, final(self)@, r),
            r is Ok ==> final(self).wf(),
    {
        if let Some(first) = self.wrapper {
            return ArgList::already_defined_error(Keyword::Wrapper, pos, first);
        }
        match parse_wrapper_name(input, pos) {
            Ok((name, next)) => {
                proof {
                    lemma_arg_views_push(self.list@, Arg::Wrapper(name));
                }
                self.wrapper = Some(pos);
                self.list.push(Arg::Wrapper(name));
                Ok(next)
            },
            Err(fault) => Err(fault),
        }
    }

    /// Reads a whole configuration: the name, then the keywords in the
    /// order in which they stand, each at most once.
    pub fn parse(input: &TokenList) -> (r: Result<ArgList, ParseError>)
        requires
            input.wf(),
        ensures
            match r {
                Ok(list) => config_parse(input@) == Ok::<ArgListView, ParseError>(list@)
                    && list.wf(),
                Err(fault) => config_parse(input@) == Err::<ArgListView, ParseError>(fault),
            },
    {
        let len = input.len();
        if len == 0 {
            return Err(ParseError::MissingName);
        }
        if ArgList::next_is_kw(input) {
            return Err(ParseError::NameNotFirst);
        }
        let (item, start) = match GenItem::parse(input) {
            Ok(read) => read,
            Err(fault) => {
                return Err(fault);
            },
        };
        let ghost whole = config_parse(input@);
        let mut arg_list = ArgList::new(item);
        let mut pos = start;
        while pos < len
            invariant
                input.wf(),
                len == input@.len(),
                pos <= len,
                arg_list.wf(),
                whole == config_parse(input@),
                list_parse(input@, pos as int, arg_list@) == whole,
            decreases len - pos,
        {
            if !input.is_punct(pos, ',') {
                return Err(ParseError::Unexpected { at: pos, expected: Expected::Comma });
            }
            let at = pos + 1;
            // a comma may end the configuration
            if at >= len {
                return Ok(arg_list);
            }
            let keyword = match input.word_at(at) {
                Some(text) => Keyword::of(text.as_str()),
                None => None,
            };
            let read = match keyword {
                None => {
                    return Err(ParseError::Unexpected { at, expected: Expected::Keyword });
                },
                Some(Keyword::Doc) => arg_list.parse_doc(input, at),
                Some(Keyword::MergeFn) => arg_list.parse_merge(input, at),
                Some(Keyword::Rewrap) => arg_list.parse_rewrap(input, at),
                Some(Keyword::Attrs) => arg_list.parse_attrs(input, at),
                Some(Keyword::FieldDoc) => arg_list.parse_field_doc(input, at),
                Some(Keyword::FieldAttrs) => arg_list.parse_field_attrs(input, at),
                Some(Keyword::From) => arg_list.parse_from(input, at),
                Some(Keyword::Wrapper) => arg_list.parse_wrapper(input, at),
            };
            match read {
                Ok(next) => {
                    pos = next;
                },
                Err(fault) => {
                    return Err(fault);
                },
            }
        }
        Ok(arg_list)
    }
}

/// What a method that takes in one keyword leaves behind: the fault of the
/// step, or the state after it and the place behind the keyword's value.
pub open spec fn stepped(
    before: ArgListView,
    tokens: Seq<Token>,
    pos: usize,
    keyword: Keyword,
    after: ArgListView,
    r: Result<usize, ParseError>,
) -> bool {
    match r {
        Ok(next) => before.step(tokens, pos as int, keyword) == Ok::<
            (ArgListView, int),
            ParseError,
        >((after, next as int)) && pos < next <= tokens.len(),
        Err(fault) => before.step(tokens, pos as int, keyword) == Err::<
            (ArgListView, int),
            ParseError,
        >(fault),
    }
}

impl Args {
    /// The configuration that the keywords read make: each sets what it
    /// stands for.
    pub fn from(arg_list: ArgList) -> (args: Args)
        requires
            arg_list.wf(),
        ensures
            args@ == collect(arg_list@.item, arg_list@.list),
            args.wf(),
    {
        let ghost item = arg_list@.item;
        let ghost views = arg_list@.list;
        let ghost given = arg_list.list@;
        let mut args = Args::new(arg_list.item);
        let mut list = arg_list.list;
        let ghost mut done: int = 0;
        assert(views.take(0) =~= Seq::empty());
        while list.len() > 0
            invariant
                0 <= done <= given.len(),
                views == arg_views(given),
                list@ == given.skip(done),
                forall|i: int| 0 <= i < given.len() ==> (#[trigger] given[i]).wf(),
                args@ == collect(item, views.take(done)),
                args.wf(),
            decreases list.len(),
        {
            let arg = list.remove(0);
            proof {
                assert(arg == given[done]);
                assert(views.take(done + 1).drop_last() =~= views.take(done));
                assert(views.take(done + 1).last() == arg@);
                done = done + 1;
            }
            match arg {
                Arg::Merge(merge) => args.merge = Some(merge),
                Arg::Doc(doc) => args.doc = Some(doc),
                Arg::Rewrap(rewrap) => args.rewrap = rewrap,
                Arg::Attrs(attrs) => args.attrs = Some(attrs),
                Arg::FieldDocs(field_doc) => args.field_doc = field_doc,
                Arg::FieldAttrs(field_attrs) => args.field_attrs = Some(field_attrs),
                Arg::From(from) => args.from = from,
                Arg::Wrapper(wrapper) => args.wrapper = Some(wrapper),
            }
            assert(list@ =~= given.skip(done));
        }
        assert(views.take(done) =~= views);
        args
    }

    /// Reads a configuration from its tokens. Invisible groups among them
    /// are opened first, and the positions in a fault count the tokens
    /// after that.
    pub fn parse(tokens: &Tokens) -> (r: Result<Args, ParseError>)
        ensures
            match r {
                Ok(args) => args_parse(opened(tokens@)) == Ok::<ArgsView, ParseError>(args@)
                    && args.wf(),
                Err(fault) => args_parse(opened(tokens@)) == Err::<ArgsView, ParseError>(fault),
            },
    {
        let input = TokenList::new(tokens.opened());
        match ArgList::parse(&input) {
            Ok(arg_list) => Ok(Args::from(arg_list)),
            Err(fault) => Err(fault),
        }
    }
}

} // verus!
