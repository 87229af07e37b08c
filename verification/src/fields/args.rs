//! The configuration that a single field may carry, and its grammar.
//!
//! It knows the keywords `doc` and `attrs`, with the values that they have
//! in the configuration of a record, each at most once and each after a
//! comma; a comma may end it:
//!
//! ```text
//! overrides := { "," keyword } [","]
//! keyword   := "doc" [ "=" string ] | "attrs" [ "=" ["add"] group ]
//! ```

use vstd::prelude::*;
use crate::args::grammar::{attrs_parse, doc_parse, keyword_at};
use crate::args::keyword::{Expected, Keyword, ParseError};
use crate::args::{option_view, Attrs, AttrsView, Doc, DocView};
use crate::tokens::{is_punct, opened, Token, TokenList, Tokens};

verus! {

/// The overrides of a field as contracts see them.
pub ghost struct FieldArgsView {
    pub doc: Option<DocView>,
    pub attrs: Option<AttrsView>,
}

/// Args declared on a field.
#[derive(Clone, Debug)]
pub struct FieldArgs {
    pub doc: Option<Doc>,
    pub attrs: Option<Attrs>,
}

impl View for FieldArgs {
    type V = FieldArgsView;

    open spec fn view(&self) -> FieldArgsView {
        FieldArgsView { doc: option_view(self.doc), attrs: option_view(self.attrs) }
    }
}

/// One keyword of a field with its value, as contracts see it.
pub ghost enum FieldArgView {
    Doc(DocView),
    Attrs(AttrsView),
}

/// One keyword of a field with its value.
#[derive(Clone, Debug)]
pub enum FieldArg {
    Doc(Doc),
    Attrs(Attrs),
}

impl View for FieldArg {
    type V = FieldArgView;

    open spec fn view(&self) -> FieldArgView {
        match self {
            FieldArg::Doc(doc) => FieldArgView::Doc(doc@),
            FieldArg::Attrs(attrs) => FieldArgView::Attrs(attrs@),
        }
    }
}

/// The views of a list of keywords with their values.
pub open spec fn field_arg_views(args: Seq<FieldArg>) -> Seq<FieldArgView> {
    args.map_values(|arg: FieldArg| arg@)
}

/// The views of a list grow with the list.
pub proof fn lemma_field_arg_views_push(args: Seq<FieldArg>, arg: FieldArg)
    ensures
        field_arg_views(args.push(arg)) == field_arg_views(args).push(arg@),
{
    assert(field_arg_views(args.push(arg)) =~= field_arg_views(args).push(arg@));
}

/// What has been read of the overrides of a field, as contracts see it.
pub ghost struct FieldArgListView {
    pub doc: Option<usize>,
    pub attrs: Option<usize>,
    pub list: Seq<FieldArgView>,
}

/// Parser for unordered args on a field.
#[derive(Clone, Debug)]
pub struct FieldArgList {
    pub doc: Option<usize>,
    pub attrs: Option<usize>,
    pub list: Vec<FieldArg>,
}

impl View for FieldArgList {
    type V = FieldArgListView;

    open spec fn view(&self) -> FieldArgListView {
        FieldArgListView { doc: self.doc, attrs: self.attrs, list: field_arg_views(self.list@) }
    }
}

/// The keyword of a field at `pos`, if one stands there.
pub open spec fn field_keyword_at(tokens: Seq<Token>, pos: int) -> Option<Keyword> {
    match keyword_at(tokens, pos) {
        Some(Keyword::Doc) => Some(Keyword::Doc),
        Some(Keyword::Attrs) => Some(Keyword::Attrs),
        _ => None,
    }
}

impl FieldArgListView {
    /// The state before any keyword was read.
    pub open spec fn initial() -> FieldArgListView {
        FieldArgListView { doc: None, attrs: None, list: Seq::empty() }
    }

    /// Reading `doc` at `pos`: a fault if it was read before or if its value
    /// is malformed, else the state after it and the place behind it.
    pub open spec fn step_doc(self, tokens: Seq<Token>, pos: int) -> Result<
        (FieldArgListView, int),
        ParseError,
    > {
        match self.doc {
            Some(first) => Err(
                ParseError::AlreadyDefined { keyword: Keyword::Doc, at: pos as usize, first },
            ),
            None => match doc_parse(tokens, pos) {
                Ok((doc, next)) => Ok(
                    (
                        FieldArgListView {
                            doc: Some(pos as usize),
                            list: self.list.push(FieldArgView::Doc(doc)),
                            ..self
                        },
                        next,
                    ),
                ),
                Err(fault) => Err(fault),
            },
        }
    }

    /// Reading `attrs` at `pos`: a fault if it was read before or if its
    /// value is malformed, else the state after it and the place behind it.
    pub open spec fn step_attrs(self, tokens: Seq<Token>, pos: int) -> Result<
        (FieldArgListView, int),
        ParseError,
    > {
        match self.attrs {
            Some(first) => Err(
                ParseError::AlreadyDefined { keyword: Keyword::Attrs, at: pos as usize, first },
            ),
            None => match attrs_parse(tokens, pos) {
                Ok((attrs, next)) => Ok(
                    (
                        FieldArgListView {
                            attrs: Some(pos as usize),
                            list: self.list.push(FieldArgView::Attrs(attrs)),
                            ..self
                        },
                        next,
                    ),
                ),
                Err(fault) => Err(fault),
            },
        }
    }
}

/// Reading the keywords of a field from `pos` on, where a comma, the end,
/// or a fault stands: the state at the end.
pub open spec fn field_list_parse(tokens: Seq<Token>, pos: int, state: FieldArgListView) -> Result<
    FieldArgListView,
    ParseError,
>
    decreases tokens.len() - pos,
{
    if pos >= tokens.len() {
        Ok(state)
    } else if !is_punct(tokens, pos, ',') {
        Err(ParseError::Unexpected { at: pos as usize, expected: Expected::Comma })
    } else if pos + 1 >= tokens.len() {
        Ok(state)
    } else {
        let read = match field_keyword_at(tokens, pos + 1) {
            Some(Keyword::Doc) => state.step_doc(tokens, pos + 1),
            Some(Keyword::Attrs) => state.step_attrs(tokens, pos + 1),
            _ => Err(
                ParseError::Unexpected { at: (pos + 1) as usize, expected: Expected::FieldKeyword },
            ),
        };
        match read {
            Err(fault) => Err(fault),
            Ok((after, next)) => if pos < next {
                field_list_parse(tokens, next, after)
            } else {
                Ok(after)
            },
        }
    }
}

/// What the overrides say once one more keyword is taken in.
pub open spec fn field_apply(args: FieldArgsView, arg: FieldArgView) -> FieldArgsView {
    match arg {
        FieldArgView::Doc(doc) => FieldArgsView { doc: Some(doc), ..args },
        FieldArgView::Attrs(attrs) => FieldArgsView { attrs: Some(attrs), ..args },
    }
}

/// The overrides that a list of keywords with their values makes.
pub open spec fn field_collect(list: Seq<FieldArgView>) -> FieldArgsView
    decreases list.len(),
{
    if list.len() == 0 {
        FieldArgsView { doc: None, attrs: None }
    } else {
        field_apply(field_collect(list.drop_last()), list.last())
    }
}

/// Reading the overrides of a field.
pub open spec fn field_args_parse(tokens: Seq<Token>) -> Result<FieldArgsView, ParseError> {
    match field_list_parse(tokens, 0, FieldArgListView::initial()) {
        Err(fault) => Err(fault),
        Ok(list) => Ok(field_collect(list.list)),
    }
}

/// What a method that takes in one keyword of a field leaves behind: the
/// fault of the step, or the state after it and the place behind the value.
pub open spec fn field_stepped(
    step: Result<(FieldArgListView, int), ParseError>,
    tokens: Seq<Token>,
    pos: usize,
    after: FieldArgListView,
    r: Result<usize, ParseError>,
) -> bool {
    match r {
        Ok(next) => step == Ok::<(FieldArgListView, int), ParseError>((after, next as int)) && pos
            < next <= tokens.len(),
        Err(fault) => step == Err::<(FieldArgListView, int), ParseError>(fault),
    }
}

impl FieldArgList {
    /// The state before any keyword was read.
    pub fn new() -> (r: FieldArgList)
        ensures
            r@ == FieldArgListView::initial(),
    {
        let r = FieldArgList { doc: None, attrs: None, list: Vec::with_capacity(2) };
        assert(field_arg_views(r.list@) =~= Seq::empty());
        r
    }

    /// The fault of a keyword that stands at `at` and stood at `first` before.
    pub fn already_defined_error(keyword: Keyword, at: usize, first: usize) -> (r: Result<
        usize,
        ParseError,
    >)
        ensures
            r == Err::<usize, ParseError>(ParseError::AlreadyDefined { keyword, at, first }),
    {
        Err(ParseError::AlreadyDefined { keyword, at, first })
    }

    /// Takes in the keyword `doc` at `pos`, unless it was given before.
    pub fn parse_doc(&mut self, input: &TokenList, pos: usize) -> (r: Result<usize, ParseError>)
        requires
            input.wf(),
            pos < input@.len(),
        ensures
            field_stepped(old(self)@.step_doc(input@, pos as int), input@, pos, final(self)@, r),
    {
        if let Some(first) = self.doc {
            return FieldArgList::already_defined_error(Keyword::Doc, pos, first);
        }
        match Doc::parse(input, pos) {
            Ok((doc, next)) => {
                proof {
                    lemma_field_arg_views_push(self.list@, FieldArg::Doc(doc));
                }
                self.doc = Some(pos);
                self.list.push(FieldArg::Doc(doc));
                Ok(next)
            },
            Err(fault) => Err(fault),
        }
    }

    /// Takes in the keyword `attrs` at `pos`, unless it was given before.
    pub fn parse_attrs(&mut self, input: &TokenList, pos: usize) -> (r: Result<usize, ParseError>)
        requires
            input.wf(),
            pos < input@.len(),
        ensures
            field_stepped(old(self)@.step_attrs(input@, pos as int), input@, pos, final(self)@, r),
    {
        if let Some(first) = self.attrs {
            return FieldArgList::already_defined_error(Keyword::Attrs, pos, first);
        }
        match Attrs::parse(input, pos) {
            Ok((attrs, next)) => {
                proof {
                    lemma_field_arg_views_push(self.list@, FieldArg::Attrs(attrs));
                }
                self.attrs = Some(pos);
                self.list.push(FieldArg::Attrs(attrs));
                Ok(next)
            },
            Err(fault) => Err(fault),
        }
    }

    /// Reads the overrides of a field: the keywords in the order in which
    /// they stand, each at most once.
    pub fn parse(input: &TokenList) -> (r: Result<FieldArgList, ParseError>)
        requires
            input.wf(),
        ensures
            match r {
                Ok(list) => field_list_parse(input@, 0, FieldArgListView::initial()) == Ok::<
                    FieldArgListView,
                    ParseError,
                >(list@),
                Err(fault) => field_list_parse(input@, 0, FieldArgListView::initial()) == Err::<
                    FieldArgListView,
                    ParseError,
                >(fault),
            },
    {
        let len = input.len();
        let ghost whole = field_list_parse(input@, 0, FieldArgListView::initial());
        let mut arg_list = FieldArgList::new();
        let mut pos: usize = 0;
        while pos < len
            invariant
                input.wf(),
                len == input@.len(),
                pos <= len,
                whole == field_list_parse(input@, 0, FieldArgListView::initial()),
                field_list_parse(input@, pos as int, arg_list@) == whole,
            decreases len - pos,
        {
            if !input.is_punct(pos, ',') {
                return Err(ParseError::Unexpected { at: pos, expected: Expected::Comma });
            }
            let at = pos + 1;
            // allow trailing commas
            if at >= len {
                return Ok(arg_list);
            }
            let keyword = match input.word_at(at) {
                Some(text) => Keyword::of(text.as_str()),
                None => None,
            };
            let read = match keyword {
                Some(Keyword::Doc) => arg_list.parse_doc(input, at),
                Some(Keyword::Attrs) => arg_list.parse_attrs(input, at),
                _ => {
                    return Err(ParseError::Unexpected { at, expected: Expected::FieldKeyword });
                },
            };
            match read {
                Ok(next) => {
                    pos = next;
                },
                Err(fault) => {
                    return Err(fault);
                },
            }
        }
        Ok(arg_list)
    }
}

impl FieldArgs {
    /// No override.
    pub fn new() -> (r: FieldArgs)
        ensures
            r@ == (FieldArgsView { doc: None, attrs: None }),
    {
        FieldArgs { doc: None, attrs: None }
    }

    /// The overrides that the keywords read make.
    pub fn from(arg_list: FieldArgList) -> (args: FieldArgs)
        ensures
            args@ == field_collect(arg_list@.list),
    {
        let ghost views = arg_list@.list;
        let ghost given = arg_list.list@;
        let mut args = FieldArgs::new();
        let mut list = arg_list.list;
        let ghost mut done: int = 0;
        assert(views.take(0) =~= Seq::empty());
        while list.len() > 0
            invariant
                0 <= done <= given.len(),
                views == field_arg_views(given),
                list@ == given.skip(done),
                args@ == field_collect(views.take(done)),
            decreases list.len(),
        {
            let arg = list.remove(0);
            proof {
                assert(arg == given[done]);
                assert(views.take(done + 1).drop_last() =~= views.take(done));
                assert(views.take(done + 1).last() == arg@);
                done = done + 1;
            }
            match arg {
                FieldArg::Doc(doc) => args.doc = Some(doc),
                FieldArg::Attrs(attrs) => args.attrs = Some(attrs),
            }
            assert(list@ =~= given.skip(done));
        }
        assert(views.take(done) =~= views);
        args
    }

    /// Reads the overrides of a field from their tokens. Invisible groups
    /// among them are opened first, and the positions in a fault count the
    /// tokens after that.
    pub fn parse(tokens: &Tokens) -> (r: Result<FieldArgs, ParseError>)
        ensures
            match r {
                Ok(args) => field_args_parse(opened(tokens@)) == Ok::<FieldArgsView, ParseError>(
                    args@,
                ),
                Err(fault) => field_args_parse(opened(tokens@)) == Err::<
                    FieldArgsView,
                    ParseError,
                >(fault),
            },
    {
        let input = TokenList::new(tokens.opened());
        match FieldArgList::parse(&input) {
            Ok(arg_list) => Ok(FieldArgs::from(arg_list)),
            Err(fault) => Err(fault),
        }
    }
}

} // verus!
