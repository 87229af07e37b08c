//! The attributes of one field of the derived record.
//!
//! They are made as those of the record are, by what the configuration
//! says for all fields, unless the field carries an override: the marker
//! `optfield_field` with a configuration of its own. What the override
//! gives takes the place of what the record's configuration says, for that
//! field only.

use vstd::prelude::*;
use vstd::string::StringExecFns;
use crate::args::keyword::{Expected, ParseError};
use crate::args::{option_view, Args, ArgsView, Attrs, Doc, DocView};
use crate::attrs::custom_text;
use crate::attrs::generator::{
    doc_attr, generated, is_optfield_field, AttrGenerator, Strategy,
};
use crate::error::{FieldError, FieldFault};
use crate::fields::args::{field_args_parse, FieldArgs, FieldArgsView};
use crate::schema::{attr_views, Attr, AttrView, Field, FieldView};
use crate::tokens::{is_group, opened, Delimiter, Token, TokenList};

verus! {

/// Whether the attribute is the marker that holds the overrides of a field.
pub fn is_optfield_field_attr(attr: &Attr) -> (r: bool)
    ensures
        r == is_optfield_field(attr@),
{
    attr.is_named("optfield_field")
}

/// The place of the first override marker at or after `from`.
pub open spec fn marker_from(attrs: Seq<AttrView>, from: int) -> Option<int>
    decreases attrs.len() - from,
{
    if from < 0 || from >= attrs.len() {
        None
    } else if is_optfield_field(attrs[from]) {
        Some(from)
    } else {
        marker_from(attrs, from + 1)
    }
}

/// The first marker found is a marker, and nothing between the start of the
/// search and it is one.
pub proof fn lemma_marker_from(attrs: Seq<AttrView>, from: int)
    requires
        0 <= from,
    ensures
        match marker_from(attrs, from) {
            Some(at) => from <= at < attrs.len() && is_optfield_field(attrs[at]) && forall|i: int|
                from <= i < at ==> !is_optfield_field(#[trigger] attrs[i]),
            None => forall|i: int| from <= i < attrs.len() ==> !is_optfield_field(#[trigger] attrs[i]),
        },
    decreases attrs.len() - from,
{
    if from < attrs.len() && !is_optfield_field(attrs[from]) {
        lemma_marker_from(attrs, from + 1);
    }
}

/// The place of the first override marker at or after `from`: a marker
/// stands there, and none between `from` and it.
pub fn find_marker(attrs: &Vec<Attr>, from: usize) -> (r: Option<usize>)
    ensures
        match r {
            Some(at) => marker_from(attr_views(attrs@), from as int) == Some(at as int) && from
                <= at < attrs@.len() && is_optfield_field(attrs@[at as int]@) && forall|i: int|
                from <= i < at ==> !is_optfield_field(#[trigger] attrs@[i]@),
            None => marker_from(attr_views(attrs@), from as int) is None && forall|i: int|
                from <= i < attrs@.len() ==> !is_optfield_field(#[trigger] attrs@[i]@),
        },
{
    let mut i = from;
    while i < attrs.len()
        invariant
            from <= i,
            marker_from(attr_views(attrs@), i as int) == marker_from(
                attr_views(attrs@),
                from as int,
            ),
        decreases attrs.len() - i,
    {
        if is_optfield_field_attr(&attrs[i]) {
            proof {
                lemma_marker_from(attr_views(attrs@), from as int);
                assert(forall|k: int|
                    0 <= k < attrs@.len() ==> attr_views(attrs@)[k] == (#[trigger] attrs@[k])@);
            }
            return Some(i);
        }
        i += 1;
    }
    proof {
        lemma_marker_from(attr_views(attrs@), from as int);
        assert(forall|k: int|
            0 <= k < attrs@.len() ==> attr_views(attrs@)[k] == (#[trigger] attrs@[k])@);
    }
    None
}

/// The configuration that an override marker holds: what stands in the
/// group behind its name.
pub open spec fn marker_args(tokens: Seq<Token>) -> Result<FieldArgsView, ParseError> {
    if tokens.len() == 2 && is_group(tokens, 1) {
        field_args_parse(opened(tokens[1]->Group_1))
    } else {
        Err(ParseError::Unexpected { at: 1, expected: Expected::Group })
    }
}

/// The overrides that a field with these attributes carries: none without
/// a marker, a fault with more than one, and else what the marker holds.
pub open spec fn overrides_of(attrs: Seq<AttrView>) -> Result<Option<FieldArgsView>, FieldFault> {
    match marker_from(attrs, 0) {
        None => Ok(None),
        Some(first) => if marker_from(attrs, first + 1) is Some {
            Err(FieldFault::ManyOverrides)
        } else {
            match marker_args(attrs[first].tokens) {
                Ok(args) => Ok(Some(args)),
                Err(fault) => Err(FieldFault::Override(fault)),
            }
        },
    }
}

/// Reads the configuration that an override marker holds.
pub fn parse_marker(attr: &Attr) -> (r: Result<FieldArgs, ParseError>)
    ensures
        match r {
            Ok(args) => marker_args(attr@.tokens) == Ok::<FieldArgsView, ParseError>(args@),
            Err(fault) => marker_args(attr@.tokens) == Err::<FieldArgsView, ParseError>(fault),
        },
{
    let list = TokenList::new(attr.tokens.duplicate());
    if list.len() == 2 {
        match list.group_at(1) {
            Some((delimiter, inner)) => {
                if delimiter == Delimiter::Invisible {
                    Err(ParseError::Unexpected { at: 1, expected: Expected::Group })
                } else {
                    FieldArgs::parse(&inner)
                }
            },
            None => Err(ParseError::Unexpected { at: 1, expected: Expected::Group }),
        }
    } else {
        Err(ParseError::Unexpected { at: 1, expected: Expected::Group })
    }
}

/// The overrides that the field carries.
pub fn find_overrides(field: &Field) -> (r: Result<Option<FieldArgs>, FieldError>)
    ensures
        match r {
            Ok(found) => overrides_of(field@.attrs) == Ok::<Option<FieldArgsView>, FieldFault>(
                option_view(found),
            ),
            Err(fault) => overrides_of(field@.attrs) == Err::<Option<FieldArgsView>, FieldFault>(
                fault@,
            ),
        },
{
    let len = field.attrs.len();
    match find_marker(&field.attrs, 0) {
        None => Ok(None),
        Some(first) => {
            if find_marker(&field.attrs, first + 1).is_some() {
                Err(FieldError::ManyOverrides)
            } else {
                match parse_marker(&field.attrs[first]) {
                    Ok(args) => Ok(Some(args)),
                    Err(fault) => Err(FieldError::Override(fault)),
                }
            }
        },
    }
}

/// The documentation policy of a field: that of its override if it gives
/// one, and else what `field_doc` says for all fields.
pub open spec fn field_doc_policy(args: ArgsView, overrides: Option<FieldArgsView>) -> Option<
    DocView,
> {
    match overrides {
        Some(FieldArgsView { doc: Some(doc), .. }) => Some(doc),
        _ => if args.field_doc {
            Some(DocView::Same)
        } else {
            None
        },
    }
}

/// What is being made when the attributes of a field are.
pub open spec fn field_action(name: Option<Seq<char>>) -> Seq<char> {
    "generating "@ + (match name {
        Some(name) => name + " "@,
        None => Seq::empty(),
    }) + "field attrs"@
}

/// What decides the attributes of a derived field.
pub open spec fn field_strategy(
    field: FieldView,
    args: ArgsView,
    overrides: Option<FieldArgsView>,
) -> Strategy {
    Strategy {
        no_docs: field_doc_policy(args, overrides) is None,
        keep_original_docs: field_doc_policy(args, overrides) == Some(DocView::Same),
        custom_docs: custom_text(field_doc_policy(args, overrides)),
        original: field.attrs,
        policy: match overrides {
            Some(FieldArgsView { attrs: Some(attrs), .. }) => Some(attrs),
            _ => args.field_attrs,
        },
        action: field_action(field.name),
    }
}

/// The strategy for the attributes of one derived field.
pub struct FieldAttrGen<'a> {
    pub field: &'a Field,
    pub args: &'a Args,
    pub field_args: Option<FieldArgs>,
}

impl<'a> FieldAttrGen<'a> {
    /// The strategy for `field` under the configuration `args` of the
    /// record and the overrides `field_args` of the field.
    pub fn new(field: &'a Field, args: &'a Args, field_args: Option<FieldArgs>) -> (r: Self)
        ensures
            r.field == field,
            r.args == args,
            r.field_args == field_args,
    {
        Self { field, args, field_args }
    }

    /// The documentation policy that holds for the field.
    pub fn doc_policy(&self) -> (r: Option<&Doc>)
        ensures
            match r {
                Some(doc) => field_doc_policy(self.args@, option_view(self.field_args)) == Some(
                    doc@,
                ),
                None => field_doc_policy(self.args@, option_view(self.field_args)) is None,
            },
    {
        match &self.field_args {
            Some(FieldArgs { doc: Some(doc), .. }) => Some(doc),
            _ => if self.args.field_doc {
                Some(&Doc::Same)
            } else {
                None
            },
        }
    }
}

impl AttrGenerator for FieldAttrGen<'_> {
    open spec fn strategy(&self) -> Strategy {
        field_strategy(self.field@, self.args@, option_view(self.field_args))
    }

    fn no_docs(&self) -> (r: bool) {
        self.doc_policy().is_none()
    }

    fn error_action_text(&self) -> (r: String) {
        let mut text = String::from_str("generating ");
        match &self.field.name {
            None => {
                assert(text@ + Seq::<char>::empty() =~= text@);
            },
            Some(ident) => {
                let ghost before = text@;
                text.append(ident.name.as_str());
                text.append(" ");
                assert(text@ =~= before + (ident@ + " "@));
            },
        }
        text.append("field attrs");
        text
    }

    fn original_attrs(&self) -> (r: &Vec<Attr>) {
        &self.field.attrs
    }

    fn attrs_arg(&self) -> (r: &Option<Attrs>) {
        match &self.field_args {
            Some(FieldArgs { attrs: Some(_), .. }) => &self.field_args.as_ref().unwrap().attrs,
            _ => &self.args.field_attrs,
        }
    }

    fn custom_docs(&self) -> (r: Option<Attr>) {
        match self.doc_policy() {
            Some(Doc::Custom(d)) => Some(doc_attr(d.as_str())),
            _ => None,
        }
    }

    fn keep_original_docs(&self) -> (r: bool) {
        match self.doc_policy() {
            Some(Doc::Same) => true,
            _ => false,
        }
    }
}

/// Whether `r` is what `generate` gives for a field: the fault of its
/// overrides, or the attributes that the strategy of the field asks for.
pub open spec fn field_attrs_made(
    field: FieldView,
    args: ArgsView,
    r: Result<Seq<AttrView>, FieldFault>,
) -> bool {
    match overrides_of(field.attrs) {
        Err(fault) => r == Err::<Seq<AttrView>, FieldFault>(fault),
        Ok(overrides) => r is Ok && generated(field_strategy(field, args, overrides), r->Ok_0),
    }
}

/// The attributes of the field derived from `field` under the
/// configuration `args` of the record.
pub fn generate(field: &Field, args: &Args) -> (r: Result<Vec<Attr>, FieldError>)
    ensures
        field_attrs_made(
            field@,
            args@,
            match r {
                Ok(attrs) => Ok(attr_views(attrs@)),
                Err(fault) => Err(fault@),
            },
        ),
{
    match find_overrides(field) {
        Ok(overrides) => Ok(FieldAttrGen::new(field, args, overrides).generate()),
        Err(fault) => Err(fault),
    }
}

} // verus!
