//! The attributes of the derived record.

pub mod generator;
pub mod laws;

use vstd::prelude::*;
use vstd::string::StringExecFns;
use crate::args::{Args, ArgsView, Attrs, Doc, DocView};
use crate::attrs::generator::{doc_attr, generated, AttrGenerator, Strategy};
use crate::schema::{attr_views, Attr, RecordSchema, SchemaView};

verus! {

/// The text of a documentation policy, if it gives one.
pub open spec fn custom_text(doc: Option<DocView>) -> Option<Seq<char>> {
    match doc {
        Some(DocView::Custom(text)) => Some(text),
        _ => None,
    }
}

/// What decides the attributes of the derived record: no documentation
/// without the keyword `doc`, that of the original with the keyword alone,
/// and with a text only the text; the other attributes as `attrs` says.
pub open spec fn record_strategy(item: SchemaView, args: ArgsView) -> Strategy {
    Strategy {
        no_docs: args.doc is None,
        keep_original_docs: args.doc == Some(DocView::Same),
        custom_docs: custom_text(args.doc),
        original: item.attrs,
        policy: args.attrs,
        action: "generating "@ + item.name + " attrs"@,
    }
}

/// The strategy for the attributes of the derived record itself.
pub struct AttrGen<'a> {
    pub item: &'a RecordSchema,
    pub args: &'a Args,
}

impl<'a> AttrGen<'a> {
    /// The strategy for the record `item` under the configuration `args`.
    pub fn new(item: &'a RecordSchema, args: &'a Args) -> (r: Self)
        ensures
            r.item == item,
            r.args == args,
    {
        Self { item, args }
    }
}

impl AttrGenerator for AttrGen<'_> {
    open spec fn strategy(&self) -> Strategy {
        record_strategy(self.item@, self.args@)
    }

    fn no_docs(&self) -> (r: bool) {
        self.args.doc.is_none()
    }

    fn error_action_text(&self) -> (r: String) {
        String::from_str("generating ").concat(self.item.name.name.as_str()).concat(" attrs")
    }

    fn original_attrs(&self) -> (r: &Vec<Attr>) {
        &self.item.attrs
    }

    fn attrs_arg(&self) -> (r: &Option<Attrs>) {
        &self.args.attrs
    }

    fn custom_docs(&self) -> (r: Option<Attr>) {
        if let Some(Doc::Custom(d)) = &self.args.doc {
            Some(doc_attr(d.as_str()))
        } else {
            None
        }
    }

    fn keep_original_docs(&self) -> (r: bool) {
        match self.args.doc {
            None | Some(Doc::Custom(_)) => false,
            Some(Doc::Same) => true,
        }
    }
}

/// The attributes of the record derived from `item` under the
/// configuration `args`: its documentation, then its other attributes.
pub fn generate(item: &RecordSchema, args: &Args) -> (r: Vec<Attr>)
    ensures
        generated(record_strategy(item@, args@), attr_views(r@)),
{
    AttrGen::new(item, args).generate()
}

} // verus!
