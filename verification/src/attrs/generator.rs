//! How the attributes of a derived item are put together.
//!
//! Documentation comes first: that of the original if it is kept, then the
//! custom text if there is one. The other attributes follow as the policy
//! says. The library's own markers among the original's attributes are never
//! taken over.

use vstd::prelude::*;
use vstd::string::StringExecFns;
use crate::args::{option_view, Attrs, AttrsView};
use crate::schema::{
    attr_views, duplicate_attrs, lemma_attr_views_add, lemma_attr_views_push, Attr, AttrView,
};
use crate::syntax::string_literal;
use crate::tokens::{Token, Tokens};

verus! {

/// Whether the attribute is documentation.
pub open spec fn is_doc(attr: AttrView) -> bool {
    attr.name == Some("doc"@)
}

/// Whether the attribute is the marker that asks for a derived record.
pub open spec fn is_optfield(attr: AttrView) -> bool {
    attr.name == Some("optfield"@)
}

/// Whether the attribute is the marker that holds the overrides of a field.
pub open spec fn is_optfield_field(attr: AttrView) -> bool {
    attr.name == Some("optfield_field"@)
}

/// Whether the attribute is a condition on compilation.
pub open spec fn is_cfg(attr: AttrView) -> bool {
    attr.name == Some("cfg"@)
}

/// Whether the attribute is one of the library's own markers.
pub open spec fn is_marker(attr: AttrView) -> bool {
    is_optfield(attr) || is_optfield_field(attr)
}

/// Useful during attribute generation: it can prevent some unwanted recursive
/// behaviour.
pub fn is_optfield_attr(attr: &Attr) -> (r: bool)
    ensures
        r == is_optfield(attr@),
{
    attr.is_named("optfield")
}

/// Whether the attribute is documentation.
pub fn is_doc_attr(attr: &Attr) -> (r: bool)
    ensures
        r == is_doc(attr@),
{
    attr.is_named("doc")
}

/// Whether the attribute is one of the library's own markers.
pub fn is_marker_attr(attr: &Attr) -> (r: bool)
    ensures
        r == is_marker(attr@),
{
    attr.is_named("optfield") || attr.is_named("optfield_field")
}

/// The two parts that the attributes of an original are taken over in.
#[derive(Clone, Copy, Debug, PartialEq, Eq, Structural)]
pub enum Part {
    /// The documentation.
    Docs,
    /// What is neither documentation nor a marker of the library.
    Plain,
}

/// Whether the attribute belongs to the part.
pub open spec fn in_part(attr: AttrView, part: Part) -> bool {
    match part {
        Part::Docs => is_doc(attr),
        Part::Plain => !is_doc(attr) && !is_marker(attr),
    }
}

/// The attributes of a part, in their order.
pub open spec fn part_of(attrs: Seq<AttrView>, part: Part) -> Seq<AttrView>
    decreases attrs.len(),
{
    if attrs.len() == 0 {
        Seq::empty()
    } else if in_part(attrs.last(), part) {
        part_of(attrs.drop_last(), part).push(attrs.last())
    } else {
        part_of(attrs.drop_last(), part)
    }
}

/// The attributes of a part, in their order.
pub fn select(attrs: &Vec<Attr>, part: Part) -> (r: Vec<Attr>)
    ensures
        attr_views(r@) == part_of(attr_views(attrs@), part),
{
    let mut chosen: Vec<Attr> = Vec::new();
    let mut i: usize = 0;
    assert(attr_views(attrs@.take(0)) =~= Seq::empty());
    assert(attr_views(chosen@) =~= Seq::empty());
    while i < attrs.len()
        invariant
            i <= attrs.len(),
            attr_views(chosen@) == part_of(attr_views(attrs@.take(i as int)), part),
        decreases attrs.len() - i,
    {
        let attr = &attrs[i];
        let belongs = match part {
            Part::Docs => is_doc_attr(attr),
            Part::Plain => !is_doc_attr(attr) && !is_marker_attr(attr),
        };
        proof {
            assert(attrs@.take(i + 1) == attrs@.take(i as int).push(attrs@[i as int]));
            lemma_attr_views_push(attrs@.take(i as int), attrs@[i as int]);
            let now = attr_views(attrs@.take(i + 1));
            assert(now.drop_last() =~= attr_views(attrs@.take(i as int)));
        }
        if belongs {
            let copy = attr.duplicate();
            proof {
                lemma_attr_views_push(chosen@, copy);
            }
            chosen.push(copy);
        }
        i += 1;
    }
    assert(attrs@.take(i as int) == attrs@);
    chosen
}

/// Whether the attribute gives documentation as one literal: `doc = "..."`.
pub open spec fn is_custom_doc(attr: AttrView) -> bool {
    &&& is_doc(attr)
    &&& attr.tokens.len() == 3
    &&& attr.tokens[0] == Token::Ident("doc"@)
    &&& attr.tokens[1] == Token::Punct('=', false)
    &&& attr.tokens[2] is Literal
}

/// The text that an attribute of the form `doc = "..."` gives: the value of
/// its literal, if that is a string.
pub open spec fn doc_text(attr: AttrView) -> Option<Seq<char>> {
    string_literal(seq![attr.tokens[2]])
}

/// The attribute that gives `text` as documentation.
pub fn doc_attr(text: &str) -> (r: Attr)
    ensures
        is_custom_doc(r@),
        doc_text(r@) == Some(text@),
{
    proof {
        reveal_strlit("doc");
    }
    let mut tokens = Tokens::new();
    tokens.push_word("doc");
    tokens.push_punct('=');
    tokens.push_string(text);
    assert(tokens@[0] == tokens@.drop_last()[0] && tokens@[1] == tokens@.drop_last()[1]);
    Attr { name: Some(String::from_str("doc")), tokens }
}

/// What decides the attributes of a derived item.
pub ghost struct Strategy {
    /// No documentation at all.
    pub no_docs: bool,
    /// The documentation of the original is taken over.
    pub keep_original_docs: bool,
    /// A text to give as documentation.
    pub custom_docs: Option<Seq<char>>,
    /// The attributes of the original.
    pub original: Seq<AttrView>,
    /// What to do with the attributes that are no documentation.
    pub policy: Option<AttrsView>,
    /// What is being made, for the message of a fault.
    pub action: Seq<char>,
}

/// The attributes of the derived item that are no documentation.
pub open spec fn new_non_doc(original: Seq<AttrView>, policy: Option<AttrsView>) -> Seq<AttrView> {
    match policy {
        None => Seq::empty(),
        Some(AttrsView::Keep) => part_of(original, Part::Plain),
        Some(AttrsView::Replace(list)) => list,
        Some(AttrsView::Add(list)) => part_of(original, Part::Plain) + list,
    }
}

/// The documentation of the derived item, where `custom` is the attribute
/// made of the custom text.
pub open spec fn new_docs(strategy: Strategy, custom: Option<AttrView>) -> Seq<AttrView> {
    if strategy.no_docs {
        Seq::empty()
    } else {
        (if strategy.keep_original_docs {
            part_of(strategy.original, Part::Docs)
        } else {
            Seq::empty()
        }) + (match custom {
            Some(attr) => seq![attr],
            None => Seq::empty(),
        })
    }
}

/// All the attributes of the derived item.
pub open spec fn composed(strategy: Strategy, custom: Option<AttrView>) -> Seq<AttrView> {
    new_docs(strategy, custom) + new_non_doc(strategy.original, strategy.policy)
}

/// Whether `custom` is what a custom text, if there is one, was made into:
/// the attribute `doc = "..."` whose literal has the text as its value.
pub open spec fn custom_fits(custom: Option<AttrView>, text: Option<Seq<char>>) -> bool {
    match custom {
        Some(attr) => is_custom_doc(attr) && text is Some && text == doc_text(attr),
        None => text is None,
    }
}

/// The text that the strategy gives as documentation: none where it asks
/// for no documentation at all.
pub open spec fn wanted_text(strategy: Strategy) -> Option<Seq<char>> {
    if strategy.no_docs {
        None
    } else {
        strategy.custom_docs
    }
}

/// Whether `attrs` are the attributes that the strategy asks for. The
/// attribute made of a custom text is known by its value, not by how its
/// literal is spelled.
pub open spec fn generated(strategy: Strategy, attrs: Seq<AttrView>) -> bool {
    exists|custom: Option<AttrView>| #[trigger]
        custom_fits(custom, wanted_text(strategy)) && attrs == composed(strategy, custom)
}

/// The strategy by which the attributes of one derived item are made.
pub trait AttrGenerator {
    /// What the methods below answer.
    spec fn strategy(&self) -> Strategy;

    /// Whether the derived item gets no documentation at all.
    fn no_docs(&self) -> (r: bool)
        ensures
            r == self.strategy().no_docs,
    ;

    /// What is being made, for the message of a fault.
    fn error_action_text(&self) -> (r: String)
        ensures
            r@ == self.strategy().action,
    ;

    /// The attributes of the original.
    fn original_attrs(&self) -> (r: &Vec<Attr>)
        ensures
            attr_views(r@) == self.strategy().original,
    ;

    /// What to do with the attributes that are no documentation.
    fn attrs_arg(&self) -> (r: &Option<Attrs>)
        ensures
            option_view(*r) == self.strategy().policy,
    ;

    /// The attribute that gives the custom text, if there is one.
    fn custom_docs(&self) -> (r: Option<Attr>)
        ensures
            custom_fits(option_view(r), self.strategy().custom_docs),
    ;

    /// Whether the documentation of the original is taken over.
    fn keep_original_docs(&self) -> (r: bool)
        ensures
            r == self.strategy().keep_original_docs,
    ;

    /// The attributes of the derived item that are no documentation.
    fn new_non_doc_attrs(&self) -> (r: Vec<Attr>)
        ensures
            attr_views(r@) == new_non_doc(self.strategy().original, self.strategy().policy),
    {
        match self.attrs_arg() {
            None => {
                let none: Vec<Attr> = Vec::new();
                assert(attr_views(none@) =~= Seq::empty());
                none
            },
            Some(Attrs::Keep) => select(self.original_attrs(), Part::Plain),
            Some(Attrs::Replace(list)) => duplicate_attrs(list),
            Some(Attrs::Add(list)) => {
                let mut attrs = select(self.original_attrs(), Part::Plain);
                let mut more = duplicate_attrs(list);
                proof {
                    lemma_attr_views_add(attrs@, more@);
                }
                attrs.append(&mut more);
                attrs
            },
        }
    }

    /// The documentation of the derived item.
    fn new_doc_attrs(&self) -> (r: Vec<Attr>)
        ensures
            exists|custom: Option<AttrView>| #[trigger]
                custom_fits(custom, wanted_text(self.strategy())) && attr_views(r@) == new_docs(
                    self.strategy(),
                    custom,
                ),
    {
        if self.no_docs() {
            let none: Vec<Attr> = Vec::new();
            proof {
                assert(attr_views(none@) =~= Seq::empty());
                assert(custom_fits(None, wanted_text(self.strategy())));
            }
            return none;
        }
        let mut attrs = if self.keep_original_docs() {
            select(self.original_attrs(), Part::Docs)
        } else {
            let none: Vec<Attr> = Vec::new();
            assert(attr_views(none@) =~= Seq::empty());
            none
        };
        let custom = self.custom_docs();
        let ghost kept = attr_views(attrs@);
        match custom {
            Some(docs) => {
                proof {
                    lemma_attr_views_push(attrs@, docs);
                    assert(kept.push(docs@) =~= kept + seq![docs@]);
                }
                attrs.push(docs);
            },
            None => {
                assert(kept =~= kept + Seq::<AttrView>::empty());
            },
        }
        assert(custom_fits(option_view(custom), wanted_text(self.strategy())));
        attrs
    }

    /// The attributes of the derived item: documentation first.
    fn generate(&self) -> (r: Vec<Attr>)
        ensures
            generated(self.strategy(), attr_views(r@)),
    {
        let mut attrs = self.new_doc_attrs();
        let ghost custom = choose|custom: Option<AttrView>| #[trigger]
            custom_fits(custom, wanted_text(self.strategy())) && attr_views(attrs@) == new_docs(
                self.strategy(),
                custom,
            );
        let mut attrs_except_docs = self.new_non_doc_attrs();
        proof {
            lemma_attr_views_add(attrs@, attrs_except_docs@);
        }
        attrs.append(&mut attrs_except_docs);
        assert(custom_fits(custom, wanted_text(self.strategy())));
        attrs
    }
}

} // verus!
