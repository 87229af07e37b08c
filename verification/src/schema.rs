//! The record definition that is read and the one that is derived.
//!
//! Names, attributes, visibilities and types keep their tokens. What the
//! rules read of them (the text of a name, the name of an attribute) stands
//! beside the tokens as a plain value.

use vstd::prelude::*;
use vstd::string::StringExecFns;
use crate::syntax::{meta_parse, parse_meta};
use crate::tokens::{is_word, str_eq, Token, Tokens};

verus! {

/// An identifier: its text and its token.
#[derive(Clone, Debug)]
pub struct Ident {
    pub name: String,
    pub tokens: Tokens,
}

impl View for Ident {
    type V = Seq<char>;

    open spec fn view(&self) -> Seq<char> {
        self.name@
    }
}

impl Ident {
    /// The tokens are the one identifier that `name` spells.
    pub open spec fn wf(&self) -> bool {
        self.tokens@ == seq![Token::Ident(self.name@)]
    }

    /// The identifier that an ASCII word spells.
    pub fn new(word: &str) -> (r: Ident)
        requires
            is_word(word@),
        ensures
            r.wf(),
            r@ == word@,
    {
        let mut tokens = Tokens::new();
        tokens.push_word(word);
        Ident { name: String::from_str(word), tokens }
    }

    /// The same identifier again.
    pub fn duplicate(&self) -> (r: Ident)
        ensures
            r@ == self@,
            r.tokens@ == self.tokens@,
            self.wf() ==> r.wf(),
    {
        Ident { name: self.name.clone(), tokens: self.tokens.duplicate() }
    }
}

/// An attribute as contracts see it.
pub ghost struct AttrView {
    pub name: Option<Seq<char>>,
    pub tokens: Seq<Token>,
}

/// The content of one attribute (what stands between `#[` and `]`), and its
/// name where its path is a single identifier.
#[derive(Clone, Debug)]
pub struct Attr {
    pub name: Option<String>,
    pub tokens: Tokens,
}

impl View for Attr {
    type V = AttrView;

    open spec fn view(&self) -> AttrView {
        AttrView {
            name: match self.name {
                Some(name) => Some(name@),
                None => None,
            },
            tokens: self.tokens@,
        }
    }
}

/// The views of a list of attributes.
pub open spec fn attr_views(attrs: Seq<Attr>) -> Seq<AttrView> {
    attrs.map_values(|attr: Attr| attr@)
}

/// The views of a list grow with the list.
pub proof fn lemma_attr_views_push(attrs: Seq<Attr>, attr: Attr)
    ensures
        attr_views(attrs.push(attr)) == attr_views(attrs).push(attr@),
{
    assert(attr_views(attrs.push(attr)) =~= attr_views(attrs).push(attr@));
}

/// The views of two lists joined are the views of each, joined.
pub proof fn lemma_attr_views_add(a: Seq<Attr>, b: Seq<Attr>)
    ensures
        attr_views(a + b) == attr_views(a) + attr_views(b),
{
    assert(attr_views(a + b) =~= attr_views(a) + attr_views(b));
}

impl Attr {
    /// Reads the tokens as the content of one attribute. Fails, with the
    /// parser's complaint, if they are none.
    pub fn parse(tokens: Tokens) -> (r: Result<Attr, String>)
        ensures
            match r {
                Ok(attr) => meta_parse(tokens@) == Ok::<Option<Seq<char>>, Seq<char>>(attr@.name)
                    && attr@.tokens == tokens@,
                Err(fault) => meta_parse(tokens@) == Err::<Option<Seq<char>>, Seq<char>>(fault@),
            },
    {
        match parse_meta(&tokens.0) {
            Ok(name) => Ok(Attr { name, tokens }),
            Err(fault) => Err(fault),
        }
    }

    /// The same attribute again.
    pub fn duplicate(&self) -> (r: Attr)
        ensures
            r@ == self@,
    {
        let name = match &self.name {
            Some(name) => Some(name.clone()),
            None => None,
        };
        Attr { name, tokens: self.tokens.duplicate() }
    }

    /// Whether the attribute has the given name.
    pub fn is_named(&self, name: &str) -> (r: bool)
        ensures
            r == (self@.name == Some(name@)),
    {
        match &self.name {
            Some(own) => str_eq(own.as_str(), name),
            None => false,
        }
    }
}

/// Copies a list of attributes.
pub fn duplicate_attrs(attrs: &Vec<Attr>) -> (r: Vec<Attr>)
    ensures
        attr_views(r@) == attr_views(attrs@),
{
    let mut copy: Vec<Attr> = Vec::new();
    let mut i: usize = 0;
    while i < attrs.len()
        invariant
            i <= attrs.len(),
            attr_views(copy@) == attr_views(attrs@.take(i as int)),
        decreases attrs.len() - i,
    {
        let ghost before = copy@;
        copy.push(attrs[i].duplicate());
        proof {
            assert(attrs@.take(i + 1) == attrs@.take(i as int).push(attrs@[i as int]));
            lemma_attr_views_push(before, copy@.last());
            lemma_attr_views_push(attrs@.take(i as int), attrs@[i as int]);
        }
        i += 1;
    }
    proof {
        assert(attrs@.take(i as int) == attrs@);
    }
    copy
}

/// Who may name an item.
#[derive(Clone, Debug)]
pub enum Visibility {
    /// No qualifier: private.
    Inherited,
    /// A qualifier, `pub` or a restricted form of it, by its tokens.
    Declared(Tokens),
}

impl View for Visibility {
    type V = Seq<Token>;

    /// The tokens of the qualifier: none for a private item.
    open spec fn view(&self) -> Seq<Token> {
        match self {
            Visibility::Inherited => Seq::empty(),
            Visibility::Declared(tokens) => tokens@,
        }
    }
}

impl Visibility {
    /// The same visibility again.
    pub fn duplicate(&self) -> (r: Visibility)
        ensures
            r@ == self@,
            r is Inherited <==> self is Inherited,
    {
        match self {
            Visibility::Inherited => Visibility::Inherited,
            Visibility::Declared(tokens) => Visibility::Declared(tokens.duplicate()),
        }
    }
}

/// A field as contracts see it.
pub ghost struct FieldView {
    pub attrs: Seq<AttrView>,
    pub vis: Seq<Token>,
    pub name: Option<Seq<char>>,
    pub ty: Seq<Token>,
}

/// One field of a record: a name, or none in a tuple record where the
/// position names it, a type, a visibility and attributes.
#[derive(Clone, Debug)]
pub struct Field {
    pub attrs: Vec<Attr>,
    pub vis: Visibility,
    pub name: Option<Ident>,
    pub ty: Tokens,
}

impl View for Field {
    type V = FieldView;

    open spec fn view(&self) -> FieldView {
        FieldView {
            attrs: attr_views(self.attrs@),
            vis: self.vis@,
            name: match self.name {
                Some(name) => Some(name@),
                None => None,
            },
            ty: self.ty@,
        }
    }
}

impl Field {
    /// The name, if there is one, is well formed.
    pub open spec fn wf(&self) -> bool {
        match self.name {
            Some(name) => name.wf(),
            None => true,
        }
    }
}

/// The views of a list of fields.
pub open spec fn field_views(fields: Seq<Field>) -> Seq<FieldView> {
    fields.map_values(|field: Field| field@)
}

/// How the fields of a record are written.
#[derive(Clone, Copy, Debug, PartialEq, Eq, Structural)]
pub enum Style {
    /// Named fields in braces.
    Named,
    /// Positional fields in parentheses.
    Unnamed,
    /// No field list.
    Unit,
}

/// The fields of a record.
#[derive(Clone, Debug)]
pub struct Fields {
    pub style: Style,
    pub list: Vec<Field>,
}

/// A record as contracts see it.
pub ghost struct SchemaView {
    pub attrs: Seq<AttrView>,
    pub vis: Seq<Token>,
    pub name: Seq<char>,
    pub generics: Seq<Token>,
    pub style: Style,
    pub fields: Seq<FieldView>,
    pub where_clause: Seq<Token>,
}

/// A record definition: name, visibility, generic parameters as written
/// after the name, fields, attributes, and the `where` clause if any.
#[derive(Clone, Debug)]
pub struct RecordSchema {
    pub attrs: Vec<Attr>,
    pub vis: Visibility,
    pub name: Ident,
    pub generics: Tokens,
    pub fields: Fields,
    pub where_clause: Tokens,
}

impl View for RecordSchema {
    type V = SchemaView;

    open spec fn view(&self) -> SchemaView {
        SchemaView {
            attrs: attr_views(self.attrs@),
            vis: self.vis@,
            name: self.name@,
            generics: self.generics@,
            style: self.fields.style,
            fields: field_views(self.fields.list@),
            where_clause: self.where_clause@,
        }
    }
}

impl RecordSchema {
    /// The name and the names of the fields are well formed, and no record
    /// has more fields than can be numbered.
    pub open spec fn wf(&self) -> bool {
        &&& self.name.wf()
        &&& self.fields.list@.len() < u32::MAX
        &&& forall|i: int| 0 <= i < self.fields.list@.len() ==> (#[trigger] self.fields.list@[i]).wf()
    }
}

} // verus!
