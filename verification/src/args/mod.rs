//! The configuration of a derived record and the grammar it is written in.

pub mod grammar;
pub mod keyword;
pub mod laws;
pub mod parse;

use vstd::prelude::*;
use crate::schema::{attr_views, duplicate_attrs, Attr, AttrView, Ident, Visibility};
use crate::tokens::Token;

verus! {

/// The view of an optional value.
pub open spec fn option_view<T: View>(value: Option<T>) -> Option<T::V> {
    match value {
        Some(inner) => Some(inner@),
        None => None,
    }
}

/// Name and visibility of the derived record, as contracts see them.
pub ghost struct GenItemView {
    pub name: Seq<char>,
    pub visibility: Option<Seq<Token>>,
}

/// Name and visibility of the derived record.
#[derive(Clone, Debug)]
pub struct GenItem {
    pub name: Ident,
    pub visibility: Option<Visibility>,
}

impl View for GenItem {
    type V = GenItemView;

    open spec fn view(&self) -> GenItemView {
        GenItemView { name: self.name@, visibility: option_view(self.visibility) }
    }
}

impl GenItem {
    /// The visibility that the derived record gets: the one given, or none.
    pub open spec fn final_visibility_view(view: GenItemView) -> Seq<Token> {
        match view.visibility {
            None => Seq::empty(),
            Some(tokens) => tokens,
        }
    }

    /// The visibility that the derived record gets: the one given, or else
    /// the private one.
    pub fn final_visibility(&self) -> (r: Visibility)
        ensures
            r@ == Self::final_visibility_view(self@),
            self.visibility is None ==> r is Inherited,
    {
        match &self.visibility {
            None => Visibility::Inherited,
            Some(v) => v.duplicate(),
        }
    }

    /// The same item again.
    pub fn duplicate(&self) -> (r: GenItem)
        ensures
            r@ == self@,
            r.name.tokens@ == self.name.tokens@,
    {
        let visibility = match &self.visibility {
            None => None,
            Some(v) => Some(v.duplicate()),
        };
        GenItem { name: self.name.duplicate(), visibility }
    }
}

/// The merge function as contracts see it: its visibility, and its name if
/// one was given.
pub ghost struct MergeFnView {
    pub visibility: Seq<Token>,
    pub name: Option<Seq<char>>,
}

/// The name of the merge function.
#[derive(Clone, Debug)]
pub enum MergeFnName {
    /// The name that the library gives it.
    Default,
    Custom(Ident),
}

impl View for MergeFnName {
    type V = Option<Seq<char>>;

    /// The name given, if one was.
    open spec fn view(&self) -> Option<Seq<char>> {
        match self {
            MergeFnName::Default => None,
            MergeFnName::Custom(name) => Some(name@),
        }
    }
}

impl MergeFnName {
    /// A given name is well formed.
    pub open spec fn wf(&self) -> bool {
        match self {
            MergeFnName::Default => true,
            MergeFnName::Custom(name) => name.wf(),
        }
    }
}

/// Visibility and name of the merge function.
#[derive(Clone, Debug)]
pub struct MergeFn {
    pub visibility: Visibility,
    pub name: MergeFnName,
}

impl View for MergeFn {
    type V = MergeFnView;

    open spec fn view(&self) -> MergeFnView {
        MergeFnView { visibility: self.visibility@, name: self.name@ }
    }
}

impl Default for MergeFn {
    /// A private function under the library's name for it.
    fn default() -> (r: MergeFn)
        ensures
            r@ == (MergeFnView { visibility: Seq::empty(), name: None }),
            r.name.wf(),
    {
        MergeFn { visibility: Visibility::Inherited, name: MergeFnName::Default }
    }
}

impl MergeFn {
    /// The same again.
    pub fn duplicate(&self) -> (r: MergeFn)
        ensures
            r@ == self@,
            self.name.wf() ==> r.name.wf(),
    {
        let name = match &self.name {
            MergeFnName::Default => MergeFnName::Default,
            MergeFnName::Custom(name) => MergeFnName::Custom(name.duplicate()),
        };
        MergeFn { visibility: self.visibility.duplicate(), name }
    }
}

/// The documentation policy as contracts see it.
pub ghost enum DocView {
    Same,
    Custom(Seq<char>),
}

/// What documentation the derived item gets.
#[derive(Clone, Debug, PartialEq, Eq)]
pub enum Doc {
    /// That of the original.
    Same,
    /// The given text.
    Custom(String),
}

impl View for Doc {
    type V = DocView;

    open spec fn view(&self) -> DocView {
        match self {
            Doc::Same => DocView::Same,
            Doc::Custom(text) => DocView::Custom(text@),
        }
    }
}

impl Doc {
    /// The same again.
    pub fn duplicate(&self) -> (r: Doc)
        ensures
            r@ == self@,
    {
        match self {
            Doc::Same => Doc::Same,
            Doc::Custom(text) => Doc::Custom(text.clone()),
        }
    }
}

/// The attribute policy as contracts see it.
pub ghost enum AttrsView {
    Keep,
    Replace(Seq<AttrView>),
    Add(Seq<AttrView>),
}

/// What attributes the derived item gets.
#[derive(Clone, Debug)]
pub enum Attrs {
    /// Keep same attributes.
    Keep,
    /// Replace with given attributes.
    Replace(Vec<Attr>),
    /// Keep original attributes and add the given ones.
    Add(Vec<Attr>),
}

impl View for Attrs {
    type V = AttrsView;

    open spec fn view(&self) -> AttrsView {
        match self {
            Attrs::Keep => AttrsView::Keep,
            Attrs::Replace(list) => AttrsView::Replace(attr_views(list@)),
            Attrs::Add(list) => AttrsView::Add(attr_views(list@)),
        }
    }
}

impl Attrs {
    /// The same again.
    pub fn duplicate(&self) -> (r: Attrs)
        ensures
            r@ == self@,
    {
        match self {
            Attrs::Keep => Attrs::Keep,
            Attrs::Replace(list) => Attrs::Replace(duplicate_attrs(list)),
            Attrs::Add(list) => Attrs::Add(duplicate_attrs(list)),
        }
    }
}

/// A list of attributes as it stands in a configuration.
#[derive(Clone, Debug)]
pub struct AttrList(pub Vec<Attr>);

impl View for AttrList {
    type V = Seq<AttrView>;

    open spec fn view(&self) -> Seq<AttrView> {
        attr_views(self.0@)
    }
}

/// A configuration as contracts see it.
pub ghost struct ArgsView {
    pub item: GenItemView,
    pub merge: Option<MergeFnView>,
    pub rewrap: bool,
    pub doc: Option<DocView>,
    pub attrs: Option<AttrsView>,
    pub field_doc: bool,
    pub field_attrs: Option<AttrsView>,
    pub from: bool,
    pub wrapper: Option<Seq<char>>,
}

/// The configuration of a derived record.
#[derive(Clone, Debug)]
pub struct Args {
    pub item: GenItem,
    pub merge: Option<MergeFn>,
    pub rewrap: bool,
    pub doc: Option<Doc>,
    pub attrs: Option<Attrs>,
    pub field_doc: bool,
    pub field_attrs: Option<Attrs>,
    pub from: bool,
    pub wrapper: Option<Ident>,
}

impl View for Args {
    type V = ArgsView;

    open spec fn view(&self) -> ArgsView {
        ArgsView {
            item: self.item@,
            merge: option_view(self.merge),
            rewrap: self.rewrap,
            doc: option_view(self.doc),
            attrs: option_view(self.attrs),
            field_doc: self.field_doc,
            field_attrs: option_view(self.field_attrs),
            from: self.from,
            wrapper: option_view(self.wrapper),
        }
    }
}

impl Args {
    /// Every name in the configuration is well formed.
    pub open spec fn wf(&self) -> bool {
        &&& self.item.name.wf()
        &&& match self.merge {
            Some(merge) => merge.name.wf(),
            None => true,
        }
        &&& match self.wrapper {
            Some(wrapper) => wrapper.wf(),
            None => true,
        }
    }

    /// The name of the container that the fields are wrapped in: the one
    /// given, and else `Option`.
    pub open spec fn wrapper_name(args: ArgsView) -> Seq<char> {
        match args.wrapper {
            Some(wrapper) => wrapper,
            None => "Option"@,
        }
    }

    /// The container that the fields are wrapped in: the one given, and else
    /// `Option`.
    pub fn final_wrapper(&self) -> (r: Ident)
        requires
            self.wf(),
        ensures
            r@ == Self::wrapper_name(self@),
            r.wf(),
    {
        match &self.wrapper {
            Some(wrapper) => wrapper.duplicate(),
            None => {
                proof {
                    reveal_strlit("Option");
                }
                Ident::new("Option")
            },
        }
    }

    /// The configuration that gives only the name of the derived record.
    pub open spec fn initial(item: GenItemView) -> ArgsView {
        ArgsView {
            item,
            merge: None,
            rewrap: false,
            doc: None,
            attrs: None,
            field_doc: false,
            field_attrs: None,
            from: false,
            wrapper: None,
        }
    }

    /// The configuration that gives only the name of the derived record.
    pub fn new(item: GenItem) -> (r: Args)
        ensures
            r@ == Self::initial(item@),
            r.item == item,
            item.name.wf() ==> r.wf(),
    {
        Args {
            item,
            merge: None,
            rewrap: false,
            doc: None,
            attrs: None,
            field_doc: false,
            field_attrs: None,
            from: false,
            wrapper: None,
        }
    }
}

/// One keyword with its value, as contracts see it.
pub ghost enum ArgView {
    Merge(MergeFnView),
    Doc(DocView),
    Rewrap(bool),
    Attrs(AttrsView),
    FieldDocs(bool),
    FieldAttrs(AttrsView),
    From(bool),
    Wrapper(Seq<char>),
}

/// One keyword with its value.
#[derive(Clone, Debug)]
pub enum Arg {
    Merge(MergeFn),
    Doc(Doc),
    Rewrap(bool),
    Attrs(Attrs),
    FieldDocs(bool),
    FieldAttrs(Attrs),
    From(bool),
    Wrapper(Ident),
}

impl View for Arg {
    type V = ArgView;

    open spec fn view(&self) -> ArgView {
        match self {
            Arg::Merge(merge) => ArgView::Merge(merge@),
            Arg::Doc(doc) => ArgView::Doc(doc@),
            Arg::Rewrap(rewrap) => ArgView::Rewrap(*rewrap),
            Arg::Attrs(attrs) => ArgView::Attrs(attrs@),
            Arg::FieldDocs(field_doc) => ArgView::FieldDocs(*field_doc),
            Arg::FieldAttrs(attrs) => ArgView::FieldAttrs(attrs@),
            Arg::From(from) => ArgView::From(*from),
            Arg::Wrapper(name) => ArgView::Wrapper(name@),
        }
    }
}

impl Arg {
    /// Every name in the value is well formed.
    pub open spec fn wf(&self) -> bool {
        match self {
            Arg::Merge(merge) => merge.name.wf(),
            Arg::Wrapper(name) => name.wf(),
            _ => true,
        }
    }
}

/// The views of a list of keywords with their values.
pub open spec fn arg_views(args: Seq<Arg>) -> Seq<ArgView> {
    args.map_values(|arg: Arg| arg@)
}

/// What has been read of a configuration, as contracts see it: the name, for
/// each keyword the position where it stood, and the values in their order.
pub ghost struct ArgListView {
    pub item: GenItemView,
    pub merge: Option<usize>,
    pub doc: Option<usize>,
    pub rewrap: Option<usize>,
    pub attrs: Option<usize>,
    pub field_doc: Option<usize>,
    pub field_attrs: Option<usize>,
    pub from: Option<usize>,
    pub wrapper: Option<usize>,
    pub list: Seq<ArgView>,
}

/// What has been read of a configuration whose keywords may come in any order.
#[derive(Clone, Debug)]
pub struct ArgList {
    pub item: GenItem,
    pub merge: Option<usize>,
    pub doc: Option<usize>,
    pub rewrap: Option<usize>,
    pub attrs: Option<usize>,
    pub field_doc: Option<usize>,
    pub field_attrs: Option<usize>,
    pub from: Option<usize>,
    pub wrapper: Option<usize>,
    pub list: Vec<Arg>,
}

impl View for ArgList {
    type V = ArgListView;

    open spec fn view(&self) -> ArgListView {
        ArgListView {
            item: self.item@,
            merge: self.merge,
            doc: self.doc,
            rewrap: self.rewrap,
            attrs: self.attrs,
            field_doc: self.field_doc,
            field_attrs: self.field_attrs,
            from: self.from,
            wrapper: self.wrapper,
            list: arg_views(self.list@),
        }
    }
}

impl ArgList {
    /// Every name that was read is well formed.
    pub open spec fn wf(&self) -> bool {
        &&& self.item.name.wf()
        &&& forall|i: int| 0 <= i < self.list@.len() ==> (#[trigger] self.list@[i]).wf()
    }

    /// The state before any keyword was read.
    pub open spec fn initial(item: GenItemView) -> ArgListView {
        ArgListView {
            item,
            merge: None,
            doc: None,
            rewrap: None,
            attrs: None,
            field_doc: None,
            field_attrs: None,
            from: None,
            wrapper: None,
            list: Seq::empty(),
        }
    }

    /// The state before any keyword was read.
    pub fn new(item: GenItem) -> (r: ArgList)
        ensures
            r@ == Self::initial(item@),
            r.item == item,
            item.name.wf() ==> r.wf(),
    {
        let r = ArgList {
            item,
            merge: None,
            doc: None,
            rewrap: None,
            attrs: None,
            field_doc: None,
            field_attrs: None,
            from: None,
            wrapper: None,
            list: Vec::with_capacity(5),
        };
        assert(arg_views(r.list@) =~= Seq::empty());
        r
    }
}

} // verus!
