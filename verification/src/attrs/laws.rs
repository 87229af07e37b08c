//! What holds of the attributes of every derived item.

use vstd::prelude::*;
use vstd::seq_lib::{lemma_multiset_commutative, to_multiset_build};
use crate::args::{ArgsView, AttrsView, DocView};
use crate::attrs::generator::{
    composed, custom_fits, doc_text, generated, is_custom_doc, is_doc, is_marker, new_non_doc,
    part_of, wanted_text, Part, Strategy,
};
use crate::attrs::record_strategy;
use crate::fields::attrs::field_strategy;
use crate::schema::{AttrView, FieldView, SchemaView};

verus! {

/// The attributes that are no markers of the library, in their order.
pub open spec fn unmarked(attrs: Seq<AttrView>) -> Seq<AttrView>
    decreases attrs.len(),
{
    if attrs.len() == 0 {
        Seq::empty()
    } else if is_marker(attrs.last()) {
        unmarked(attrs.drop_last())
    } else {
        unmarked(attrs.drop_last()).push(attrs.last())
    }
}

/// Without a marker among them, the attributes that are no markers are all
/// of them.
pub proof fn lemma_unmarked_all(attrs: Seq<AttrView>)
    requires
        forall|i: int| 0 <= i < attrs.len() ==> !is_marker(#[trigger] attrs[i]),
    ensures
        unmarked(attrs) == attrs,
    decreases attrs.len(),
{
    if attrs.len() > 0 {
        lemma_unmarked_all(attrs.drop_last());
        assert(attrs.drop_last().push(attrs.last()) =~= attrs);
    }
}

/// Documentation is no marker of the library.
pub proof fn lemma_doc_is_no_marker(attr: AttrView)
    ensures
        is_doc(attr) ==> !is_marker(attr),
{
    reveal_strlit("doc");
    reveal_strlit("optfield");
    reveal_strlit("optfield_field");
    assert("doc"@.len() == 3);
    assert("optfield"@.len() == 8);
    assert("optfield_field"@.len() == 14);
}

/// Documentation and the other attributes that are taken over are, taken
/// together, the attributes that are no markers.
pub proof fn lemma_parts_cover(attrs: Seq<AttrView>)
    ensures
        part_of(attrs, Part::Docs).to_multiset().add(part_of(attrs, Part::Plain).to_multiset())
            == unmarked(attrs).to_multiset(),
    decreases attrs.len(),
{
    broadcast use vstd::multiset::group_multiset_axioms;

    let docs = part_of(attrs, Part::Docs);
    let plain = part_of(attrs, Part::Plain);
    if attrs.len() == 0 {
        Seq::<AttrView>::empty().to_multiset_ensures();
        vstd::multiset::lemma_multiset_empty_len(Seq::<AttrView>::empty().to_multiset());
        assert(docs.to_multiset().add(plain.to_multiset()) =~= unmarked(attrs).to_multiset());
    } else {
        let front = attrs.drop_last();
        let last = attrs.last();
        lemma_parts_cover(front);
        lemma_doc_is_no_marker(last);
        to_multiset_build(part_of(front, Part::Docs), last);
        to_multiset_build(part_of(front, Part::Plain), last);
        to_multiset_build(unmarked(front), last);
        assert(docs.to_multiset().add(plain.to_multiset()) =~= unmarked(attrs).to_multiset());
    }
}

/// Keeping reproduces the original: where the documentation of the original
/// is kept and nothing added to it, and the other attributes are kept, the
/// attributes made are the documentation of the original followed by its
/// other attributes, each part in its order. As a collection they are the
/// attributes of the original but for the markers of the library, and all
/// of them where the original carries no marker.
pub proof fn lemma_keep_reproduces(strategy: Strategy, attrs: Seq<AttrView>)
    requires
        generated(strategy, attrs),
        !strategy.no_docs,
        strategy.keep_original_docs,
        strategy.custom_docs is None,
        strategy.policy == Some(AttrsView::Keep),
    ensures
        attrs == part_of(strategy.original, Part::Docs) + part_of(strategy.original, Part::Plain),
        attrs.to_multiset() == unmarked(strategy.original).to_multiset(),
        (forall|i: int|
            0 <= i < strategy.original.len() ==> !is_marker(#[trigger] strategy.original[i]))
            ==> attrs.to_multiset() == strategy.original.to_multiset(),
{
    let custom = choose|custom: Option<AttrView>| #[trigger]
        custom_fits(custom, wanted_text(strategy)) && attrs == composed(strategy, custom);
    let docs = part_of(strategy.original, Part::Docs);
    let plain = part_of(strategy.original, Part::Plain);
    assert(docs + Seq::<AttrView>::empty() =~= docs);
    lemma_multiset_commutative(docs, plain);
    lemma_parts_cover(strategy.original);
    if forall|i: int|
        0 <= i < strategy.original.len() ==> !is_marker(#[trigger] strategy.original[i]) {
        lemma_unmarked_all(strategy.original);
    }
}

/// Keeping reproduces the attributes of a record: under `doc` and `attrs`,
/// both without a value, the derived record has the attributes of the
/// original but for the markers of the library.
pub proof fn lemma_record_keep(item: SchemaView, args: ArgsView, attrs: Seq<AttrView>)
    requires
        generated(record_strategy(item, args), attrs),
        args.doc == Some(DocView::Same),
        args.attrs == Some(AttrsView::Keep),
    ensures
        attrs.to_multiset() == unmarked(item.attrs).to_multiset(),
        attrs == part_of(item.attrs, Part::Docs) + part_of(item.attrs, Part::Plain),
{
    lemma_keep_reproduces(record_strategy(item, args), attrs);
}

/// Keeping reproduces the attributes of a field: under `field_doc` and
/// `field_attrs` without a value, a derived field without overrides has the
/// attributes of the original field but for the markers of the library.
pub proof fn lemma_field_keep(field: FieldView, args: ArgsView, attrs: Seq<AttrView>)
    requires
        generated(field_strategy(field, args, None), attrs),
        args.field_doc,
        args.field_attrs == Some(AttrsView::Keep),
    ensures
        attrs.to_multiset() == unmarked(field.attrs).to_multiset(),
        attrs == part_of(field.attrs, Part::Docs) + part_of(field.attrs, Part::Plain),
{
    lemma_keep_reproduces(field_strategy(field, args, None), attrs);
}

/// Without the keywords for them nothing is taken over: a derived item has
/// no attribute where the strategy asks for no documentation and gives no
/// policy for the rest.
pub proof fn lemma_nothing_by_default(strategy: Strategy, attrs: Seq<AttrView>)
    requires
        generated(strategy, attrs),
        strategy.no_docs,
        strategy.policy is None,
    ensures
        attrs.len() == 0,
{
}

/// Without documentation only the policy counts: where the strategy asks
/// for no documentation, the attributes made are those that the policy for
/// the rest asks for.
pub proof fn lemma_without_docs(strategy: Strategy, attrs: Seq<AttrView>)
    requires
        generated(strategy, attrs),
        strategy.no_docs,
    ensures
        attrs == new_non_doc(strategy.original, strategy.policy),
{
    let rest = new_non_doc(strategy.original, strategy.policy);
    assert(Seq::<AttrView>::empty() + rest =~= rest);
}

/// A custom text takes the place of the documentation: where the strategy
/// gives a text and does not keep the documentation of the original, the
/// first attribute made is `doc = "..."` with the text as the value of its
/// literal, and what follows is what the policy for the rest asks for,
/// as it would be without any documentation.
pub proof fn lemma_custom_replaces(strategy: Strategy, attrs: Seq<AttrView>)
    requires
        generated(strategy, attrs),
        !strategy.no_docs,
        !strategy.keep_original_docs,
        strategy.custom_docs is Some,
    ensures
        attrs.len() > 0,
        is_custom_doc(attrs[0]),
        doc_text(attrs[0]) == strategy.custom_docs,
        attrs.skip(1) == new_non_doc(strategy.original, strategy.policy),
{
    let custom = choose|custom: Option<AttrView>| #[trigger]
        custom_fits(custom, wanted_text(strategy)) && attrs == composed(strategy, custom);
    let rest = new_non_doc(strategy.original, strategy.policy);
    let docs = Seq::<AttrView>::empty() + seq![custom->Some_0];
    assert(docs =~= seq![custom->Some_0]);
    assert((docs + rest).skip(1) =~= rest);
}

/// A custom text takes the place of the documentation of a record: under
/// `doc = "text"` the derived record has the attribute `doc = "..."` with
/// that text as the value of its literal, then what `attrs` asks for, and
/// nothing else.
pub proof fn lemma_record_custom_doc(
    item: SchemaView,
    args: ArgsView,
    text: Seq<char>,
    attrs: Seq<AttrView>,
)
    requires
        generated(record_strategy(item, args), attrs),
        args.doc == Some(DocView::Custom(text)),
    ensures
        attrs.len() > 0,
        is_custom_doc(attrs[0]),
        doc_text(attrs[0]) == Some(text),
        attrs.skip(1) == new_non_doc(item.attrs, args.attrs),
{
    lemma_custom_replaces(record_strategy(item, args), attrs);
}

} // verus!
