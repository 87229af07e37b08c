//! Deriving a record: the derived record itself, the function that merges
//! it back, and the conversion into it.
//!
//! A field may carry several override markers, one for each configuration
//! that the record carries. A configuration reads the first marker of each
//! field and takes it off the original, so that the next configuration
//! finds its own.

use vstd::prelude::*;
use crate::args::{Args, ArgsView, GenItem};
use crate::attrs::generator::{generated, is_optfield_field};
use crate::attrs::record_strategy;
use crate::error::GenError;
use crate::fields::attrs::{find_marker, is_optfield_field_attr, marker_from};
use crate::fields::{fields_made, first_fault};
use crate::from::from_impl;
use crate::merge::merge_impl;
use crate::schema::{
    attr_views, duplicate_attrs, lemma_attr_views_push, Attr, AttrView, Field, FieldView, Fields,
    RecordSchema, SchemaView,
};
use crate::tokens::Tokens;

verus! {

/// The place of the first override marker of the field, if it has one.
pub fn index_of_first_optfield_field_attr(field: &Field) -> (r: Option<usize>)
    ensures
        match r {
            Some(at) => marker_from(field@.attrs, 0) == Some(at as int) && at < field.attrs@.len(),
            None => marker_from(field@.attrs, 0) is None,
        },
{
    find_marker(&field.attrs, 0)
}

/// The attributes that are no override markers, in their order.
pub open spec fn without_overrides(attrs: Seq<AttrView>) -> Seq<AttrView>
    decreases attrs.len(),
{
    if attrs.len() == 0 {
        Seq::empty()
    } else if is_optfield_field(attrs.last()) {
        without_overrides(attrs.drop_last())
    } else {
        without_overrides(attrs.drop_last()).push(attrs.last())
    }
}

/// The attributes with at most one override marker: the first one stays,
/// the later ones are left out.
pub open spec fn sanitised_attrs(attrs: Seq<AttrView>) -> Seq<AttrView> {
    match marker_from(attrs, 0) {
        None => attrs,
        Some(first) => attrs.take(first + 1) + without_overrides(attrs.skip(first + 1)),
    }
}

/// The attributes without the first override marker.
pub open spec fn consumed_attrs(attrs: Seq<AttrView>) -> Seq<AttrView> {
    match marker_from(attrs, 0) {
        None => attrs,
        Some(first) => attrs.remove(first),
    }
}

/// The field with at most one override marker.
pub open spec fn sanitised_field(field: FieldView) -> FieldView {
    FieldView { attrs: sanitised_attrs(field.attrs), ..field }
}

/// The field without its first override marker.
pub open spec fn consumed_field(field: FieldView) -> FieldView {
    FieldView { attrs: consumed_attrs(field.attrs), ..field }
}

/// The record as one configuration sees it: each field with at most one
/// override marker.
pub open spec fn sanitised(item: SchemaView) -> SchemaView {
    SchemaView {
        fields: Seq::new(item.fields.len(), |i: int| sanitised_field(item.fields[i])),
        ..item
    }
}

/// The record as one configuration leaves it: each field without its first
/// override marker.
pub open spec fn consumed(item: SchemaView) -> SchemaView {
    SchemaView {
        fields: Seq::new(item.fields.len(), |i: int| consumed_field(item.fields[i])),
        ..item
    }
}

/// The attributes with at most one override marker.
pub fn sanitise_attrs(attrs: &Vec<Attr>) -> (r: Vec<Attr>)
    ensures
        attr_views(r@) == sanitised_attrs(attr_views(attrs@)),
{
    let first = match find_marker(attrs, 0) {
        None => {
            return duplicate_attrs(attrs);
        },
        Some(first) => first,
    };
    let ghost views = attr_views(attrs@);
    let mut kept: Vec<Attr> = Vec::new();
    let mut i: usize = 0;
    assert(attr_views(kept@) =~= views.take(0));
    while i < attrs.len()
        invariant
            i <= attrs@.len(),
            first < attrs@.len(),
            views == attr_views(attrs@),
            attr_views(kept@) == if i <= first {
                views.take(i as int)
            } else {
                views.take(first + 1) + without_overrides(views.subrange(first + 1, i as int))
            },
        decreases attrs@.len() - i,
    {
        let attr = &attrs[i];
        let keep = i <= first || !is_optfield_field_attr(attr);
        proof {
            if i == first {
                assert(views.subrange(first + 1, i + 1) =~= Seq::empty());
                assert(views.take(first + 1) + Seq::<AttrView>::empty() =~= views.take(first + 1));
            }
            if i > first {
                let now = views.subrange(first + 1, i + 1);
                assert(now.drop_last() =~= views.subrange(first + 1, i as int));
                assert(now.last() == attr@);
            }
        }
        if keep {
            let copy = attr.duplicate();
            proof {
                lemma_attr_views_push(kept@, copy);
                if i <= first {
                    assert(views.take(i as int).push(attr@) =~= views.take(i + 1));
                } else {
                    let front = views.take(first + 1);
                    let rest = without_overrides(views.subrange(first + 1, i as int));
                    assert((front + rest).push(attr@) =~= front + rest.push(attr@));
                }
            }
            kept.push(copy);
        }
        i += 1;
    }
    assert(views.subrange(first + 1, i as int) =~= views.skip(first + 1));
    kept
}

/// The attributes without the first override marker.
pub fn consume_attrs(attrs: &Vec<Attr>) -> (r: Vec<Attr>)
    ensures
        attr_views(r@) == consumed_attrs(attr_views(attrs@)),
{
    let mut left = duplicate_attrs(attrs);
    assert(left@.len() == attrs@.len()) by {
        assert(attr_views(left@).len() == attr_views(attrs@).len());
    }
    if let Some(idx) = find_marker(attrs, 0) {
        let ghost before = left@;
        left.remove(idx);
        assert(attr_views(left@) =~= attr_views(before).remove(idx as int));
    }
    left
}

/// What is done to the override markers of a field.
#[derive(Clone, Copy)]
enum Markers {
    /// The first one stays, the later ones are left out.
    KeepFirst,
    /// The first one is taken off.
    TakeFirst,
}

/// The field with its override markers treated as `markers` says.
spec fn remade_field(field: FieldView, markers: Markers) -> FieldView {
    match markers {
        Markers::KeepFirst => sanitised_field(field),
        Markers::TakeFirst => consumed_field(field),
    }
}

/// The fields, each with its override markers treated as `markers` says.
fn remake_fields(fields: &Vec<Field>, markers: Markers) -> (r: Vec<Field>)
    requires
        forall|i: int| 0 <= i < fields@.len() ==> (#[trigger] fields@[i]).wf(),
    ensures
        r@.len() == fields@.len(),
        forall|i: int|
            0 <= i < r@.len() ==> (#[trigger] r@[i])@ == remade_field(fields@[i]@, markers),
        forall|i: int| 0 <= i < r@.len() ==> (#[trigger] r@[i]).wf(),
{
    let mut made: Vec<Field> = Vec::new();
    let mut i: usize = 0;
    while i < fields.len()
        invariant
            i <= fields@.len(),
            made@.len() == i,
            forall|k: int| 0 <= k < fields@.len() ==> (#[trigger] fields@[k]).wf(),
            forall|k: int|
                0 <= k < i ==> (#[trigger] made@[k])@ == remade_field(fields@[k]@, markers),
            forall|k: int| 0 <= k < i ==> (#[trigger] made@[k]).wf(),
        decreases fields@.len() - i,
    {
        let field = &fields[i];
        let attrs = match markers {
            Markers::KeepFirst => sanitise_attrs(&field.attrs),
            Markers::TakeFirst => consume_attrs(&field.attrs),
        };
        let name = match &field.name {
            Some(name) => Some(name.duplicate()),
            None => None,
        };
        made.push(Field { attrs, vis: field.vis.duplicate(), name, ty: field.ty.duplicate() });
        i += 1;
    }
    made
}

/// The fields, each with at most one override marker.
pub fn sanitise_fields(fields: &Vec<Field>) -> (r: Vec<Field>)
    requires
        forall|i: int| 0 <= i < fields@.len() ==> (#[trigger] fields@[i]).wf(),
    ensures
        r@.len() == fields@.len(),
        forall|i: int| 0 <= i < r@.len() ==> (#[trigger] r@[i])@ == sanitised_field(fields@[i]@),
        forall|i: int| 0 <= i < r@.len() ==> (#[trigger] r@[i]).wf(),
{
    remake_fields(fields, Markers::KeepFirst)
}

/// The fields, each without its first override marker.
pub fn consume_fields(fields: &Vec<Field>) -> (r: Vec<Field>)
    requires
        forall|i: int| 0 <= i < fields@.len() ==> (#[trigger] fields@[i]).wf(),
    ensures
        r@.len() == fields@.len(),
        forall|i: int| 0 <= i < r@.len() ==> (#[trigger] r@[i])@ == consumed_field(fields@[i]@),
        forall|i: int| 0 <= i < r@.len() ==> (#[trigger] r@[i]).wf(),
{
    remake_fields(fields, Markers::TakeFirst)
}

/// What is derived from a record: the derived record, the implementation
/// block with the merge function, and the implementation of the
/// conversion; each of the two is empty if the configuration does not ask
/// for it.
#[derive(Clone, Debug)]
pub struct Generated {
    pub opt_struct: RecordSchema,
    pub merge_impl: Tokens,
    pub from_impl: Tokens,
}

/// Whether `made` is the record derived from `item`: it has the name and
/// visibility that the configuration gives, the generic parameters and
/// `where` clause of the original, the attributes that the strategy of the
/// record asks for, and the fields derived one for one.
pub open spec fn record_made(item: SchemaView, args: ArgsView, made: SchemaView) -> bool {
    &&& made.name == args.item.name
    &&& made.vis == GenItem::final_visibility_view(args.item)
    &&& made.generics == item.generics
    &&& made.where_clause == item.where_clause
    &&& made.style == item.style
    &&& generated(record_strategy(item, args), made.attrs)
    &&& fields_made(item.fields, args, made.fields)
}

/// Whether `r` is what deriving from the record `before` under `args`
/// gives, and `after` the record that it leaves. The configuration sees
/// each field with at most one override marker. It derives the record, the
/// merge function and the conversion from what it sees, and takes the first
/// override marker off each field; or it fails at the first field that
/// cannot be derived and leaves the record as it was.
pub open spec fn outcome(
    before: SchemaView,
    args: ArgsView,
    after: SchemaView,
    r: Result<Generated, GenError>,
) -> bool {
    let seen = sanitised(before);
    match r {
        Ok(made) => {
            &&& first_fault(seen.name, seen.fields, args) is None
            &&& record_made(seen, args, made.opt_struct@)
            &&& made.merge_impl@ == merge_impl(seen, made.opt_struct@, args)
            &&& made.from_impl@ == from_impl(seen, made.opt_struct@, args)
            &&& after == consumed(before)
        },
        Err(fault) => {
            &&& first_fault(seen.name, seen.fields, args) == Some(fault@)
            &&& after == before
        },
    }
}

/// Derives a record from `original` under the configuration `args`, and
/// takes the first override marker off each field of `original`. Fails,
/// and leaves `original` as it is, if a field cannot be derived.
pub fn generate(original: &mut RecordSchema, args: Args) -> (r: Result<Generated, GenError>)
    requires
        old(original).wf(),
        args.wf(),
    ensures
        outcome(old(original)@, args@, final(original)@, r),
        final(original).wf(),
        r is Ok ==> r->Ok_0.opt_struct.wf(),
        r is Err ==> *final(original) == *old(original),
{
    // the original struct def with at most one `optfield_field` attribute on each
    // field
    //
    // we do this here so that each `generate` sub-step need not worry about
    // having potentially multiple `optfield_field` attributes
    let original_sanitised = RecordSchema {
        attrs: duplicate_attrs(&original.attrs),
        vis: original.vis.duplicate(),
        name: original.name.duplicate(),
        generics: original.generics.duplicate(),
        fields: Fields {
            style: original.fields.style,
            list: sanitise_fields(&original.fields.list),
        },
        where_clause: original.where_clause.duplicate(),
    };
    assert(original_sanitised@.fields =~= sanitised(original@).fields);
    assert(original_sanitised@ == sanitised(original@));

    let fields = match crate::fields::generate(&original_sanitised, &args) {
        Ok(fields) => fields,
        Err(fault) => {
            return Err(fault);
        },
    };
    let opt_struct = RecordSchema {
        attrs: crate::attrs::generate(&original_sanitised, &args),
        vis: args.item.final_visibility(),
        name: args.item.name.duplicate(),
        generics: original.generics.duplicate(),
        fields,
        where_clause: original.where_clause.duplicate(),
    };

    let merge_impl = crate::merge::generate(&original_sanitised, &opt_struct, &args);

    let from_impl = crate::from::generate(&original_sanitised, &opt_struct, &args);

    // remove the first `optfield_field` attribute from each field of the
    // original struct
    //
    // we only remove the first because each `optfield` struct attribute only
    // consumes at most one `optfield_field` attribute on each field
    let ghost before = original@;
    let left = consume_fields(&original.fields.list);
    original.fields.list = left;
    assert(original@.fields =~= consumed(before).fields);

    Ok(Generated { opt_struct, merge_impl, from_impl })
}

} // verus!
