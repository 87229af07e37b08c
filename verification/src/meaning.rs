//! What the merge function and the conversion mean.
//!
//! The library makes code. What that code does when it runs depends on the
//! conversions that the program gives its container: lifting a value into
//! the container, lowering the container to an optional value, and, for a
//! field that is taken over as it is, asking the container whether it
//! holds a value. This module states how the statements that are made use
//! the answers of those conversions, and what follows for the records.
//!
//! A record is the sequence of the values of its fields. Of a field of a
//! derived record, a [`Slot`] holds what the conversions answer.

use vstd::prelude::*;
use crate::fields::Mode;

verus! {

/// A field of a derived record, by what the merge function asks of it.
pub ghost enum Slot<V> {
    /// A field whose type was put in the container: what lowering the
    /// container to an optional value gives.
    Wrapped { lowered: Option<V> },
    /// A field that was taken over: the field, and whether it holds a value.
    Through { value: V, present: bool },
}

impl<V> Slot<V> {
    /// Whether the slot is that of a field that came in this way.
    pub open spec fn fits(self, mode: Mode) -> bool {
        match mode {
            Mode::Wrapped => self is Wrapped,
            Mode::Through => self is Through,
        }
    }

    /// Whether the field holds a value.
    pub open spec fn is_present(self) -> bool {
        match self {
            Slot::Wrapped { lowered } => lowered is Some,
            Slot::Through { present, .. } => present,
        }
    }

    /// The value that the merge function writes if the field holds one: for
    /// a field that was wrapped the value taken out of the container, for
    /// one that was taken over the field itself.
    pub open spec fn carried(self) -> V {
        match self {
            Slot::Wrapped { lowered } => lowered->Some_0,
            Slot::Through { value, .. } => value,
        }
    }
}

/// What the statement for one field leaves in the field of the original:
/// the value that the derived field carries if it holds one, and else what
/// was there.
pub open spec fn merge_field<V>(current: V, incoming: Slot<V>) -> V {
    if incoming.is_present() {
        incoming.carried()
    } else {
        current
    }
}

/// What the merge function leaves in the original: each field merged.
pub open spec fn merge<V>(current: Seq<V>, incoming: Seq<Slot<V>>) -> Seq<V> {
    Seq::new(current.len(), |i: int| merge_field(current[i], incoming[i]))
}

/// What the initialiser for one field gives the derived field. A value that
/// is lifted into the container comes out of it again when the container is
/// lowered: that is asked of the conversions. `holds` is what a container
/// answers when asked whether it holds a value.
pub open spec fn convert_field<V>(mode: Mode, value: V, holds: spec_fn(V) -> bool) -> Slot<V> {
    match mode {
        Mode::Wrapped => Slot::Wrapped { lowered: Some(value) },
        Mode::Through => Slot::Through { value, present: holds(value) },
    }
}

/// What the conversion makes of an original: each field converted.
pub open spec fn convert<V>(modes: Seq<Mode>, item: Seq<V>, holds: spec_fn(V) -> bool) -> Seq<
    Slot<V>,
> {
    Seq::new(item.len(), |i: int| convert_field(modes[i], item[i], holds))
}

/// Merging nothing changes nothing: where no field of the derived record
/// holds a value, the merge function leaves every field of the original as
/// it is.
pub proof fn lemma_merge_absent<V>(current: Seq<V>, incoming: Seq<Slot<V>>)
    requires
        incoming.len() == current.len(),
        forall|i: int| 0 <= i < incoming.len() ==> !(#[trigger] incoming[i]).is_present(),
    ensures
        merge(current, incoming) == current,
{
    assert(merge(current, incoming) =~= current);
}

/// Merging one value changes one field: where exactly the field at `at` of
/// the derived record holds a value, the merge function writes that value
/// into the field at `at` of the original and leaves every other field as
/// it is.
pub proof fn lemma_merge_one<V>(current: Seq<V>, incoming: Seq<Slot<V>>, at: int)
    requires
        incoming.len() == current.len(),
        0 <= at < current.len(),
        forall|i: int|
            0 <= i < incoming.len() ==> ((#[trigger] incoming[i]).is_present() <==> i == at),
    ensures
        merge(current, incoming) == current.update(at, incoming[at].carried()),
{
    assert(merge(current, incoming) =~= current.update(at, incoming[at].carried()));
}

/// Converting and merging back changes nothing: the merge function,
/// given what the conversion makes of a record, leaves that record as it
/// is.
pub proof fn lemma_round_trip<V>(modes: Seq<Mode>, item: Seq<V>, holds: spec_fn(V) -> bool)
    requires
        modes.len() == item.len(),
    ensures
        merge(item, convert(modes, item, holds)) == item,
        forall|i: int|
            0 <= i < item.len() ==> (#[trigger] convert(modes, item, holds)[i]).fits(modes[i]),
{
    assert(merge(item, convert(modes, item, holds)) =~= item);
}

} // verus!
