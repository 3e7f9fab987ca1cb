//! The container: one inline byte region plus one dispatch-table handle.
//!
//! A container owns exactly one active value, stored as raw bytes with no
//! discriminant beside them; the captured handle is the only means of
//! interpreting the bytes, and the only way any variant is ever destroyed.
//! Construction captures the table from the still-typed value before moving
//! its bytes in; access reconstructs the interface view from the pair;
//! replacement fully destroys the previous value before the new one becomes
//! active; destruction consumes the container, so the destructor slot runs
//! exactly once and never before the last access.

use crate::adapter::{
    active_len, active_render, active_set_len, decode_spec, dispatch_align, dispatch_drop,
    dispatch_len, dispatch_render, dispatch_set_len, dispatch_size, drop_effect, set_len_effect,
    table_align, table_size, Active, TableHandle,
};
use crate::variants::{MarkerVal, UnionVariant};
use vstd::prelude::*;

verus! {

/// A non-allocating polymorphic container over the exemplar interface: holds
/// any one value of the variant types, exposes it only through the interface
/// operations of the captured dispatch table.
///
/// The container may be shared by reference across threads: the handle names
/// only constant data, and every variant type of this container's set is
/// itself safely shareable. (Were a variant's own data not shareable, the
/// marker could not be granted from the handle alone.)
pub struct LenUnion {
    /// The inline region: the byte representation of the active value, and
    /// nothing that records which variant wrote it.
    storage: Vec<u8>,
    /// The handle captured at construction; immutable for the life of the
    /// active value.
    table: TableHandle,
}

impl View for LenUnion {
    type V = Active;

    /// The active value: the stored bytes as the captured table reads them.
    closed spec fn view(&self) -> Active {
        decode_spec(self.table, self.storage@).unwrap()
    }
}

impl LenUnion {
    /// The stored bytes are a byte representation the captured table can
    /// read. Construction establishes this and every operation preserves it.
    pub closed spec fn wf(&self) -> bool {
        decode_spec(self.table, self.storage@) is Some
    }

    /// Constructs a container from any conforming value: captures the
    /// dispatch table from the still-typed value, then moves the value's
    /// bytes into the inline region. Total: no error path.
    pub fn new<V: UnionVariant>(value: V) -> (c: Self)
        requires
            value.inv(),
        ensures
            c.wf(),
            c@ == value.active(),
            c.spec_table() == V::table_spec(),
    {
        proof {
            value.roundtrip();
        }
        let table = value.table();
        let storage = value.encode();
        LenUnion { storage, table }
    }

    /// Interface access: reconstructs the view from the stored pair and
    /// invokes the `len` slot. Always succeeds on a constructed container.
    pub fn len(&self) -> (r: usize)
        requires
            self.wf(),
        ensures
            r == active_len(self@),
    {
        dispatch_len(self.table, &self.storage)
    }

    /// Interface access through the mutable view: invokes the `set_len` slot,
    /// with the shared counter the marker variant's implementation writes to.
    pub fn set_len(&mut self, n: usize, counter: &mut usize)
        requires
            old(self).wf(),
        ensures
            final(self).wf(),
            final(self)@ == active_set_len(old(self)@, n),
            *final(counter) == set_len_effect(old(self)@, n, *old(counter)),
    {
        dispatch_set_len(self.table, &mut self.storage, n, counter)
    }

    /// Interface access: invokes the rendering slot.
    pub fn render(&self) -> (r: Vec<u8>)
        requires
            self.wf(),
        ensures
            r@ == active_render(self@),
    {
        dispatch_render(self.table, &self.storage)
    }

    /// Size of the active value's type, from the captured table's metadata.
    pub fn active_size(&self) -> (r: usize)
        requires
            self.wf(),
        ensures
            r == table_size(self.spec_table()),
    {
        dispatch_size(self.table)
    }

    /// Alignment of the active value's type, from the captured table's
    /// metadata.
    pub fn active_align(&self) -> (r: usize)
        requires
            self.wf(),
        ensures
            r == table_align(self.spec_table()),
    {
        dispatch_align(self.table)
    }

    /// The captured handle.
    pub closed spec fn spec_table(&self) -> TableHandle {
        self.table
    }

    /// Destroys the container: reconstructs the interface view one last time
    /// and invokes the destructor slot on it, then releases the region. The
    /// container is consumed, so this runs exactly once per constructed
    /// value, and no access can follow it.
    pub fn destroy(self, counter: &mut usize)
        requires
            self.wf(),
        ensures
            *final(counter) == drop_effect(self@, *old(counter)),
    {
        dispatch_drop(self.table, &self.storage, counter);
    }

    /// Replaces the active value: the previous value is fully destroyed — its
    /// destructor effect lands on the counter — strictly before the new value
    /// becomes active; the two never overlap in the region.
    pub fn replace<V: UnionVariant>(&mut self, value: V, counter: &mut usize)
        requires
            old(self).wf(),
            value.inv(),
        ensures
            final(self).wf(),
            final(self)@ == value.active(),
            final(self).spec_table() == V::table_spec(),
            *final(counter) == drop_effect(old(self)@, *old(counter)),
    {
        dispatch_drop(self.table, &self.storage, counter);
        proof {
            value.roundtrip();
        }
        self.table = value.table();
        self.storage = value.encode();
    }
}

/// Erase/unerase round trip, for every conforming type: the bytes written for
/// a value, interpreted through the table captured for its type, are exactly
/// that value again — so a container constructed from a value observes, on
/// every interface operation, the behaviour of the value itself (its `len`
/// answer is the value's own `len` answer).
pub proof fn lemma_access_equivalence<V: UnionVariant>(v: V)
    requires
        v.inv(),
    ensures
        decode_spec(V::table_spec(), v.encoding()) == Some(v.active()),
{
    v.roundtrip();
}

/// Destructor invocation is observable exactly once: destroying a container
/// whose active value is the marker raises the counter by exactly one, and
/// destroying any other active value leaves the counter untouched. That the
/// destructor runs no earlier than the last access, and never twice, is
/// enforced by consumption: `destroy` takes the container by value.
pub proof fn lemma_destructor_once(v: MarkerVal, a: Active, counter: usize)
    requires
        a == v.active(),
        counter < usize::MAX,
    ensures
        drop_effect(a, counter) == counter + 1,
        forall|b: Active| !(b is Marker) ==> #[trigger] drop_effect(b, counter) == counter,
{
}

} // verus!
