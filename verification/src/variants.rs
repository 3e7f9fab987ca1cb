//! The variant types of the exemplar interface, and the trait every variant
//! of a container must implement.
//!
//! [`UnionVariant`] plays the role of the per-container marker trait: a type
//! may populate the container only if it implements it, and every
//! implementation carries a proof obligation — the erase/unerase round trip —
//! in place of an unverifiable promise. Three types implement it here: a
//! plain byte, a short text, and a zero-sized marker whose destructor has an
//! observable effect.

use crate::adapter::{active_len, decode_spec, Active, TableHandle, TEXT_CAP};
use vstd::prelude::*;

verus! {

/// A type that may populate the container: it knows its dispatch table, can
/// write its byte representation into the inline region, and proves that
/// interpreting those bytes through its own table recovers its value.
pub trait UnionVariant: Sized {
    /// The erased value this concrete value stands for.
    spec fn active(&self) -> Active;

    /// Validity of the concrete value.
    spec fn inv(&self) -> bool;

    /// The dispatch table of this type.
    spec fn table_spec() -> TableHandle;

    /// The byte representation this value writes into the inline region.
    spec fn encoding(&self) -> Seq<u8>;

    /// The conformance obligation: erase followed by unerase is the identity.
    /// Every implementation must prove that the bytes it writes, read through
    /// the table it captures, give back exactly its value.
    proof fn roundtrip(&self)
        requires
            self.inv(),
        ensures
            decode_spec(Self::table_spec(), self.encoding()) == Some(self.active()),
    ;

    /// Captures the dispatch table from the still-typed value.
    fn table(&self) -> (t: TableHandle)
        ensures
            t == Self::table_spec(),
    ;

    /// Moves the value's bytes out, for the inline region.
    fn encode(self) -> (b: Vec<u8>)
        requires
            self.inv(),
        ensures
            b@ == self.encoding(),
    ;

    /// The interface's `len` operation, answered by the typed value directly
    /// (no erasure involved): it must agree with what the erased value
    /// answers, so access through a container and direct access observe the
    /// same behaviour.
    fn direct_len(&self) -> (r: usize)
        requires
            self.inv(),
        ensures
            r == active_len(self.active()),
    ;
}

impl UnionVariant for u8 {
    open spec fn active(&self) -> Active {
        Active::Byte(*self)
    }

    open spec fn inv(&self) -> bool {
        true
    }

    open spec fn table_spec() -> TableHandle {
        TableHandle::ByteTable
    }

    open spec fn encoding(&self) -> Seq<u8> {
        seq![*self]
    }

    proof fn roundtrip(&self) {
    }

    fn table(&self) -> (t: TableHandle) {
        TableHandle::ByteTable
    }

    fn encode(self) -> (b: Vec<u8>) {
        let mut b: Vec<u8> = Vec::new();
        b.push(self);
        proof {
            assert(b@ =~= seq![self]);
        }
        b
    }

    fn direct_len(&self) -> (r: usize) {
        *self as usize
    }
}

/// The short-text variant: owns at most [`TEXT_CAP`] bytes of text. Its `len`
/// is its character count; `set_len` truncates it.
pub struct TextVal {
    bytes: Vec<u8>,
}

impl TextVal {
    /// The text held.
    pub closed spec fn spec_bytes(&self) -> Seq<u8> {
        self.bytes@
    }

    /// Accepts text of at most [`TEXT_CAP`] bytes; longer text is refused, as
    /// it could not be moved into the inline region.
    pub fn new(bytes: Vec<u8>) -> (r: Option<TextVal>)
        ensures
            bytes@.len() <= TEXT_CAP ==> (r matches Some(t) && t.inv() && t.spec_bytes()
                == bytes@),
            bytes@.len() > TEXT_CAP ==> r is None,
    {
        if bytes.len() <= TEXT_CAP {
            Some(TextVal { bytes })
        } else {
            None
        }
    }
}

impl UnionVariant for TextVal {
    closed spec fn active(&self) -> Active {
        Active::Text(self.bytes@)
    }

    closed spec fn inv(&self) -> bool {
        self.bytes@.len() <= TEXT_CAP
    }

    open spec fn table_spec() -> TableHandle {
        TableHandle::TextTable
    }

    closed spec fn encoding(&self) -> Seq<u8> {
        self.bytes@
    }

    proof fn roundtrip(&self) {
    }

    fn table(&self) -> (t: TableHandle) {
        TableHandle::TextTable
    }

    fn encode(self) -> (b: Vec<u8>) {
        let TextVal { bytes } = self;
        bytes
    }

    fn direct_len(&self) -> (r: usize) {
        self.bytes.len()
    }
}

/// The marker variant: carries no data at all. Its `len` is the largest
/// representable length, and its destructor observably raises the shared
/// counter — the destructor-invocation experiments of the tests rely on it.
pub struct MarkerVal {}

impl UnionVariant for MarkerVal {
    open spec fn active(&self) -> Active {
        Active::Marker
    }

    open spec fn inv(&self) -> bool {
        true
    }

    open spec fn table_spec() -> TableHandle {
        TableHandle::MarkerTable
    }

    open spec fn encoding(&self) -> Seq<u8> {
        Seq::empty()
    }

    proof fn roundtrip(&self) {
    }

    fn table(&self) -> (t: TableHandle) {
        TableHandle::MarkerTable
    }

    fn encode(self) -> (b: Vec<u8>) {
        let b: Vec<u8> = Vec::new();
        proof {
            assert(b@ =~= Seq::<u8>::empty());
        }
        b
    }

    fn direct_len(&self) -> (r: usize) {
        usize::MAX
    }
}

} // verus!
