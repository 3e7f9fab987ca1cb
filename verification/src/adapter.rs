//! The fat-pointer codec: a canonical `{stored bytes, dispatch-table handle}`
//! pair, and the interface operations reconstructed from it.
//!
//! Erasing a typed value yields its byte representation plus a handle to the
//! dispatch table of its type; unerasing interprets the bytes through that
//! table and nothing else. The bytes carry no discriminant: the handle alone
//! decides how they are read, which is why the round trip (erase, then
//! unerase) must be proved to recover the erased value's behaviour exactly.
//!
//! The tables here belong to the exemplar interface of this crate: one `len`
//! operation, one `set_len` operation, a rendering operation, and a destructor
//! slot, over three variant types (a byte, a short text, and a zero-sized
//! marker whose destructor has an observable effect).

use vstd::prelude::*;

verus! {

/// Capacity in bytes of the text variant: the largest byte representation any
/// variant of the exemplar interface stores.
pub const TEXT_CAP: usize = 24;

/// Identifies the dispatch table captured for one concrete variant type.
///
/// A real table is immutable constant data (function pointers for the
/// interface operations and the destructor, plus the size and alignment of
/// the concrete type); the handle may therefore be copied and read from any
/// thread. Which table a handle names is the only state, besides the bytes
/// themselves, that a container carries.
#[derive(Clone, Copy, PartialEq, Eq, Structural, Debug)]
pub enum TableHandle {
    /// Table of the byte variant (`u8`).
    ByteTable,
    /// Table of the short-text variant.
    TextTable,
    /// Table of the zero-sized marker variant.
    MarkerTable,
}

/// The mathematical value recovered when stored bytes are interpreted through
/// a dispatch table.
pub enum Active {
    Byte(u8),
    Text(Seq<u8>),
    Marker,
}

/// Interprets `bytes` through the table `t`: the unerase half of the codec.
/// `None` means the bytes could not have been written for a value of the
/// table's type.
pub open spec fn decode_spec(t: TableHandle, bytes: Seq<u8>) -> Option<Active> {
    match t {
        TableHandle::ByteTable => if bytes.len() == 1 {
            Some(Active::Byte(bytes[0]))
        } else {
            None
        },
        TableHandle::TextTable => if bytes.len() <= TEXT_CAP {
            Some(Active::Text(bytes))
        } else {
            None
        },
        TableHandle::MarkerTable => if bytes.len() == 0 {
            Some(Active::Marker)
        } else {
            None
        },
    }
}

/// Size in bytes of the table's concrete type (the metadata the destructor
/// slot needs).
pub open spec fn table_size(t: TableHandle) -> int {
    match t {
        TableHandle::ByteTable => 1,
        TableHandle::TextTable => TEXT_CAP as int,
        TableHandle::MarkerTable => 0,
    }
}

/// Alignment in bytes of the table's concrete type.
pub open spec fn table_align(t: TableHandle) -> int {
    match t {
        TableHandle::ByteTable => 1,
        TableHandle::TextTable => 8,
        TableHandle::MarkerTable => 4,
    }
}

/// What the interface's `len` operation answers for an active value: the byte
/// variant answers its own value, the text variant its character count, the
/// marker the largest representable length.
pub open spec fn active_len(a: Active) -> int {
    match a {
        Active::Byte(b) => b as int,
        Active::Text(s) => s.len() as int,
        Active::Marker => usize::MAX as int,
    }
}

/// What the interface's `set_len` operation leaves behind: the byte variant
/// takes the truncated length as its new value, the text variant truncates
/// itself, the marker is unchanged (its effect lands on the counter instead).
pub open spec fn active_set_len(a: Active, n: usize) -> Active {
    match a {
        Active::Byte(_) => Active::Byte(n as u8),
        Active::Text(s) => Active::Text(
            if n < s.len() {
                s.take(n as int)
            } else {
                s
            },
        ),
        Active::Marker => Active::Marker,
    }
}

/// The observable side effect of `set_len` on the shared counter: only the
/// marker variant touches it, storing the requested length.
pub open spec fn set_len_effect(a: Active, n: usize, counter: usize) -> usize {
    match a {
        Active::Marker => n,
        _ => counter,
    }
}

/// The observable side effect of the destructor slot on the shared counter:
/// only the marker variant's destructor touches it, raising it by one
/// (wrapping at the machine limit).
pub open spec fn drop_effect(a: Active, counter: usize) -> usize {
    match a {
        Active::Marker => if counter == usize::MAX {
            0
        } else {
            (counter + 1) as usize
        },
        _ => counter,
    }
}

/// Decimal digits of a byte value, most significant first.
pub open spec fn dec_digits(v: u8) -> Seq<u8> {
    if v < 10 {
        seq![(48 + v) as u8]
    } else if v < 100 {
        seq![(48 + v / 10) as u8, (48 + v % 10) as u8]
    } else {
        seq![(48 + v / 100) as u8, (48 + (v / 10) % 10) as u8, (48 + v % 10) as u8]
    }
}

/// What the interface's rendering operation answers: the byte variant in
/// decimal, the text variant as it stands, the marker as the letter `X`.
pub open spec fn active_render(a: Active) -> Seq<u8> {
    match a {
        Active::Byte(b) => dec_digits(b),
        Active::Text(s) => s,
        Active::Marker => seq![88u8],
    }
}

/// Invokes the `len` slot of the table on the stored bytes.
pub fn dispatch_len(t: TableHandle, bytes: &Vec<u8>) -> (r: usize)
    requires
        decode_spec(t, bytes@) is Some,
    ensures
        r == active_len(decode_spec(t, bytes@).unwrap()),
{
    match t {
        TableHandle::ByteTable => bytes[0] as usize,
        TableHandle::TextTable => bytes.len(),
        TableHandle::MarkerTable => usize::MAX,
    }
}

/// Invokes the `set_len` slot of the table on the stored bytes, with the
/// shared counter the marker variant's implementation writes to.
pub fn dispatch_set_len(t: TableHandle, bytes: &mut Vec<u8>, n: usize, counter: &mut usize)
    requires
        decode_spec(t, old(bytes)@) is Some,
    ensures
        decode_spec(t, final(bytes)@) == Some(
            active_set_len(decode_spec(t, old(bytes)@).unwrap(), n),
        ),
        *final(counter) == set_len_effect(decode_spec(t, old(bytes)@).unwrap(), n, *old(counter)),
{
    match t {
        TableHandle::ByteTable => {
            bytes.clear();
            bytes.push(n as u8);
            proof {
                assert(bytes@ =~= seq![n as u8]);
            }
        },
        TableHandle::TextTable => {
            if n < bytes.len() {
                bytes.truncate(n);
                proof {
                    assert(bytes@ =~= old(bytes)@.take(n as int));
                }
            }
        },
        TableHandle::MarkerTable => {
            *counter = n;
        },
    }
}

/// Invokes the destructor slot of the table on the stored bytes, with the
/// shared counter the marker variant's destructor raises.
pub fn dispatch_drop(t: TableHandle, bytes: &Vec<u8>, counter: &mut usize)
    requires
        decode_spec(t, bytes@) is Some,
    ensures
        *final(counter) == drop_effect(decode_spec(t, bytes@).unwrap(), *old(counter)),
{
    match t {
        TableHandle::MarkerTable => {
            if *counter == usize::MAX {
                *counter = 0;
            } else {
                *counter = *counter + 1;
            }
        },
        _ => {},
    }
}

/// Invokes the rendering slot of the table on the stored bytes.
pub fn dispatch_render(t: TableHandle, bytes: &Vec<u8>) -> (r: Vec<u8>)
    requires
        decode_spec(t, bytes@) is Some,
    ensures
        r@ == active_render(decode_spec(t, bytes@).unwrap()),
{
    match t {
        TableHandle::ByteTable => {
            let v = bytes[0];
            let mut out: Vec<u8> = Vec::new();
            if v >= 100 {
                out.push(48 + v / 100);
            }
            if v >= 10 {
                out.push(48 + (v / 10) % 10);
            }
            out.push(48 + v % 10);
            proof {
                assert(out@ =~= dec_digits(v));
            }
            out
        },
        TableHandle::TextTable => {
            let mut out: Vec<u8> = Vec::new();
            let mut i: usize = 0;
            while i < bytes.len()
                invariant
                    0 <= i <= bytes@.len(),
                    out@ == bytes@.subrange(0, i as int),
                decreases bytes@.len() - i,
            {
                out.push(bytes[i]);
                i = i + 1;
            }
            proof {
                assert(out@ =~= bytes@);
            }
            out
        },
        TableHandle::MarkerTable => {
            let mut out: Vec<u8> = Vec::new();
            out.push(88);
            proof {
                assert(out@ =~= seq![88u8]);
            }
            out
        },
    }
}

/// Reads the size metadata of the table's concrete type.
pub fn dispatch_size(t: TableHandle) -> (r: usize)
    ensures
        r == table_size(t),
{
    match t {
        TableHandle::ByteTable => 1,
        TableHandle::TextTable => TEXT_CAP,
        TableHandle::MarkerTable => 0,
    }
}

/// Reads the alignment metadata of the table's concrete type.
pub fn dispatch_align(t: TableHandle) -> (r: usize)
    ensures
        r == table_align(t),
{
    match t {
        TableHandle::ByteTable => 1,
        TableHandle::TextTable => 8,
        TableHandle::MarkerTable => 4,
    }
}

} // verus!
