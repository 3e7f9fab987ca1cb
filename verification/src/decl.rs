//! The structured union declaration the compiler consumes.
//!
//! A declaration arrives already parsed: a name, a visibility, an interface
//! bound (a list of capability requirements), and a non-empty ordered list of
//! variant descriptions. Each variant description carries the facts the
//! build-time checks need: its size and alignment, the capabilities its type
//! implements, the lifetime requirements it satisfies, and whether its own
//! data may be shared by reference across threads.

use crate::layout::{ALIGN_LIMIT, SIZE_LIMIT};
use vstd::prelude::*;

verus! {

/// The lifetime requirement added implicitly when a bound names no lifetime
/// of its own: values must be owned for the whole program.
pub const STATIC_LIFETIME: u64 = 0;

/// One requirement in an interface bound.
#[derive(Clone, Copy, PartialEq, Eq, Structural, Debug)]
pub enum BoundItem {
    /// A capability with executable behaviour: the interface the container
    /// dispatches through. A bound must contain exactly one of these.
    Primary(u64),
    /// An auxiliary marker capability with no behaviour of its own.
    Marker(u64),
    /// A lifetime requirement.
    Lifetime(u64),
}

/// Visibility of the emitted definitions, passed through unchanged.
#[derive(Clone, Copy, PartialEq, Eq, Structural, Debug)]
pub enum Visibility {
    Public,
    Crate,
    Private,
}

/// One concrete type eligible to populate the container.
pub struct VariantDecl {
    /// Identifies the type in error reports and witnesses.
    pub id: u64,
    /// Size in bytes of a value of the type.
    pub size: usize,
    /// Alignment in bytes of the type.
    pub align: usize,
    /// Capabilities (primary and marker) the type implements.
    pub caps: Vec<u64>,
    /// Lifetime requirements the type satisfies.
    pub lifetimes: Vec<u64>,
    /// Whether the type's own data may be shared by reference across threads.
    pub shareable: bool,
}

/// A whole union declaration, consumed exactly once by the compiler.
pub struct UnionDecl {
    /// Name of the container type to emit.
    pub name: String,
    /// Visibility of the emitted definitions.
    pub vis: Visibility,
    /// The interface bound.
    pub bound: Vec<BoundItem>,
    /// The ordered list of candidate variant types.
    pub variants: Vec<VariantDecl>,
}

impl VariantDecl {
    /// A variant description the front end may hand over: positive alignment,
    /// and size and alignment small enough that the layout arithmetic cannot
    /// wrap.
    pub open spec fn wf(self) -> bool {
        0 < self.align <= ALIGN_LIMIT && self.size <= SIZE_LIMIT
    }
}

impl UnionDecl {
    /// A declaration the front end may hand over: every variant description
    /// well-formed.
    pub open spec fn wf(self) -> bool {
        forall|i: int| 0 <= i < self.variants@.len() ==> (#[trigger] self.variants@[i]).wf()
    }
}

/// Whether variant `v` meets one requirement of the bound.
pub open spec fn satisfies(v: VariantDecl, item: BoundItem) -> bool {
    match item {
        BoundItem::Primary(c) => v.caps@.contains(c),
        BoundItem::Marker(c) => v.caps@.contains(c),
        BoundItem::Lifetime(l) => v.lifetimes@.contains(l),
    }
}

/// Whether variant `v` meets every requirement of the bound.
pub open spec fn conforms(v: VariantDecl, bound: Seq<BoundItem>) -> bool {
    forall|i: int| 0 <= i < bound.len() ==> satisfies(v, #[trigger] bound[i])
}

/// Whether a bound names a lifetime requirement of its own.
pub open spec fn has_lifetime(bound: Seq<BoundItem>) -> bool {
    exists|i: int| 0 <= i < bound.len() && (#[trigger] bound[i]) is Lifetime
}

/// The bound as the checker sees it: unchanged when it names a lifetime,
/// otherwise with the implicit whole-program lifetime appended.
pub open spec fn normalized(bound: Seq<BoundItem>) -> Seq<BoundItem> {
    if has_lifetime(bound) {
        bound
    } else {
        bound.push(BoundItem::Lifetime(STATIC_LIFETIME))
    }
}

/// Number of behaviour-bearing capabilities in a bound.
pub open spec fn primary_count(bound: Seq<BoundItem>) -> nat
    decreases bound.len(),
{
    if bound.len() == 0 {
        0
    } else {
        primary_count(bound.drop_last()) + if bound.last() is Primary {
            1nat
        } else {
            0nat
        }
    }
}

/// Whether every variant's own data may be shared across threads.
pub open spec fn all_shareable(vs: Seq<VariantDecl>) -> bool {
    forall|i: int| 0 <= i < vs.len() ==> (#[trigger] vs[i]).shareable
}

/// Whether `xs` holds `id`.
pub fn contains_id(xs: &Vec<u64>, id: u64) -> (r: bool)
    ensures
        r == xs@.contains(id),
{
    let mut i: usize = 0;
    while i < xs.len()
        invariant
            0 <= i <= xs@.len(),
            forall|j: int| 0 <= j < i ==> xs@[j] != id,
        decreases xs@.len() - i,
    {
        if xs[i] == id {
            return true;
        }
        i = i + 1;
    }
    false
}

} // verus!
