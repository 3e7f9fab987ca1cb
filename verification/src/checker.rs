//! Build-time conformance checking of variants against the interface bound.
//!
//! Every declared variant must provably meet every requirement of the bound
//! before any container definition is emitted. Success is recorded as one
//! [`Witness`] per variant; failure names the offending variant and the first
//! requirement it misses, and is reported before anything is emitted — there
//! is no run-time conformance path.

use crate::decl::{
    conforms, has_lifetime, normalized, satisfies, BoundItem, VariantDecl, STATIC_LIFETIME,
};
use vstd::prelude::*;

verus! {

/// Unforgeable record that one variant was checked against the bound.
///
/// The field is private and the only constructor is private to this module,
/// so no code outside the crate can fabricate a witness for a type the
/// checker never saw.
pub struct Witness {
    variant: u64,
}

impl Witness {
    /// The variant the witness was granted for.
    pub closed spec fn spec_variant(self) -> u64 {
        self.variant
    }

    /// Reads the variant the witness was granted for.
    pub fn variant_id(&self) -> (r: u64)
        ensures
            r == self.spec_variant(),
    {
        self.variant
    }
}

/// A variant failed the conformance check.
#[derive(Clone, Copy, PartialEq, Eq, Structural, Debug)]
pub struct ConformanceError {
    /// The offending variant.
    pub variant: u64,
    /// The first requirement of the normalized bound the variant misses.
    pub missing: BoundItem,
}

/// The bound as checked: unchanged when it names a lifetime of its own,
/// otherwise with the implicit whole-program lifetime appended.
pub fn normalize(bound: &Vec<BoundItem>) -> (r: Vec<BoundItem>)
    ensures
        r@ == normalized(bound@),
{
    let mut out: Vec<BoundItem> = Vec::new();
    let mut i: usize = 0;
    let mut saw_lifetime = false;
    while i < bound.len()
        invariant
            0 <= i <= bound@.len(),
            out@ == bound@.subrange(0, i as int),
            saw_lifetime == exists|j: int| 0 <= j < i && (#[trigger] bound@[j]) is Lifetime,
        decreases bound@.len() - i,
    {
        let item = bound[i];
        if let BoundItem::Lifetime(_) = item {
            saw_lifetime = true;
        }
        out.push(item);
        i = i + 1;
    }
    assert(out@ =~= bound@);
    if !saw_lifetime {
        out.push(BoundItem::Lifetime(STATIC_LIFETIME));
        assert(!has_lifetime(bound@));
    } else {
        assert(has_lifetime(bound@));
    }
    out
}

/// Whether the variant meets one requirement.
pub fn satisfies_item(v: &VariantDecl, item: &BoundItem) -> (r: bool)
    ensures
        r == satisfies(*v, *item),
{
    match item {
        BoundItem::Primary(c) => crate::decl::contains_id(&v.caps, *c),
        BoundItem::Marker(c) => crate::decl::contains_id(&v.caps, *c),
        BoundItem::Lifetime(l) => crate::decl::contains_id(&v.lifetimes, *l),
    }
}

/// Checks one variant against a normalized bound.
///
/// Succeeds, granting a witness, exactly when the variant meets every
/// requirement; otherwise reports the variant and the first requirement it
/// misses.
pub fn check_variant(v: &VariantDecl, bound: &Vec<BoundItem>) -> (r: Result<
    Witness,
    ConformanceError,
>)
    ensures
        r is Ok <==> conforms(*v, bound@),
        r matches Ok(w) ==> w.spec_variant() == v.id,
        r matches Err(e) ==> e.variant == v.id && exists|i: int|
            0 <= i < bound@.len() && #[trigger] bound@[i] == e.missing && !satisfies(*v, bound@[i])
                && (forall|j: int| 0 <= j < i ==> satisfies(*v, #[trigger] bound@[j])),
{
    let mut i: usize = 0;
    while i < bound.len()
        invariant
            0 <= i <= bound@.len(),
            forall|j: int| 0 <= j < i ==> satisfies(*v, #[trigger] bound@[j]),
        decreases bound@.len() - i,
    {
        if !satisfies_item(v, &bound[i]) {
            return Err(ConformanceError { variant: v.id, missing: bound[i] });
        }
        i = i + 1;
    }
    Ok(Witness { variant: v.id })
}

} // verus!
