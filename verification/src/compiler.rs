//! The union compiler: consumes one checked declaration and emits the
//! description of the container definitions for it.
//!
//! Each declaration moves through `parsed -> checked -> emitted`: the bound is
//! validated (exactly one behaviour-bearing capability), every variant is
//! checked against the normalized bound, and only then is the container
//! description synthesized — its layout, its dispatch capability, its sharing
//! marker, and one conformance witness per variant. All failures are
//! build-time values of [`CompileError`]; nothing is emitted for a failing
//! declaration. Declarations in a batch are independent: one failure never
//! blocks emission for the others.

use crate::checker::{check_variant, normalize, ConformanceError, Witness};
use crate::decl::{
    all_shareable, conforms, normalized, primary_count, satisfies, BoundItem, UnionDecl,
    VariantDecl, Visibility,
};
use crate::layout::{
    align_up, max_usize, spec_container_size, spec_max, HANDLE_BYTES,
};
use vstd::prelude::*;

verus! {

/// Why a declaration was rejected. Every error is a build-time value; a
/// rejected declaration emits nothing.
#[derive(Clone, Copy, PartialEq, Eq, Structural, Debug)]
pub enum CompileError {
    /// Malformed declaration: the variant list is empty.
    EmptyVariantList,
    /// Malformed declaration: the interface bound carries no behaviour-bearing
    /// capability (in particular, a bound with zero capabilities).
    NoPrimaryCapability,
    /// More than one behaviour-bearing capability: the dispatch-table shape
    /// would be ambiguous.
    AmbiguousBound,
    /// A variant does not implement the bound; names the variant and the
    /// first requirement it misses.
    Conformance(ConformanceError),
}

/// The definitions synthesized for one checked declaration.
pub struct Emitted {
    /// Name of the emitted container type.
    pub name: String,
    /// Visibility of the emitted definitions.
    pub vis: Visibility,
    /// Capability id of the primary interface the container dispatches
    /// through.
    pub primary: u64,
    /// Size in bytes of one container value: the inline region rounded up to
    /// the container alignment, plus the dispatch-table handle.
    pub size: usize,
    /// Alignment in bytes of one container value: the maximal variant
    /// alignment.
    pub align: usize,
    /// Whether a container may be shared by reference across threads. The
    /// dispatch handle references only constant data and is always safe to
    /// share; the marker is granted only when every variant's own data is
    /// shareable too, never from the handle alone.
    pub shareable: bool,
    /// One conformance witness per declared variant, in declaration order.
    pub witnesses: Vec<Witness>,
}

/// Largest variant size in the list (zero for none).
pub open spec fn max_size_of(vs: Seq<VariantDecl>) -> int
    decreases vs.len(),
{
    if vs.len() == 0 {
        0
    } else {
        spec_max(max_size_of(vs.drop_last()), vs.last().size as int)
    }
}

/// Largest variant alignment in the list (one for none).
pub open spec fn max_align_of(vs: Seq<VariantDecl>) -> int
    decreases vs.len(),
{
    if vs.len() == 0 {
        1
    } else {
        spec_max(max_align_of(vs.drop_last()), vs.last().align as int)
    }
}

/// What the emitted description says of its declaration.
pub open spec fn emitted_matches(d: UnionDecl, e: Emitted) -> bool {
    &&& e.name@ == d.name@
    &&& e.vis == d.vis
    &&& (exists|k: int|
        0 <= k < d.bound@.len() && #[trigger] d.bound@[k] == BoundItem::Primary(e.primary))
    &&& e.size == spec_container_size(max_size_of(d.variants@), max_align_of(d.variants@))
    &&& e.align == max_align_of(d.variants@)
    &&& e.shareable == all_shareable(d.variants@)
    &&& e.witnesses@.len() == d.variants@.len()
    &&& (forall|i: int|
        0 <= i < d.variants@.len() ==> (#[trigger] e.witnesses@[i]).spec_variant()
            == d.variants@[i].id)
}

/// The whole compilation contract: which error a declaration draws, in which
/// order the checks apply, and what the emitted description holds on success.
pub open spec fn compile_post(d: UnionDecl, r: Result<Emitted, CompileError>) -> bool {
    let nb = normalized(d.bound@);
    if d.variants@.len() == 0 {
        r matches Err(e) && e == CompileError::EmptyVariantList
    } else if primary_count(d.bound@) == 0 {
        r matches Err(e) && e == CompileError::NoPrimaryCapability
    } else if primary_count(d.bound@) >= 2 {
        r matches Err(e) && e == CompileError::AmbiguousBound
    } else if exists|i: int| 0 <= i < d.variants@.len() && !conforms(#[trigger] d.variants@[i], nb) {
        exists|i: int|
            0 <= i < d.variants@.len() && !conforms(#[trigger] d.variants@[i], nb) && (forall|j: int|
                0 <= j < i ==> conforms(#[trigger] d.variants@[j], nb)) && (r matches Err(
                CompileError::Conformance(e),
            ) && e.variant == d.variants@[i].id && exists|k: int|
                0 <= k < nb.len() && #[trigger] nb[k] == e.missing && !satisfies(
                    d.variants@[i],
                    nb[k],
                ) && (forall|m: int| 0 <= m < k ==> satisfies(d.variants@[i], #[trigger] nb[m])))
    } else {
        r matches Ok(e) && emitted_matches(d, e)
    }
}

/// The maxima over a variant list are bounds and are attained: no variant is
/// larger or more aligned than the maxima say, and some variant reaches each.
proof fn lemma_variant_maxima(vs: Seq<VariantDecl>)
    requires
        forall|i: int| 0 <= i < vs.len() ==> (#[trigger] vs[i]).align >= 1,
    ensures
        forall|i: int| 0 <= i < vs.len() ==> (#[trigger] vs[i]).size <= max_size_of(vs),
        forall|i: int| 0 <= i < vs.len() ==> (#[trigger] vs[i]).align <= max_align_of(vs),
        vs.len() > 0 ==> exists|i: int|
            0 <= i < vs.len() && (#[trigger] vs[i]).size == max_size_of(vs),
        vs.len() > 0 ==> exists|i: int|
            0 <= i < vs.len() && (#[trigger] vs[i]).align == max_align_of(vs),
    decreases vs.len(),
{
    if vs.len() > 0 {
        let pre = vs.drop_last();
        let last = vs.len() - 1;
        assert(forall|i: int| 0 <= i < pre.len() ==> pre[i] == vs[i]);
        lemma_variant_maxima(pre);
        if vs[last].size as int >= max_size_of(pre) {
            assert(vs[last].size == max_size_of(vs));
        } else {
            assert(pre.len() > 0);
            let w = choose|i: int| 0 <= i < pre.len() && (#[trigger] pre[i]).size == max_size_of(
                pre,
            );
            assert(vs[w].size == max_size_of(vs));
        }
        if vs[last].align as int >= max_align_of(pre) {
            assert(vs[last].align == max_align_of(vs));
        } else {
            assert(pre.len() > 0);
            let w = choose|i: int| 0 <= i < pre.len() && (#[trigger] pre[i]).align == max_align_of(
                pre,
            );
            assert(vs[w].align == max_align_of(vs));
        }
    }
}

/// The layout law of every emitted description: the container's alignment is
/// the largest variant alignment, its size is the largest variant size
/// rounded up to that alignment plus the dispatch-table handle — a function
/// of the maxima alone, never of how many variants were declared — and both
/// maxima are attained by declared variants.
pub proof fn lemma_emitted_layout(d: UnionDecl, e: Emitted)
    requires
        d.wf(),
        d.variants@.len() > 0,
        emitted_matches(d, e),
    ensures
        e.align == max_align_of(d.variants@),
        e.size == crate::layout::spec_align_up(max_size_of(d.variants@), e.align as int)
            + HANDLE_BYTES,
        forall|i: int|
            0 <= i < d.variants@.len() ==> (#[trigger] d.variants@[i]).size <= max_size_of(
                d.variants@,
            ),
        forall|i: int| 0 <= i < d.variants@.len() ==> (#[trigger] d.variants@[i]).align <= e.align,
        exists|i: int|
            0 <= i < d.variants@.len() && (#[trigger] d.variants@[i]).size == max_size_of(
                d.variants@,
            ),
        exists|i: int| 0 <= i < d.variants@.len() && (#[trigger] d.variants@[i]).align == e.align,
{
    assert(forall|i: int| 0 <= i < d.variants@.len() ==> (#[trigger] d.variants@[i]).align >= 1);
    lemma_variant_maxima(d.variants@);
}

/// A bound with a behaviour-bearing capability at position `k` counts it.
proof fn lemma_primary_count_at_least_one(s: Seq<BoundItem>, k: int)
    requires
        0 <= k < s.len(),
        s[k] is Primary,
    ensures
        primary_count(s) >= 1,
    decreases s.len(),
{
    if k < s.len() - 1 {
        assert(s.drop_last()[k] == s[k]);
        lemma_primary_count_at_least_one(s.drop_last(), k);
    }
}

/// A bound with behaviour-bearing capabilities at two positions counts both.
proof fn lemma_primary_count_at_least_two(s: Seq<BoundItem>, k1: int, k2: int)
    requires
        0 <= k1 < k2 < s.len(),
        s[k1] is Primary,
        s[k2] is Primary,
    ensures
        primary_count(s) >= 2,
    decreases s.len(),
{
    assert(s.drop_last()[k1] == s[k1]);
    if k2 == s.len() - 1 {
        lemma_primary_count_at_least_one(s.drop_last(), k1);
    } else {
        assert(s.drop_last()[k2] == s[k2]);
        lemma_primary_count_at_least_two(s.drop_last(), k1, k2);
    }
}

/// Emission is deterministic: any two results the compilation contract allows
/// for the same declaration are the same result — the same error, or emitted
/// descriptions that agree on every field (witnesses compared by the variant
/// they were granted for).
pub proof fn lemma_emission_deterministic(
    d: UnionDecl,
    r1: Result<Emitted, CompileError>,
    r2: Result<Emitted, CompileError>,
)
    requires
        compile_post(d, r1),
        compile_post(d, r2),
    ensures
        r1 is Ok <==> r2 is Ok,
        r1 matches Err(e1) ==> (r2 matches Err(e2) && e1 == e2),
        r1 matches Ok(e1) ==> (r2 matches Ok(e2) && e1.name@ == e2.name@ && e1.vis == e2.vis
            && e1.primary == e2.primary && e1.size == e2.size && e1.align == e2.align
            && e1.shareable == e2.shareable && e1.witnesses@.len() == e2.witnesses@.len() && (
        forall|i: int|
            0 <= i < e1.witnesses@.len() ==> (#[trigger] e1.witnesses@[i]).spec_variant()
                == e2.witnesses@[i].spec_variant())),
{
    let nb = normalized(d.bound@);
    let vars = d.variants@;
    if d.variants@.len() == 0 {
    } else if primary_count(d.bound@) == 0 {
    } else if primary_count(d.bound@) >= 2 {
    } else if exists|i: int| 0 <= i < vars.len() && !conforms(#[trigger] vars[i], nb) {
        let i1 = choose|i: int|
            0 <= i < vars.len() && !conforms(#[trigger] vars[i], nb) && (forall|j: int|
                0 <= j < i ==> conforms(#[trigger] vars[j], nb)) && (r1 matches Err(
                CompileError::Conformance(e),
            ) && e.variant == vars[i].id && exists|k: int|
                0 <= k < nb.len() && #[trigger] nb[k] == e.missing && !satisfies(vars[i], nb[k])
                    && (forall|m: int| 0 <= m < k ==> satisfies(vars[i], #[trigger] nb[m])));
        let i2 = choose|i: int|
            0 <= i < vars.len() && !conforms(#[trigger] vars[i], nb) && (forall|j: int|
                0 <= j < i ==> conforms(#[trigger] vars[j], nb)) && (r2 matches Err(
                CompileError::Conformance(e),
            ) && e.variant == vars[i].id && exists|k: int|
                0 <= k < nb.len() && #[trigger] nb[k] == e.missing && !satisfies(vars[i], nb[k])
                    && (forall|m: int| 0 <= m < k ==> satisfies(vars[i], #[trigger] nb[m])));
        // both positions are the first nonconforming variant, so they are one
        assert(i1 == i2);
        if let Err(CompileError::Conformance(e1x)) = r1 {
            if let Err(CompileError::Conformance(e2x)) = r2 {
                let k1 = choose|k: int|
                    0 <= k < nb.len() && #[trigger] nb[k] == e1x.missing && !satisfies(
                        vars[i1],
                        nb[k],
                    ) && (forall|m: int| 0 <= m < k ==> satisfies(vars[i1], #[trigger] nb[m]));
                let k2 = choose|k: int|
                    0 <= k < nb.len() && #[trigger] nb[k] == e2x.missing && !satisfies(
                        vars[i1],
                        nb[k],
                    ) && (forall|m: int| 0 <= m < k ==> satisfies(vars[i1], #[trigger] nb[m]));
                // both are the first missing requirement of that variant
                assert(k1 == k2);
                assert(e1x == e2x);
            }
        }
    } else {
        if let Ok(e1x) = r1 {
            if let Ok(e2x) = r2 {
                let k1 = choose|k: int|
                    0 <= k < d.bound@.len() && #[trigger] d.bound@[k] == BoundItem::Primary(
                        e1x.primary,
                    );
                let k2 = choose|k: int|
                    0 <= k < d.bound@.len() && #[trigger] d.bound@[k] == BoundItem::Primary(
                        e2x.primary,
                    );
                if k1 != k2 {
                    if k1 < k2 {
                        lemma_primary_count_at_least_two(d.bound@, k1, k2);
                    } else {
                        lemma_primary_count_at_least_two(d.bound@, k2, k1);
                    }
                }
                assert(e1x.primary == e2x.primary);
            }
        }
    }
}

/// Counts the behaviour-bearing capabilities of a bound; when there is at
/// least one, also reports the id of the first.
fn count_primaries(bound: &Vec<BoundItem>) -> (r: (usize, u64))
    ensures
        r.0 == primary_count(bound@),
        r.0 >= 1 ==> exists|k: int|
            0 <= k < bound@.len() && #[trigger] bound@[k] == BoundItem::Primary(r.1),
{
    let mut cnt: usize = 0;
    let mut first: u64 = 0;
    let mut i: usize = 0;
    while i < bound.len()
        invariant
            0 <= i <= bound@.len(),
            cnt <= i,
            cnt == primary_count(bound@.subrange(0, i as int)),
            cnt >= 1 ==> exists|k: int|
                0 <= k < i && #[trigger] bound@[k] == BoundItem::Primary(first),
        decreases bound@.len() - i,
    {
        proof {
            assert(bound@.subrange(0, i + 1).drop_last() =~= bound@.subrange(0, i as int));
            assert(bound@.subrange(0, i + 1).last() == bound@[i as int]);
        }
        if let BoundItem::Primary(c) = bound[i] {
            if cnt == 0 {
                first = c;
            }
            cnt = cnt + 1;
        }
        i = i + 1;
    }
    proof {
        assert(bound@.subrange(0, bound@.len() as int) =~= bound@);
    }
    (cnt, first)
}

/// Compiles one declaration: validates the bound, checks every variant, and
/// emits the container description. The declaration is consumed; identical
/// declarations always draw the same result, as the contract is a function of
/// the declaration alone.
pub fn compile(d: UnionDecl) -> (r: Result<Emitted, CompileError>)
    requires
        d.wf(),
    ensures
        compile_post(d, r),
{
    let ghost dg = d;
    let UnionDecl { name, vis, bound, variants } = d;
    if variants.len() == 0 {
        return Err(CompileError::EmptyVariantList);
    }
    let (pc, primary) = count_primaries(&bound);
    if pc == 0 {
        return Err(CompileError::NoPrimaryCapability);
    }
    if pc >= 2 {
        return Err(CompileError::AmbiguousBound);
    }
    let nb = normalize(&bound);
    let mut witnesses: Vec<Witness> = Vec::new();
    let mut max_size: usize = 0;
    let mut max_align: usize = 1;
    let mut shareable = true;
    let mut i: usize = 0;
    while i < variants.len()
        invariant
            0 <= i <= variants@.len(),
            d == dg,
            variants@ == dg.variants@,
            bound@ == dg.bound@,
            primary_count(dg.bound@) == 1,
            nb@ == normalized(dg.bound@),
            dg.wf(),
            witnesses@.len() == i,
            forall|j: int|
                0 <= j < i ==> (#[trigger] witnesses@[j]).spec_variant() == variants@[j].id,
            forall|j: int| 0 <= j < i ==> conforms(#[trigger] variants@[j], nb@),
            max_size == max_size_of(variants@.subrange(0, i as int)),
            max_align == max_align_of(variants@.subrange(0, i as int)),
            max_size <= crate::layout::SIZE_LIMIT,
            1 <= max_align <= crate::layout::ALIGN_LIMIT,
            shareable == all_shareable(variants@.subrange(0, i as int)),
        decreases variants@.len() - i,
    {
        proof {
            assert(variants@.subrange(0, i + 1).drop_last() =~= variants@.subrange(0, i as int));
            assert(variants@.subrange(0, i + 1).last() == variants@[i as int]);
            assert(dg.variants@[i as int].wf());
        }
        let v = &variants[i];
        match check_variant(v, &nb) {
            Err(e) => {
                proof {
                    let gi = i as int;
                    let gnb = normalized(dg.bound@);
                    let rr = Result::<Emitted, CompileError>::Err(CompileError::Conformance(e));
                    assert(!conforms(dg.variants@[gi], gnb));
                    assert(exists|k: int|
                        0 <= k < gnb.len() && #[trigger] gnb[k] == e.missing && !satisfies(
                            dg.variants@[gi],
                            gnb[k],
                        ) && (forall|m: int|
                            0 <= m < k ==> satisfies(dg.variants@[gi], #[trigger] gnb[m])));
                    assert(compile_post(dg, rr));
                }
                return Err(CompileError::Conformance(e));
            },
            Ok(w) => {
                witnesses.push(w);
            },
        }
        max_size = max_usize(max_size, v.size);
        max_align = max_usize(max_align, v.align);
        shareable = shareable && v.shareable;
        proof {
            let pre = variants@.subrange(0, i as int);
            let post = variants@.subrange(0, i + 1);
            assert(all_shareable(post) == (all_shareable(pre) && variants@[i as int].shareable));
        }
        i = i + 1;
    }
    proof {
        assert(variants@.subrange(0, variants@.len() as int) =~= variants@);
    }
    proof {
        crate::layout::lemma_align_up_properties(max_size as int, max_align as int);
    }
    let region = align_up(max_size, max_align);
    let size = region + HANDLE_BYTES;
    Ok(
        Emitted {
            name,
            vis,
            primary,
            size,
            align: max_align,
            shareable,
            witnesses,
        },
    )
}

/// Compiles a batch of declarations independently: the result list pairs with
/// the input list position by position, and one failing declaration never
/// blocks the others.
pub fn compile_batch(ds: Vec<UnionDecl>) -> (rs: Vec<Result<Emitted, CompileError>>)
    requires
        forall|i: int| 0 <= i < ds@.len() ==> (#[trigger] ds@[i]).wf(),
    ensures
        rs@.len() == ds@.len(),
        forall|i: int| 0 <= i < ds@.len() ==> compile_post(ds@[i], #[trigger] rs@[i]),
{
    let ghost orig = ds@;
    let mut rest = ds;
    let mut rs: Vec<Result<Emitted, CompileError>> = Vec::new();
    while rest.len() > 0
        invariant
            rs@.len() + rest@.len() == orig.len(),
            rest@ == orig.subrange(rs@.len() as int, orig.len() as int),
            forall|i: int| 0 <= i < orig.len() ==> (#[trigger] orig[i]).wf(),
            forall|i: int| 0 <= i < rs@.len() ==> compile_post(orig[i], #[trigger] rs@[i]),
        decreases rest@.len(),
    {
        proof {
            assert(rest@[0] == orig[rs@.len() as int]);
        }
        let d = rest.remove(0);
        let ghost k = rs@.len() as int;
        let r = compile(d);
        rs.push(r);
        proof {
            assert(rest@ =~= orig.subrange(k + 1, orig.len() as int));
        }
    }
    rs
}

} // verus!
