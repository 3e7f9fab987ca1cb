//! Size and alignment arithmetic for the container layout.
//!
//! A container value is one inline byte region, sized and aligned to the
//! maximum over all declared variants, followed by one pointer-sized handle
//! to the captured dispatch table. The size of the whole container is the
//! maximal variant size rounded up to the container's alignment, plus the
//! handle — independent of how many variants were declared.

use vstd::arithmetic::div_mod::{lemma_fundamental_div_mod, lemma_mod_multiples_basic};
use vstd::prelude::*;

verus! {

/// Size in bytes of the dispatch-table handle stored beside the inline region.
pub const HANDLE_BYTES: usize = 8;

/// Largest variant size a declaration may carry.
pub const SIZE_LIMIT: usize = 0x1000_0000;

/// Largest variant alignment a declaration may carry.
pub const ALIGN_LIMIT: usize = 0x1000_0000;

/// `size` rounded up to the next multiple of `align`.
pub open spec fn spec_align_up(size: int, align: int) -> int
    recommends
        0 < align,
{
    if size % align == 0 {
        size
    } else {
        size + (align - size % align)
    }
}

/// The larger of two values.
pub open spec fn spec_max(a: int, b: int) -> int {
    if a >= b {
        a
    } else {
        b
    }
}

/// Total size of a container whose variants need at most `max_size` bytes at
/// alignment `max_align`: the inline region rounded up to the alignment, plus
/// the dispatch-table handle.
pub open spec fn spec_container_size(max_size: int, max_align: int) -> int
    recommends
        0 < max_align,
{
    spec_align_up(max_size, max_align) + HANDLE_BYTES
}

/// Rounding up lands on the nearest multiple of `align` at or above `size`.
pub proof fn lemma_align_up_properties(size: int, align: int)
    requires
        0 <= size,
        0 < align,
    ensures
        size <= spec_align_up(size, align) < size + align,
        spec_align_up(size, align) % align == 0,
{
    let rem = size % align;
    lemma_fundamental_div_mod(size, align);
    if rem != 0 {
        lemma_mod_multiples_basic(size / align + 1, align);
        assert(size + (align - rem) == (size / align + 1) * align) by (nonlinear_arith)
            requires
                size == align * (size / align) + rem,
        ;
    }
}

/// Computes `spec_align_up` on machine integers.
pub fn align_up(size: usize, align: usize) -> (r: usize)
    requires
        0 < align,
        size + align <= usize::MAX,
    ensures
        r == spec_align_up(size as int, align as int),
{
    let rem = size % align;
    if rem == 0 {
        size
    } else {
        size + (align - rem)
    }
}

/// Computes `spec_max` on machine integers.
pub fn max_usize(a: usize, b: usize) -> (r: usize)
    ensures
        r == spec_max(a as int, b as int),
{
    if a >= b {
        a
    } else {
        b
    }
}

} // verus!
