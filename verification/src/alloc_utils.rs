//! Pointer math and layout utilities: the pure arithmetic that decides how
//! big a combined label-plus-elements block is and how it is aligned.

use vstd::prelude::*;

verus! {

/// `size` rounded up to the next multiple of `align`.
pub open spec fn spec_aligned_size(size: int, align: int) -> int
    recommends
        align > 0,
        size >= 0,
{
    if size % align == 0 {
        size
    } else {
        size - size % align + align
    }
}

/// Rounding a size up to a positive alignment lands on a multiple of the
/// alignment, never moves down, and moves up by less than one alignment.
pub proof fn lemma_aligned_size(size: int, align: int)
    requires
        align > 0,
        size >= 0,
    ensures
        spec_aligned_size(size, align) % align == 0,
        size <= spec_aligned_size(size, align) < size + align,
        0 <= size % align <= size,
{
    let r = size % align;
    assert(0 <= r < align && r <= size) by (nonlinear_arith)
        requires
            align > 0,
            size >= 0,
            r == size % align,
    ;
    if r != 0 {
        assert((size - r + align) % align == 0) by (nonlinear_arith)
            requires
                align > 0,
                r == size % align,
        ;
    }
}

/// Ensure `size` is a multiple of `align`: returns the rounded-up size
/// paired with the alignment it was rounded to.
pub fn ensure_align(size: usize, align: usize) -> (r: (usize, usize))
    requires
        align > 0,
        spec_aligned_size(size as int, align as int) <= usize::MAX,
    ensures
        r.0 == spec_aligned_size(size as int, align as int),
        r.1 == align,
        r.0 % align == 0,
        size <= r.0 < size + align,
{
    proof {
        lemma_aligned_size(size as int, align as int);
    }
    let off_by = size % align;
    if off_by == 0 {
        (size, align)
    } else {
        (size - off_by + align, align)
    }
}

/// The aligned size alone, for callers that already know the alignment.
pub fn aligned_size(size: usize, align: usize) -> (r: usize)
    requires
        align > 0,
        spec_aligned_size(size as int, align as int) <= usize::MAX,
    ensures
        r == spec_aligned_size(size as int, align as int),
        r % align == 0,
        size <= r < size + align,
{
    let (r, _) = ensure_align(size, align);
    r
}

/// The largest alignment in a list of `(size, align)` pairs; zero for an
/// empty list.
pub open spec fn spec_max_align(s: Seq<(usize, usize)>) -> int
    decreases s.len(),
{
    if s.len() == 0 {
        0
    } else {
        let rest = spec_max_align(s.drop_last());
        if rest > s.last().1 {
            rest
        } else {
            s.last().1 as int
        }
    }
}

/// The total size of a list of `(size, align)` pairs when every size is
/// rounded up to a common alignment `align`.
pub open spec fn spec_total_aligned_size(s: Seq<(usize, usize)>, align: int) -> int
    decreases s.len(),
{
    if s.len() == 0 {
        0
    } else {
        spec_total_aligned_size(s.drop_last(), align) + spec_aligned_size(
            s.last().0 as int,
            align,
        )
    }
}

proof fn lemma_max_align_bounds(s: Seq<(usize, usize)>)
    requires
        forall|i: int| 0 <= i < s.len() ==> #[trigger] s[i].1 > 0,
    ensures
        s.len() > 0 ==> spec_max_align(s) > 0,
        spec_max_align(s) <= usize::MAX,
        forall|i: int| 0 <= i < s.len() ==> #[trigger] s[i].1 <= spec_max_align(s),
    decreases s.len(),
{
    if s.len() > 0 {
        assert forall|i: int| 0 <= i < s.drop_last().len() implies #[trigger] s.drop_last()[i].1
            > 0 by {
            assert(s.drop_last()[i] == s[i]);
        }
        lemma_max_align_bounds(s.drop_last());
        assert forall|i: int| 0 <= i < s.len() implies #[trigger] s[i].1 <= spec_max_align(s) by {
            if i < s.len() - 1 {
                assert(s.drop_last()[i] == s[i]);
            } else {
                assert(s.last() == s[i]);
            }
        }
    }
}

proof fn lemma_total_aligned_size_nonneg(s: Seq<(usize, usize)>, align: int)
    requires
        align > 0,
    ensures
        spec_total_aligned_size(s, align) >= 0,
    decreases s.len(),
{
    if s.len() > 0 {
        lemma_total_aligned_size_nonneg(s.drop_last(), align);
        lemma_aligned_size(s.last().0 as int, align);
    }
}

/// Aligns everything to the largest alignment in the list and sums the
/// aligned sizes, which may slightly overestimate the space necessary.
pub fn size_align_multiple(alignments: &[(usize, usize)]) -> (r: (usize, usize))
    requires
        forall|i: int| 0 <= i < alignments@.len() ==> #[trigger] alignments@[i].1 > 0,
        spec_total_aligned_size(alignments@, spec_max_align(alignments@)) <= usize::MAX,
    ensures
        r.0 == spec_total_aligned_size(alignments@, spec_max_align(alignments@)),
        r.1 == spec_max_align(alignments@),
{
    proof {
        lemma_max_align_bounds(alignments@);
    }
    let ghost s = alignments@;
    let mut max_align: usize = 0;
    let mut j: usize = 0;
    while j < alignments.len()
        invariant
            0 <= j <= s.len(),
            s == alignments@,
            max_align == spec_max_align(s.take(j as int)),
        decreases s.len() - j,
    {
        let (_, align) = alignments[j];
        proof {
            assert(s.take(j + 1).drop_last() == s.take(j as int));
            assert(s.take(j + 1).last() == s[j as int]);
        }
        if max_align < align {
            max_align = align;
        }
        j = j + 1;
    }
    proof {
        assert(s.take(s.len() as int) == s);
        lemma_max_align_bounds(s);
    }

    let mut total_size: usize = 0;
    let mut k: usize = 0;
    while k < alignments.len()
        invariant
            0 <= k <= s.len(),
            s == alignments@,
            max_align == spec_max_align(s),
            s.len() > 0 ==> max_align > 0,
            forall|i: int| 0 <= i < s.len() ==> #[trigger] s[i].1 > 0,
            spec_total_aligned_size(s, max_align as int) <= usize::MAX,
            total_size == spec_total_aligned_size(s.take(k as int), max_align as int),
        decreases s.len() - k,
    {
        let (size, _) = alignments[k];
        proof {
            assert(s.take(k + 1).drop_last() == s.take(k as int));
            assert(s.take(k + 1).last() == s[k as int]);
            lemma_aligned_size(size as int, max_align as int);
            lemma_total_aligned_size_nonneg(s.take(k as int), max_align as int);
            lemma_total_aligned_suffix_bound(s, max_align as int, k as int);
        }
        let (aligned, _) = ensure_align(size, max_align);
        total_size = total_size + aligned;
        k = k + 1;
    }
    proof {
        assert(s.take(s.len() as int) == s);
    }
    (total_size, max_align)
}

/// Every prefix sum of aligned sizes, plus the next aligned size, stays
/// within the total over the whole list.
proof fn lemma_total_aligned_suffix_bound(s: Seq<(usize, usize)>, align: int, k: int)
    requires
        align > 0,
        0 <= k < s.len(),
    ensures
        spec_total_aligned_size(s.take(k), align) + spec_aligned_size(s[k].0 as int, align)
            <= spec_total_aligned_size(s, align),
    decreases s.len(),
{
    if k == s.len() - 1 {
        assert(s.take(k) == s.drop_last());
    } else {
        lemma_total_aligned_suffix_bound(s.drop_last(), align, k);
        assert(s.drop_last().take(k) == s.take(k));
        lemma_aligned_size(s.last().0 as int, align);
    }
}

/// Get the size and alignment of a type in bytes.
///
/// Also establishes the layout facts Rust guarantees: the alignment is a
/// nonzero power of two, the size is a multiple of the alignment, and the
/// size is no more than `isize::MAX`.
pub fn size_align<T>() -> (r: (usize, usize))
    ensures
        r.0 == vstd::layout::size_of::<T>(),
        r.1 == vstd::layout::align_of::<T>(),
        vstd::layout::valid_layout(r.0, r.1),
        r.1 > 0,
        r.0 % r.1 == 0,
        r.0 <= isize::MAX,
{
    vstd::layout::layout_for_type_is_valid::<T>();
    proof {
        let size = vstd::layout::size_of::<T>() as usize;
        let align = vstd::layout::align_of::<T>() as usize;
        assert(isize::MAX as int % align as int >= 0) by (nonlinear_arith)
            requires
                align > 0,
        ;
    }
    (core::mem::size_of::<T>(), core::mem::align_of::<T>())
}

/// Returns the (size, alignment) of an array of `capacity` elements of
/// type `T`.
pub fn size_align_array<T>(capacity: usize) -> (r: (usize, usize))
    requires
        vstd::layout::size_of::<T>() * capacity <= usize::MAX,
    ensures
        r.0 == vstd::layout::size_of::<T>() * capacity,
        r.1 == vstd::layout::align_of::<T>(),
        r.1 > 0,
{
    let (size, align) = size_align::<T>();
    (size * capacity, align)
}

/// Returns 1 if `n` is zero and 0 if `n` is greater than zero.
pub fn is_zero(n: usize) -> (r: usize)
    ensures
        r == if n == 0 {
            1int
        } else {
            0int
        },
{
    if n == 0 {
        1
    } else {
        0
    }
}

/// Returns 0 if `n` is zero and 1 if `n` is greater than zero.
pub fn not_zero(n: usize) -> (r: usize)
    ensures
        r == if n == 0 {
            0int
        } else {
            1int
        },
{
    let z = is_zero(n);
    is_zero(z)
}

/// Returns `if_true` if `cond` is true, and otherwise returns `if_false`.
pub fn cond(pred: bool, if_true: usize, if_false: usize) -> (r: usize)
    ensures
        r == if pred {
            if_true
        } else {
            if_false
        },
{
    if pred {
        if_true
    } else {
        if_false
    }
}

/// Returns `dividend / divisor` if `divisor` isn't zero, and `usize::MAX`
/// otherwise.
pub fn safe_div(dividend: usize, divisor: usize) -> (r: usize)
    ensures
        r == if divisor == 0 {
            usize::MAX as int
        } else {
            dividend as int / divisor as int
        },
{
    if divisor == 0 {
        usize::MAX
    } else {
        dividend / divisor
    }
}

/// The larger of two sizes.
pub fn max(a: usize, b: usize) -> (r: usize)
    ensures
        r == if a > b {
            a
        } else {
            b
        },
{
    if a > b {
        a
    } else {
        b
    }
}

/// The smaller of two sizes.
pub fn min(a: usize, b: usize) -> (r: usize)
    ensures
        r == if a > b {
            b
        } else {
            a
        },
{
    if a > b {
        b
    } else {
        a
    }
}

} // verus!
