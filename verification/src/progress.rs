//! The downloader's progress accounting.
//!
//! After each chunk the downloader advances a running counter, clamped to
//! the advertised content length, and reports the pair (counter, size) —
//! the fraction counter/size — to the caller's progress handler.  The
//! lemmas here state the guarantees of that report sequence: it never
//! decreases, never passes the advertised size (so the fraction never
//! passes one even when the body is longer than declared), and ends at
//! exactly the advertised size when the body's length matches it.

use vstd::prelude::*;

verus! {

/// The sum of the chunk lengths.
pub open spec fn total_len(lens: Seq<nat>) -> nat
    decreases lens.len(),
{
    if lens.len() == 0 {
        0
    } else {
        total_len(lens.drop_last()) + lens.last()
    }
}

/// The running counter after streaming chunks of the given lengths,
/// clamped to the advertised size.
pub open spec fn progress_value(lens: Seq<nat>, size: nat) -> nat
    decreases lens.len(),
{
    if lens.len() == 0 {
        0
    } else {
        let before = progress_value(lens.drop_last(), size);
        if before + lens.last() > size {
            size
        } else {
            (before + lens.last()) as nat
        }
    }
}

/// The values the progress handler is given, one after each chunk.
pub open spec fn progress_points(lens: Seq<nat>, size: nat) -> Seq<nat> {
    Seq::new(lens.len(), |k: int| progress_value(lens.subrange(0, k + 1), size))
}

/// The running counter is the total streamed so far, clamped to the size.
pub proof fn lemma_progress_value_clamps(lens: Seq<nat>, size: nat)
    ensures
        progress_value(lens, size) == if total_len(lens) > size {
            size
        } else {
            total_len(lens)
        },
    decreases lens.len(),
{
    if lens.len() > 0 {
        lemma_progress_value_clamps(lens.drop_last(), size);
    }
}

/// A prefix of the body never sums to more than a longer prefix.
pub proof fn lemma_total_len_prefix_le(lens: Seq<nat>, a: int, b: int)
    requires
        0 <= a <= b <= lens.len(),
    ensures
        total_len(lens.subrange(0, a)) <= total_len(lens.subrange(0, b)),
    decreases b - a,
{
    if a < b {
        lemma_total_len_prefix_le(lens, a, b - 1);
        assert(lens.subrange(0, b).drop_last() =~= lens.subrange(0, b - 1));
        assert(total_len(lens.subrange(0, b)) == total_len(lens.subrange(0, b - 1)) + lens[b - 1]);
    }
}

/// The guarantees of one download's progress reports: they never decrease,
/// none passes the advertised size, and when the body's total length is
/// exactly the advertised size the last report is exactly that size.
pub proof fn lemma_progress_reports(lens: Seq<nat>, size: nat)
    ensures
        forall|a: int, b: int|
            0 <= a <= b < progress_points(lens, size).len() ==> progress_points(lens, size)[a]
                <= progress_points(lens, size)[b],
        forall|a: int|
            0 <= a < progress_points(lens, size).len() ==> progress_points(lens, size)[a] <= size,
        total_len(lens) == size && lens.len() > 0 ==> progress_points(lens, size).last() == size,
{
    let points = progress_points(lens, size);
    assert forall|a: int, b: int| 0 <= a <= b < points.len() implies points[a] <= points[b] by {
        lemma_progress_value_clamps(lens.subrange(0, a + 1), size);
        lemma_progress_value_clamps(lens.subrange(0, b + 1), size);
        lemma_total_len_prefix_le(lens, a + 1, b + 1);
    }
    assert forall|a: int| 0 <= a < points.len() implies points[a] <= size by {
        lemma_progress_value_clamps(lens.subrange(0, a + 1), size);
    }
    if total_len(lens) == size && lens.len() > 0 {
        assert(lens.subrange(0, lens.len() as int) =~= lens);
        lemma_progress_value_clamps(lens, size);
        assert(points.last() == progress_value(lens, size));
    }
}

/// Advance the running counter by one chunk, clamped to the advertised
/// size so that a body longer than declared never drives the reported
/// fraction past one.
pub fn advance_progress(downloaded: u64, chunk_len: usize, size: u64) -> (r: u64)
    requires
        downloaded <= size,
    ensures
        downloaded <= r <= size,
        r as int == if downloaded + chunk_len > size {
            size as int
        } else {
            downloaded + chunk_len
        },
{
    let chunk = chunk_len as u64;
    if chunk > size - downloaded {
        size
    } else {
        downloaded + chunk
    }
}

} // verus!
