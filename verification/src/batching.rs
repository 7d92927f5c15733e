//! Splitting the subjects of a label query into batches.

use vstd::prelude::*;

verus! {

/// How many subjects one label query carries at most.
pub const BATCH_SIZE: usize = 25;

/// How many batches of `size` hold `n` subjects.
pub open spec fn batch_count(n: int, size: int) -> int {
    (n + size - 1) / size
}

/// Where batch `k` ends among `n` subjects.
pub open spec fn batch_end(n: int, size: int, k: int) -> int {
    if (k + 1) * size < n {
        (k + 1) * size
    } else {
        n
    }
}

/// Whether `parts` are the batches of `all`: in order, each of `size`
/// subjects but the last, which holds what is left and at least one.
pub open spec fn is_batching(all: Seq<String>, size: int, parts: Seq<Vec<String>>) -> bool {
    &&& parts.len() == batch_count(all.len() as int, size)
    &&& forall|k: int|
        0 <= k < parts.len() ==> (#[trigger] parts[k])@ == all.subrange(
            k * size,
            batch_end(all.len() as int, size, k),
        )
}

proof fn lemma_batch_count_step(n: int, size: int, k: int)
    requires
        size > 0,
        k >= 0,
        k * size < n <= (k + 1) * size,
    ensures
        batch_count(n, size) == k + 1,
{
    assert((n + size - 1) / size == k + 1) by (nonlinear_arith)
        requires
            size > 0,
            k * size < n <= (k + 1) * size,
    ;
}

/// The batches of `subjects`, `size` to a batch.
pub fn batches(subjects: &Vec<String>, size: usize) -> (parts: Vec<Vec<String>>)
    requires
        size > 0,
    ensures
        is_batching(subjects@, size as int, parts@),
{
    let n = subjects.len();
    let mut parts: Vec<Vec<String>> = Vec::new();
    let mut start: usize = 0;
    assert(parts.len() * size == 0) by (nonlinear_arith)
        requires
            parts.len() == 0,
    ;
    while start < n
        invariant
            size > 0,
            n == subjects.len(),
            start == if parts.len() * size < n {
                parts.len() * size
            } else {
                n as int
            },
            parts.len() > 0 ==> (parts.len() - 1) * size < n,
            forall|k: int|
                0 <= k < parts.len() ==> (#[trigger] parts[k])@ == subjects@.subrange(
                    k * size,
                    batch_end(n as int, size as int, k),
                ),
        decreases n - start,
    {
        let ghost k = parts.len() as int;
        let end: usize = if n - start < size {
            n
        } else {
            start + size
        };
        assert((k + 1) * size == start + size) by (nonlinear_arith)
            requires
                start == k * size,
        ;
        let mut part: Vec<String> = Vec::new();
        let mut i: usize = start;
        while i < end
            invariant
                start <= i <= end <= n,
                n == subjects.len(),
                part@ == subjects@.subrange(start as int, i as int),
            decreases end - i,
        {
            part.push(subjects[i].clone());
            i = i + 1;
            assert(subjects@.subrange(start as int, i as int) == subjects@.subrange(
                start as int,
                i as int - 1,
            ).push(subjects@[i as int - 1]));
        }
        parts.push(part);
        start = end;
    }
    proof {
        if n > 0 {
            lemma_batch_count_step(n as int, size as int, parts.len() - 1);
        } else {
            assert(parts.len() == 0) by (nonlinear_arith)
                requires
                    parts.len() > 0 ==> (parts.len() - 1) * size < 0,
                    size > 0,
            ;
            assert(batch_count(0, size as int) == 0) by (nonlinear_arith)
                requires
                    size > 0,
            {
                assert((size - 1) / (size as int) == 0);
            }
        }
    }
    parts
}

/// A whole number of full batches takes that many queries, and one subject
/// more takes one more query, which carries that subject alone.
pub proof fn batches_of_full_and_one_more(all: Seq<String>, size: int, k: int, parts: Seq<Vec<String>>)
    requires
        size > 0,
        k >= 0,
        is_batching(all, size, parts),
    ensures
        all.len() == size * k ==> parts.len() == k,
        all.len() == size * k + 1 ==> parts.len() == k + 1 && parts[k]@.len() == 1,
{
    let n = all.len() as int;
    if n == size * k {
        if k == 0 {
            assert(batch_count(0, size) == 0) by (nonlinear_arith)
                requires
                    size > 0,
            {
                assert((size - 1) / size == 0);
            }
        } else {
            assert((k - 1) * size < n <= k * size) by (nonlinear_arith)
                requires
                    n == size * k,
                    size > 0,
                    k > 0,
            ;
            lemma_batch_count_step(n, size, k - 1);
        }
    }
    if n == size * k + 1 {
        assert(k * size < n <= (k + 1) * size) by (nonlinear_arith)
            requires
                n == size * k + 1,
                size > 0,
                k >= 0,
        ;
        lemma_batch_count_step(n, size, k);
        assert(batch_end(n, size, k) == n);
        assert(parts[k]@ == all.subrange(k * size, n));
        assert(k * size == n - 1) by (nonlinear_arith)
            requires
                n == size * k + 1,
        ;
    }
}

} // verus!
