//! The frame scheduler.
//!
//! Given `n` source images and a repetition factor `r`, the scheduler
//! lays out the flat sequence of encoder submissions: `n * r` slots,
//! presentation indices counting up from zero by exactly one, image
//! `i` occupying the `r` consecutive slots that start at `i * r`. No
//! image is dropped and none is reordered.

use vstd::prelude::*;
use vstd::arithmetic::div_mod::{lemma_fundamental_div_mod, lemma_fundamental_div_mod_converse, lemma_mod_bound};

verus! {

/// One encoder submission: which image's pixel data goes in, and at
/// which presentation index.
#[derive(Clone, Copy, PartialEq, Eq, Structural, Debug)]
pub struct Submission {
    pub pts: usize,
    pub image: usize,
}

/// The flat submission sequence for `n` images repeated `r` times
/// each: slot `k` presents image `k / r` at presentation index `k`.
pub fn build_schedule(n: usize, r: usize) -> (v: Vec<Submission>)
    requires
        r >= 1,
        n * r <= usize::MAX,
    ensures
        v@.len() == n * r,
        forall|k: int| 0 <= k < v@.len() ==> (#[trigger] v@[k]).pts == k,
        forall|k: int| 0 <= k < v@.len() ==> (#[trigger] v@[k]).image == k / (r as int),
{
    let mut v: Vec<Submission> = Vec::new();
    let mut i: usize = 0;
    while i < n
        invariant
            r >= 1,
            n * r <= usize::MAX,
            i <= n,
            v@.len() == i * r,
            forall|k: int| 0 <= k < v@.len() ==> (#[trigger] v@[k]).pts == k,
            forall|k: int| 0 <= k < v@.len() ==> (#[trigger] v@[k]).image == k / (r as int),
        decreases n - i,
    {
        let mut j: usize = 0;
        proof {
            assert((i + 1) * r <= n * r) by (nonlinear_arith)
                requires i + 1 <= n, r >= 1;
            assert(i * r + r == (i + 1) * r) by (nonlinear_arith);
        }
        while j < r
            invariant
                r >= 1,
                i < n,
                j <= r,
                i * r + r <= n * r <= usize::MAX,
                v@.len() == i * r + j,
                forall|k: int| 0 <= k < v@.len() ==> (#[trigger] v@[k]).pts == k,
                forall|k: int| 0 <= k < v@.len() ==> (#[trigger] v@[k]).image == k / (r as int),
            decreases r - j,
        {
            let pts: usize = i * r + j;
            v.push(Submission { pts, image: i });
            proof {
                lemma_fundamental_div_mod_converse(pts as int, r as int, i as int, j as int);
            }
            j = j + 1;
        }
        i = i + 1;
    }
    v
}

/// Every slot of the schedule names a real image: slot `k` of `n * r`
/// presents image `k / r`, which is below `n`.
pub proof fn lemma_schedule_image_in_range(n: int, r: int, k: int)
    requires
        r >= 1,
        0 <= k < n * r,
    ensures
        0 <= k / r < n,
{
    let q = k / r;
    let m = k % r;
    lemma_fundamental_div_mod(k, r);
    lemma_mod_bound(k, r);
    assert(0 <= q < n) by (nonlinear_arith)
        requires k == r * q + m, 0 <= m < r, 0 <= k < n * r, r >= 1;
}

/// Law of the scheduler: in a schedule of `n` images with repetition
/// factor `r`, the slots that present image `i` are exactly the `r`
/// consecutive slots `i*r .. (i+1)*r`, so every image contributes
/// exactly `r` submissions and the submissions of one image are
/// adjacent and in image order.
pub proof fn lemma_schedule_covers(n: int, r: int, i: int, k: int)
    requires
        r >= 1,
        0 <= i < n,
        0 <= k < n * r,
    ensures
        (k / r == i) <==> (i * r <= k < (i + 1) * r),
{
    if k / r == i {
        lemma_fundamental_div_mod(k, r);
        lemma_mod_bound(k, r);
        assert(i * r <= k < (i + 1) * r) by (nonlinear_arith)
            requires k == r * i + k % r, 0 <= k % r < r;
    }
    if i * r <= k < (i + 1) * r {
        assert(0 <= k - i * r < r) by (nonlinear_arith)
            requires i * r <= k < (i + 1) * r;
        lemma_fundamental_div_mod_converse(k, r, i, k - i * r);
    }
}

} // verus!
