//! Splitting the nonce space among workers so that no nonce is evaluated
//! twice in a round.

use vstd::prelude::*;

verus! {

/// The nonces of one worker: `start`, `start + stride`, `start + 2 * stride`
/// and so on, up to `last` at most.
#[derive(Clone, Copy, Debug, PartialEq, Eq)]
pub struct Lane {
    pub start: u64,
    pub stride: u64,
    pub last: u64,
}

/// How lanes are laid over the nonce space.
#[derive(Clone, Copy, Debug, PartialEq, Eq)]
pub enum Partitioning {
    /// Worker `i` of `n` takes `i`, `i + n`, `i + 2n`, ...
    Strided,
    /// Worker `i` of `n` takes the `i`-th block of consecutive nonces.
    Contiguous,
}

impl Lane {
    /// A lane has a positive stride and holds its first nonce.
    pub open spec fn wf(self) -> bool {
        self.stride >= 1 && self.start <= self.last
    }

    /// The `k`-th nonce of the lane, counted from zero.
    pub open spec fn nonce_at(self, k: nat) -> int {
        self.start + k * self.stride
    }

    /// How many nonces the lane holds.
    pub open spec fn len(self) -> nat {
        ((self.last - self.start) / (self.stride as int) + 1) as nat
    }

    /// Whether `nonce` is one of the lane's.
    pub open spec fn contains(self, nonce: int) -> bool {
        exists|k: nat| k < self.len() && self.nonce_at(k) == nonce
    }

    /// The position of a nonce of the lane.
    pub open spec fn index_of(self, nonce: int) -> nat {
        ((nonce - self.start) / (self.stride as int)) as nat
    }

    /// The lane's nonce after `nonce`, or `None` where the lane ends.
    pub open spec fn successor(self, nonce: u64) -> Option<u64> {
        if nonce + self.stride <= self.last {
            Some((nonce + self.stride) as u64)
        } else {
            None
        }
    }

    /// The nonce that follows `nonce` in the lane, or `None` where the next
    /// one would lie beyond the lane's last.
    pub fn next(&self, nonce: u64) -> (r: Option<u64>)
        ensures
            r == self.successor(nonce),
    {
        if nonce <= self.last && self.stride <= self.last - nonce {
            Some(nonce + self.stride)
        } else {
            None
        }
    }
}

/// The size of a block under contiguous partitioning.
pub open spec fn block_size(worker_count: u64) -> int {
    (u64::MAX as int) / (worker_count as int)
}

/// The lane of worker `worker` among `worker_count`.
pub open spec fn lane_of(partitioning: Partitioning, worker: u64, worker_count: u64) -> Lane {
    match partitioning {
        Partitioning::Strided => Lane { start: worker, stride: worker_count, last: u64::MAX },
        Partitioning::Contiguous => Lane {
            start: (worker * block_size(worker_count)) as u64,
            stride: 1,
            last: if worker + 1 == worker_count {
                u64::MAX
            } else {
                (worker * block_size(worker_count) + block_size(worker_count) - 1) as u64
            },
        },
    }
}

/// Gives worker `worker` of `worker_count` its lane.
pub fn lane(partitioning: Partitioning, worker: u64, worker_count: u64) -> (r: Lane)
    requires
        worker < worker_count,
    ensures
        r == lane_of(partitioning, worker, worker_count),
        r.wf(),
{
    match partitioning {
        Partitioning::Strided => Lane { start: worker, stride: worker_count, last: u64::MAX },
        Partitioning::Contiguous => {
            let block: u64 = u64::MAX / worker_count;
            proof {
                lemma_blocks_fit(worker, worker_count);
            }
            let start: u64 = worker * block;
            let last: u64 = if worker + 1 == worker_count {
                u64::MAX
            } else {
                start + (block - 1)
            };
            Lane { start, stride: 1, last }
        },
    }
}

/// Every block but the last ends before the nonce space does.
pub proof fn lemma_blocks_fit(worker: u64, worker_count: u64)
    requires
        worker < worker_count,
    ensures
        block_size(worker_count) >= 1,
        worker * block_size(worker_count) + block_size(worker_count) <= u64::MAX,
{
    let n = worker_count as int;
    let b = block_size(worker_count);
    vstd::arithmetic::div_mod::lemma_fundamental_div_mod(u64::MAX as int, n);
    vstd::arithmetic::div_mod::lemma_div_non_zero(u64::MAX as int, n);
    assert(n * b <= u64::MAX);
    assert((worker + 1) * b <= n * b) by (nonlinear_arith)
        requires
            worker + 1 <= n,
            b >= 0,
    ;
    assert((worker + 1) * b == worker * b + b) by (nonlinear_arith);
}

/// A position below the lane's length names a nonce of the lane, no
/// greater than its last.
pub proof fn lemma_nonce_in_range(lane: Lane, k: nat)
    requires
        lane.wf(),
        k < lane.len(),
    ensures
        lane.start <= lane.nonce_at(k) <= lane.last,
        lane.contains(lane.nonce_at(k)),
        lane.index_of(lane.nonce_at(k)) == k,
{
    let s = lane.stride as int;
    let span = lane.last - lane.start;
    vstd::arithmetic::div_mod::lemma_fundamental_div_mod(span, s);
    vstd::arithmetic::div_mod::lemma_mod_bound(span, s);
    assert(k * s <= (span / s) * s) by (nonlinear_arith)
        requires
            k <= span / s,
            s >= 1,
    ;
    assert(s * (span / s) == (span / s) * s) by (nonlinear_arith);
    vstd::arithmetic::div_mod::lemma_div_multiples_vanish(k as int, s);
    assert(k * s == s * k) by (nonlinear_arith);
}

/// Stepping from the `k`-th nonce of a lane leads to the one after it, and
/// off the lane exactly from its last position.
pub proof fn lemma_successor(lane: Lane, k: nat)
    requires
        lane.wf(),
        k < lane.len(),
    ensures
        k + 1 < lane.len() ==> lane.successor(lane.nonce_at(k) as u64) == Some(
            lane.nonce_at(k + 1) as u64,
        ),
        k + 1 >= lane.len() ==> lane.successor(lane.nonce_at(k) as u64) is None,
{
    let s = lane.stride as int;
    let span = lane.last - lane.start;
    let q = span / s;
    lemma_nonce_in_range(lane, k);
    vstd::arithmetic::div_mod::lemma_fundamental_div_mod(span, s);
    vstd::arithmetic::div_mod::lemma_mod_bound(span, s);
    assert((k + 1) * s == k * s + s) by (nonlinear_arith);
    if k + 1 < lane.len() {
        assert((k + 1) * s <= q * s) by (nonlinear_arith)
            requires
                k + 1 <= q,
                s >= 1,
        ;
        assert(s * q == q * s) by (nonlinear_arith);
    } else {
        assert(k == q);
        assert(s * q == k * s) by (nonlinear_arith)
            requires
                k == q,
        ;
    }
}

/// The lanes of one round share no nonce: two visits, each by some worker
/// at some position of its lane, evaluate the same nonce only if they are
/// the same worker at the same position. This holds under either
/// partitioning and for any number of workers.
pub proof fn lemma_lanes_disjoint(
    partitioning: Partitioning,
    worker_count: u64,
    i: u64,
    a: nat,
    j: u64,
    b: nat,
)
    requires
        i < worker_count,
        j < worker_count,
        a < lane_of(partitioning, i, worker_count).len(),
        b < lane_of(partitioning, j, worker_count).len(),
        lane_of(partitioning, i, worker_count).nonce_at(a) == lane_of(
            partitioning,
            j,
            worker_count,
        ).nonce_at(b),
    ensures
        i == j,
        a == b,
{
    let n = worker_count as int;
    match partitioning {
        Partitioning::Strided => {
            assert(i == j && a == b) by (nonlinear_arith)
                requires
                    0 <= i < n,
                    0 <= j < n,
                    i + a * n == j + b * n,
            ;
        },
        Partitioning::Contiguous => {
            let size = block_size(worker_count);
            lemma_blocks_fit(i, worker_count);
            lemma_blocks_fit(j, worker_count);
            let li = lane_of(partitioning, i, worker_count);
            let lj = lane_of(partitioning, j, worker_count);
            lemma_nonce_in_range(li, a);
            lemma_nonce_in_range(lj, b);
            if i < j {
                assert((i + 1) * size <= j * size) by (nonlinear_arith)
                    requires
                        i + 1 <= j,
                        size >= 0,
                ;
                assert((i + 1) * size == i * size + size) by (nonlinear_arith);
            } else if j < i {
                assert((j + 1) * size <= i * size) by (nonlinear_arith)
                    requires
                        j + 1 <= i,
                        size >= 0,
                ;
                assert((j + 1) * size == j * size + size) by (nonlinear_arith);
            }
            assert(a * 1 == a && b * 1 == b);
        },
    }
}

} // verus!
