//! One round of search: each worker walks its lane until a hash crosses the
//! difficulty threshold or the round is stopped, and the best of what the
//! workers report becomes the round's solution.
//!
//! Threads are the caller's business. A thread runs [`mine_lane`]; whoever
//! joins the threads hands their reports to [`conclude`] and the best of
//! them to [`solution`].

use crate::hashing::{
    difficulty,
    drillx_hash,
    hash_with_memory,
    leading_zero_bits,
    lemma_leading_zero_bits_bound,
    new_solver_memory,
    nonce_bytes,
    HashResult,
};
use crate::partition::{lemma_nonce_in_range, lemma_successor, Lane};
use crate::signal::{now, reached, request_stop, stop_requested};
use std::sync::atomic::AtomicBool;
use std::time::Instant;
use vstd::bytes::spec_u64_to_le_bytes;
use vstd::prelude::*;

verus! {

/// A hash together with its difficulty.
#[derive(Clone, Copy, Debug, PartialEq, Eq)]
pub struct Scored {
    pub difficulty: u32,
    pub result: HashResult,
}

/// A nonce with the hash it gave and that hash's difficulty.
#[derive(Clone, Copy, Debug, PartialEq, Eq)]
pub struct Candidate {
    pub nonce: u64,
    pub difficulty: u32,
    pub digest: [u8; 16],
    pub hash: [u8; 32],
}

/// What a round hands to the instruction that claims it.
#[derive(Clone, Copy, Debug, PartialEq, Eq)]
pub struct Solution {
    pub digest: [u8; 16],
    /// The nonce, as its eight little-endian bytes.
    pub nonce: [u8; 8],
    pub difficulty: u32,
}

/// What a worker has to say when it stops.
#[derive(Clone, Copy, Debug, PartialEq, Eq)]
pub struct Report {
    /// The best candidate among the nonces the worker hashed.
    pub best: Option<Candidate>,
    /// Whether the last nonce hashed crossed the threshold.
    pub crossed: bool,
    /// The first nonce of the lane that was not hashed, if any is left.
    pub next: Option<u64>,
}

/// What a worker does after looking at the stop signal.
#[derive(Clone, Copy, Debug, PartialEq, Eq)]
pub enum Action {
    /// Hash this nonce and record the outcome.
    Hash(u64),
    /// Stop and report.
    Halt,
}

/// The walk of one worker along its lane.
#[derive(Clone, Copy, Debug, PartialEq, Eq)]
pub struct Worker {
    pub lane: Lane,
    pub min_difficulty: u32,
    /// The nonce to hash next, or `None` past the end of the lane.
    pub cursor: Option<u64>,
    pub best: Option<Candidate>,
    pub crossed: bool,
}

/// A candidate as a mathematical value.
pub struct Found {
    pub nonce: u64,
    pub difficulty: nat,
    pub digest: Seq<u8>,
    pub hash: Seq<u8>,
}

impl View for Candidate {
    type V = Found;

    open spec fn view(&self) -> Found {
        Found {
            nonce: self.nonce,
            difficulty: self.difficulty as nat,
            digest: self.digest@,
            hash: self.hash@,
        }
    }
}

/// The value of a candidate that may be absent.
pub open spec fn found(candidate: Option<Candidate>) -> Option<Found> {
    match candidate {
        Some(c) => Some(c@),
        None => None,
    }
}

/// Whether a candidate of difficulty `offered` takes the place of one of
/// difficulty `held`: only by being strictly harder, or by being the first.
pub open spec fn wins(held: Option<nat>, offered: Option<nat>) -> bool {
    match (held, offered) {
        (_, None) => false,
        (None, Some(_)) => true,
        (Some(h), Some(o)) => o > h,
    }
}

/// The difficulty of a candidate that may be absent.
pub open spec fn rank(candidate: Option<Candidate>) -> Option<nat> {
    match candidate {
        Some(c) => Some(c.difficulty as nat),
        None => None,
    }
}

/// The one to keep of two candidates, the held one on a tie.
pub open spec fn better(held: Option<Candidate>, offered: Option<Candidate>) -> Option<Candidate> {
    if wins(rank(held), rank(offered)) {
        offered
    } else {
        held
    }
}

/// [`better`], on values.
pub open spec fn better_found(held: Option<Found>, offered: Option<Found>) -> Option<Found> {
    let h = match held {
        Some(f) => Some(f.difficulty),
        None => None,
    };
    let o = match offered {
        Some(f) => Some(f.difficulty),
        None => None,
    };
    if wins(h, o) {
        offered
    } else {
        held
    }
}

/// The best of a list of reports: the hardest candidate, and of several
/// equally hard ones the earliest in the list.
pub open spec fn best_of(reports: Seq<Option<Candidate>>) -> Option<Candidate>
    decreases reports.len(),
{
    if reports.len() == 0 {
        None
    } else {
        better(best_of(reports.drop_last()), reports.last())
    }
}

/// Whether `reports[i]` is `c`, nothing in the list is harder, and nothing
/// before `i` is as hard.
pub open spec fn is_first_maximum(reports: Seq<Option<Candidate>>, i: int, c: Candidate) -> bool {
    &&& 0 <= i < reports.len()
    &&& reports[i] == Some(c)
    &&& forall|j: int|
        0 <= j < reports.len() ==> (#[trigger] reports[j] matches Some(d) ==> d.difficulty
            <= c.difficulty)
    &&& forall|j: int|
        0 <= j < i ==> (#[trigger] reports[j] matches Some(d) ==> d.difficulty < c.difficulty)
}

/// What hashing `nonce` against `challenge` gives, scored.
pub open spec fn outcome(challenge: Seq<u8>, nonce: u64) -> Option<Found> {
    match drillx_hash(challenge, spec_u64_to_le_bytes(nonce)) {
        Some((digest, hash)) => Some(
            Found { nonce, difficulty: leading_zero_bits(hash), digest, hash },
        ),
        None => None,
    }
}

/// Whether an outcome is a hash strictly harder than the threshold.
pub open spec fn crosses(outcome: Option<Found>, min_difficulty: u32) -> bool {
    outcome matches Some(f) && f.difficulty > min_difficulty
}

/// The best outcome among the first `k` nonces of a lane.
pub open spec fn best_upto(challenge: Seq<u8>, lane: Lane, k: nat) -> Option<Found>
    decreases k,
{
    if k == 0 {
        None
    } else {
        better_found(
            best_upto(challenge, lane, (k - 1) as nat),
            outcome(challenge, lane.nonce_at((k - 1) as nat) as u64),
        )
    }
}

/// How many nonces of the lane lie before `next`.
pub open spec fn visited(lane: Lane, next: Option<u64>) -> nat {
    match next {
        Some(n) => lane.index_of(n as int),
        None => lane.len(),
    }
}

/// Whether `report` is what a worker says that hashed the first
/// `visited(lane, report.next)` nonces of its lane, in order, and none
/// after a crossing.
pub open spec fn explains(challenge: Seq<u8>, lane: Lane, min_difficulty: u32, report: Report) -> bool {
    let k = visited(lane, report.next);
    &&& k <= lane.len()
    &&& report.next matches Some(n) ==> k < lane.len() && n == lane.nonce_at(k)
    &&& found(report.best) == best_upto(challenge, lane, k)
    &&& report.crossed <==> k >= 1 && crosses(
        outcome(challenge, lane.nonce_at((k - 1) as nat) as u64),
        min_difficulty,
    )
    &&& forall|i: nat|
        i + 1 < k ==> !crosses(outcome(challenge, #[trigger] lane.nonce_at(i) as u64), min_difficulty)
}

/// What each worker offers to the round: its best, or nothing where the
/// worker failed.
pub open spec fn offers(reports: Seq<Option<Report>>) -> Seq<Option<Candidate>> {
    Seq::new(
        reports.len(),
        |i: int|
            match reports[i] {
                Some(r) => r.best,
                None => None,
            },
    )
}

/// The candidate that a scored hash of `nonce` makes.
pub open spec fn candidate_at(nonce: u64, scored: Option<Scored>) -> Option<Candidate> {
    match scored {
        Some(s) => Some(
            Candidate {
                nonce,
                difficulty: s.difficulty,
                digest: s.result.digest,
                hash: s.result.hash,
            },
        ),
        None => None,
    }
}

/// The solution that stands for "no hash was computed at all".
pub open spec fn is_empty_solution(s: Solution) -> bool {
    &&& s.digest@ == Seq::new(16, |i: int| 0u8)
    &&& s.nonce@ == spec_u64_to_le_bytes(0)
    &&& s.difficulty == 0
}

/// Whether `s` is the solution that `best` stands for.
pub open spec fn is_solution_of(s: Solution, best: Option<Candidate>) -> bool {
    match best {
        Some(c) => {
            &&& s.digest == c.digest
            &&& s.nonce@ == spec_u64_to_le_bytes(c.nonce)
            &&& s.difficulty == c.difficulty
        },
        None => is_empty_solution(s),
    }
}

impl Worker {
    /// The worker before its first hash.
    pub open spec fn start(lane: Lane, min_difficulty: u32) -> Worker {
        Worker { lane, min_difficulty, cursor: Some(lane.start), best: None, crossed: false }
    }

    /// What the worker does once it has read the stop signal as `stop`.
    pub open spec fn decision(self, stop: bool) -> Action {
        if stop || self.crossed {
            Action::Halt
        } else {
            match self.cursor {
                Some(nonce) => Action::Hash(nonce),
                None => Action::Halt,
            }
        }
    }

    /// The worker after it learned what hashing the nonce under its cursor
    /// gave. With no nonce under the cursor there is nothing to learn.
    pub open spec fn recorded(self, scored: Option<Scored>) -> Worker {
        match self.cursor {
            Some(nonce) => Worker {
                lane: self.lane,
                min_difficulty: self.min_difficulty,
                cursor: self.lane.successor(nonce),
                best: better(self.best, candidate_at(nonce, scored)),
                crossed: self.crossed || (scored matches Some(s) && s.difficulty
                    > self.min_difficulty),
            },
            None => self,
        }
    }

    /// What the worker reports in this state.
    pub open spec fn summary(self) -> Report {
        Report { best: self.best, crossed: self.crossed, next: self.cursor }
    }

    /// A worker at the start of `lane`.
    pub fn new(lane: Lane, min_difficulty: u32) -> (w: Worker)
        ensures
            w == Worker::start(lane, min_difficulty),
    {
        Worker { lane, min_difficulty, cursor: Some(lane.start), best: None, crossed: false }
    }

    /// Decides the next step from the stop signal as just read. A set
    /// signal always halts the worker, so that a worker hashes at most the
    /// one nonce it was busy with when the signal was raised. A worker that
    /// crossed the threshold, or ran off its lane, halts too.
    pub fn poll(&self, stop: bool) -> (action: Action)
        ensures
            action == self.decision(stop),
            stop ==> action is Halt,
    {
        if stop || self.crossed {
            Action::Halt
        } else {
            match self.cursor {
                Some(nonce) => Action::Hash(nonce),
                None => Action::Halt,
            }
        }
    }

    /// Records what hashing the nonce under the cursor gave (`None` where
    /// the nonce has no hash), moves the cursor on, and says whether the
    /// threshold was crossed, in which case the caller raises the stop
    /// signal.
    pub fn record(&mut self, scored: Option<Scored>) -> (crossed: bool)
        ensures
            *final(self) == old(self).recorded(scored),
            crossed == final(self).crossed,
    {
        match self.cursor {
            Some(nonce) => {
                let offered = match scored {
                    Some(s) => Some(
                        Candidate {
                            nonce,
                            difficulty: s.difficulty,
                            digest: s.result.digest,
                            hash: s.result.hash,
                        },
                    ),
                    None => None,
                };
                let crossing = match scored {
                    Some(s) => s.difficulty > self.min_difficulty,
                    None => false,
                };
                self.best = keep_better(self.best, offered);
                self.crossed = self.crossed || crossing;
                self.cursor = self.lane.next(nonce);
            },
            None => {},
        }
        self.crossed
    }

    /// The report of the worker as it stands.
    pub fn report(&self) -> (r: Report)
        ensures
            r == self.summary(),
    {
        Report { best: self.best, crossed: self.crossed, next: self.cursor }
    }
}

/// Keeps the better of two candidates: `offered` only where it is strictly
/// harder than `held`, or where nothing is held.
pub fn keep_better(held: Option<Candidate>, offered: Option<Candidate>) -> (kept: Option<Candidate>)
    ensures
        kept == better(held, offered),
{
    match (held, offered) {
        (_, None) => held,
        (None, Some(_)) => offered,
        (Some(h), Some(o)) => if o.difficulty > h.difficulty {
            offered
        } else {
            held
        },
    }
}

/// The greatest difficulty that a hash can have: all of its bits zero.
pub const MAX_DIFFICULTY: u32 = 256;

/// Hashes one nonce against the challenge and scores the hash. `None` means
/// that this nonce has no hash, which is no error: the search moves on.
pub fn evaluate(
    memory: &mut drillx::equix::SolverMemory,
    challenge: &[u8; 32],
    nonce: u64,
) -> (scored: Option<Scored>)
    ensures
        found(candidate_at(nonce, scored)) == outcome(challenge@, nonce),
        scored matches Some(s) ==> s.difficulty <= MAX_DIFFICULTY,
{
    let bytes = nonce_bytes(nonce);
    match hash_with_memory(memory, challenge, &bytes) {
        Some(result) => {
            let d = difficulty(result.hash);
            proof {
                lemma_leading_zero_bits_bound(result.hash@);
            }
            Some(Scored { difficulty: d, result })
        },
        None => None,
    }
}

/// Walks a lane: hashes its nonces in order until one crosses
/// `min_difficulty`, the lane ends, the stop signal is read as set, or the
/// deadline is found to have passed. The signal is read before every hash
/// and raised on a crossing. The walk always ends, at the end of the lane
/// if not before.
///
/// With `deadline` at `None` no clock is ever read, and a round in which no
/// nonce crosses ends only when the lanes do: the deadline is then advice to
/// the caller and nothing more. With a deadline the clock is read before
/// every hash, and the worker that finds it passed raises the signal and
/// halts with the best it has.
///
/// The report is that of a worker that hashed the nonces before
/// `report.next` and no others; a crossing, if there was one, is the last of
/// them and the report's best. A threshold of [`MAX_DIFFICULTY`] or more is
/// never crossed.
pub fn mine_lane(
    challenge: &[u8; 32],
    lane: Lane,
    min_difficulty: u32,
    stop: Option<&AtomicBool>,
    deadline: Option<Instant>,
) -> (report: Report)
    requires
        lane.wf(),
    ensures
        explains(challenge@, lane, min_difficulty, report),
        report.crossed ==> (report.best matches Some(c) && c.difficulty > min_difficulty),
        !report.crossed ==> (report.best matches Some(c) ==> c.difficulty <= min_difficulty),
        stop is None && deadline is None ==> report.crossed || report.next is None,
        min_difficulty >= MAX_DIFFICULTY ==> !report.crossed,
{
    let mut worker = Worker::new(lane, min_difficulty);
    let mut memory = new_solver_memory();
    let ghost mut k: nat = 0;
    proof {
        lemma_nonce_in_range(lane, 0);
    }
    loop
        invariant
            lane.wf(),
            worker.lane == lane,
            worker.min_difficulty == min_difficulty,
            k <= lane.len(),
            k < lane.len() ==> worker.cursor == Some(lane.nonce_at(k) as u64),
            k == lane.len() ==> worker.cursor is None,
            found(worker.best) == best_upto(challenge@, lane, k),
            worker.crossed <==> k >= 1 && crosses(
                outcome(challenge@, lane.nonce_at((k - 1) as nat) as u64),
                min_difficulty,
            ),
            forall|i: nat|
                i + 1 < k ==> !crosses(
                    outcome(challenge@, #[trigger] lane.nonce_at(i) as u64),
                    min_difficulty,
                ),
            worker.crossed ==> (worker.best matches Some(c) && c.difficulty > min_difficulty),
            !worker.crossed ==> (worker.best matches Some(c) ==> c.difficulty <= min_difficulty),
            min_difficulty >= MAX_DIFFICULTY ==> !worker.crossed,
        ensures
            stop is None && deadline is None ==> worker.crossed || worker.cursor is None,
        decreases lane.len() - k,
    {
        let stopped = match stop {
            Some(signal) => stop_requested(signal),
            None => false,
        };
        let expired = match deadline {
            Some(limit) => !stopped && reached(&now(), &limit),
            None => false,
        };
        if expired {
            match stop {
                Some(signal) => request_stop(signal),
                None => {},
            }
        }
        match worker.poll(stopped || expired) {
            Action::Halt => {
                break ;
            },
            Action::Hash(nonce) => {
                let scored = evaluate(&mut memory, challenge, nonce);
                let crossed = worker.record(scored);
                proof {
                    lemma_successor(lane, k);
                    lemma_nonce_in_range(lane, k);
                    k = k + 1;
                }
                if crossed {
                    match stop {
                        Some(signal) => request_stop(signal),
                        None => {},
                    }
                }
            },
        }
    }
    proof {
        if k < lane.len() {
            lemma_nonce_in_range(lane, k);
        }
    }
    worker.report()
}

/// Picks the round's best among the workers' results, taken in worker
/// order. An entry is `None` for a worker that has nothing to offer: it
/// hashed nothing, or it failed. The result is `None` only if every entry
/// is.
pub fn select_best(reports: &Vec<Option<Candidate>>) -> (best: Option<Candidate>)
    ensures
        best == best_of(reports@),
{
    let mut best: Option<Candidate> = None;
    let mut i: usize = 0;
    while i < reports.len()
        invariant
            i <= reports.len(),
            best == best_of(reports@.take(i as int)),
        decreases reports.len() - i,
    {
        proof {
            let upto = reports@.take(i + 1);
            assert(upto.drop_last() == reports@.take(i as int));
            assert(upto.last() == reports@[i as int]);
        }
        best = keep_better(best, reports[i]);
        i += 1;
    }
    assert(reports@.take(i as int) == reports@);
    best
}

/// Turns the round's best candidate into its solution. With no candidate at
/// all the solution is the empty one: zero digest, nonce zero, difficulty
/// zero.
pub fn solution(best: Option<Candidate>) -> (s: Solution)
    ensures
        is_solution_of(s, best),
{
    match best {
        Some(c) => Solution {
            digest: c.digest,
            nonce: nonce_bytes(c.nonce),
            difficulty: c.difficulty,
        },
        None => {
            let digest = [0u8; 16];
            assert(digest@ =~= Seq::new(16, |i: int| 0u8));
            Solution { digest, nonce: nonce_bytes(0), difficulty: 0 }
        },
    }
}

/// Ends a round: takes what each worker left behind, in worker order, and
/// selects the best of it. An entry is `None` for a worker that failed; it
/// offers nothing and fails nobody else.
pub fn conclude(reports: &Vec<Option<Report>>) -> (best: Option<Candidate>)
    ensures
        best == best_of(offers(reports@)),
{
    let mut candidates: Vec<Option<Candidate>> = Vec::new();
    let mut i: usize = 0;
    while i < reports.len()
        invariant
            i <= reports.len(),
            candidates@ == offers(reports@.take(i as int)),
        decreases reports.len() - i,
    {
        let offer = match reports[i] {
            Some(report) => report.best,
            None => None,
        };
        candidates.push(offer);
        assert(candidates@ =~= offers(reports@.take(i + 1)));
        i += 1;
    }
    assert(reports@.take(i as int) == reports@);
    select_best(&candidates)
}

/// The position of the best report: the earliest among the hardest.
pub open spec fn winner(reports: Seq<Option<Candidate>>) -> Option<int>
    decreases reports.len(),
{
    if reports.len() == 0 {
        None
    } else if wins(rank(best_of(reports.drop_last())), rank(reports.last())) {
        Some(reports.len() - 1)
    } else {
        winner(reports.drop_last())
    }
}

/// The best of the reports is the candidate of strictly greatest
/// difficulty, and of several that share the greatest difficulty the one
/// from the lowest-numbered worker. There is none only where no worker
/// reported any.
pub proof fn lemma_best_is_first_maximum(reports: Seq<Option<Candidate>>)
    ensures
        match best_of(reports) {
            Some(c) => winner(reports) matches Some(i) && is_first_maximum(reports, i, c),
            None => winner(reports) is None && forall|j: int|
                0 <= j < reports.len() ==> #[trigger] reports[j] is None,
        },
    decreases reports.len(),
{
    if reports.len() > 0 {
        let init = reports.drop_last();
        lemma_best_is_first_maximum(init);
        assert(forall|j: int| 0 <= j < init.len() ==> init[j] == reports[j]);
        match best_of(reports) {
            Some(c) => {
                let i = winner(reports).unwrap();
                assert(is_first_maximum(reports, i, c));
            },
            None => {},
        }
    }
}

/// Only one candidate can be the first maximum of a list: whatever is one
/// is what [`best_of`] gives.
pub proof fn lemma_first_maximum_is_best(reports: Seq<Option<Candidate>>, i: int, c: Candidate)
    requires
        is_first_maximum(reports, i, c),
    ensures
        best_of(reports) == Some(c),
{
    lemma_best_is_first_maximum(reports);
    let b = best_of(reports).unwrap();
    let w = winner(reports).unwrap();
    assert(reports[w] == Some(b));
    assert(reports[i] == Some(c));
    assert(b.difficulty == c.difficulty);
    assert(w == i);
}

/// If any worker reports a candidate harder than the threshold, the best
/// of the round is harder than the threshold.
pub proof fn lemma_threshold_guarantee(reports: Seq<Option<Candidate>>, min_difficulty: u32, i: int)
    requires
        0 <= i < reports.len(),
        reports[i] matches Some(c) && c.difficulty > min_difficulty,
    ensures
        best_of(reports) matches Some(b) && b.difficulty > min_difficulty,
{
    lemma_best_is_first_maximum(reports);
}

/// While no nonce has crossed the threshold, the best so far has not
/// crossed it either.
pub proof fn lemma_best_below_threshold(challenge: Seq<u8>, lane: Lane, min_difficulty: u32, k: nat)
    requires
        forall|i: nat|
            i < k ==> !crosses(outcome(challenge, #[trigger] lane.nonce_at(i) as u64), min_difficulty),
    ensures
        !crosses(best_upto(challenge, lane, k), min_difficulty),
    decreases k,
{
    if k > 0 {
        let last = (k - 1) as nat;
        lemma_best_below_threshold(challenge, lane, min_difficulty, last);
        assert(!crosses(outcome(challenge, lane.nonce_at(last) as u64), min_difficulty));
    }
}

/// A worker that reports a crossing reports it as its best: the candidate
/// is the outcome of the last nonce hashed, and that nonce is the first of
/// the lane, in lane order, whose hash is harder than the threshold.
pub proof fn lemma_crossing_is_first(challenge: Seq<u8>, lane: Lane, min_difficulty: u32, report: Report)
    requires
        explains(challenge, lane, min_difficulty, report),
        report.crossed,
    ensures
        ({
            let k = visited(lane, report.next);
            let nonce = lane.nonce_at((k - 1) as nat) as u64;
            &&& k >= 1
            &&& found(report.best) == outcome(challenge, nonce)
            &&& report.best matches Some(c) && c.nonce == nonce && c.difficulty > min_difficulty
            &&& forall|i: nat|
                i + 1 < k ==> !crosses(
                    outcome(challenge, #[trigger] lane.nonce_at(i) as u64),
                    min_difficulty,
                )
        }),
{
    let k = visited(lane, report.next);
    lemma_best_below_threshold(challenge, lane, min_difficulty, (k - 1) as nat);
}

/// A round in which some worker crossed the threshold ends with a
/// solution harder than the threshold, whatever the other workers report
/// and whichever of them failed.
pub proof fn lemma_crossing_wins_round(
    challenge: Seq<u8>,
    lane: Lane,
    min_difficulty: u32,
    reports: Seq<Option<Report>>,
    i: int,
    s: Solution,
)
    requires
        0 <= i < reports.len(),
        reports[i] matches Some(r) && r.crossed && explains(challenge, lane, min_difficulty, r),
        is_solution_of(s, best_of(offers(reports))),
    ensures
        s.difficulty > min_difficulty,
{
    lemma_crossing_is_first(challenge, lane, min_difficulty, reports[i].unwrap());
    lemma_threshold_guarantee(offers(reports), min_difficulty, i);
}

} // verus!
