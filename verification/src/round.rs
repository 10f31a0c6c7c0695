//! The decisions that surround a round: how long it may search, whether it
//! resets the epoch, which bus pays, and how a submission starts.

use crate::request::{
    build_request,
    request_of,
    round_budget,
    round_instructions,
    round_request,
    ComputeBudget,
    Instruction,
};
use crate::search::Solution;
use crate::submit::{balance_suffices, begin, first_attempt, Attempt, SubmissionError};
use vstd::prelude::*;

verus! {

/// Seconds by which a reset is held to be due before the epoch ends.
pub const RESET_BUFFER: i64 = 5;

/// Seconds that a proof may wait for its next hash.
pub const HASH_WINDOW: i64 = 60;

/// One round in this many that finds a reset due makes it.
pub const RESET_ODDS: usize = 100;

/// The settings of a miner that the core reads.
#[derive(Clone, Copy, Debug, PartialEq, Eq)]
pub struct Miner {
    /// The price per compute unit, in micro-lamports.
    pub priority_fee: u64,
}

/// How the bus that pays a claim is picked.
#[derive(Clone, Copy, Debug, PartialEq, Eq)]
pub enum SinkStrategy {
    /// Any bus, each as likely as the next.
    UniformRandom,
    /// Always this bus, taken modulo the number of buses.
    Fixed(usize),
}

/// `x`, held to the range of `i64`.
pub open spec fn clamp_i64(x: int) -> int {
    if x < i64::MIN {
        i64::MIN as int
    } else if x > i64::MAX {
        i64::MAX as int
    } else {
        x
    }
}

/// The value of a `u64` read as an `i64` of the same bits.
pub open spec fn as_signed(x: u64) -> int {
    if x <= i64::MAX {
        x as int
    } else {
        x - 0x1_0000_0000_0000_0000
    }
}

/// Whether a reset is due at time `now`: [`RESET_BUFFER`] seconds before
/// the epoch that began at `last_reset_at` has lasted `epoch_duration`, each
/// step held to the range of `i64`.
pub open spec fn reset_due(last_reset_at: i64, epoch_duration: i64, now: i64) -> bool {
    clamp_i64(clamp_i64(last_reset_at + epoch_duration) - RESET_BUFFER) <= now
}

/// The seconds left to search at time `now`: [`HASH_WINDOW`] from
/// `last_hash_at`, less the buffer, less the time gone, each step held to
/// the range of `i64`, and never below zero.
pub open spec fn cutoff(last_hash_at: i64, buffer_time: u64, now: i64) -> int {
    let left = clamp_i64(
        clamp_i64(clamp_i64(last_hash_at + HASH_WINDOW) - as_signed(buffer_time)) - now,
    );
    if left < 0 {
        0
    } else {
        left
    }
}

/// Whether a round resets the epoch: only when a reset is due, and then
/// only on a draw of zero.
pub open spec fn resets(due: bool, draw: usize) -> bool {
    due && draw == 0
}

/// Whether `threads` threads are more than `cores` cores can run at once.
pub open spec fn outnumbers(threads: u64, cores: usize) -> bool {
    threads > cores
}

/// The bus that a strategy picks among `count`, given a random draw below
/// `count`.
pub open spec fn sink_of(strategy: SinkStrategy, count: usize, draw: usize) -> usize {
    match strategy {
        SinkStrategy::UniformRandom => draw,
        SinkStrategy::Fixed(i) => i % count,
    }
}

/// The number of logical cores, from `num_cpus::get`, which promises at
/// least one and nothing more: the number is the machine's.
#[verifier::external_body]
pub(crate) fn available_cores() -> (cores: usize)
    ensures
        cores >= 1,
{
    num_cpus::get()
}

/// A random number below `bound`, from `gen_range` on `rand::thread_rng()`
/// with the range `0..bound`. An empty range panics there, so `bound` is
/// positive.
#[verifier::external_body]
pub(crate) fn random_below(bound: usize) -> (draw: usize)
    requires
        bound > 0,
    ensures
        draw < bound,
{
    rand::Rng::gen_range(&mut rand::thread_rng(), 0..bound)
}

fn add_clamped(x: i64, y: i64) -> (r: i64)
    ensures
        r == clamp_i64(x + y),
{
    match x.checked_add(y) {
        Some(sum) => sum,
        None => if y > 0 {
            i64::MAX
        } else {
            i64::MIN
        },
    }
}

fn sub_clamped(x: i64, y: i64) -> (r: i64)
    ensures
        r == clamp_i64(x - y),
{
    match x.checked_sub(y) {
        Some(difference) => difference,
        None => if y > 0 {
            i64::MIN
        } else {
            i64::MAX
        },
    }
}

fn reinterpret(x: u64) -> (r: i64)
    ensures
        r == as_signed(x),
{
    if x <= 0x7fff_ffff_ffff_ffff {
        x as i64
    } else {
        let high: u64 = x - 0x8000_0000_0000_0000;
        (high as i64) + i64::MIN
    }
}

/// Whether more threads are asked for than `cores` can run at once.
pub fn exceeds_cores(threads: u64, cores: usize) -> (exceeds: bool)
    ensures
        exceeds == outnumbers(threads, cores),
{
    threads > cores as u64
}

/// Says whether a reset is due at `now`, all times in seconds.
pub fn should_reset(last_reset_at: i64, epoch_duration: i64, now: i64) -> (due: bool)
    ensures
        due == reset_due(last_reset_at, epoch_duration, now),
{
    sub_clamped(add_clamped(last_reset_at, epoch_duration), RESET_BUFFER) <= now
}

/// The seconds a round may still search at `now`.
pub fn get_cutoff(last_hash_at: i64, buffer_time: u64, now: i64) -> (seconds: u64)
    ensures
        seconds == cutoff(last_hash_at, buffer_time, now),
{
    let left = sub_clamped(
        sub_clamped(add_clamped(last_hash_at, HASH_WINDOW), reinterpret(buffer_time)),
        now,
    );
    if left < 0 {
        0
    } else {
        left as u64
    }
}

/// Decides on a reset from whether one is due and a draw below
/// [`RESET_ODDS`].
pub fn decide_reset(due: bool, draw: usize) -> (reset: bool)
    ensures
        reset == resets(due, draw),
{
    due && draw == 0
}

/// Decides on a reset by a random draw. There is never a reset that is not
/// due; one that is due is made once in [`RESET_ODDS`] rounds.
pub fn draw_reset(due: bool) -> (reset: bool)
    ensures
        reset ==> due,
{
    due && decide_reset(due, random_below(RESET_ODDS))
}

/// Picks the bus for a strategy, given a draw below `count`.
pub fn pick_sink(strategy: SinkStrategy, count: usize, draw: usize) -> (bus: usize)
    requires
        count > 0,
        draw < count,
    ensures
        bus == sink_of(strategy, count, draw),
        bus < count,
{
    match strategy {
        SinkStrategy::UniformRandom => draw,
        SinkStrategy::Fixed(i) => i % count,
    }
}

/// Picks the bus that pays a claim, among `count` buses.
pub fn select_sink(strategy: SinkStrategy, count: usize) -> (bus: usize)
    requires
        count > 0,
    ensures
        bus < count,
        strategy matches SinkStrategy::Fixed(i) ==> bus == i % count,
{
    match strategy {
        SinkStrategy::UniformRandom => pick_sink(strategy, count, random_below(count)),
        SinkStrategy::Fixed(_) => pick_sink(strategy, count, 0),
    }
}

/// Picks a bus at random among `count`.
pub fn find_bus(count: usize) -> (bus: usize)
    requires
        count > 0,
    ensures
        bus < count,
{
    select_sink(SinkStrategy::UniformRandom, count)
}

/// Plans the request of a round: draws the bus and, where a reset is due,
/// the reset, and lists the instructions with their compute budget.
pub fn plan_round(solution: Solution, due: bool, strategy: SinkStrategy, bus_count: usize) -> (r: (
    Vec<Instruction>,
    ComputeBudget,
))
    requires
        bus_count > 0,
    ensures
        exists|bus: usize, reset: bool|
            {
                &&& bus < bus_count
                &&& reset ==> due
                &&& strategy matches SinkStrategy::Fixed(i) ==> bus == i % bus_count
                &&& r.0@ == #[trigger] round_instructions(solution, bus, reset)
                &&& r.1 == round_budget(reset)
            },
{
    let reset = draw_reset(due);
    let bus = select_sink(strategy, bus_count);
    round_request(solution, bus, reset)
}

impl Miner {
    /// Says whether `threads` exceeds the cores of this machine, which is
    /// worth a warning and no more. The answer is that of [`exceeds_cores`]
    /// for the machine's number of cores, which is at least one: so one
    /// thread never exceeds, and more threads than a `usize` can count
    /// always do.
    pub fn check_num_cores(&self, threads: u64) -> (exceeds: bool)
        ensures
            exists|cores: usize| cores >= 1 && exceeds == #[trigger] outnumbers(threads, cores),
            threads <= 1 ==> !exceeds,
    {
        exceeds_cores(threads, available_cores())
    }

    /// Starts a submission: checks the fee payer's balance, heads the
    /// instructions with the compute budget at this miner's priority fee,
    /// and hands out the request with the first attempt. With a known
    /// balance at or below the minimum nothing is built.
    pub fn prepare(
        &self,
        instructions: &[Instruction],
        compute_budget: ComputeBudget,
        skip_confirm: bool,
        balance: Option<u64>,
    ) -> (r: Result<(Vec<Instruction>, Attempt), SubmissionError>)
        ensures
            balance_suffices(balance) ==> (r matches Ok((request, attempt)) && request@
                == request_of(instructions@, compute_budget, self.priority_fee) && attempt
                == first_attempt(skip_confirm)),
            !balance_suffices(balance) ==> r == Err::<(Vec<Instruction>, Attempt), SubmissionError>(
                SubmissionError::InsufficientResource { balance: balance.unwrap() },
            ),
    {
        match begin(balance, skip_confirm) {
            Ok(attempt) => Ok((build_request(instructions, compute_budget, self.priority_fee), attempt)),
            Err(e) => Err(e),
        }
    }
}

} // verus!
