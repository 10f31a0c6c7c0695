//! The instructions of a request, as plain values: what a round asks of the
//! ledger, and the two compute-budget instructions that head every request.
//! The caller turns each into the ledger's own instruction when it signs.

use crate::search::Solution;
use vstd::prelude::*;

verus! {

/// The compute-unit ceiling of a request.
#[derive(Clone, Copy, Debug, PartialEq, Eq)]
pub enum ComputeBudget {
    /// A ceiling found by simulating the request. Simulation is not done
    /// yet: this stands for the fixed ceiling [`DYNAMIC_UNIT_LIMIT`].
    Dynamic,
    /// This many compute units.
    Fixed(u32),
}

/// The ceiling used for [`ComputeBudget::Dynamic`].
pub const DYNAMIC_UNIT_LIMIT: u32 = 1_400_000;

/// The compute units of a round's request without a reset.
pub const ROUND_UNITS: u32 = 500_000;

/// The compute units that a reset adds to a round's request.
pub const RESET_UNITS: u32 = 100_000;

/// One instruction of a request.
#[derive(Clone, Copy, Debug, PartialEq, Eq)]
pub enum Instruction {
    /// Caps the compute units of the request.
    SetComputeUnitLimit(u32),
    /// Sets the price per compute unit, in micro-lamports.
    SetComputeUnitPrice(u64),
    /// Opens the miner's proof account.
    Open,
    /// Names the miner's proof account.
    Auth,
    /// Starts a new epoch.
    Reset,
    /// Claims `solution`, to be paid from bus number `bus`.
    Mine { bus: usize, solution: Solution },
}

/// The compute-unit ceiling that a budget stands for.
pub open spec fn unit_limit(budget: ComputeBudget) -> u32 {
    match budget {
        ComputeBudget::Dynamic => DYNAMIC_UNIT_LIMIT,
        ComputeBudget::Fixed(units) => units,
    }
}

/// The instructions of a request in full: the ceiling, the price, then the
/// caller's instructions in their order.
pub open spec fn request_of(
    instructions: Seq<Instruction>,
    budget: ComputeBudget,
    priority_fee: u64,
) -> Seq<Instruction> {
    seq![
        Instruction::SetComputeUnitLimit(unit_limit(budget)),
        Instruction::SetComputeUnitPrice(priority_fee),
    ] + instructions
}

/// What a round asks of the ledger: the proof account, a reset where one is
/// to be made, and the claim of the solution.
pub open spec fn round_instructions(solution: Solution, bus: usize, reset: bool) -> Seq<Instruction> {
    if reset {
        seq![Instruction::Auth, Instruction::Reset, Instruction::Mine { bus, solution }]
    } else {
        seq![Instruction::Auth, Instruction::Mine { bus, solution }]
    }
}

/// The compute budget of a round's request.
pub open spec fn round_budget(reset: bool) -> ComputeBudget {
    if reset {
        ComputeBudget::Fixed((ROUND_UNITS + RESET_UNITS) as u32)
    } else {
        ComputeBudget::Fixed(ROUND_UNITS)
    }
}

/// Heads the caller's instructions with the compute-unit ceiling and the
/// compute-unit price.
pub fn build_request(instructions: &[Instruction], budget: ComputeBudget, priority_fee: u64) -> (request:
    Vec<Instruction>)
    ensures
        request@ == request_of(instructions@, budget, priority_fee),
{
    let limit = match budget {
        ComputeBudget::Dynamic => DYNAMIC_UNIT_LIMIT,
        ComputeBudget::Fixed(units) => units,
    };
    let mut request: Vec<Instruction> = Vec::new();
    request.push(Instruction::SetComputeUnitLimit(limit));
    request.push(Instruction::SetComputeUnitPrice(priority_fee));
    let ghost head = request@;
    let mut i: usize = 0;
    while i < instructions.len()
        invariant
            i <= instructions.len(),
            request@ == head + instructions@.take(i as int),
        decreases instructions.len() - i,
    {
        request.push(instructions[i]);
        assert(instructions@.take(i + 1) == instructions@.take(i as int).push(instructions@[i as int]));
        i += 1;
    }
    assert(instructions@.take(i as int) == instructions@);
    request
}

/// Lists a round's instructions and sets its compute budget: a reset makes
/// the request one instruction longer and [`RESET_UNITS`] dearer.
pub fn round_request(solution: Solution, bus: usize, reset: bool) -> (r: (Vec<Instruction>, ComputeBudget))
    ensures
        r.0@ == round_instructions(solution, bus, reset),
        r.1 == round_budget(reset),
{
    let mut units: u32 = ROUND_UNITS;
    let mut instructions: Vec<Instruction> = Vec::new();
    instructions.push(Instruction::Auth);
    if reset {
        units = units + RESET_UNITS;
        instructions.push(Instruction::Reset);
    }
    instructions.push(Instruction::Mine { bus, solution });
    assert(instructions@ =~= round_instructions(solution, bus, reset));
    (instructions, ComputeBudget::Fixed(units))
}

} // verus!
