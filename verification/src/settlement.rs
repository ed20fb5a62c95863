use vstd::prelude::*;
use crate::principal::Principal;

verus! {

/// One request to the value-transfer service.
#[derive(Clone, Copy, Debug, PartialEq, Eq)]
pub enum Instruction {
    /// Move `amount` of the asset from one party to another.
    Transfer { from: Principal, to: Principal, amount: u64 },
    /// Create `amount` shares for a party.
    Mint { to: Principal, amount: u64 },
    /// Destroy `amount` shares of a party.
    Burn { from: Principal, amount: u64 },
}

/// What remains to be done once an operation has been decided: the value
/// movements to request, in the order given, and the event to emit after all
/// of them have succeeded.
#[derive(Debug, PartialEq, Eq)]
pub struct Settlement<E> {
    pub instructions: Vec<Instruction>,
    pub event: E,
}

/// What the host does next while it carries out a settlement.
#[derive(Clone, Copy, Debug, PartialEq, Eq)]
pub enum Step {
    /// Request this movement from the value-transfer service.
    Perform(Instruction),
    /// Every movement has succeeded: persist the new state and emit the event.
    Commit,
    /// A movement has failed: request nothing more, persist nothing, emit
    /// nothing, and report the failure.
    Abort,
}

impl<E> Settlement<E> {
    /// The next step after `performed` movements have succeeded, given
    /// whether the one requested last has failed.
    pub open spec fn step_spec(&self, performed: usize, failed: bool) -> Step {
        if failed {
            Step::Abort
        } else if performed < self.instructions@.len() {
            Step::Perform(self.instructions@[performed as int])
        } else {
            Step::Commit
        }
    }

    /// Decides the next step of carrying out the settlement.
    ///
    /// The movements are requested one at a time and in order. The first
    /// failure aborts the operation, whatever has succeeded before it; the
    /// state is committed only when every movement has succeeded. So an
    /// operation takes effect as a whole or not at all, provided the host
    /// discards the movements already made when it is told to abort.
    pub fn step(&self, performed: usize, failed: bool) -> (next: Step)
        ensures
            next == self.step_spec(performed, failed),
    {
        if failed {
            Step::Abort
        } else if performed < self.instructions.len() {
            Step::Perform(self.instructions[performed])
        } else {
            Step::Commit
        }
    }
}

} // verus!
