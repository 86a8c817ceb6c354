use vstd::prelude::*;

verus! {

/// Every way a call into the counter program can fail.
///
/// All of these are terminal for the current call: the host runtime surfaces
/// the error as the transaction's failure reason and rolls back every storage
/// write made during the call, so a call either fully applies its effect or
/// applies none.
#[derive(Clone, Copy, Debug, PartialEq, Eq, Structural)]
pub enum CounterError {
    /// The instruction bytes (or a stored record) could not be decoded.
    InvalidInstructionData,
    /// A handler received fewer accounts than its operation requires.
    MissingAccount,
    /// A mutation was attempted on a record this program does not own.
    IncorrectOwner,
    /// A self-referential call named a program other than the one running.
    IncorrectProgramId,
    /// An increment would take the counter past its largest value.
    CounterOverflow,
}

} // verus!
