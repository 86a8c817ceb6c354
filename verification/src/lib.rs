//! A verified model of a small counter program for an account-based
//! blockchain virtual machine.
//!
//! The library has two cooperating pieces:
//!
//! - an instruction codec ([`CounterInstruction`]): a tagged operation is
//!   mapped to and from a discriminant-prefixed little-endian byte encoding;
//! - a dispatcher ([`processor::process`]): given raw instruction bytes and a
//!   list of account handles, it decodes the operation, validates ownership
//!   and program-identity preconditions, and either mutates the primary
//!   account's stored record or builds a nested instruction for the host
//!   runtime to execute as a sub-call.
//!
//! The host runtime itself (account allocation, rent, signature checks, and
//! the synchronous execution of nested instructions) is an external
//! collaborator: the dispatcher hands any requested sub-call back to its
//! caller as a nested-instruction value instead of performing it.

pub mod errors;
pub mod instructions;
pub mod processor;
pub mod state;

pub use errors::CounterError;
pub use instructions::CounterInstruction;
pub use instructions::InstructionAccount;
pub use instructions::NestedInstruction;
pub use state::AccountHandle;
pub use state::Counter;
pub use state::CounterAccount;
pub use state::Identity;

use vstd::prelude::*;

verus! {

/// Entry point of the program: forwards the call to the dispatcher,
/// [`processor::process`], which decodes the instruction bytes and routes
/// the operation to exactly one handler.
pub fn process_instruction(
    program_id: &Identity,
    accounts: &mut Vec<AccountHandle>,
    instruction_data: &Vec<u8>,
) -> (r: Result<Option<NestedInstruction>, CounterError>)
    ensures
        processor::spec_process_post(
            *program_id,
            old(accounts)@,
            final(accounts)@,
            instruction_data@,
            r,
        ),
{
    processor::process(program_id, accounts, instruction_data)
}

} // verus!
