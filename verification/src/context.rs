//! What the runtime hands to an instruction handler.

use vstd::prelude::*;

verus! {

/// The accounts that `initialize` works on: none. The type has no field, so
/// no value of it can carry an account.
#[derive(Clone, Copy, Debug)]
pub struct Initialize {}

/// The inputs of one invocation besides the instruction's arguments: the
/// address of the program being run, and the accounts the instruction declares.
#[derive(Debug)]
pub struct Context<T> {
    /// Address of the program that is executing.
    pub program_id: [u8; 32],
    /// The instruction's accounts.
    pub accounts: T,
}

impl<T> Context<T> {
    /// A context for the program at `program_id`, over `accounts`.
    pub fn new(program_id: [u8; 32], accounts: T) -> (ctx: Self)
        ensures
            ctx.program_id == program_id,
            ctx.accounts == accounts,
    {
        Context { program_id, accounts }
    }
}

} // verus!
