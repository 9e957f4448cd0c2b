//! A minimal program that greets every call.
//!
//! It accepts any account list and payload, always succeeds, and hands the
//! greeting back for the surrounding runtime to log.

use vstd::prelude::*;

use crate::error::EscrowError;
use crate::state::Pubkey;

verus! {

/// A program that does nothing but greet.
pub struct HelloSolana;

impl HelloSolana {
    /// Succeeds on every call, whatever accounts and payload it names, and
    /// returns the greeting to log.
    pub fn process_instruction(accounts: &Vec<Pubkey>, instruction_data: &Vec<u8>) -> (r: Result<
        &'static str,
        EscrowError,
    >)
        ensures
            r is Ok,
            r->Ok_0@ == "Hello, Solana from Steel!"@,
    {
        Ok("Hello, Solana from Steel!")
    }
}

} // verus!
