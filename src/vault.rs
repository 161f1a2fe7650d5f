use vstd::prelude::*;

use crate::address::Address;

verus! {

/// The accounts of the instruction that funds the house vault.
#[derive(Clone, Copy, Debug, PartialEq, Eq)]
pub struct Initialize {
    /// The house, which signs and pays.
    pub house: Address,
    /// The vault, derived from the house's address.
    pub vault: Address,
    /// The system program.
    pub system_program: Address,
}

/// A lamport transfer for the system program to carry out.
#[derive(Clone, Copy, Debug, PartialEq, Eq)]
pub struct TransferPlan {
    /// The program to invoke: the system program.
    pub program: Address,
    pub from: Address,
    pub to: Address,
    pub lamports: u64,
}

impl Initialize {
    /// The transfer that moves `amount` lamports from the house to its vault.
    pub open spec fn funding(&self, amount: u64) -> TransferPlan {
        TransferPlan { program: self.system_program, from: self.house, to: self.vault, lamports: amount }
    }

    /// Plans the vault's funding: a system-program transfer of `amount`
    /// lamports from the house to the vault.
    pub fn init(&self, amount: u64) -> (r: TransferPlan)
        ensures
            r == self.funding(amount),
    {
        TransferPlan { program: self.system_program, from: self.house, to: self.vault, lamports: amount }
    }
}

} // verus!
