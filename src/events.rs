use vstd::prelude::*;

use crate::amount::Amount;
use crate::identity::Identity;
use crate::ledger::Payout;

verus! {

/// What the contract records for others to see.
#[derive(Clone, Copy, Debug, PartialEq, Eq)]
pub enum VestingEvent {
    /// A recipient was paid `claim_amount` of the token at `cep18_contract_hash`.
    Claim { cep18_contract_hash: [u8; 32], recipient: Identity, claim_amount: Amount },
}

impl VestingEvent {
    /// The event that records `payout`, paid by the token contract `token`.
    pub fn claimed(token: [u8; 32], payout: &Payout) -> (r: VestingEvent)
        ensures
            r == (VestingEvent::Claim {
                cep18_contract_hash: token,
                recipient: payout.recipient,
                claim_amount: payout.amount,
            }),
    {
        VestingEvent::Claim {
            cep18_contract_hash: token,
            recipient: payout.recipient,
            claim_amount: payout.amount,
        }
    }
}

} // verus!
