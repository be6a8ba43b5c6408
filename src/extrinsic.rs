//! Building the time-bounded transaction candidate.
use vstd::prelude::*;

verus! {

/// What is being registered. It does not change once created.
#[derive(Clone, Debug)]
pub struct RegistrationIntent {
    pub subnet: u16,
    /// The wallet (coldkey) that pays.
    pub wallet: String,
    /// The hotkey that takes the slot.
    pub hotkey: String,
    /// An explicit burn amount; without it the current registration cost is paid.
    pub burn_amount: Option<u64>,
}

/// A transaction candidate: the intent with a nonce, a tip and a mortality
/// window of `era_period` blocks from `reference_block`. The caller signs it
/// with the intent's keys.
#[derive(Clone, Copy, Debug, PartialEq, Eq, Structural)]
pub struct ExtrinsicTemplate {
    pub subnet: u16,
    pub burn_amount: u64,
    pub nonce: u64,
    pub tip: u128,
    pub era_period: u64,
    pub reference_block: u64,
}

/// The amount burned: the explicit one, else the registration cost.
pub open spec fn burn_of(explicit: Option<u64>, registration_cost: u64) -> u64 {
    match explicit {
        Some(b) => b,
        None => registration_cost,
    }
}

/// Builds the template for `intent`. `registration_cost` is the subnet's
/// current cost, used when the intent names no burn amount;
/// `wallet_resolved` and `hotkey_resolved` say whether each identity was
/// found as key material.
pub fn build(
    intent: &RegistrationIntent,
    nonce: u64,
    tip: u128,
    era_period: u64,
    reference_block: u64,
    registration_cost: u64,
    wallet_resolved: bool,
    hotkey_resolved: bool,
) -> (r: Result<ExtrinsicTemplate, crate::outcome::ErrorKind>)
    ensures
        !(wallet_resolved && hotkey_resolved) ==> r == Err::<ExtrinsicTemplate, _>(
            crate::outcome::ErrorKind::InvalidIdentity,
        ),
        wallet_resolved && hotkey_resolved ==> r == Ok::<_, crate::outcome::ErrorKind>(
            ExtrinsicTemplate {
                subnet: intent.subnet,
                burn_amount: burn_of(intent.burn_amount, registration_cost),
                nonce,
                tip,
                era_period,
                reference_block,
            },
        ),
{
    if !(wallet_resolved && hotkey_resolved) {
        return Err(crate::outcome::ErrorKind::InvalidIdentity);
    }
    let burn_amount = match intent.burn_amount {
        Some(b) => b,
        None => registration_cost,
    };
    Ok(ExtrinsicTemplate { subnet: intent.subnet, burn_amount, nonce, tip, era_period, reference_block })
}

impl ExtrinsicTemplate {
    /// The ledger accepts the template in `block`: the window starts at the
    /// reference block and lasts `era_period` blocks.
    pub open spec fn live_at(self, block: int) -> bool {
        self.reference_block <= block < self.reference_block + self.era_period
    }

    pub fn is_live_at(&self, block: u64) -> (r: bool)
        ensures
            r == self.live_at(block as int),
    {
        block >= self.reference_block && block - self.reference_block < self.era_period
    }

    /// A replacement: the same template with another tip.
    pub fn with_tip(&self, tip: u128) -> (r: ExtrinsicTemplate)
        ensures
            r == (ExtrinsicTemplate { tip, ..*self }),
    {
        ExtrinsicTemplate { tip, ..*self }
    }
}

} // verus!
