//! The campaign lifecycle: one persistent `Campaign` record per campaign,
//! created once, funded by anyone, drained only by its manager.

use vstd::prelude::*;
use vstd::string::StrSliceExecFns;

verus! {

/// Upper bound, in characters, on a campaign's name and description.
pub const MAX_TEXT_LEN: usize = 100;

/// A fixed-size participant identity (a 256-bit public key), held as four
/// 64-bit words so that equality of identities is plain word equality.
#[derive(Clone, Copy, Debug, PartialEq, Eq, Structural)]
pub struct Pubkey {
    pub w0: u64,
    pub w1: u64,
    pub w2: u64,
    pub w3: u64,
}

/// Why an operation was refused. Every failure leaves all state unchanged.
#[derive(Clone, Copy, Debug, PartialEq, Eq, Structural)]
pub enum CampaignError {
    /// A name or description given to `create` exceeds `MAX_TEXT_LEN`.
    ValidationError,
    /// A withdrawal was requested by an identity other than the manager.
    Unauthorized,
    /// The donor does not hold the amount it offered to donate.
    InsufficientFunds,
    /// The withdrawal would take more than the campaign's withdrawable funds.
    InsufficientBalance,
    /// The campaign record handed to `donate` is malformed.
    InvalidCampaign,
}

/// The persistent campaign record.
///
/// `balance` counts lifetime donations received: `donate` increments it,
/// `withdraw` deliberately does not decrement it.
#[derive(Clone, Debug, PartialEq)]
pub struct Campaign {
    pub name: String,
    pub description: String,
    pub balance: u64,
    pub manager: Pubkey,
}

impl Campaign {
    /// A record is well formed when both of its texts are within the bound.
    pub open spec fn valid(self) -> bool {
        self.name@.len() <= MAX_TEXT_LEN && self.description@.len() <= MAX_TEXT_LEN
    }

    /// Decides well-formedness at run time.
    pub fn is_valid(&self) -> (b: bool)
        ensures
            b == self.valid(),
    {
        self.name.as_str().unicode_len() <= MAX_TEXT_LEN
            && self.description.as_str().unicode_len() <= MAX_TEXT_LEN
    }
}

/// A campaign record together with its backing store: the funds the host
/// actually holds for the campaign, and the minimum that the store requires
/// to stay allocated (`reserve`, the rent-exemption floor).
#[derive(Clone, Debug, PartialEq)]
pub struct CampaignAccount {
    pub campaign: Campaign,
    pub held: u64,
    pub reserve: u64,
}

impl CampaignAccount {
    /// The account holds at least what its storage reservation demands.
    pub open spec fn funded(self) -> bool {
        self.held >= self.reserve
    }

    /// Funds that may leave the account without breaking its reservation.
    pub open spec fn withdrawable(self) -> int {
        if self.held >= self.reserve {
            self.held - self.reserve
        } else {
            0
        }
    }

    /// Computes the withdrawable funds at run time.
    pub fn withdrawable_funds(&self) -> (w: u64)
        ensures
            w == self.withdrawable(),
    {
        if self.held >= self.reserve {
            self.held - self.reserve
        } else {
            0
        }
    }
}

/// A participant's holdings outside any campaign: an identity and the funds
/// that identity controls.
#[derive(Clone, Copy, Debug, PartialEq, Eq, Structural)]
pub struct Wallet {
    pub owner: Pubkey,
    pub funds: u64,
}

/// The outcome of a donation: the account and the donor wallet after the
/// call, and the verdict. A malformed record is refused; a donor who lacks
/// the amount is refused; otherwise the amount moves from the donor into the
/// backing store and the lifetime-donation counter grows by the amount.
pub open spec fn spec_donate(a: CampaignAccount, donor: Wallet, amount: u64) -> (
    CampaignAccount,
    Wallet,
    Result<(), CampaignError>,
) {
    if !a.campaign.valid() {
        (a, donor, Err(CampaignError::InvalidCampaign))
    } else if donor.funds < amount {
        (a, donor, Err(CampaignError::InsufficientFunds))
    } else {
        (
            CampaignAccount {
                campaign: Campaign {
                    name: a.campaign.name,
                    description: a.campaign.description,
                    balance: (a.campaign.balance + amount) as u64,
                    manager: a.campaign.manager,
                },
                held: (a.held + amount) as u64,
                reserve: a.reserve,
            },
            Wallet { owner: donor.owner, funds: (donor.funds - amount) as u64 },
            Ok(()),
        )
    }
}

/// The outcome of a withdrawal: the account and the requester wallet after
/// the call, and the verdict. Only the manager may withdraw, and only up to
/// the withdrawable funds; the amount then moves from the backing store into
/// the manager's wallet while the record — its `balance` counter included —
/// stays as it was.
pub open spec fn spec_withdraw(a: CampaignAccount, requester: Wallet, amount: u64) -> (
    CampaignAccount,
    Wallet,
    Result<(), CampaignError>,
) {
    if requester.owner != a.campaign.manager {
        (a, requester, Err(CampaignError::Unauthorized))
    } else if amount > a.withdrawable() {
        (a, requester, Err(CampaignError::InsufficientBalance))
    } else {
        (
            CampaignAccount {
                campaign: a.campaign,
                held: (a.held - amount) as u64,
                reserve: a.reserve,
            },
            Wallet { owner: requester.owner, funds: (requester.funds + amount) as u64 },
            Ok(()),
        )
    }
}

/// Creates a campaign record with an empty balance and `manager` as its
/// immutable owner. Fails with `ValidationError`, and only then, when the
/// name or the description exceeds `MAX_TEXT_LEN`.
pub fn create(name: String, description: String, manager: Pubkey) -> (r: Result<
    Campaign,
    CampaignError,
>)
    ensures
        (match r {
            Ok(c) => c.valid() && c.name == name && c.description == description && c.balance == 0
                && c.manager == manager,
            Err(e) => e == CampaignError::ValidationError && (name@.len() > MAX_TEXT_LEN
                || description@.len() > MAX_TEXT_LEN),
        }),
{
    if name.as_str().unicode_len() > MAX_TEXT_LEN || description.as_str().unicode_len()
        > MAX_TEXT_LEN {
        Err(CampaignError::ValidationError)
    } else {
        Ok(Campaign { name, description, balance: 0, manager })
    }
}

/// Moves `amount` from the donor's wallet into the campaign's backing store
/// and increments the record's `balance` by the same amount, atomically: on
/// any failure both the account and the wallet are left unchanged. Any
/// identity may donate, and an amount of zero is accepted as a no-op.
///
/// The caller keeps the counter and the store within range: the two sums may
/// not overflow on the inputs on which the donation is owed.
pub fn donate(acct: &mut CampaignAccount, donor: &mut Wallet, amount: u64) -> (r: Result<
    (),
    CampaignError,
>)
    requires
        old(acct).campaign.valid() && old(donor).funds >= amount ==> old(acct).campaign.balance
            + amount <= u64::MAX && old(acct).held + amount <= u64::MAX,
    ensures
        (*final(acct), *final(donor), r) == spec_donate(*old(acct), *old(donor), amount),
{
    if !acct.campaign.is_valid() {
        return Err(CampaignError::InvalidCampaign);
    }
    if donor.funds < amount {
        return Err(CampaignError::InsufficientFunds);
    }
    donor.funds = donor.funds - amount;
    acct.held = acct.held + amount;
    acct.campaign.balance = acct.campaign.balance + amount;
    Ok(())
}

/// Moves `amount` from the campaign's backing store into the requester's
/// wallet. Fails with `Unauthorized` unless the requester is the manager,
/// and with `InsufficientBalance` if `amount` exceeds the withdrawable
/// funds; on any failure both sides are left unchanged. The record itself is
/// never touched: `balance` keeps counting lifetime donations.
///
/// The caller keeps the manager's wallet within range: its sum may not
/// overflow on the inputs on which the withdrawal is owed.
pub fn withdraw(acct: &mut CampaignAccount, requester: &mut Wallet, amount: u64) -> (r: Result<
    (),
    CampaignError,
>)
    requires
        old(requester).owner == old(acct).campaign.manager && amount <= old(
            acct,
        ).withdrawable() ==> old(requester).funds + amount <= u64::MAX,
    ensures
        (*final(acct), *final(requester), r) == spec_withdraw(*old(acct), *old(requester), amount),
{
    if requester.owner != acct.campaign.manager {
        return Err(CampaignError::Unauthorized);
    }
    let available = acct.withdrawable_funds();
    if amount > available {
        return Err(CampaignError::InsufficientBalance);
    }
    acct.held = acct.held - amount;
    requester.funds = requester.funds + amount;
    Ok(())
}

} // verus!
