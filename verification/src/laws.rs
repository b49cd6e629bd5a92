//! Laws of the campaign lifecycle, proved once and for all over the spec
//! step functions that the operations' contracts are stated with.

use vstd::prelude::*;
use crate::campaign::{CampaignAccount, CampaignError, Wallet, spec_donate, spec_withdraw};

verus! {

/// One step of a campaign's life after creation: somebody donates, or
/// somebody asks to withdraw.
pub enum CampaignOp {
    Donate { donor: Wallet, amount: u64 },
    Withdraw { requester: Wallet, amount: u64 },
}

/// The account after one operation, whether it succeeded or failed.
pub open spec fn apply_op(a: CampaignAccount, op: CampaignOp) -> CampaignAccount {
    match op {
        CampaignOp::Donate { donor, amount } => spec_donate(a, donor, amount).0,
        CampaignOp::Withdraw { requester, amount } => spec_withdraw(a, requester, amount).0,
    }
}

/// The account after a whole sequence of operations, applied in order.
pub open spec fn apply_ops(a: CampaignAccount, ops: Seq<CampaignOp>) -> CampaignAccount
    decreases ops.len(),
{
    if ops.len() == 0 {
        a
    } else {
        apply_ops(apply_op(a, ops[0]), ops.subrange(1, ops.len() as int))
    }
}

/// Ownership immutability: however many donations and withdrawal attempts
/// follow, successful or not, the manager set at creation never changes.
pub proof fn lemma_manager_immutable(a: CampaignAccount, ops: Seq<CampaignOp>)
    ensures
        apply_ops(a, ops).campaign.manager == a.campaign.manager,
    decreases ops.len(),
{
    if ops.len() > 0 {
        lemma_manager_immutable(apply_op(a, ops[0]), ops.subrange(1, ops.len() as int));
    }
}

/// Authorization: a withdrawal requested by any identity other than the
/// manager fails with `Unauthorized`, for every amount, and moves nothing.
pub proof fn lemma_withdraw_unauthorized(a: CampaignAccount, requester: Wallet, amount: u64)
    requires
        requester.owner != a.campaign.manager,
    ensures
        spec_withdraw(a, requester, amount) == (
            a,
            requester,
            Err::<(), CampaignError>(CampaignError::Unauthorized),
        ),
{
}

/// No negative balance: a withdrawal never takes the backing store below
/// its reservation; asking for more than the withdrawable funds fails with
/// `InsufficientBalance` and moves nothing; and a successful withdrawal
/// lowers the withdrawable funds by exactly the amount.
pub proof fn lemma_no_negative_balance(a: CampaignAccount, requester: Wallet, amount: u64)
    ensures
        a.funded() ==> spec_withdraw(a, requester, amount).0.funded(),
        requester.owner == a.campaign.manager && amount > a.withdrawable() ==> spec_withdraw(
            a,
            requester,
            amount,
        ) == (a, requester, Err::<(), CampaignError>(CampaignError::InsufficientBalance)),
        spec_withdraw(a, requester, amount).2 == Ok::<(), CampaignError>(()) ==> spec_withdraw(
            a,
            requester,
            amount,
        ).0.withdrawable() == a.withdrawable() - amount,
{
}

/// Donation additivity: a donation succeeds exactly when the record is well
/// formed and the donor holds the amount; it then grows the balance counter
/// from `b0` to `b0 + amount`, and a failed donation leaves the account and
/// the donor exactly as they were.
pub proof fn lemma_donate_additivity(a: CampaignAccount, donor: Wallet, amount: u64)
    ensures
        spec_donate(a, donor, amount).2 == Ok::<(), CampaignError>(()) <==> a.campaign.valid()
            && donor.funds >= amount,
        a.campaign.valid() && donor.funds >= amount && a.campaign.balance + amount <= u64::MAX
            ==> spec_donate(a, donor, amount).0.campaign.balance == a.campaign.balance + amount,
        spec_donate(a, donor, amount).2 is Err ==> spec_donate(a, donor, amount) == (
            a,
            donor,
            spec_donate(a, donor, amount).2,
        ),
{
}

/// Balance/withdraw asymmetry: after `donate(amount)` and then
/// `withdraw(amount)` by the manager, both successful, the backing store is
/// back at its pre-donation level while the `balance` counter keeps the
/// donation — it counts lifetime donations, not current funds.
pub proof fn lemma_donate_withdraw_asymmetry(
    a0: CampaignAccount,
    donor: Wallet,
    manager: Wallet,
    amount: u64,
)
    requires
        a0.campaign.valid(),
        a0.funded(),
        donor.funds >= amount,
        manager.owner == a0.campaign.manager,
        a0.campaign.balance + amount <= u64::MAX,
        a0.held + amount <= u64::MAX,
    ensures
        ({
            let a1 = spec_donate(a0, donor, amount).0;
            let after = spec_withdraw(a1, manager, amount);
            spec_donate(a0, donor, amount).2 == Ok::<(), CampaignError>(()) && after.2 == Ok::<
                (),
                CampaignError,
            >(()) && after.0.campaign.balance == a0.campaign.balance + amount && after.0.held
                == a0.held && after.0.campaign.manager == a0.campaign.manager
        }),
{
}

} // verus!
