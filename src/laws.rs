//! Properties of the campaign's transitions, stated over the abstract state
//! that the methods of `CrowdfundingSc` are specified by.
use vstd::prelude::*;

use crate::address::Address;
use crate::campaign::{
    claim_result, fund_result, init_result, set_cap_result, CampaignState, Transfer,
};
use crate::error::CampaignError;
use crate::status::Status;

verus! {

/// Initialisation refuses a zero target with `InvalidTarget`, then a deadline
/// that is not after the current time with `InvalidDeadline`; otherwise it
/// stores the target and the deadline exactly as given, with no cap and no
/// deposits, and the state is valid.
pub proof fn lemma_init_validity(target: u128, deadline: u64, now: u64)
    ensures
        target == 0 ==> init_result(target, deadline, now) == Err::<CampaignState, CampaignError>(
            CampaignError::InvalidTarget,
        ),
        target > 0 && deadline <= now ==> init_result(target, deadline, now) == Err::<
            CampaignState,
            CampaignError,
        >(CampaignError::InvalidDeadline),
        target > 0 && deadline > now ==> {
            &&& init_result(target, deadline, now) is Ok
            &&& init_result(target, deadline, now).unwrap().target == target
            &&& init_result(target, deadline, now).unwrap().deadline == deadline
            &&& init_result(target, deadline, now).unwrap().max_per_wallet is None
            &&& init_result(target, deadline, now).unwrap().valid()
            &&& forall|c: Address| #[trigger]
                init_result(target, deadline, now).unwrap().deposit_of(c) == 0
        },
{
}

/// No call after initialisation changes the target or the deadline, and every
/// call keeps a valid state valid.
pub proof fn lemma_configuration_fixed(
    s: CampaignState,
    caller: Address,
    owner: Address,
    amount: u128,
    now: u64,
    current_funds: u128,
)
    requires
        s.valid(),
    ensures
        set_cap_result(s, caller, owner, amount) is Ok ==> {
            let t = set_cap_result(s, caller, owner, amount).unwrap();
            t.target == s.target && t.deadline == s.deadline && t.valid()
        },
        fund_result(s, caller, amount, now) is Ok ==> {
            let t = fund_result(s, caller, amount, now).unwrap();
            t.target == s.target && t.deadline == s.deadline && t.valid()
        },
        claim_result(s, caller, owner, now, current_funds) is Ok ==> {
            let t = claim_result(s, caller, owner, now, current_funds).unwrap().0;
            t.target == s.target && t.deadline == s.deadline && t.valid()
        },
{
}

/// From the deadline on, funding fails with `CampaignClosed` (and a failed
/// call leaves the ledger as it was).
pub proof fn lemma_funding_window(s: CampaignState, caller: Address, payment: u128, now: u64)
    requires
        now >= s.deadline,
    ensures
        fund_result(s, caller, payment, now) == Err::<CampaignState, CampaignError>(
            CampaignError::CampaignClosed,
        ),
{
}

/// Under a cap `m`, a successful contribution leaves the contributor's total at
/// most `m` and every other deposit as it was; one that would go above `m`
/// fails with `WalletCapExceeded`.
pub proof fn lemma_cap_enforced(s: CampaignState, caller: Address, payment: u128, now: u64, m: u128)
    requires
        s.max_per_wallet == Some(m),
        s.deposit_of(caller) + payment <= u128::MAX,
    ensures
        fund_result(s, caller, payment, now) is Ok ==> {
            let t = fund_result(s, caller, payment, now).unwrap();
            &&& t.deposit_of(caller) <= m
            &&& t.deposit_of(caller) == s.deposit_of(caller) + payment
            &&& forall|c: Address| c != caller ==> #[trigger] t.deposit_of(c) == s.deposit_of(c)
        },
        now < s.deadline && s.deposit_of(caller) + payment > m ==> fund_result(
            s,
            caller,
            payment,
            now,
        ) == Err::<CampaignState, CampaignError>(CampaignError::WalletCapExceeded),
{
}

/// Once every deposit is within the cap `m`, any contribution, successful or
/// not, keeps every deposit within `m`: so does any sequence of them.
pub proof fn lemma_cap_invariant(s: CampaignState, caller: Address, payment: u128, now: u64, m: u128)
    requires
        s.max_per_wallet == Some(m),
        s.deposit_of(caller) + payment <= u128::MAX,
        forall|c: Address| #[trigger] s.deposit_of(c) <= m,
    ensures
        fund_result(s, caller, payment, now) is Ok ==> {
            let t = fund_result(s, caller, payment, now).unwrap();
            &&& t.max_per_wallet == Some(m)
            &&& forall|c: Address| #[trigger] t.deposit_of(c) <= m
        },
{
    if fund_result(s, caller, payment, now) is Ok {
        let t = fund_result(s, caller, payment, now).unwrap();
        assert forall|c: Address| #[trigger] t.deposit_of(c) <= m by {
            if c != caller {
                assert(t.deposit_of(c) == s.deposit_of(c));
            }
        }
    }
}

/// In the failed phase a claim refunds the caller's whole deposit, once: it
/// leaves that deposit at zero, and a second claim by the same caller in the
/// failed phase changes nothing and transfers nothing.
pub proof fn lemma_no_double_refund(
    s: CampaignState,
    caller: Address,
    owner: Address,
    now1: u64,
    funds1: u128,
    now2: u64,
    funds2: u128,
)
    requires
        s.status(now1, funds1) == Status::Failed,
        s.status(now2, funds2) == Status::Failed,
    ensures
        claim_result(s, caller, owner, now1, funds1) is Ok,
        ({
            let (s1, t1) = claim_result(s, caller, owner, now1, funds1).unwrap();
            &&& t1 == if s.deposit_of(caller) == 0 {
                None
            } else {
                Some(Transfer { to: caller, amount: s.deposit_of(caller) })
            }
            &&& s1.deposit_of(caller) == 0
            &&& forall|c: Address| c != caller ==> #[trigger] s1.deposit_of(c) == s.deposit_of(c)
            &&& claim_result(s1, caller, owner, now2, funds2) == Ok::<
                (CampaignState, Option<Transfer>),
                CampaignError,
            >((s1, None))
        }),
{
}

/// In the successful phase only the owner can claim: anyone else gets
/// `Unauthorized`, and the owner gets the whole held balance.
pub proof fn lemma_owner_only_payout(
    s: CampaignState,
    caller: Address,
    owner: Address,
    now: u64,
    current_funds: u128,
)
    requires
        s.status(now, current_funds) == Status::Successful,
    ensures
        caller != owner ==> claim_result(s, caller, owner, now, current_funds) == Err::<
            (CampaignState, Option<Transfer>),
            CampaignError,
        >(CampaignError::Unauthorized),
        caller == owner ==> claim_result(s, caller, owner, now, current_funds) == Ok::<
            (CampaignState, Option<Transfer>),
            CampaignError,
        >((s, Some(Transfer { to: owner, amount: current_funds }))),
{
}

/// At the deadline the campaign is still in its funding period; one instant
/// later it is successful exactly when the held funds reach the target, and
/// failed otherwise.
pub proof fn lemma_status_boundary(s: CampaignState, current_funds: u128)
    requires
        s.deadline < u64::MAX,
    ensures
        s.status(s.deadline, current_funds) == Status::FundingPeriod,
        s.status((s.deadline + 1) as u64, current_funds) == (if current_funds >= s.target {
            Status::Successful
        } else {
            Status::Failed
        }),
{
}

/// At the deadline instant itself funding is refused, although the status for
/// that instant still reads as the funding period.
pub proof fn lemma_deadline_instant(
    s: CampaignState,
    caller: Address,
    payment: u128,
    current_funds: u128,
)
    ensures
        s.status(s.deadline, current_funds) == Status::FundingPeriod,
        fund_result(s, caller, payment, s.deadline) == Err::<CampaignState, CampaignError>(
            CampaignError::CampaignClosed,
        ),
{
}

} // verus!
