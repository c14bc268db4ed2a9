use vstd::prelude::*;

verus! {

/// The phase of a campaign, derived afresh from the time and the held balance.
#[derive(Clone, Copy, Debug, PartialEq, Eq, Structural)]
pub enum Status {
    FundingPeriod,
    Successful,
    Failed,
}

/// The phase for a given instant: open through the deadline inclusive, then
/// settled by comparing the held funds with the target (equality succeeds).
pub open spec fn status_at(now: u64, deadline: u64, current_funds: u128, target: u128) -> Status {
    if now <= deadline {
        Status::FundingPeriod
    } else if current_funds >= target {
        Status::Successful
    } else {
        Status::Failed
    }
}

/// Computes the phase from the time, the deadline, the held funds and the target.
pub fn derive_status(now: u64, deadline: u64, current_funds: u128, target: u128) -> (r: Status)
    ensures
        r == status_at(now, deadline, current_funds, target),
{
    if now <= deadline {
        Status::FundingPeriod
    } else if current_funds >= target {
        Status::Successful
    } else {
        Status::Failed
    }
}

} // verus!
