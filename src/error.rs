use vstd::prelude::*;

verus! {

/// Why a call on a campaign was refused. A refused call changes nothing.
#[derive(Clone, Copy, Debug, PartialEq, Eq, Structural)]
pub enum CampaignError {
    /// The target given at initialisation is zero.
    InvalidTarget,
    /// The deadline given at initialisation is not after the current time.
    InvalidDeadline,
    /// The per-wallet cap given is zero.
    InvalidCap,
    /// The caller is not the owner.
    Unauthorized,
    /// Funding was attempted at or after the deadline.
    CampaignClosed,
    /// The contribution would take the caller's total above the per-wallet cap.
    WalletCapExceeded,
    /// A claim was made while the campaign is still open.
    TooEarly,
}

} // verus!
