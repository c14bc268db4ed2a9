use vstd::prelude::*;

use crate::address::{same_address, Address};
use crate::error::CampaignError;
use crate::status::{derive_status, status_at, Status};

verus! {

/// The abstract state of a campaign: its configuration and its ledger of
/// contributions. An address absent from `deposits` has contributed nothing.
pub ghost struct CampaignState {
    pub target: u128,
    pub deadline: u64,
    pub max_per_wallet: Option<u128>,
    pub deposits: Map<Address, u128>,
}

impl CampaignState {
    /// What `who` has contributed and not been refunded.
    pub open spec fn deposit_of(self, who: Address) -> u128 {
        if self.deposits.contains_key(who) {
            self.deposits[who]
        } else {
            0
        }
    }

    /// The same state with the deposit of `who` set to `amount`.
    pub open spec fn with_deposit(self, who: Address, amount: u128) -> CampaignState {
        CampaignState { deposits: self.deposits.insert(who, amount), ..self }
    }

    /// A state that initialisation and every later call leave behind: a
    /// positive target and, where a cap is set, a positive cap.
    pub open spec fn valid(self) -> bool {
        &&& self.target > 0
        &&& match self.max_per_wallet {
            Some(m) => m > 0,
            None => true,
        }
    }

    /// The phase of this campaign at `now` while the host holds `current_funds`.
    pub open spec fn status(self, now: u64, current_funds: u128) -> Status {
        status_at(now, self.deadline, current_funds, self.target)
    }
}

/// A value transfer that the host is asked to carry out after a claim.
#[derive(Clone, Copy, Debug, PartialEq, Eq)]
pub struct Transfer {
    pub to: Address,
    pub amount: u128,
}

/// Initialisation: the target must be positive and the deadline after `now`.
pub open spec fn init_result(target: u128, deadline: u64, now: u64) -> Result<CampaignState, CampaignError> {
    if target == 0 {
        Err(CampaignError::InvalidTarget)
    } else if deadline <= now {
        Err(CampaignError::InvalidDeadline)
    } else {
        Ok(CampaignState { target, deadline, max_per_wallet: None, deposits: Map::empty() })
    }
}

/// Rebuilding a campaign from stored configuration and the stored deposit of
/// one contributor: the stored target must be positive, a stored cap too.
pub open spec fn restore_result(
    target: u128,
    deadline: u64,
    max_per_wallet: Option<u128>,
    donor: Address,
    amount: u128,
) -> Result<CampaignState, CampaignError> {
    if target == 0 {
        Err(CampaignError::InvalidTarget)
    } else if max_per_wallet == Some(0u128) {
        Err(CampaignError::InvalidCap)
    } else {
        Ok(
            CampaignState {
                target,
                deadline,
                max_per_wallet,
                deposits: Map::empty().insert(donor, amount),
            },
        )
    }
}

/// Setting the per-wallet cap: owner only, positive caps only, last write wins.
pub open spec fn set_cap_result(
    s: CampaignState,
    caller: Address,
    owner: Address,
    max: u128,
) -> Result<CampaignState, CampaignError> {
    if caller != owner {
        Err(CampaignError::Unauthorized)
    } else if max == 0 {
        Err(CampaignError::InvalidCap)
    } else {
        Ok(CampaignState { max_per_wallet: Some(max), ..s })
    }
}

/// Whether adding `payment` to the deposit of `caller` cannot overflow.
pub open spec fn fund_fits(s: CampaignState, caller: Address, payment: u128) -> bool {
    s.deposit_of(caller) + payment <= u128::MAX
}

/// Funding: strictly before the deadline, and within the cap where one is set.
pub open spec fn fund_result(s: CampaignState, caller: Address, payment: u128, now: u64) -> Result<
    CampaignState,
    CampaignError,
> {
    let new_total = s.deposit_of(caller) + payment;
    if now >= s.deadline {
        Err(CampaignError::CampaignClosed)
    } else if s.max_per_wallet.is_some() && new_total > s.max_per_wallet.unwrap() {
        Err(CampaignError::WalletCapExceeded)
    } else {
        Ok(s.with_deposit(caller, new_total as u128))
    }
}

/// Claiming: refused while open; the whole balance to the owner on success;
/// on failure the caller's own deposit back to the caller, cleared first, and
/// nothing at all where that deposit is zero.
pub open spec fn claim_result(
    s: CampaignState,
    caller: Address,
    owner: Address,
    now: u64,
    current_funds: u128,
) -> Result<(CampaignState, Option<Transfer>), CampaignError> {
    match s.status(now, current_funds) {
        Status::FundingPeriod => Err(CampaignError::TooEarly),
        Status::Successful => if caller != owner {
            Err(CampaignError::Unauthorized)
        } else {
            Ok((s, Some(Transfer { to: owner, amount: current_funds })))
        },
        Status::Failed => {
            let d = s.deposit_of(caller);
            if d == 0 {
                Ok((s, None))
            } else {
                Ok((s.with_deposit(caller, 0), Some(Transfer { to: caller, amount: d })))
            }
        },
    }
}

struct DepositEntry {
    donor: Address,
    amount: u128,
}

/// A crowdfunding campaign: its configuration and its ledger, stored as a
/// list of entries with one entry per contributor.
pub struct CrowdfundingSc {
    target: u128,
    deadline: u64,
    max_per_wallet: Option<u128>,
    entries: Vec<DepositEntry>,
    ledger: Ghost<Map<Address, u128>>,
}

impl View for CrowdfundingSc {
    type V = CampaignState;

    closed spec fn view(&self) -> CampaignState {
        CampaignState {
            target: self.target,
            deadline: self.deadline,
            max_per_wallet: self.max_per_wallet,
            deposits: self.ledger@,
        }
    }
}

impl CrowdfundingSc {
    /// The entries list each contributor once and agree with the ledger.
    pub closed spec fn wf(&self) -> bool {
        &&& self@.valid()
        &&& forall|i: int, j: int|
            0 <= i < j < self.entries@.len() ==> #[trigger] self.entries@[i].donor
                != #[trigger] self.entries@[j].donor
        &&& forall|i: int|
            0 <= i < self.entries@.len() ==> {
                &&& self.ledger@.contains_key(#[trigger] self.entries@[i].donor)
                &&& self.ledger@[self.entries@[i].donor] == self.entries@[i].amount
            }
        &&& forall|a: Address|
            #[trigger] self.ledger@.contains_key(a) ==> exists|i: int|
                0 <= i < self.entries@.len() && #[trigger] self.entries@[i].donor == a
    }

    /// Starts a campaign with `target` to reach by `deadline`, given the current time.
    pub fn init(target: u128, deadline: u64, now: u64) -> (r: Result<CrowdfundingSc, CampaignError>)
        ensures
            match r {
                Ok(c) => c.wf() && init_result(target, deadline, now) == Ok::<
                    CampaignState,
                    CampaignError,
                >(c@),
                Err(e) => init_result(target, deadline, now) == Err::<CampaignState, CampaignError>(
                    e,
                ),
            },
    {
        if target == 0 {
            return Err(CampaignError::InvalidTarget);
        }
        if deadline <= now {
            return Err(CampaignError::InvalidDeadline);
        }
        let c = CrowdfundingSc {
            target,
            deadline,
            max_per_wallet: None,
            entries: Vec::new(),
            ledger: Ghost(Map::empty()),
        };
        proof {
            assert(c@ =~= init_result(target, deadline, now).unwrap());
        }
        Ok(c)
    }
    /// Rebuilds a campaign from its stored configuration and the stored
    /// deposit of one contributor, for a host that keeps each contributor's
    /// deposit under a key of its own and loads only the caller's.
    pub fn restore(
        target: u128,
        deadline: u64,
        max_per_wallet: Option<u128>,
        donor: Address,
        amount: u128,
    ) -> (r: Result<CrowdfundingSc, CampaignError>)
        ensures
            match r {
                Ok(c) => c.wf() && restore_result(target, deadline, max_per_wallet, donor, amount)
                    == Ok::<CampaignState, CampaignError>(c@),
                Err(e) => restore_result(target, deadline, max_per_wallet, donor, amount) == Err::<
                    CampaignState,
                    CampaignError,
                >(e),
            },
    {
        if target == 0 {
            return Err(CampaignError::InvalidTarget);
        }
        match max_per_wallet {
            Some(m) => {
                if m == 0 {
                    return Err(CampaignError::InvalidCap);
                }
            },
            None => {},
        }
        let mut entries: Vec<DepositEntry> = Vec::new();
        entries.push(DepositEntry { donor, amount });
        let c = CrowdfundingSc {
            target,
            deadline,
            max_per_wallet,
            entries,
            ledger: Ghost(Map::empty().insert(donor, amount)),
        };
        proof {
            assert(c@ =~= restore_result(target, deadline, max_per_wallet, donor, amount).unwrap());
            assert forall|a: Address| #[trigger] c.ledger@.contains_key(a) implies exists|i: int|
                0 <= i < c.entries@.len() && #[trigger] c.entries@[i].donor == a by {
                assert(c.entries@[0].donor == a);
            }
        }
        Ok(c)
    }

    /// Finds the entry of `who`, if it has one.
    fn position(&self, who: &Address) -> (r: Option<usize>)
        requires
            self.wf(),
        ensures
            match r {
                Some(i) => i < self.entries@.len() && self.entries@[i as int].donor == *who,
                None => !self@.deposits.contains_key(*who),
            },
    {
        let mut i: usize = 0;
        while i < self.entries.len()
            invariant
                0 <= i <= self.entries@.len(),
                forall|j: int| 0 <= j < i ==> self.entries@[j].donor != *who,
            decreases self.entries@.len() - i,
        {
            if same_address(&self.entries[i].donor, who) {
                return Some(i);
            }
            i = i + 1;
        }
        None
    }

    /// The deposit recorded for `who`, zero where there is none.
    fn lookup(&self, who: &Address) -> (r: (Option<usize>, u128))
        requires
            self.wf(),
        ensures
            r.1 == self@.deposit_of(*who),
            match r.0 {
                Some(i) => i < self.entries@.len() && self.entries@[i as int].donor == *who,
                None => !self@.deposits.contains_key(*who),
            },
    {
        let idx = self.position(who);
        match idx {
            Some(i) => (idx, self.entries[i].amount),
            None => (idx, 0),
        }
    }

    /// Records `amount` as the deposit of `who`, in place where `who` already
    /// has an entry at `idx`, as a new entry otherwise.
    fn store(&mut self, idx: Option<usize>, who: Address, amount: u128)
        requires
            old(self).wf(),
            match idx {
                Some(i) => i < old(self).entries@.len() && old(self).entries@[i as int].donor == who,
                None => !old(self)@.deposits.contains_key(who),
            },
        ensures
            final(self).wf(),
            final(self)@ == old(self)@.with_deposit(who, amount),
    {
        let ghost old_entries = self.entries@;
        match idx {
            Some(i) => {
                self.entries.set(i, DepositEntry { donor: who, amount });
            },
            None => {
                self.entries.push(DepositEntry { donor: who, amount });
            },
        }
        self.ledger = Ghost(self.ledger@.insert(who, amount));
        proof {
            assert forall|a: Address| #[trigger] self.ledger@.contains_key(a) implies exists|i: int|
                0 <= i < self.entries@.len() && #[trigger] self.entries@[i].donor == a by {
                if a == who {
                    match idx {
                        Some(i) => assert(self.entries@[i as int].donor == a),
                        None => assert(self.entries@[old_entries.len() as int].donor == a),
                    }
                } else {
                    assert(old(self).ledger@.contains_key(a));
                    let k = choose|k: int|
                        0 <= k < old_entries.len() && #[trigger] old_entries[k].donor == a;
                    assert(self.entries@[k].donor == a);
                }
            }
        }
    }

    /// Sets the per-wallet cap. Only `owner` may do so, and only to a positive cap.
    pub fn set_max_per_wallet(&mut self, caller: Address, owner: Address, max: u128) -> (r: Result<
        (),
        CampaignError,
    >)
        requires
            old(self).wf(),
        ensures
            final(self).wf(),
            match r {
                Ok(()) => set_cap_result(old(self)@, caller, owner, max) == Ok::<
                    CampaignState,
                    CampaignError,
                >(final(self)@),
                Err(e) => set_cap_result(old(self)@, caller, owner, max) == Err::<
                    CampaignState,
                    CampaignError,
                >(e) && final(self)@ == old(self)@,
            },
    {
        if !same_address(&caller, &owner) {
            return Err(CampaignError::Unauthorized);
        }
        if max == 0 {
            return Err(CampaignError::InvalidCap);
        }
        self.max_per_wallet = Some(max);
        Ok(())
    }

    /// Records a contribution of `payment` by `caller` at time `now`.
    pub fn fund(&mut self, caller: Address, payment: u128, now: u64) -> (r: Result<(), CampaignError>)
        requires
            old(self).wf(),
            fund_fits(old(self)@, caller, payment),
        ensures
            final(self).wf(),
            match r {
                Ok(()) => fund_result(old(self)@, caller, payment, now) == Ok::<
                    CampaignState,
                    CampaignError,
                >(final(self)@),
                Err(e) => fund_result(old(self)@, caller, payment, now) == Err::<
                    CampaignState,
                    CampaignError,
                >(e) && final(self)@ == old(self)@,
            },
    {
        if now >= self.deadline {
            return Err(CampaignError::CampaignClosed);
        }
        let (idx, deposited) = self.lookup(&caller);
        let new_total = deposited + payment;
        match self.max_per_wallet {
            Some(max) => {
                if new_total > max {
                    return Err(CampaignError::WalletCapExceeded);
                }
            },
            None => {},
        }
        self.store(idx, caller, new_total);
        Ok(())
    }

    /// The phase at `now` while the host holds `current_funds`.
    pub fn status(&self, now: u64, current_funds: u128) -> (r: Status)
        ensures
            r == self@.status(now, current_funds),
    {
        derive_status(now, self.deadline, current_funds, self.target)
    }

    /// Settles the campaign for `caller` at `now`, while the host holds
    /// `current_funds`. The transfer returned, if any, is for the host to make;
    /// the caller's deposit is already cleared when it is a refund.
    pub fn claim(&mut self, caller: Address, owner: Address, now: u64, current_funds: u128) -> (r:
        Result<Option<Transfer>, CampaignError>)
        requires
            old(self).wf(),
        ensures
            final(self).wf(),
            match r {
                Ok(t) => claim_result(old(self)@, caller, owner, now, current_funds) == Ok::<
                    (CampaignState, Option<Transfer>),
                    CampaignError,
                >((final(self)@, t)),
                Err(e) => claim_result(old(self)@, caller, owner, now, current_funds) == Err::<
                    (CampaignState, Option<Transfer>),
                    CampaignError,
                >(e) && final(self)@ == old(self)@,
            },
    {
        match self.status(now, current_funds) {
            Status::FundingPeriod => Err(CampaignError::TooEarly),
            Status::Successful => {
                if !same_address(&caller, &owner) {
                    return Err(CampaignError::Unauthorized);
                }
                Ok(Some(Transfer { to: caller, amount: current_funds }))
            },
            Status::Failed => {
                let (idx, deposit) = self.lookup(&caller);
                if deposit > 0 {
                    self.store(idx, caller, 0);
                    Ok(Some(Transfer { to: caller, amount: deposit }))
                } else {
                    Ok(None)
                }
            },
        }
    }

    /// The target amount.
    pub fn target(&self) -> (r: u128)
        ensures
            r == self@.target,
    {
        self.target
    }

    /// The deadline.
    pub fn deadline(&self) -> (r: u64)
        ensures
            r == self@.deadline,
    {
        self.deadline
    }

    /// The per-wallet cap, if one has been set.
    pub fn max_per_wallet(&self) -> (r: Option<u128>)
        ensures
            r == self@.max_per_wallet,
    {
        self.max_per_wallet
    }

    /// What `donor` has contributed and not been refunded.
    pub fn deposit(&self, donor: &Address) -> (r: u128)
        requires
            self.wf(),
        ensures
            r == self@.deposit_of(*donor),
    {
        self.lookup(donor).1
    }
}

} // verus!
