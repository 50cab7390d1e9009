use vstd::prelude::*;
use vstd::string::StringExecFns;

use crate::account::AccountId;

verus! {

/// Where an escrow stands in its life.
#[derive(Clone, Copy, Debug, PartialEq, Eq, Structural)]
pub enum State {
    Created,
    Funded,
    Disputed,
    Closed,
}

/// Why a call was refused.
#[derive(Clone, Copy, Debug, PartialEq, Eq, Structural)]
pub enum EscrowError {
    InvalidState,
    IncorrectAmount,
    NotBuyer,
    NotArbiter,
    NoDeadline,
    NotTimedOut,
    TransferFailed,
    LessThanStakingAmount,
}

/// How the amount attached to `stake` is checked against the price.
#[derive(Clone, Copy, Debug, PartialEq, Eq, Structural)]
pub enum FundingPolicy {
    /// The amount must equal the price.
    ExactAmount,
    /// The amount must be at least the price.
    AtLeast,
}

impl FundingPolicy {
    pub open spec fn accepts(self, amount: u128, price: u128) -> bool {
        match self {
            FundingPolicy::ExactAmount => amount == price,
            FundingPolicy::AtLeast => amount >= price,
        }
    }

    /// The error a refused amount is reported with.
    pub open spec fn refusal(self) -> EscrowError {
        match self {
            FundingPolicy::ExactAmount => EscrowError::IncorrectAmount,
            FundingPolicy::AtLeast => EscrowError::LessThanStakingAmount,
        }
    }
}

/// A value transfer out of the escrow's custody.
#[derive(Clone, Copy, Debug, PartialEq, Eq)]
pub struct Payout {
    pub to: AccountId,
    pub amount: u128,
}

/// A call on the escrow, with its explicit arguments.
#[derive(Clone, Copy, Debug, PartialEq, Eq)]
pub enum Call {
    Stake { amount: u128 },
    ConfirmDelivery,
    OpenDispute,
    ResolveDispute { in_favour_seller: bool },
    ClaimTimeout,
}

/// The abstract content of an escrow record.
pub ghost struct EscrowRecord {
    pub seller: AccountId,
    pub arbiter: AccountId,
    pub buyer: Option<AccountId>,
    pub price: u128,
    pub policy: FundingPolicy,
    pub state: State,
    pub dispute_deadline: Option<u64>,
    pub dispute_window: u64,
    pub description: Option<Seq<char>>,
    /// The one transfer out of custody, once it has been made.
    pub payout: Option<Payout>,
}

impl EscrowRecord {
    /// A freshly created record.
    pub open spec fn created(
        seller: AccountId,
        arbiter: AccountId,
        price: u128,
        dispute_window: u64,
        description: Option<Seq<char>>,
        policy: FundingPolicy,
    ) -> EscrowRecord {
        EscrowRecord {
            seller,
            arbiter,
            buyer: None,
            price,
            policy,
            state: State::Created,
            dispute_deadline: None,
            dispute_window,
            description,
            payout: None,
        }
    }

    /// The record's invariant: the buyer is known once funded, a deadline
    /// exists exactly while disputed, and the escrowed price has been paid,
    /// once, to the seller or the buyer exactly when closed.
    pub open spec fn wf(self) -> bool {
        &&& (self.buyer is None <==> self.state == State::Created)
        &&& (self.dispute_deadline is Some <==> self.state == State::Disputed)
        &&& (self.payout is Some <==> self.state == State::Closed)
        &&& (self.payout matches Some(p) ==> p.amount == self.price && (p.to == self.seller
            || self.buyer == Some(p.to)))
    }

    /// The guard of a call: the error it is refused with, or else the
    /// payout it owes, if any.
    pub open spec fn guard(self, call: Call, caller: AccountId, now: u64) -> Result<
        Option<Payout>,
        EscrowError,
    > {
        match call {
            Call::Stake { amount } => {
                if self.state != State::Created {
                    Err(EscrowError::InvalidState)
                } else if !self.policy.accepts(amount, self.price) {
                    Err(self.policy.refusal())
                } else {
                    Ok(None)
                }
            },
            Call::ConfirmDelivery => {
                if self.state != State::Funded {
                    Err(EscrowError::InvalidState)
                } else if self.buyer != Some(caller) {
                    Err(EscrowError::NotBuyer)
                } else {
                    Ok(Some(Payout { to: self.seller, amount: self.price }))
                }
            },
            Call::OpenDispute => {
                if self.state != State::Funded {
                    Err(EscrowError::InvalidState)
                } else if self.buyer != Some(caller) {
                    Err(EscrowError::NotBuyer)
                } else {
                    Ok(None)
                }
            },
            Call::ResolveDispute { in_favour_seller } => {
                if self.state != State::Disputed {
                    Err(EscrowError::InvalidState)
                } else if caller != self.arbiter {
                    Err(EscrowError::NotArbiter)
                } else if in_favour_seller {
                    Ok(Some(Payout { to: self.seller, amount: self.price }))
                } else {
                    Ok(Some(Payout { to: self.buyer.unwrap(), amount: self.price }))
                }
            },
            Call::ClaimTimeout => {
                if self.state != State::Disputed {
                    Err(EscrowError::InvalidState)
                } else {
                    match self.dispute_deadline {
                        None => Err(EscrowError::NoDeadline),
                        Some(deadline) => if now < deadline {
                            Err(EscrowError::NotTimedOut)
                        } else {
                            Ok(Some(Payout { to: self.buyer.unwrap(), amount: self.price }))
                        },
                    }
                }
            },
        }
    }

    /// The record after a call whose guard passed and whose payout, if it
    /// owed one, was made.
    pub open spec fn commit(
        self,
        call: Call,
        caller: AccountId,
        now: u64,
        payout: Option<Payout>,
    ) -> EscrowRecord {
        match call {
            Call::Stake { .. } => EscrowRecord {
                buyer: Some(caller),
                state: State::Funded,
                ..self
            },
            Call::OpenDispute => EscrowRecord {
                dispute_deadline: Some((now + self.dispute_window) as u64),
                state: State::Disputed,
                ..self
            },
            _ => EscrowRecord { state: State::Closed, dispute_deadline: None, payout, ..self },
        }
    }

    /// A whole call: the record after it and its outcome. `transfer_ok` is
    /// what the host's transfer reported for the payout the guard asked for;
    /// a failed transfer leaves the record as it was. Only `OpenDispute` and
    /// `ClaimTimeout` read `now`, and `ClaimTimeout` does not read `caller`.
    pub open spec fn step(self, call: Call, caller: AccountId, now: u64, transfer_ok: bool) -> (
        EscrowRecord,
        Result<(), EscrowError>,
    ) {
        match self.guard(call, caller, now) {
            Err(e) => (self, Err(e)),
            Ok(None) => (self.commit(call, caller, now, None), Ok(())),
            Ok(Some(p)) => if transfer_ok {
                (self.commit(call, caller, now, Some(p)), Ok(()))
            } else {
                (self, Err(EscrowError::TransferFailed))
            },
        }
    }

    /// Whether committing `call` keeps the deadline within `u64`.
    pub open spec fn fits(self, call: Call, now: u64) -> bool {
        call == Call::OpenDispute ==> now + self.dispute_window <= u64::MAX
    }
}

/// One escrow agreement between a seller, a buyer and an arbiter.
pub struct DescrowContract {
    seller: AccountId,
    arbiter: AccountId,
    price: u128,
    policy: FundingPolicy,
    dispute_window: u64,
    description: Option<String>,
    progress: Progress,
}

/// The fields that transitions change, assigned together.
#[derive(Clone, Copy)]
struct Progress {
    state: State,
    buyer: Option<AccountId>,
    dispute_deadline: Option<u64>,
    payout: Option<Payout>,
}

impl View for DescrowContract {
    type V = EscrowRecord;

    closed spec fn view(&self) -> EscrowRecord {
        EscrowRecord {
            seller: self.seller,
            arbiter: self.arbiter,
            buyer: self.progress.buyer,
            price: self.price,
            policy: self.policy,
            state: self.progress.state,
            dispute_deadline: self.progress.dispute_deadline,
            dispute_window: self.dispute_window,
            description: match self.description {
                Some(d) => Some(d@),
                None => None,
            },
            payout: self.progress.payout,
        }
    }
}

impl DescrowContract {
    #[verifier::type_invariant]
    closed spec fn inv(&self) -> bool {
        self@.wf()
    }

    /// Creates an escrow that asks the buyer for exactly `price`.
    pub fn new(
        seller: AccountId,
        arbiter: AccountId,
        price: u128,
        dispute_window: u64,
        description: Option<String>,
    ) -> (r: Self)
        ensures
            r@ == EscrowRecord::created(
                seller,
                arbiter,
                price,
                dispute_window,
                match description {
                    Some(d) => Some(d@),
                    None => None,
                },
                FundingPolicy::ExactAmount,
            ),
            r@.wf(),
    {
        Self::with_policy(seller, arbiter, price, dispute_window, description, FundingPolicy::ExactAmount)
    }

    /// Creates an escrow whose funding check follows `policy`.
    pub fn with_policy(
        seller: AccountId,
        arbiter: AccountId,
        price: u128,
        dispute_window: u64,
        description: Option<String>,
        policy: FundingPolicy,
    ) -> (r: Self)
        ensures
            r@ == EscrowRecord::created(
                seller,
                arbiter,
                price,
                dispute_window,
                match description {
                    Some(d) => Some(d@),
                    None => None,
                },
                policy,
            ),
            r@.wf(),
    {
        DescrowContract {
            seller,
            arbiter,
            price,
            policy,
            dispute_window,
            description,
            progress: Progress { state: State::Created, buyer: None, dispute_deadline: None, payout: None },
        }
    }

    /// Rebuilds a record from fields kept in storage between calls; `None`
    /// where together they break the record's invariant.
    pub fn restore(
        seller: AccountId,
        arbiter: AccountId,
        price: u128,
        policy: FundingPolicy,
        dispute_window: u64,
        description: Option<String>,
        state: State,
        buyer: Option<AccountId>,
        dispute_deadline: Option<u64>,
        payout: Option<Payout>,
    ) -> (r: Option<Self>)
        ensures
            ({
                let record = EscrowRecord {
                    seller,
                    arbiter,
                    buyer,
                    price,
                    policy,
                    state,
                    dispute_deadline,
                    dispute_window,
                    description: match description {
                        Some(d) => Some(d@),
                        None => None,
                    },
                    payout,
                };
                &&& (r is Some <==> record.wf())
                &&& (r matches Some(c) ==> c@ == record)
            }),
    {
        let buyer_ok = buyer.is_none() == (state == State::Created);
        let deadline_ok = dispute_deadline.is_some() == (state == State::Disputed);
        let payout_ok = match payout {
            None => state != State::Closed,
            Some(p) => state == State::Closed && p.amount == price && (p.to.same(&seller)
                || match &buyer {
                Some(b) => b.same(&p.to),
                None => false,
            }),
        };
        if buyer_ok && deadline_ok && payout_ok {
            Some(
                DescrowContract {
                    seller,
                    arbiter,
                    price,
                    policy,
                    dispute_window,
                    description,
                    progress: Progress { state, buyer, dispute_deadline, payout },
                },
            )
        } else {
            None
        }
    }

    fn is_buyer(&self, caller: &AccountId) -> (r: bool)
        ensures
            r == (self@.buyer == Some(*caller)),
    {
        match &self.progress.buyer {
            Some(b) => b.same(caller),
            None => false,
        }
    }

    /// Evaluates the guard of `call`: the error it would be refused with, or
    /// the payout the host must make before it can be committed.
    pub fn check(&self, call: Call, caller: AccountId, now: u64) -> (r: Result<
        Option<Payout>,
        EscrowError,
    >)
        ensures
            r == self@.guard(call, caller, now),
    {
        proof {
            use_type_invariant(self);
        }
        match call {
            Call::Stake { amount } => {
                if self.progress.state != State::Created {
                    return Err(EscrowError::InvalidState);
                }
                match self.policy {
                    FundingPolicy::ExactAmount => {
                        if amount != self.price {
                            return Err(EscrowError::IncorrectAmount);
                        }
                    },
                    FundingPolicy::AtLeast => {
                        if amount < self.price {
                            return Err(EscrowError::LessThanStakingAmount);
                        }
                    },
                }
                Ok(None)
            },
            Call::ConfirmDelivery => {
                if self.progress.state != State::Funded {
                    return Err(EscrowError::InvalidState);
                }
                if !self.is_buyer(&caller) {
                    return Err(EscrowError::NotBuyer);
                }
                Ok(Some(Payout { to: self.seller, amount: self.price }))
            },
            Call::OpenDispute => {
                if self.progress.state != State::Funded {
                    return Err(EscrowError::InvalidState);
                }
                if !self.is_buyer(&caller) {
                    return Err(EscrowError::NotBuyer);
                }
                Ok(None)
            },
            Call::ResolveDispute { in_favour_seller } => {
                if self.progress.state != State::Disputed {
                    return Err(EscrowError::InvalidState);
                }
                if !caller.same(&self.arbiter) {
                    return Err(EscrowError::NotArbiter);
                }
                if in_favour_seller {
                    Ok(Some(Payout { to: self.seller, amount: self.price }))
                } else {
                    Ok(Some(Payout { to: self.progress.buyer.unwrap(), amount: self.price }))
                }
            },
            Call::ClaimTimeout => {
                if self.progress.state != State::Disputed {
                    return Err(EscrowError::InvalidState);
                }
                let deadline = match self.progress.dispute_deadline {
                    Some(d) => d,
                    None => return Err(EscrowError::NoDeadline),
                };
                if now < deadline {
                    return Err(EscrowError::NotTimedOut);
                }
                Ok(Some(Payout { to: self.progress.buyer.unwrap(), amount: self.price }))
            },
        }
    }

    /// Runs `call` to completion: guard, then (if the guard owes one) the
    /// payout whose outcome the host reported as `transfer_ok`, then commit.
    /// Nothing changes unless the call succeeds.
    fn apply(&mut self, call: Call, caller: AccountId, now: u64, transfer_ok: bool) -> (r: Result<
        (),
        EscrowError,
    >)
        requires
            old(self)@.guard(call, caller, now) is Ok ==> old(self)@.fits(call, now),
        ensures
            (final(self)@, r) == old(self)@.step(call, caller, now, transfer_ok),
            final(self)@.wf(),
    {
        proof {
            use_type_invariant(&*self);
        }
        let payout = match self.check(call, caller, now) {
            Err(e) => return Err(e),
            Ok(p) => p,
        };
        if payout.is_some() && !transfer_ok {
            return Err(EscrowError::TransferFailed);
        }
        let p = self.progress;
        self.progress = match call {
            Call::Stake { .. } => Progress { state: State::Funded, buyer: Some(caller), ..p },
            Call::OpenDispute => Progress {
                state: State::Disputed,
                dispute_deadline: Some(now + self.dispute_window),
                ..p
            },
            _ => Progress { state: State::Closed, dispute_deadline: None, payout, ..p },
        };
        proof {
            use_type_invariant(&*self);
        }
        Ok(())
    }

    /// The buyer, `caller`, funds the escrow with `amount` attached to the call.
    pub fn stake(&mut self, caller: AccountId, amount: u128) -> (r: Result<String, EscrowError>)
        ensures
            ({
                let (after, outcome) = old(self)@.step(Call::Stake { amount }, caller, 0, true);
                &&& final(self)@ == after
                &&& (r is Ok <==> outcome is Ok)
                &&& (r matches Err(e) ==> outcome == Err::<(), EscrowError>(e))
                &&& (r matches Ok(m) ==> m@ == "Staked successfully!"@)
            }),
            final(self)@.wf(),
    {
        match self.apply(Call::Stake { amount }, caller, 0, true) {
            Ok(()) => Ok(String::from_str("Staked successfully!")),
            Err(e) => Err(e),
        }
    }

    /// The buyer confirms delivery and the price goes to the seller.
    /// `transfer_ok` is what the host reported for the payout that
    /// `check(Call::ConfirmDelivery, ..)` asked for.
    pub fn confirm_delivery(&mut self, caller: AccountId, transfer_ok: bool) -> (r: Result<
        (),
        EscrowError,
    >)
        ensures
            (final(self)@, r) == old(self)@.step(Call::ConfirmDelivery, caller, 0, transfer_ok),
            final(self)@.wf(),
    {
        self.apply(Call::ConfirmDelivery, caller, 0, transfer_ok)
    }

    /// The buyer opens a dispute at time `now`; the arbiter then has until
    /// `now + dispute_window`.
    pub fn open_dispute(&mut self, caller: AccountId, now: u64) -> (r: Result<(), EscrowError>)
        requires
            old(self)@.guard(Call::OpenDispute, caller, now) is Ok ==> now
                + old(self)@.dispute_window <= u64::MAX,
        ensures
            (final(self)@, r) == old(self)@.step(Call::OpenDispute, caller, now, true),
            final(self)@.wf(),
    {
        self.apply(Call::OpenDispute, caller, now, true)
    }

    /// The arbiter settles a dispute: the price goes to the seller if
    /// `in_favour_seller`, else back to the buyer.
    pub fn resolve_dispute(&mut self, caller: AccountId, in_favour_seller: bool, transfer_ok: bool) -> (r:
        Result<(), EscrowError>)
        ensures
            (final(self)@, r) == old(self)@.step(
                Call::ResolveDispute { in_favour_seller },
                caller,
                0,
                transfer_ok,
            ),
            final(self)@.wf(),
    {
        self.apply(Call::ResolveDispute { in_favour_seller }, caller, 0, transfer_ok)
    }

    /// Anyone refunds the buyer once the dispute deadline has passed at `now`.
    pub fn claim_timeout(&mut self, caller: AccountId, now: u64, transfer_ok: bool) -> (r: Result<
        (),
        EscrowError,
    >)
        ensures
            (final(self)@, r) == old(self)@.step(Call::ClaimTimeout, caller, now, transfer_ok),
            final(self)@.wf(),
    {
        self.apply(Call::ClaimTimeout, caller, now, transfer_ok)
    }

    pub fn get_seller(&self) -> (r: AccountId)
        ensures
            r == self@.seller,
    {
        self.seller
    }

    pub fn get_arbiter(&self) -> (r: AccountId)
        ensures
            r == self@.arbiter,
    {
        self.arbiter
    }

    /// The buyer, once the escrow is funded.
    pub fn get_buyer(&self) -> (r: Option<AccountId>)
        ensures
            r == self@.buyer,
    {
        self.progress.buyer
    }

    pub fn get_price(&self) -> (r: u128)
        ensures
            r == self@.price,
    {
        self.price
    }

    pub fn get_state(&self) -> (r: State)
        ensures
            r == self@.state,
    {
        self.progress.state
    }

    /// The deadline of an open dispute.
    pub fn get_dispute_deadline(&self) -> (r: Option<u64>)
        ensures
            r == self@.dispute_deadline,
    {
        self.progress.dispute_deadline
    }

    pub fn get_dispute_window(&self) -> (r: u64)
        ensures
            r == self@.dispute_window,
    {
        self.dispute_window
    }

    pub fn get_policy(&self) -> (r: FundingPolicy)
        ensures
            r == self@.policy,
    {
        self.policy
    }

    pub fn get_description(&self) -> (r: Option<&String>)
        ensures
            r is None <==> self@.description is None,
            r matches Some(d) ==> self@.description == Some(d@),
    {
        match &self.description {
            Some(d) => Some(d),
            None => None,
        }
    }

    /// The transfer that closed the escrow.
    pub fn get_payout(&self) -> (r: Option<Payout>)
        ensures
            r == self@.payout,
    {
        self.progress.payout
    }
}

} // verus!
