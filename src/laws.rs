use vstd::prelude::*;

use crate::account::AccountId;
use crate::escrow::{Call, EscrowError, EscrowRecord, Payout, State};

verus! {

/// The transition table: whether `state` admits `call` at all.
pub open spec fn enabled(state: State, call: Call) -> bool {
    match call {
        Call::Stake { .. } => state == State::Created,
        Call::ConfirmDelivery => state == State::Funded,
        Call::OpenDispute => state == State::Funded,
        Call::ResolveDispute { .. } => state == State::Disputed,
        Call::ClaimTimeout => state == State::Disputed,
    }
}

/// The state a successful `call` leads to.
pub open spec fn target(call: Call) -> State {
    match call {
        Call::Stake { .. } => State::Funded,
        Call::OpenDispute => State::Disputed,
        _ => State::Closed,
    }
}

/// In every well-formed state only the calls of the transition table are
/// enabled: any other call is refused with `InvalidState` and changes
/// nothing, a call that succeeds moves to the table's target state, and
/// every call keeps the record well-formed.
pub proof fn lemma_only_listed_transitions(
    s: EscrowRecord,
    call: Call,
    caller: AccountId,
    now: u64,
    transfer_ok: bool,
)
    requires
        s.wf(),
        s.guard(call, caller, now) is Ok ==> s.fits(call, now),
    ensures
        !enabled(s.state, call) ==> s.step(call, caller, now, transfer_ok) == (
            s,
            Err::<(), EscrowError>(EscrowError::InvalidState),
        ),
        s.step(call, caller, now, transfer_ok).1 is Ok ==> enabled(s.state, call) && s.step(
            call,
            caller,
            now,
            transfer_ok,
        ).0.state == target(call),
        s.step(call, caller, now, transfer_ok).0.wf(),
{
}

/// A closed escrow is terminal: every call is refused with `InvalidState`
/// and changes nothing.
pub proof fn lemma_closed_is_terminal(
    s: EscrowRecord,
    call: Call,
    caller: AccountId,
    now: u64,
    transfer_ok: bool,
)
    requires
        s.state == State::Closed,
    ensures
        s.step(call, caller, now, transfer_ok) == (s, Err::<(), EscrowError>(EscrowError::InvalidState)),
{
}

/// After `stake`, the state is `Funded` (with the caller as buyer) if it
/// succeeded, and the record is unchanged if it failed.
pub proof fn lemma_stake_outcome(
    s: EscrowRecord,
    caller: AccountId,
    amount: u128,
    now: u64,
    transfer_ok: bool,
)
    ensures
        ({
            let (t, r) = s.step(Call::Stake { amount }, caller, now, transfer_ok);
            &&& r is Ok ==> t.state == State::Funded && t.buyer == Some(caller)
            &&& r is Err ==> t == s
        }),
{
}

/// A confirmed delivery pays the seller exactly the price, and no later call
/// on the closed record pays anything again.
pub proof fn lemma_delivery_pays_seller_once(
    s: EscrowRecord,
    caller: AccountId,
    now: u64,
    transfer_ok: bool,
    later: Call,
    later_caller: AccountId,
    later_now: u64,
    later_transfer_ok: bool,
)
    requires
        s.wf(),
    ensures
        ({
            let (t, r) = s.step(Call::ConfirmDelivery, caller, now, transfer_ok);
            r is Ok ==> {
                &&& t.state == State::Closed
                &&& t.payout == Some(Payout { to: s.seller, amount: s.price })
                &&& t.step(later, later_caller, later_now, later_transfer_ok) == (
                    t,
                    Err::<(), EscrowError>(EscrowError::InvalidState),
                )
            }
        }),
{
    let t = s.step(Call::ConfirmDelivery, caller, now, transfer_ok).0;
    if t.state == State::Closed {
        lemma_closed_is_terminal(t, later, later_caller, later_now, later_transfer_ok);
    }
}

/// Opening a dispute at `now` sets the deadline to `now` plus the window.
pub proof fn lemma_open_dispute_deadline(
    s: EscrowRecord,
    caller: AccountId,
    now: u64,
    transfer_ok: bool,
)
    requires
        s.guard(Call::OpenDispute, caller, now) is Ok ==> now + s.dispute_window <= u64::MAX,
    ensures
        ({
            let (t, r) = s.step(Call::OpenDispute, caller, now, transfer_ok);
            r is Ok ==> {
                &&& t.state == State::Disputed
                &&& t.dispute_deadline matches Some(d) && d == now + s.dispute_window
            }
        }),
{
}

/// A timeout claimed before the deadline fails with `NotTimedOut` and
/// leaves the record disputed and unchanged.
pub proof fn lemma_early_claim_refused(
    s: EscrowRecord,
    caller: AccountId,
    now: u64,
    transfer_ok: bool,
)
    requires
        s.wf(),
        s.state == State::Disputed,
        now < s.dispute_deadline.unwrap(),
    ensures
        s.step(Call::ClaimTimeout, caller, now, transfer_ok) == (
            s,
            Err::<(), EscrowError>(EscrowError::NotTimedOut),
        ),
{
}

/// A timeout claimed at or after the deadline refunds the buyer and closes
/// the escrow; a second claim is refused with `InvalidState`.
pub proof fn lemma_timeout_refunds_buyer(
    s: EscrowRecord,
    caller: AccountId,
    now: u64,
    second_caller: AccountId,
    second_now: u64,
    second_transfer_ok: bool,
)
    requires
        s.wf(),
        s.state == State::Disputed,
        now >= s.dispute_deadline.unwrap(),
    ensures
        ({
            let (t, r) = s.step(Call::ClaimTimeout, caller, now, true);
            &&& r is Ok
            &&& t.state == State::Closed
            &&& t.payout == Some(Payout { to: s.buyer.unwrap(), amount: s.price })
            &&& t.step(Call::ClaimTimeout, second_caller, second_now, second_transfer_ok) == (
                t,
                Err::<(), EscrowError>(EscrowError::InvalidState),
            )
        }),
{
}

} // verus!
