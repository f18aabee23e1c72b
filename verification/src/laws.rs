//! The laws of the ledger, proved of the operations as `model` defines them
//! and so of every contract whose storage the executable operations keep.
use crate::error::Error;
use crate::model::{sum_of_points, Call, LedgerState};
use crate::records::UserBalance;
use soroban_sdk::Address;
use vstd::prelude::*;

verus! {

/// The sum of all points is the points of any one record plus the sum of the
/// others.
proof fn lemma_sum_split(balances: Map<Address, UserBalance>, who: Address)
    requires
        balances.dom().finite(),
        balances.contains_key(who),
    ensures
        sum_of_points(balances) == balances[who].points + sum_of_points(balances.remove(who)),
    decreases balances.dom().len(),
{
    let first = balances.dom().choose();
    if first != who {
        let without_first = balances.remove(first);
        let without_who = balances.remove(who);
        lemma_sum_split(without_first, who);
        lemma_sum_split(without_who, first);
        assert(without_first.remove(who) =~= without_who.remove(first));
    }
}

/// Storing a record changes the sum by the difference between the new points
/// and the points that were stored for the address before, if any.
proof fn lemma_sum_insert(balances: Map<Address, UserBalance>, who: Address, record: UserBalance)
    requires
        balances.dom().finite(),
    ensures
        balances.insert(who, record).dom().finite(),
        sum_of_points(balances.insert(who, record)) + (if balances.contains_key(who) {
            balances[who].points as nat
        } else {
            0
        }) == sum_of_points(balances) + record.points,
{
    let stored = balances.insert(who, record);
    lemma_sum_split(stored, who);
    assert(stored.remove(who) =~= balances.remove(who));
    if balances.contains_key(who) {
        lemma_sum_split(balances, who);
    } else {
        assert(balances.remove(who) =~= balances);
    }
}

/// Nothing stored is conserved: no points, no supply.
pub proof fn empty_ledger_is_conserved()
    ensures
        LedgerState::empty().conserved(),
{
}

/// Conservation, one call at a time: if the supply equals the sum of all
/// balances before a call, it does after it, whether the call was accepted
/// or rejected.
pub proof fn every_call_conserves(ledger: LedgerState, call: Call)
    requires
        ledger.conserved(),
    ensures
        ledger.after(ledger.step(call)).conserved(),
{
    match call {
        Call::Register { caller, merchant } => {},
        Call::Issue { caller, merchant, user, points } => {
            if let Ok(next) = ledger.issue_points(caller, merchant, user, points) {
                lemma_sum_insert(ledger.balances, user, next.balances[user]);
            }
        },
        Call::Redeem { caller, user, merchant, points } => {
            if let Ok(next) = ledger.redeem_points(caller, user, merchant, points) {
                lemma_sum_insert(ledger.balances, user, next.balances[user]);
            }
        },
    }
}

/// Conservation, over any history: starting from a ledger whose supply
/// equals the sum of all balances, it does so after each call of any
/// sequence of calls.
pub proof fn every_history_conserves(ledger: LedgerState, calls: Seq<Call>, made: int)
    requires
        ledger.conserved(),
        0 <= made <= calls.len(),
    ensures
        ledger.replay(calls.take(made)).conserved(),
    decreases made,
{
    let history = calls.take(made);
    if made > 0 {
        every_history_conserves(ledger, calls, made - 1);
        assert(history.drop_last() =~= calls.take(made - 1));
        every_call_conserves(ledger.replay(history.drop_last()), history.last());
    }
}

/// Nothing stored is well kept.
pub proof fn empty_ledger_is_well_kept()
    ensures
        LedgerState::empty().well_kept(),
{
}

/// The operations keep the records in order: if every record is stored under
/// the address it names and every merchant is active before a call, the same
/// holds after it.
pub proof fn every_call_keeps_order(ledger: LedgerState, call: Call)
    requires
        ledger.well_kept(),
    ensures
        ledger.after(ledger.step(call)).well_kept(),
{
}

/// The records stay in order over any history of calls.
pub proof fn every_history_keeps_order(ledger: LedgerState, calls: Seq<Call>, made: int)
    requires
        ledger.well_kept(),
        0 <= made <= calls.len(),
    ensures
        ledger.replay(calls.take(made)).well_kept(),
    decreases made,
{
    let history = calls.take(made);
    if made > 0 {
        every_history_keeps_order(ledger, calls, made - 1);
        assert(history.drop_last() =~= calls.take(made - 1));
        every_call_keeps_order(ledger.replay(history.drop_last()), history.last());
    }
}

/// No operation deactivates a merchant, so in a well-kept ledger no call is
/// rejected with `MerchantInactive`.
pub proof fn no_call_meets_an_inactive_merchant(ledger: LedgerState, call: Call)
    requires
        ledger.well_kept(),
    ensures
        ledger.step(call) != Err::<LedgerState, Error>(Error::MerchantInactive),
{
}

/// No double registration: once a merchant has registered, its next attempt
/// is rejected with `AlreadyRegistered` and leaves every record as it is.
pub proof fn second_registration_is_rejected(ledger: LedgerState, merchant: Address)
    requires
        ledger.register_merchant(merchant, merchant) is Ok,
    ensures
        ({
            let registered = ledger.after(ledger.register_merchant(merchant, merchant));
            &&& registered.register_merchant(merchant, merchant) == Err::<LedgerState, Error>(
                Error::AlreadyRegistered,
            )
            &&& registered.after(registered.register_merchant(merchant, merchant)) == registered
        }),
{
}

/// A registration lasts: a stored merchant record is still stored after any
/// call, and only the merchant's own issues change it, by raising what it
/// has issued.
pub proof fn merchant_record_outlives_calls(ledger: LedgerState, merchant: Address, call: Call)
    requires
        ledger.merchants.contains_key(merchant),
    ensures
        ({
            let next = ledger.after(ledger.step(call));
            &&& next.merchants.contains_key(merchant)
            &&& next.merchants[merchant].merchant_addr == ledger.merchants[merchant].merchant_addr
            &&& next.merchants[merchant].is_active == ledger.merchants[merchant].is_active
            &&& next.merchants[merchant].total_points_issued
                >= ledger.merchants[merchant].total_points_issued
            &&& !(call matches Call::Issue { merchant: issuer, .. } && issuer == merchant)
                ==> next.merchants[merchant] == ledger.merchants[merchant]
        }),
{
}

/// Balance floor: an accepted redemption takes exactly `points` from a
/// balance that held at least as many, and from the supply; it changes no
/// other balance and no merchant record.
pub proof fn redemption_never_overdraws(
    ledger: LedgerState,
    caller: Address,
    user: Address,
    merchant: Address,
    points: u64,
)
    requires
        ledger.redeem_points(caller, user, merchant, points) is Ok,
    ensures
        ({
            let next = ledger.redeem_points(caller, user, merchant, points)->Ok_0;
            &&& points <= ledger.points_of(user)
            &&& next.points_of(user) == ledger.points_of(user) - points
            &&& next.supply() == ledger.supply() - points
            &&& next.merchants == ledger.merchants
            &&& forall|other: Address|
                other != user ==> next.balances.contains_key(other)
                    == ledger.balances.contains_key(other) && next.points_of(other)
                    == ledger.points_of(other)
        }),
{
}

/// Balance floor: where the user itself asks a merchant in good standing for
/// more points than its record holds, the redemption is rejected with
/// `InsufficientPoints` and the ledger stays as it is.
pub proof fn redeeming_too_much_is_rejected(
    ledger: LedgerState,
    user: Address,
    merchant: Address,
    points: u64,
)
    requires
        ledger.merchant_refusal(merchant) is None,
        ledger.balances.contains_key(user),
        points > ledger.balances[user].points,
    ensures
        ledger.redeem_points(user, user, merchant, points) == Err::<LedgerState, Error>(
            Error::InsufficientPoints,
        ),
        ledger.after(ledger.redeem_points(user, user, merchant, points)) == ledger,
{
}

/// In a conserved ledger the supply covers every balance, so no redemption
/// is rejected on account of the supply counter.
pub proof fn conserved_supply_covers_redemptions(
    ledger: LedgerState,
    caller: Address,
    user: Address,
    merchant: Address,
    points: u64,
)
    requires
        ledger.conserved(),
    ensures
        ledger.points_of(user) <= ledger.supply(),
        ledger.redeem_points(caller, user, merchant, points) != Err::<LedgerState, Error>(
            Error::Overflow,
        ),
{
    if ledger.balances.contains_key(user) {
        lemma_sum_split(ledger.balances, user);
    }
}

/// A merchant that is not registered is turned away in the same way by both
/// operations that name one: an issue on its own call and a redemption on
/// the user's call are rejected with `MerchantNotRegistered`, whatever the
/// amounts, and the ledger stays as it is.
pub proof fn unregistered_merchant_is_rejected_alike(
    ledger: LedgerState,
    merchant: Address,
    user: Address,
    issued: u64,
    redeemed: u64,
)
    requires
        !ledger.merchants.contains_key(merchant),
    ensures
        ledger.issue_points(merchant, merchant, user, issued) == Err::<LedgerState, Error>(
            Error::MerchantNotRegistered,
        ),
        ledger.redeem_points(user, user, merchant, redeemed) == Err::<LedgerState, Error>(
            Error::MerchantNotRegistered,
        ),
        ledger.after(ledger.issue_points(merchant, merchant, user, issued)) == ledger,
        ledger.after(ledger.redeem_points(user, user, merchant, redeemed)) == ledger,
{
}

/// A user that no call has given a record has no points.
pub proof fn unknown_user_has_no_points(ledger: LedgerState, user: Address)
    requires
        !ledger.balances.contains_key(user),
    ensures
        ledger.points_of(user) == 0,
{
}

} // verus!
