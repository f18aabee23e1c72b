//! The four operations of the ledger, on the instance storage of the running
//! contract. Each reads what it needs, checks everything, and only then
//! writes.
use crate::error::Error;
use crate::host::{
    contract_running, extend_instance_ttl, home_of, host_of, instance_ttl, load_balance,
    load_merchant, load_total, max_ttl, same_address, save_balance, save_merchant, save_total,
};
use crate::laws::{every_call_conserves, every_call_keeps_order};
use crate::model::{reply, stored_ledger, Call};
use crate::records::{MerchantBook, MerchantData, UserBalance, UserBook};
use soroban_sdk::{Address, Env};
use vstd::prelude::*;

verus! {

/// Below this many remaining ledgers the contract instance is kept alive
/// longer after a write.
pub const INSTANCE_TTL_THRESHOLD: u32 = 5000;

/// The number of ledgers the contract instance is kept alive for by then.
pub const INSTANCE_TTL_EXTENSION: u32 = 5000;

/// What an operation asks of an address it is handed: that it was made in
/// the host behind `env`, as every address is that this host gave out.
pub open spec fn at_home(env: Env, address: Address) -> bool {
    home_of(address) == host_of(env)
}

/// What no operation changes: the contract goes on running on the same
/// host, under the same network limit.
pub open spec fn same_surroundings(before: Env, after: Env) -> bool {
    &&& contract_running(after)
    &&& host_of(after) == host_of(before)
    &&& max_ttl(after) == max_ttl(before)
}

/// What an accepted write does for the lifetime of the contract instance:
/// an instance with no more than `INSTANCE_TTL_THRESHOLD` ledgers left gets
/// `INSTANCE_TTL_EXTENSION`, or the network's maximum where that is less;
/// an instance with more left keeps what it has. The lifetime never shrinks.
pub open spec fn lifetime_extended(before: Env, after: Env) -> bool {
    &&& instance_ttl(after) >= instance_ttl(before)
    &&& instance_ttl(before) <= INSTANCE_TTL_THRESHOLD ==> instance_ttl(after)
        >= INSTANCE_TTL_EXTENSION || instance_ttl(after) >= max_ttl(before)
    &&& instance_ttl(before) > INSTANCE_TTL_THRESHOLD ==> instance_ttl(after) == instance_ttl(
        before,
    )
}

/// The loyalty-points ledger of one contract.
pub struct LoyaltyTokenContract;

impl LoyaltyTokenContract {
    /// Registers `merchant`, on the merchant's own call.
    ///
    /// Rejected with `AuthenticationFailed` where `caller` is not `merchant`,
    /// and with `AlreadyRegistered` where a record for `merchant` is stored.
    /// Otherwise an active record that has issued nothing is stored for it.
    pub fn register_merchant(env: &mut Env, caller: &Address, merchant: &Address) -> (outcome:
        Result<(), Error>)
        requires
            contract_running(*old(env)),
            at_home(*old(env), *caller),
            at_home(*old(env), *merchant),
        ensures
            outcome == reply(stored_ledger(*old(env)).register_merchant(*caller, *merchant)),
            stored_ledger(*final(env)) == stored_ledger(*old(env)).after(
                stored_ledger(*old(env)).register_merchant(*caller, *merchant),
            ),
            stored_ledger(*old(env)).conserved() ==> stored_ledger(*final(env)).conserved(),
            stored_ledger(*old(env)).well_kept() ==> stored_ledger(*final(env)).well_kept(),
            same_surroundings(*old(env), *final(env)),
            outcome is Ok ==> lifetime_extended(*old(env), *final(env)),
            outcome is Err ==> instance_ttl(*final(env)) == instance_ttl(*old(env)),
    {
        if !same_address(caller, merchant) {
            return Err(Error::AuthenticationFailed);
        }
        let merchant_key = MerchantBook::Merchant(merchant.clone());
        if load_merchant(env, &merchant_key).is_some() {
            return Err(Error::AlreadyRegistered);
        }
        let merchant_data = MerchantData {
            merchant_addr: merchant.clone(),
            total_points_issued: 0,
            is_active: true,
        };
        save_merchant(env, &merchant_key, &merchant_data);
        extend_instance_ttl(env, INSTANCE_TTL_THRESHOLD, INSTANCE_TTL_EXTENSION);
        proof {
            if stored_ledger(*old(env)).well_kept() {
                every_call_keeps_order(
                    stored_ledger(*old(env)),
                    Call::Register { caller: *caller, merchant: *merchant },
                );
            }
        }
        Ok(())
    }

    /// Issues `points` from `merchant` to `user`, on the merchant's call.
    ///
    /// Rejected with `AuthenticationFailed` where `caller` is not `merchant`,
    /// with `MerchantNotRegistered` or `MerchantInactive` where the merchant
    /// may not do business, and with `Overflow` where the user's points, the
    /// merchant's issued points or the supply would pass `u64::MAX`.
    /// Otherwise all three grow by `points`; a user without a record gets
    /// one. Issuing zero points is accepted.
    pub fn issue_points(
        env: &mut Env,
        caller: &Address,
        merchant: &Address,
        user: &Address,
        points: u64,
    ) -> (outcome: Result<(), Error>)
        requires
            contract_running(*old(env)),
            at_home(*old(env), *caller),
            at_home(*old(env), *merchant),
            at_home(*old(env), *user),
        ensures
            outcome == reply(
                stored_ledger(*old(env)).issue_points(*caller, *merchant, *user, points),
            ),
            stored_ledger(*final(env)) == stored_ledger(*old(env)).after(
                stored_ledger(*old(env)).issue_points(*caller, *merchant, *user, points),
            ),
            stored_ledger(*old(env)).conserved() ==> stored_ledger(*final(env)).conserved(),
            stored_ledger(*old(env)).well_kept() ==> stored_ledger(*final(env)).well_kept(),
            same_surroundings(*old(env), *final(env)),
            outcome is Ok ==> lifetime_extended(*old(env), *final(env)),
            outcome is Err ==> instance_ttl(*final(env)) == instance_ttl(*old(env)),
    {
        if !same_address(caller, merchant) {
            return Err(Error::AuthenticationFailed);
        }
        let merchant_key = MerchantBook::Merchant(merchant.clone());
        let mut merchant_data = match load_merchant(env, &merchant_key) {
            Some(data) => data,
            None => {
                return Err(Error::MerchantNotRegistered);
            },
        };
        if !merchant_data.is_active {
            return Err(Error::MerchantInactive);
        }
        let user_key = UserBook::User(user.clone());
        let mut user_balance = match load_balance(env, &user_key) {
            Some(balance) => balance,
            None => UserBalance { user_addr: user.clone(), points: 0 },
        };
        let total_points: u64 = match load_total(env) {
            Some(total) => total,
            None => 0,
        };
        let new_points = user_balance.points.checked_add(points);
        let new_issued = merchant_data.total_points_issued.checked_add(points);
        let new_total = total_points.checked_add(points);
        match (new_points, new_issued, new_total) {
            (Some(user_points), Some(issued), Some(total)) => {
                user_balance.points = user_points;
                merchant_data.total_points_issued = issued;
                save_balance(env, &user_key, &user_balance);
                save_merchant(env, &merchant_key, &merchant_data);
                save_total(env, total);
                extend_instance_ttl(env, INSTANCE_TTL_THRESHOLD, INSTANCE_TTL_EXTENSION);
                proof {
                    let call = Call::Issue {
                        caller: *caller,
                        merchant: *merchant,
                        user: *user,
                        points,
                    };
                    if stored_ledger(*old(env)).conserved() {
                        every_call_conserves(stored_ledger(*old(env)), call);
                    }
                    if stored_ledger(*old(env)).well_kept() {
                        every_call_keeps_order(stored_ledger(*old(env)), call);
                    }
                }
                Ok(())
            },
            _ => Err(Error::Overflow),
        }
    }

    /// Redeems `points` of `user` at `merchant`, on the user's call. Any
    /// registered, active merchant will do, not only the one that issued
    /// the points.
    ///
    /// Rejected with `AuthenticationFailed` where `caller` is not `user`,
    /// with `MerchantNotRegistered` or `MerchantInactive` where the merchant
    /// may not do business, with `NoBalance` where the user has no record,
    /// with `InsufficientPoints` where the record holds fewer than `points`,
    /// and with `Overflow` where the supply counter does. Otherwise the
    /// user's points and the supply shrink by `points`; what the merchant
    /// has issued stays.
    pub fn redeem_points(
        env: &mut Env,
        caller: &Address,
        user: &Address,
        merchant: &Address,
        points: u64,
    ) -> (outcome: Result<(), Error>)
        requires
            contract_running(*old(env)),
            at_home(*old(env), *caller),
            at_home(*old(env), *user),
            at_home(*old(env), *merchant),
        ensures
            outcome == reply(
                stored_ledger(*old(env)).redeem_points(*caller, *user, *merchant, points),
            ),
            stored_ledger(*final(env)) == stored_ledger(*old(env)).after(
                stored_ledger(*old(env)).redeem_points(*caller, *user, *merchant, points),
            ),
            stored_ledger(*old(env)).conserved() ==> stored_ledger(*final(env)).conserved(),
            stored_ledger(*old(env)).well_kept() ==> stored_ledger(*final(env)).well_kept(),
            same_surroundings(*old(env), *final(env)),
            outcome is Ok ==> lifetime_extended(*old(env), *final(env)),
            outcome is Err ==> instance_ttl(*final(env)) == instance_ttl(*old(env)),
    {
        if !same_address(caller, user) {
            return Err(Error::AuthenticationFailed);
        }
        let merchant_key = MerchantBook::Merchant(merchant.clone());
        let merchant_data = match load_merchant(env, &merchant_key) {
            Some(data) => data,
            None => {
                return Err(Error::MerchantNotRegistered);
            },
        };
        if !merchant_data.is_active {
            return Err(Error::MerchantInactive);
        }
        let user_key = UserBook::User(user.clone());
        let mut user_balance = match load_balance(env, &user_key) {
            Some(balance) => balance,
            None => {
                return Err(Error::NoBalance);
            },
        };
        if user_balance.points < points {
            return Err(Error::InsufficientPoints);
        }
        let total_points: u64 = match load_total(env) {
            Some(total) => total,
            None => 0,
        };
        if total_points < points {
            return Err(Error::Overflow);
        }
        user_balance.points = user_balance.points - points;
        save_balance(env, &user_key, &user_balance);
        save_total(env, total_points - points);
        extend_instance_ttl(env, INSTANCE_TTL_THRESHOLD, INSTANCE_TTL_EXTENSION);
        proof {
            let call = Call::Redeem { caller: *caller, user: *user, merchant: *merchant, points };
            if stored_ledger(*old(env)).conserved() {
                every_call_conserves(stored_ledger(*old(env)), call);
            }
            if stored_ledger(*old(env)).well_kept() {
                every_call_keeps_order(stored_ledger(*old(env)), call);
            }
        }
        Ok(())
    }

    /// The points of `user`; zero for a user without a record. Anyone may
    /// ask, and nothing is stored by asking.
    pub fn view_user_balance(env: &Env, user: &Address) -> (points: u64)
        requires
            contract_running(*env),
            at_home(*env, *user),
        ensures
            points == stored_ledger(*env).points_of(*user),
            !stored_ledger(*env).balances.contains_key(*user) ==> points == 0,
    {
        let user_key = UserBook::User(user.clone());
        match load_balance(env, &user_key) {
            Some(balance) => balance.points,
            None => 0,
        }
    }
}

} // verus!
