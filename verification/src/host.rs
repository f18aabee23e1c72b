//! The boundary to the Soroban host. Nothing in this file is proved: each
//! item states what the SDK does, and the rest of the crate is verified
//! against these statements.
//!
//! The ledger lives in the instance storage of the running contract, under
//! three kinds of key. `("Merchant", address)` holds a merchant record as a
//! map with the entries `merchant_addr`, `total_points_issued` and
//! `is_active`; `("User", address)` holds a balance record as a map with the
//! entries `user_addr` and `points`; `T_POINTS` holds the supply counter as
//! a `u64`.
//!
//! A function that writes takes the `Env` by `&mut`, although the SDK writes
//! through a shared handle: in specifications the value of an `Env` stands
//! for the host behind it, so whoever relies on what was proved of an `Env`
//! must not write to the same storage through a clone of it meanwhile.
//!
//! The storage is that of a running contract, so every function here asks
//! for one, and for addresses that were made in the same host. A host whose
//! budget is spent traps like a machine that is out of memory: the
//! invocation ends there and the host drops what it has written.
use crate::records::{MerchantBook, MerchantData, UserBalance, UserBook};
use soroban_sdk::{Address, Env, IntoVal, Map as HostMap, Symbol, TryFromVal, Val};
use vstd::prelude::*;

verus! {

/// `soroban_sdk::Env`, the handle through which a contract reaches the host.
/// In specifications its value stands for the state of the host behind it.
#[verifier::external_type_specification]
#[verifier::external_body]
pub struct ExEnv(soroban_sdk::Env);

/// `soroban_sdk::Address`, an opaque account or contract identifier, tied to
/// the host it was made in. Two values are equal in specifications when they
/// name the same account or contract in the same host.
#[verifier::external_type_specification]
#[verifier::external_body]
pub struct ExAddress(soroban_sdk::Address);

/// Whether a contract is running on the host behind `env`. Only then is
/// there an instance storage to reach.
pub uninterp spec fn contract_running(env: Env) -> bool;

/// Which host stands behind `env`.
pub uninterp spec fn host_of(env: Env) -> int;

/// Which host `address` was made in. An address means something to that
/// host only.
pub uninterp spec fn home_of(address: Address) -> int;

/// The merchant records in the instance storage of the running contract, by
/// the address in their key.
pub uninterp spec fn stored_merchants(env: Env) -> Map<Address, MerchantData>;

/// The balance records in the instance storage of the running contract, by
/// the address in their key.
pub uninterp spec fn stored_balances(env: Env) -> Map<Address, UserBalance>;

/// The supply counter in the instance storage of the running contract, if
/// one is stored.
pub uninterp spec fn stored_total(env: Env) -> Option<u64>;

/// The number of ledgers that the instance of the running contract has left
/// to live, not counting the current one.
pub uninterp spec fn instance_ttl(env: Env) -> u32;

/// The longest lifetime that the network grants an entry, in ledgers from
/// the current one.
pub uninterp spec fn max_ttl(env: Env) -> u32;

/// `Instance::get` under the key `("Merchant", address)`: the record stored
/// there, or `None` where the key is absent or what it holds is no map with
/// an address, a `u64` and a `bool` under the three field names. The address
/// in the record belongs to this host. The storage is left as it was.
#[verifier::external_body]
pub(crate) fn load_merchant(env: &Env, key: &MerchantBook) -> (found: Option<MerchantData>)
    requires
        contract_running(*env),
        home_of(key.address()) == host_of(*env),
    ensures
        found == (if stored_merchants(*env).contains_key(key.address()) {
            Some(stored_merchants(*env)[key.address()])
        } else {
            None
        }),
        found matches Some(data) ==> home_of(data.merchant_addr) == host_of(*env),
{
    let MerchantBook::Merchant(who) = key;
    let raw: Val = env.storage().instance().get(&(Symbol::new(env, "Merchant"), who.clone()))?;
    let fields = HostMap::<Symbol, Val>::try_from_val(env, &raw).ok()?;
    let addr = Address::try_from_val(env, &fields.get(Symbol::new(env, "merchant_addr"))?).ok()?;
    let sum = u64::try_from_val(env, &fields.get(Symbol::new(env, "total_points_issued"))?).ok()?;
    let active = bool::try_from_val(env, &fields.get(Symbol::new(env, "is_active"))?).ok()?;
    Some(MerchantData { merchant_addr: addr, total_points_issued: sum, is_active: active })
}

/// `Instance::get` under the key `("User", address)`: the record stored
/// there, or `None` where the key is absent or what it holds is no map with
/// an address and a `u64` under the two field names. The address in the
/// record belongs to this host. The storage is left as it was.
#[verifier::external_body]
pub(crate) fn load_balance(env: &Env, key: &UserBook) -> (found: Option<UserBalance>)
    requires
        contract_running(*env),
        home_of(key.address()) == host_of(*env),
    ensures
        found == (if stored_balances(*env).contains_key(key.address()) {
            Some(stored_balances(*env)[key.address()])
        } else {
            None
        }),
        found matches Some(data) ==> home_of(data.user_addr) == host_of(*env),
{
    let UserBook::User(who) = key;
    let raw: Val = env.storage().instance().get(&(Symbol::new(env, "User"), who.clone()))?;
    let fields = HostMap::<Symbol, Val>::try_from_val(env, &raw).ok()?;
    let addr = Address::try_from_val(env, &fields.get(Symbol::new(env, "user_addr"))?).ok()?;
    let points = u64::try_from_val(env, &fields.get(Symbol::new(env, "points"))?).ok()?;
    Some(UserBalance { user_addr: addr, points })
}

/// `Instance::get` under the key `T_POINTS`: the counter stored there, or
/// `None` where the key is absent or holds no unsigned 64-bit integer. The
/// storage is left as it was.
#[verifier::external_body]
pub(crate) fn load_total(env: &Env) -> (found: Option<u64>)
    requires
        contract_running(*env),
    ensures
        found == stored_total(*env),
{
    let raw: Val = env.storage().instance().get(&Symbol::new(env, "T_POINTS"))?;
    u64::try_from_val(env, &raw).ok()
}

/// `Instance::set` under the key `("Merchant", address)`: afterwards the key
/// holds `data`, as a map by field name, and every other entry of the
/// storage is what it was. The contract goes on running, and the lifetime
/// of its instance is not touched.
#[verifier::external_body]
pub(crate) fn save_merchant(env: &mut Env, key: &MerchantBook, data: &MerchantData)
    requires
        contract_running(*old(env)),
        home_of(key.address()) == host_of(*old(env)),
        home_of(data.merchant_addr) == host_of(*old(env)),
    ensures
        stored_merchants(*final(env)) == stored_merchants(*old(env)).insert(key.address(), *data),
        stored_balances(*final(env)) == stored_balances(*old(env)),
        stored_total(*final(env)) == stored_total(*old(env)),
        contract_running(*final(env)),
        host_of(*final(env)) == host_of(*old(env)),
        instance_ttl(*final(env)) == instance_ttl(*old(env)),
        max_ttl(*final(env)) == max_ttl(*old(env)),
{
    let MerchantBook::Merchant(who) = key;
    let mut fields: HostMap<Symbol, Val> = HostMap::new(env);
    fields.set(Symbol::new(env, "merchant_addr"), data.merchant_addr.into_val(env));
    fields.set(Symbol::new(env, "total_points_issued"), data.total_points_issued.into_val(env));
    fields.set(Symbol::new(env, "is_active"), data.is_active.into_val(env));
    env.storage().instance().set(&(Symbol::new(env, "Merchant"), who.clone()), &fields);
}

/// `Instance::set` under the key `("User", address)`: afterwards the key
/// holds `data`, as a map by field name, and every other entry of the
/// storage is what it was. The contract goes on running, and the lifetime
/// of its instance is not touched.
#[verifier::external_body]
pub(crate) fn save_balance(env: &mut Env, key: &UserBook, data: &UserBalance)
    requires
        contract_running(*old(env)),
        home_of(key.address()) == host_of(*old(env)),
        home_of(data.user_addr) == host_of(*old(env)),
    ensures
        stored_balances(*final(env)) == stored_balances(*old(env)).insert(key.address(), *data),
        stored_merchants(*final(env)) == stored_merchants(*old(env)),
        stored_total(*final(env)) == stored_total(*old(env)),
        contract_running(*final(env)),
        host_of(*final(env)) == host_of(*old(env)),
        instance_ttl(*final(env)) == instance_ttl(*old(env)),
        max_ttl(*final(env)) == max_ttl(*old(env)),
{
    let UserBook::User(who) = key;
    let mut fields: HostMap<Symbol, Val> = HostMap::new(env);
    fields.set(Symbol::new(env, "user_addr"), data.user_addr.into_val(env));
    fields.set(Symbol::new(env, "points"), data.points.into_val(env));
    env.storage().instance().set(&(Symbol::new(env, "User"), who.clone()), &fields);
}

/// `Instance::set` under the key `T_POINTS`: afterwards the key holds
/// `total`, and every other entry of the storage is what it was. The
/// contract goes on running, and the lifetime of its instance is not
/// touched.
#[verifier::external_body]
pub(crate) fn save_total(env: &mut Env, total: u64)
    requires
        contract_running(*old(env)),
    ensures
        stored_total(*final(env)) == Some(total),
        stored_merchants(*final(env)) == stored_merchants(*old(env)),
        stored_balances(*final(env)) == stored_balances(*old(env)),
        contract_running(*final(env)),
        host_of(*final(env)) == host_of(*old(env)),
        instance_ttl(*final(env)) == instance_ttl(*old(env)),
        max_ttl(*final(env)) == max_ttl(*old(env)),
{
    env.storage().instance().set(&Symbol::new(env, "T_POINTS"), &total);
}

/// `Instance::extend_ttl`: where the contract instance has at most
/// `threshold` ledgers left to live, the host raises that to `extend_to`
/// ledgers or to the network's maximum, whichever is less, and never lowers
/// it; where it has more left, nothing happens. The host rejects a threshold
/// above `extend_to`. No entry of the storage changes.
#[verifier::external_body]
pub(crate) fn extend_instance_ttl(env: &mut Env, threshold: u32, extend_to: u32)
    requires
        contract_running(*old(env)),
        threshold <= extend_to,
    ensures
        instance_ttl(*final(env)) >= instance_ttl(*old(env)),
        instance_ttl(*old(env)) <= threshold ==> instance_ttl(*final(env)) >= extend_to
            || instance_ttl(*final(env)) >= max_ttl(*old(env)),
        instance_ttl(*old(env)) > threshold ==> instance_ttl(*final(env)) == instance_ttl(
            *old(env),
        ),
        max_ttl(*final(env)) == max_ttl(*old(env)),
        stored_merchants(*final(env)) == stored_merchants(*old(env)),
        stored_balances(*final(env)) == stored_balances(*old(env)),
        stored_total(*final(env)) == stored_total(*old(env)),
        contract_running(*final(env)),
        host_of(*final(env)) == host_of(*old(env)),
{
    env.storage().instance().extend_ttl(threshold, extend_to);
}

/// `Address::eq`, for two addresses of one host: whether they name the same
/// account or contract.
#[verifier::external_body]
pub(crate) fn same_address(a: &Address, b: &Address) -> (same: bool)
    requires
        home_of(*a) == home_of(*b),
    ensures
        same == (*a == *b),
{
    a == b
}

/// `Address::clone`: a second value that names the same account or contract
/// in the same host.
pub assume_specification[ <soroban_sdk::Address as Clone>::clone ](a: &Address) -> (copy: Address)
    ensures
        copy == *a,
;

} // verus!
