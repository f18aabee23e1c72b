use soroban_sdk::Address;
use vstd::prelude::*;

verus! {

/// The record of one merchant, stored under `MerchantBook::Merchant`.
#[derive(Clone)]
pub struct MerchantData {
    pub merchant_addr: Address,
    /// Every point the merchant has ever issued; redemptions do not lower it.
    pub total_points_issued: u64,
    pub is_active: bool,
}

/// The record of one user's points, stored under `UserBook::User`.
#[derive(Clone)]
pub struct UserBalance {
    pub user_addr: Address,
    pub points: u64,
}

/// The storage key of a merchant record.
pub enum MerchantBook {
    Merchant(Address),
}

/// The storage key of a balance record.
pub enum UserBook {
    User(Address),
}

impl MerchantBook {
    /// The address that the key names.
    pub open spec fn address(self) -> Address {
        match self {
            MerchantBook::Merchant(who) => who,
        }
    }
}

impl UserBook {
    /// The address that the key names.
    pub open spec fn address(self) -> Address {
        match self {
            UserBook::User(who) => who,
        }
    }
}

} // verus!
