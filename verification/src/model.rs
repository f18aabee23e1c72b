//! The ledger as a mathematical value, and each operation as a function from
//! one ledger to the next. The executable operations are specified by these
//! functions, and the laws of the ledger are proved about them.
use crate::error::Error;
use crate::host::{stored_balances, stored_merchants, stored_total};
use crate::records::{MerchantData, UserBalance};
use soroban_sdk::{Address, Env};
use vstd::prelude::*;

verus! {

/// Everything the ledger stores.
pub struct LedgerState {
    /// The merchant records, by merchant address.
    pub merchants: Map<Address, MerchantData>,
    /// The balance records, by user address.
    pub balances: Map<Address, UserBalance>,
    /// The supply counter; `None` until the first points are issued.
    pub total: Option<u64>,
}

/// The ledger that the running contract's instance storage holds.
pub open spec fn stored_ledger(env: Env) -> LedgerState {
    LedgerState {
        merchants: stored_merchants(env),
        balances: stored_balances(env),
        total: stored_total(env),
    }
}

/// One call of a writing operation, with its arguments.
pub enum Call {
    Register { caller: Address, merchant: Address },
    Issue { caller: Address, merchant: Address, user: Address, points: u64 },
    Redeem { caller: Address, user: Address, merchant: Address, points: u64 },
}

/// What the caller of an operation is told: nothing on success, the reason
/// on rejection.
pub open spec fn reply(step: Result<LedgerState, Error>) -> Result<(), Error> {
    match step {
        Ok(_) => Ok(()),
        Err(reason) => Err(reason),
    }
}

/// The sum of the points of all balance records. It is defined for finitely
/// many records.
pub open spec fn sum_of_points(balances: Map<Address, UserBalance>) -> nat
    decreases balances.dom().len(),
    when balances.dom().finite()
{
    if balances.dom().len() == 0 {
        0
    } else {
        let who = balances.dom().choose();
        balances[who].points as nat + sum_of_points(balances.remove(who))
    }
}

impl LedgerState {
    /// The ledger before anything was stored.
    pub open spec fn empty() -> LedgerState {
        LedgerState { merchants: Map::empty(), balances: Map::empty(), total: None }
    }

    /// The points in circulation: the supply counter, or zero while none is
    /// stored.
    pub open spec fn supply(self) -> u64 {
        match self.total {
            Some(total) => total,
            None => 0,
        }
    }

    /// The points of `user`: those of the balance record, or zero where the
    /// user has none.
    pub open spec fn points_of(self, user: Address) -> u64 {
        if self.balances.contains_key(user) {
            self.balances[user].points
        } else {
            0
        }
    }

    /// The balance record that an issue or a redemption starts from: the
    /// stored one, or a fresh record without points.
    pub open spec fn balance_or_default(self, user: Address) -> UserBalance {
        if self.balances.contains_key(user) {
            self.balances[user]
        } else {
            UserBalance { user_addr: user, points: 0 }
        }
    }

    /// The conservation invariant: finitely many balance records, whose
    /// points add up to the supply.
    pub open spec fn conserved(self) -> bool {
        &&& self.balances.dom().finite()
        &&& self.supply() == sum_of_points(self.balances)
    }

    /// The order that the operations keep the records in: every record is
    /// stored under the address it names, and every merchant is active.
    pub open spec fn well_kept(self) -> bool {
        &&& forall|merchant: Address| #[trigger]
            self.merchants.contains_key(merchant) ==> {
                &&& self.merchants[merchant].merchant_addr == merchant
                &&& self.merchants[merchant].is_active
            }
        &&& forall|user: Address| #[trigger]
            self.balances.contains_key(user) ==> self.balances[user].user_addr == user
    }

    /// Why a call that names `merchant` as the place of business is rejected
    /// before any amount is looked at, if it is.
    pub open spec fn merchant_refusal(self, merchant: Address) -> Option<Error> {
        if !self.merchants.contains_key(merchant) {
            Some(Error::MerchantNotRegistered)
        } else if !self.merchants[merchant].is_active {
            Some(Error::MerchantInactive)
        } else {
            None
        }
    }

    /// `caller` registers `merchant`: only the merchant itself may, and only
    /// once. The new record is active and has issued nothing.
    pub open spec fn register_merchant(self, caller: Address, merchant: Address) -> Result<
        LedgerState,
        Error,
    > {
        if caller != merchant {
            Err(Error::AuthenticationFailed)
        } else if self.merchants.contains_key(merchant) {
            Err(Error::AlreadyRegistered)
        } else {
            Ok(
                LedgerState {
                    merchants: self.merchants.insert(
                        merchant,
                        MerchantData {
                            merchant_addr: merchant,
                            total_points_issued: 0,
                            is_active: true,
                        },
                    ),
                    ..self
                },
            )
        }
    }

    /// `caller` has `merchant` issue `points` to `user`: only the merchant
    /// itself may, it has to be registered and active, and none of the three
    /// counters may leave the range of `u64`. Then the user's points, the
    /// merchant's issued points and the supply all grow by `points`.
    pub open spec fn issue_points(
        self,
        caller: Address,
        merchant: Address,
        user: Address,
        points: u64,
    ) -> Result<LedgerState, Error> {
        if caller != merchant {
            Err(Error::AuthenticationFailed)
        } else if self.merchant_refusal(merchant) is Some {
            Err(self.merchant_refusal(merchant)->0)
        } else if self.points_of(user) + points > u64::MAX
            || self.merchants[merchant].total_points_issued + points > u64::MAX
            || self.supply() + points > u64::MAX {
            Err(Error::Overflow)
        } else {
            Ok(
                LedgerState {
                    merchants: self.merchants.insert(
                        merchant,
                        MerchantData {
                            total_points_issued: (self.merchants[merchant].total_points_issued
                                + points) as u64,
                            ..self.merchants[merchant]
                        },
                    ),
                    balances: self.balances.insert(
                        user,
                        UserBalance {
                            points: (self.points_of(user) + points) as u64,
                            ..self.balance_or_default(user)
                        },
                    ),
                    total: Some((self.supply() + points) as u64),
                },
            )
        }
    }

    /// `caller` redeems `points` of `user` at `merchant`: only the user
    /// itself may, the merchant has to be registered and active, and the user
    /// needs a balance record with at least `points`. Then the user's points
    /// and the supply shrink by `points`; the merchant's record stays as it
    /// is. A supply counter below `points` is reported as `Overflow`; in a
    /// conserved ledger that does not happen.
    pub open spec fn redeem_points(
        self,
        caller: Address,
        user: Address,
        merchant: Address,
        points: u64,
    ) -> Result<LedgerState, Error> {
        if caller != user {
            Err(Error::AuthenticationFailed)
        } else if self.merchant_refusal(merchant) is Some {
            Err(self.merchant_refusal(merchant)->0)
        } else if !self.balances.contains_key(user) {
            Err(Error::NoBalance)
        } else if self.balances[user].points < points {
            Err(Error::InsufficientPoints)
        } else if self.supply() < points {
            Err(Error::Overflow)
        } else {
            Ok(
                LedgerState {
                    balances: self.balances.insert(
                        user,
                        UserBalance {
                            points: (self.balances[user].points - points) as u64,
                            ..self.balances[user]
                        },
                    ),
                    total: Some((self.supply() - points) as u64),
                    ..self
                },
            )
        }
    }

    /// The ledger after a step: the next one where the step was accepted,
    /// this one where it was rejected.
    pub open spec fn after(self, step: Result<LedgerState, Error>) -> LedgerState {
        match step {
            Ok(next) => next,
            Err(_) => self,
        }
    }

    /// The step that `call` takes from this ledger.
    pub open spec fn step(self, call: Call) -> Result<LedgerState, Error> {
        match call {
            Call::Register { caller, merchant } => self.register_merchant(caller, merchant),
            Call::Issue { caller, merchant, user, points } => self.issue_points(
                caller,
                merchant,
                user,
                points,
            ),
            Call::Redeem { caller, user, merchant, points } => self.redeem_points(
                caller,
                user,
                merchant,
                points,
            ),
        }
    }

    /// The ledger after `calls` were made one after the other, accepted or
    /// not.
    pub open spec fn replay(self, calls: Seq<Call>) -> LedgerState
        decreases calls.len(),
    {
        if calls.len() == 0 {
            self
        } else {
            self.replay(calls.drop_last()).after(
                self.replay(calls.drop_last()).step(calls.last()),
            )
        }
    }
}

} // verus!
