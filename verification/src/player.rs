//! The player's balance. Spending is a soft rejection: a debit that the
//! balance cannot cover changes nothing.

use vstd::prelude::*;

verus! {

/// Keeps track of the player's money.
#[derive(Clone, Copy, PartialEq, Eq, Structural, Debug)]
pub struct Player {
    /// the money of the player
    pub money: i64,
}

/// The balance every new game starts with.
pub const STARTING_MONEY: i64 = 1000;

impl Player {
    /// Creates a player with the starting balance.
    pub fn new() -> (p: Player)
        ensures
            p.money == STARTING_MONEY,
    {
        Player { money: STARTING_MONEY }
    }

    /// Debits `cost` if the balance covers it; otherwise leaves the balance
    /// alone. Returns whether the debit went through.
    pub fn try_debit(&mut self, cost: i64) -> (r: bool)
        requires
            cost >= 0,
        ensures
            r == (old(self).money >= cost),
            r ==> final(self).money == old(self).money - cost,
            !r ==> *final(self) == *old(self),
    {
        if self.money >= cost {
            self.money = self.money - cost;
            true
        } else {
            false
        }
    }

    /// Adds a signed amount to the balance, stopping at the representable
    /// bounds rather than wrapping around.
    pub fn adjust(&mut self, amount: i64)
        ensures
            final(self).money == crate::geometry::spec_clamp(
                old(self).money + amount,
                i64::MIN as int,
                i64::MAX as int,
            ),
    {
        if amount >= 0 {
            if self.money <= i64::MAX - amount {
                self.money = self.money + amount;
            } else {
                self.money = i64::MAX;
            }
        } else {
            if self.money >= i64::MIN - amount {
                self.money = self.money + amount;
            } else {
                self.money = i64::MIN;
            }
        }
    }

    /// Adds income to the balance, stopping at the largest representable
    /// amount rather than wrapping around.
    pub fn credit(&mut self, amount: i64)
        requires
            amount >= 0,
        ensures
            final(self).money == (if old(self).money + amount <= i64::MAX {
                old(self).money + amount
            } else {
                i64::MAX as int
            }),
    {
        if self.money <= i64::MAX - amount {
            self.money = self.money + amount;
        } else {
            self.money = i64::MAX;
        }
    }
}

} // verus!
