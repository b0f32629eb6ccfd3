use vstd::prelude::*;

use crate::error::Error;
use crate::shop::ShopCurrency;
use crate::text::{format_num, formatted};

verus! {

/// `v` when it fits in an `i64`, else the nearest bound.
pub open spec fn clamp_i64(v: int) -> i64 {
    if v > i64::MAX {
        i64::MAX
    } else if v < i64::MIN {
        i64::MIN
    } else {
        v as i64
    }
}

/// Clamps an `i128` into the `i64` range.
pub fn clamp_to_i64(v: i128) -> (r: i64)
    ensures
        r == clamp_i64(v as int),
{
    if v > i64::MAX as i128 {
        i64::MAX
    } else if v < i64::MIN as i128 {
        i64::MIN
    } else {
        v as i64
    }
}

/// The largest bet a user of the given level and prestige may place: ten
/// thousand coins per level (at least ten thousand), raised by a tenth for
/// each prestige, held in the `i64` range.
pub open spec fn max_bet_of(level: i32, prestige: i64) -> i64 {
    let base: int = if level as int * 10_000 > 10_000 { level as int * 10_000 } else { 10_000 };
    clamp_i64(div_toward_zero(base * (10 + prestige as int), 10))
}

/// Integer division rounding toward zero, as Rust's `/` does.
pub open spec fn div_toward_zero(a: int, b: int) -> int
    recommends
        b > 0,
{
    if a >= 0 {
        a / b
    } else {
        -((-a) / b)
    }
}

/// A row that holds a coin balance.
pub trait Coins {
    spec fn coin_balance(&self) -> i64;

    fn coins(&self) -> (r: i64)
        ensures
            r == self.coin_balance(),
    ;

    fn coins_mut(&mut self) -> (r: &mut i64)
        ensures
            *r == old(self).coin_balance(),
            final(self).coin_balance() == *final(r),
    ;

    /// The balance with thousands separators.
    fn coins_str(&self) -> (r: String)
        ensures
            r@ == formatted(self.coin_balance() as int),
    {
        format_num(self.coins())
    }

    /// Credits `payout` (a debit when negative).
    fn add_coins(&mut self, payout: i64)
        requires
            i64::MIN <= old(self).coin_balance() + payout <= i64::MAX,
        ensures
            final(self).coin_balance() == old(self).coin_balance() + payout,
    {
        let c = self.coins_mut();
        *c = *c + payout;
    }

    /// Takes a stake of `bet` coins.
    fn bet(&mut self, bet: i64)
        requires
            i64::MIN <= old(self).coin_balance() - bet <= i64::MAX,
        ensures
            final(self).coin_balance() == old(self).coin_balance() - bet,
    {
        let c = self.coins_mut();
        *c = *c - bet;
    }
}

/// A row that holds a gem balance.
pub trait Gems {
    spec fn gem_balance(&self) -> i64;

    fn gems(&self) -> (r: i64)
        ensures
            r == self.gem_balance(),
    ;

    fn gems_mut(&mut self) -> (r: &mut i64)
        ensures
            *r == old(self).gem_balance(),
            final(self).gem_balance() == *final(r),
    ;

    /// The balance with thousands separators.
    fn gems_str(&self) -> (r: String)
        ensures
            r@ == formatted(self.gem_balance() as int),
    {
        format_num(self.gems())
    }

    fn add_gems(&mut self, amount: i64)
        requires
            i64::MIN <= old(self).gem_balance() + amount <= i64::MAX,
        ensures
            final(self).gem_balance() == old(self).gem_balance() + amount,
    {
        let g = self.gems_mut();
        *g = *g + amount;
    }
}

/// A row from which the bet limit is derived.
pub trait MaxBet {
    spec fn level_of(&self) -> i32;

    spec fn prestige_of(&self) -> i64;

    fn prestige(&self) -> (r: i64)
        ensures
            r == self.prestige_of(),
    ;

    fn level(&self) -> (r: i32)
        ensures
            r == self.level_of(),
    ;

    fn max_bet(&self) -> (r: i64)
        ensures
            r == max_bet_of(self.level_of(), self.prestige_of()),
    {
        let level = self.level() as i64;
        let base: i64 = if level * 10_000 > 10_000 { level * 10_000 } else { 10_000 };
        let bonus = 10i128 + self.prestige() as i128;
        assert(10_000 <= base <= 0x8000_0000i64 * 10_000);
        assert(-0x8000_0000_0000_0000i128 <= bonus <= 0x8000_0000_0000_0000i128 + 10);
        assert(-0x8000_0000_0000_0000_0000_0000_0000i128 <= base as i128 * bonus
            <= 0x8000_0000_0000_0000_0000_0000_0000i128) by (nonlinear_arith)
            requires
                10_000 <= base <= 0x8000_0000i64 * 10_000,
                -0x8000_0000_0000_0000i128 <= bonus <= 0x8000_0000_0000_0000i128 + 10,
        ;
        let product = base as i128 * bonus;
        let scaled = if product >= 0 { product / 10 } else { -((-product) / 10) };
        clamp_to_i64(scaled)
    }

    /// The bet limit with thousands separators.
    fn max_bet_str(&self) -> (r: String)
        ensures
            r@ == formatted(max_bet_of(self.level_of(), self.prestige_of()) as int),
    {
        format_num(self.max_bet())
    }
}

/// The balance row that the goal engine reads and rewards.
pub trait EventRow: Coins + Gems + MaxBet {
    /// Credits `coins` coins and `gems` gems at once.
    fn reward(&mut self, coins: i64, gems: i64)
        requires
            i64::MIN <= old(self).coin_balance() + coins <= i64::MAX,
            i64::MIN <= old(self).gem_balance() + gems <= i64::MAX,
        ensures
            final(self).coin_balance() == old(self).coin_balance() + coins,
            final(self).gem_balance() == old(self).gem_balance() + gems,
            final(self).level_of() == old(self).level_of(),
            final(self).prestige_of() == old(self).prestige_of(),
    ;
}

/// Smallest bet a game takes.
pub const MIN_BET: i64 = 1;

/// Checks a bet against the bet limits and the balance.
pub trait VerifyBet: Coins + MaxBet {
    fn verify_bet(&self, bet: i64) -> (r: Result<(), Error>)
        ensures
            r == if bet < MIN_BET {
                Err(Error::MinimumBetAmount(MIN_BET))
            } else if bet > max_bet_of(self.level_of(), self.prestige_of()) {
                Err(Error::MaximumBetAmount(max_bet_of(self.level_of(), self.prestige_of())))
            } else if bet > self.coin_balance() {
                Err(
                    Error::InsufficientFunds {
                        required: clamp_i64(bet - self.coin_balance()),
                        currency: ShopCurrency::Coins,
                    },
                )
            } else {
                Ok(())
            },
    {
        if bet < MIN_BET {
            return Err(Error::MinimumBetAmount(MIN_BET));
        }
        let max = self.max_bet();
        if bet > max {
            return Err(Error::MaximumBetAmount(max));
        }
        let coins = self.coins();
        if bet > coins {
            return Err(
                Error::InsufficientFunds {
                    required: clamp_to_i64(bet as i128 - coins as i128),
                    currency: ShopCurrency::Coins,
                },
            );
        }
        Ok(())
    }
}

impl<T: Coins + MaxBet> VerifyBet for T {

}

} // verus!
