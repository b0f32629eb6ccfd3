use vstd::prelude::*;
use vstd::string::StringExecFns;

use crate::actor::{Coins, EventRow, Gems, MaxBet};
use crate::error::Error;

verus! {

/// Most stamina a user can hold.
pub const MAX_STAMINA: i32 = 3;

/// `s` repeated `n` times.
pub open spec fn repeated(s: Seq<char>, n: int) -> Seq<char>
    decreases n,
{
    if n <= 0 {
        Seq::empty()
    } else {
        repeated(s, n - 1) + s
    }
}

fn repeat_text(s: &str, n: i32) -> (r: String)
    ensures
        r@ == repeated(s@, n as int),
{
    let mut out = String::new();
    let mut i: i32 = 0;
    while i < n
        invariant
            0 <= i,
            n > 0 ==> i <= n,
            n <= 0 ==> i == 0,
            out@ == repeated(s@, i as int),
        decreases n - i,
    {
        out = out.concat(s);
        i += 1;
    }
    proof {
        if n <= 0 {
            assert(i == 0);
        } else {
            assert(i == n);
        }
    }
    out
}

/// A row that spends stamina on work.
pub trait Stamina {
    spec fn stamina_left(&self) -> i32;

    fn stamina(&self) -> (r: i32)
        ensures
            r == self.stamina_left(),
    ;

    fn stamina_mut(&mut self) -> (r: &mut i32)
        ensures
            *r == old(self).stamina_left(),
            final(self).stamina_left() == *final(r),
    ;

    /// A bar of full and empty stamina slots.
    fn stamina_str(&self) -> (r: String)
        requires
            self.stamina_left() >= 0,
        ensures
            r@ == repeated("\u{1F7E9} "@, self.stamina_left() as int) + repeated(
                "\u{2B1B} "@,
                MAX_STAMINA - self.stamina_left(),
            ),
    {
        let left = self.stamina();
        let full = repeat_text("\u{1F7E9} ", left);
        let bar = repeat_text("\u{2B1B} ", MAX_STAMINA - left);
        full.concat(bar.as_str())
    }

    /// Spends one stamina.
    fn done_work(&mut self)
        requires
            old(self).stamina_left() > i32::MIN,
        ensures
            final(self).stamina_left() == old(self).stamina_left() - 1,
    {
        let s = self.stamina_mut();
        *s = *s - 1;
    }

    /// Refuses work when no stamina is left, naming when it is refilled
    /// (`next_refill`, Unix seconds).
    fn verify_work(&self, next_refill: i64) -> (r: Result<(), Error>)
        ensures
            r == if self.stamina_left() <= 0 {
                Err(Error::OutOfStamina(next_refill))
            } else {
                Ok(())
            },
    {
        if self.stamina() <= 0 {
            return Err(Error::OutOfStamina(next_refill));
        }
        Ok(())
    }
}

/// The balances and stamina a work shift reads and pays to.
pub struct WorkRow {
    pub id: i64,
    pub coins: i64,
    pub gems: i64,
    pub stamina: i32,
    pub level: Option<i32>,
    pub miners: Option<i64>,
    pub prestige: Option<i64>,
    /// Unix seconds of the last mine activity.
    pub mine_activity: Option<i64>,
}

impl WorkRow {
    /// A user with nothing yet, active at `now`.
    pub fn new(id: i64, now: i64) -> (r: Self)
        ensures
            r == (WorkRow {
                id,
                coins: 0,
                gems: 0,
                stamina: 0,
                level: Some(0i32),
                miners: Some(0i64),
                prestige: Some(0i64),
                mine_activity: Some(now),
            }),
    {
        WorkRow {
            id,
            coins: 0,
            gems: 0,
            stamina: 0,
            level: Some(0),
            miners: Some(0),
            prestige: Some(0),
            mine_activity: Some(now),
        }
    }
}

impl Coins for WorkRow {
    open spec fn coin_balance(&self) -> i64 {
        self.coins
    }

    fn coins(&self) -> (r: i64) {
        self.coins
    }

    fn coins_mut(&mut self) -> (r: &mut i64) {
        &mut self.coins
    }
}

impl Gems for WorkRow {
    open spec fn gem_balance(&self) -> i64 {
        self.gems
    }

    fn gems(&self) -> (r: i64) {
        self.gems
    }

    fn gems_mut(&mut self) -> (r: &mut i64) {
        &mut self.gems
    }
}

impl MaxBet for WorkRow {
    open spec fn level_of(&self) -> i32 {
        match self.level {
            Some(l) => l,
            None => 0,
        }
    }

    open spec fn prestige_of(&self) -> i64 {
        match self.prestige {
            Some(p) => p,
            None => 0,
        }
    }

    fn prestige(&self) -> (r: i64) {
        match self.prestige {
            Some(p) => p,
            None => 0,
        }
    }

    fn level(&self) -> (r: i32) {
        match self.level {
            Some(l) => l,
            None => 0,
        }
    }
}

impl EventRow for WorkRow {
    fn reward(&mut self, coins: i64, gems: i64) {
        self.coins = self.coins + coins;
        self.gems = self.gems + gems;
    }
}

impl Stamina for WorkRow {
    open spec fn stamina_left(&self) -> i32 {
        self.stamina
    }

    fn stamina(&self) -> (r: i32) {
        self.stamina
    }

    fn stamina_mut(&mut self) -> (r: &mut i32) {
        &mut self.stamina
    }
}

} // verus!
