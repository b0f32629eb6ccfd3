use vstd::prelude::*;

use crate::actor::Coins;
use crate::error::Error;
use crate::inventory::GamblingItem;
use crate::stamina::MAX_STAMINA;

verus! {

/// Coins a user starts with, and starts again with after a prestige.
pub const START_AMOUNT: i64 = 1000;

/// Miners needed before a mine can be prestiged.
pub const PRESTIGE_MINERS: i64 = 938_810;

/// Whether a prestige takes the item away: lottery tickets and items that
/// can be sold back.
pub open spec fn forfeited(id: Seq<char>) -> bool {
    id == "lottoticket"@ || id == "eggplant"@
}

/// Keeps the stacks that a prestige leaves.
pub open spec fn survives() -> spec_fn(GamblingItem) -> bool {
    |x: GamblingItem| !forfeited(x.item_id@)
}

fn is_forfeited(id: &String) -> (r: bool)
    ensures
        r == forfeited(id@),
{
    *id == "lottoticket".to_owned() || *id == "eggplant".to_owned()
}

/// Everything a prestige resets.
pub struct PrestigeRow {
    pub id: i64,
    pub coins: i64,
    pub gems: i64,
    pub stamina: i64,
    pub inventory: Option<Vec<GamblingItem>>,
    pub miners: i64,
    pub mines: i64,
    pub land: i64,
    pub countries: i64,
    pub continents: i64,
    pub planets: i64,
    pub solar_systems: i64,
    pub galaxies: i64,
    pub universes: i64,
    pub prestige: i64,
    pub coal: i64,
    pub iron: i64,
    pub gold: i64,
    pub redstone: i64,
    pub lapis: i64,
    pub diamonds: i64,
    pub emeralds: i64,
    pub tech: i64,
    pub utility: i64,
    pub production: i64,
}

/// Whether a user with `miners` miners may prestige.
pub fn can_prestige(miners: i64) -> (r: bool)
    ensures
        r == (miners >= PRESTIGE_MINERS),
{
    miners >= PRESTIGE_MINERS
}

impl PrestigeRow {
    /// Starts the user over one prestige higher: coins back to the start
    /// amount, one gem more, full stamina, the mine and its resources
    /// emptied, and lottery tickets and sellable items taken away.
    pub fn prestige(&mut self)
        requires
            old(self).gems < i64::MAX,
            old(self).prestige < i64::MAX,
        ensures
            final(self).id == old(self).id,
            final(self).coins == START_AMOUNT,
            final(self).gems == old(self).gems + 1,
            final(self).stamina == MAX_STAMINA as i64,
            final(self).prestige == old(self).prestige + 1,
            match old(self).inventory {
                Some(items) => final(self).inventory matches Some(v) && v@ == items@.filter(survives()),
                None => final(self).inventory is None,
            },
            final(self).miners == 0 && final(self).mines == 0 && final(self).land == 0,
            final(self).countries == 0 && final(self).continents == 0 && final(self).planets == 0,
            final(self).solar_systems == 0 && final(self).galaxies == 0 && final(self).universes == 0,
            final(self).coal == 0 && final(self).iron == 0 && final(self).gold == 0,
            final(self).redstone == 0 && final(self).lapis == 0 && final(self).diamonds == 0,
            final(self).emeralds == 0 && final(self).tech == 0 && final(self).utility == 0,
            final(self).production == 0,
    {
        self.coins = START_AMOUNT;
        self.gems = self.gems + 1;
        self.stamina = MAX_STAMINA as i64;
        if let Some(items) = &mut self.inventory {
            let ghost before = items@;
            let mut kept: Vec<GamblingItem> = Vec::new();
            let mut j: usize = 0;
            while j < items.len()
                invariant
                    0 <= j <= items@.len(),
                    items@ == before,
                    kept@ == before.take(j as int).filter(survives()),
                decreases items@.len() - j,
            {
                proof {
                    reveal(Seq::filter);
                    assert(before.take(j + 1).drop_last() =~= before.take(j as int));
                    assert(before.take(j + 1).last() == before[j as int]);
                }
                if !is_forfeited(&items[j].item_id) {
                    kept.push(items[j].duplicate());
                }
                j += 1;
            }
            assert(before.take(before.len() as int) =~= before);
            *items = kept;
        }
        self.miners = 0;
        self.mines = 0;
        self.land = 0;
        self.countries = 0;
        self.continents = 0;
        self.planets = 0;
        self.solar_systems = 0;
        self.galaxies = 0;
        self.universes = 0;
        self.prestige = self.prestige + 1;
        self.coal = 0;
        self.iron = 0;
        self.gold = 0;
        self.redstone = 0;
        self.lapis = 0;
        self.diamonds = 0;
        self.emeralds = 0;
        self.tech = 0;
        self.utility = 0;
        self.production = 0;
    }
}

/// The daily coin claim of a user.
pub struct DailyRow {
    pub id: i64,
    pub coins: i64,
    /// UTC day of the last claim, in days from the first day of the common era.
    pub daily: i32,
    pub prestige: Option<i64>,
}

impl DailyRow {
    /// A user who never claimed.
    pub fn new(id: i64) -> (r: Self)
        ensures
            r == (DailyRow { id, coins: 0, daily: 0, prestige: Some(0i64) }),
    {
        DailyRow { id, coins: 0, daily: 0, prestige: Some(0) }
    }

    pub open spec fn prestige_level(&self) -> i64 {
        match self.prestige {
            Some(p) => p,
            None => 0,
        }
    }

    /// Coins a claim pays: the start amount for each prestige plus one.
    pub open spec fn daily_amount(&self) -> int {
        START_AMOUNT * (self.prestige_level() + 1)
    }

    /// Collects the day's coins on `today`; refused, naming `next_reset`
    /// (Unix seconds), when they were already collected that day.
    pub fn claim(&mut self, today: i32, next_reset: i64) -> (r: Result<i64, Error>)
        requires
            old(self).daily != today ==> i64::MIN <= old(self).daily_amount() <= i64::MAX && i64::MIN <= old(
                self,
            ).coins + old(self).daily_amount() <= i64::MAX,
        ensures
            old(self).daily == today ==> r == Err::<i64, Error>(Error::DailyClaimed(next_reset))
                && *final(self) == *old(self),
            old(self).daily != today ==> r == Ok::<i64, Error>(old(self).daily_amount() as i64)
                && *final(self) == (DailyRow {
                coins: (old(self).coins + old(self).daily_amount()) as i64,
                daily: today,
                ..*old(self)
            }),
    {
        if self.daily == today {
            return Err(Error::DailyClaimed(next_reset));
        }
        let level = match self.prestige {
            Some(p) => p,
            None => 0,
        };
        let amount = START_AMOUNT * (level + 1);
        self.coins = self.coins + amount;
        self.daily = today;
        Ok(amount)
    }
}

impl Coins for DailyRow {
    open spec fn coin_balance(&self) -> i64 {
        self.coins
    }

    fn coins(&self) -> (r: i64) {
        self.coins
    }

    fn coins_mut(&mut self) -> (r: &mut i64) {
        &mut self.coins
    }
}

} // verus!
