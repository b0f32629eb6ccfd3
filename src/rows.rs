use vstd::prelude::*;

use crate::actor::{Coins, EventRow, Gems, MaxBet};
use crate::text::{decimal_string, format_num, formatted, signed_decimal};
use vstd::string::StringExecFns;

verus! {

/// The balances a game reads and pays out to.
pub struct GameRow {
    pub id: i64,
    pub coins: i64,
    pub gems: i64,
    pub level: Option<i32>,
    pub prestige: Option<i64>,
}

impl GameRow {
    /// A user with nothing yet.
    pub fn new(id: i64) -> (r: Self)
        ensures
            r == (GameRow { id, coins: 0, gems: 0, level: Some(0i32), prestige: Some(0i64) }),
    {
        GameRow { id, coins: 0, gems: 0, level: Some(0), prestige: Some(0) }
    }
}

impl Coins for GameRow {
    open spec fn coin_balance(&self) -> i64 {
        self.coins
    }

    fn coins(&self) -> (r: i64) {
        self.coins
    }

    fn coins_mut(&mut self) -> (r: &mut i64) {
        &mut self.coins
    }
}

impl Gems for GameRow {
    open spec fn gem_balance(&self) -> i64 {
        self.gems
    }

    fn gems(&self) -> (r: i64) {
        self.gems
    }

    fn gems_mut(&mut self) -> (r: &mut i64) {
        &mut self.gems
    }
}

impl MaxBet for GameRow {
    open spec fn level_of(&self) -> i32 {
        match self.level {
            Some(l) => l,
            None => 0,
        }
    }

    open spec fn prestige_of(&self) -> i64 {
        match self.prestige {
            Some(p) => p,
            None => 0,
        }
    }

    fn prestige(&self) -> (r: i64) {
        match self.prestige {
            Some(p) => p,
            None => 0,
        }
    }

    fn level(&self) -> (r: i32) {
        match self.level {
            Some(l) => l,
            None => 0,
        }
    }
}

impl EventRow for GameRow {
    fn reward(&mut self, coins: i64, gems: i64) {
        self.coins = self.coins + coins;
        self.gems = self.gems + gems;
    }
}

/// The balances the goals page reads.
pub struct GoalsRow {
    pub coins: i64,
    pub gems: i64,
    pub level: i32,
}

impl Coins for GoalsRow {
    open spec fn coin_balance(&self) -> i64 {
        self.coins
    }

    fn coins(&self) -> (r: i64) {
        self.coins
    }

    fn coins_mut(&mut self) -> (r: &mut i64) {
        &mut self.coins
    }
}

impl Gems for GoalsRow {
    open spec fn gem_balance(&self) -> i64 {
        self.gems
    }

    fn gems(&self) -> (r: i64) {
        self.gems
    }

    fn gems_mut(&mut self) -> (r: &mut i64) {
        &mut self.gems
    }
}

impl MaxBet for GoalsRow {
    open spec fn level_of(&self) -> i32 {
        self.level
    }

    open spec fn prestige_of(&self) -> i64 {
        0
    }

    fn prestige(&self) -> (r: i64) {
        0
    }

    fn level(&self) -> (r: i32) {
        self.level
    }
}

impl EventRow for GoalsRow {
    fn reward(&mut self, coins: i64, gems: i64) {
        self.coins = self.coins + coins;
        self.gems = self.gems + gems;
    }
}

/// The sender's balances in a transfer.
pub struct SendRow {
    pub id: i64,
    pub coins: i64,
    pub gems: i64,
    pub level: Option<i32>,
}

impl SendRow {
    pub fn new(id: i64) -> (r: Self)
        ensures
            r == (SendRow { id, coins: 0, gems: 0, level: Some(0i32) }),
    {
        SendRow { id, coins: 0, gems: 0, level: Some(0) }
    }
}

impl Coins for SendRow {
    open spec fn coin_balance(&self) -> i64 {
        self.coins
    }

    fn coins(&self) -> (r: i64) {
        self.coins
    }

    fn coins_mut(&mut self) -> (r: &mut i64) {
        &mut self.coins
    }
}

impl Gems for SendRow {
    open spec fn gem_balance(&self) -> i64 {
        self.gems
    }

    fn gems(&self) -> (r: i64) {
        self.gems
    }

    fn gems_mut(&mut self) -> (r: &mut i64) {
        &mut self.gems
    }
}

impl MaxBet for SendRow {
    open spec fn level_of(&self) -> i32 {
        match self.level {
            Some(l) => l,
            None => 0,
        }
    }

    open spec fn prestige_of(&self) -> i64 {
        0
    }

    fn prestige(&self) -> (r: i64) {
        0
    }

    fn level(&self) -> (r: i32) {
        match self.level {
            Some(l) => l,
            None => 0,
        }
    }
}

impl EventRow for SendRow {
    fn reward(&mut self, coins: i64, gems: i64) {
        self.coins = self.coins + coins;
        self.gems = self.gems + gems;
    }
}

/// A gift recipient's coin balance.
pub struct RecipientRow {
    pub id: i64,
    pub coins: i64,
}

impl RecipientRow {
    pub fn new(id: i64) -> (r: Self)
        ensures
            r == (RecipientRow { id, coins: 0 }),
    {
        RecipientRow { id, coins: 0 }
    }
}

impl Coins for RecipientRow {
    open spec fn coin_balance(&self) -> i64 {
        self.coins
    }

    fn coins(&self) -> (r: i64) {
        self.coins
    }

    fn coins_mut(&mut self) -> (r: &mut i64) {
        &mut self.coins
    }
}

/// A leaderboard entry by net worth.
pub struct NetworthRow {
    pub id: i64,
    pub networth: Option<i64>,
}

/// A leaderboard entry by coins.
pub struct CoinsRow {
    pub id: i64,
    pub coins: i64,
}

impl Coins for CoinsRow {
    open spec fn coin_balance(&self) -> i64 {
        self.coins
    }

    fn coins(&self) -> (r: i64) {
        self.coins
    }

    fn coins_mut(&mut self) -> (r: &mut i64) {
        &mut self.coins
    }
}

/// A leaderboard entry by gems.
pub struct GemsRow {
    pub id: i64,
    pub gems: i64,
}

impl Gems for GemsRow {
    open spec fn gem_balance(&self) -> i64 {
        self.gems
    }

    fn gems(&self) -> (r: i64) {
        self.gems
    }

    fn gems_mut(&mut self) -> (r: &mut i64) {
        &mut self.gems
    }
}

/// A leaderboard entry by eggplants held.
pub struct EggplantsRow {
    pub id: i64,
    pub quantity: i64,
}

/// A leaderboard entry by lottery tickets held.
pub struct LottoTicketRow {
    pub id: i64,
    pub quantity: i64,
}

/// One entry of one of the leaderboards.
pub enum LeaderboardRow {
    NetWorth(NetworthRow),
    Coins(CoinsRow),
    Gems(GemsRow),
    Eggplants(EggplantsRow),
    LottoTickets(LottoTicketRow),
}

impl LeaderboardRow {
    pub open spec fn id_of(&self) -> i64 {
        match self {
            LeaderboardRow::NetWorth(row) => row.id,
            LeaderboardRow::Coins(row) => row.id,
            LeaderboardRow::Gems(row) => row.id,
            LeaderboardRow::Eggplants(row) => row.id,
            LeaderboardRow::LottoTickets(row) => row.id,
        }
    }

    /// The user the entry ranks.
    pub fn user_id(&self) -> (r: i64)
        ensures
            r == self.id_of(),
    {
        match self {
            LeaderboardRow::NetWorth(row) => row.id,
            LeaderboardRow::Coins(row) => row.id,
            LeaderboardRow::Gems(row) => row.id,
            LeaderboardRow::Eggplants(row) => row.id,
            LeaderboardRow::LottoTickets(row) => row.id,
        }
    }

    pub open spec fn value_of(&self) -> i64 {
        match self {
            LeaderboardRow::NetWorth(row) => match row.networth {
                Some(n) => n,
                None => 0,
            },
            LeaderboardRow::Coins(row) => row.coins,
            LeaderboardRow::Gems(row) => row.gems,
            LeaderboardRow::Eggplants(row) => row.quantity,
            LeaderboardRow::LottoTickets(row) => row.quantity,
        }
    }

    /// The ranked amount as the leaderboard shows it.
    pub open spec fn shown(&self) -> Seq<char> {
        match self {
            LeaderboardRow::Eggplants(row) => formatted(row.quantity as int) + " \u{1F346}"@,
            LeaderboardRow::LottoTickets(row) => formatted(row.quantity as int) + " \u{1F39F}\u{FE0F}"@,
            _ => formatted(self.value_of() as int),
        }
    }

    /// The medal or rank number of place `i` (counted from 0).
    pub open spec fn place(i: int) -> Seq<char> {
        if i == 0 {
            "\u{1F947}"@
        } else if i == 1 {
            "\u{1F948}"@
        } else if i == 2 {
            "\u{1F949}"@
        } else {
            "#"@ + signed_decimal(i + 1)
        }
    }

    /// The leaderboard line of this entry at place `i` (counted from 0).
    pub fn as_desc(&self, i: usize) -> (r: String)
        requires
            i < i64::MAX,
        ensures
            r@ == Self::place(i as int) + " - <@"@ + signed_decimal(self.id_of() as int) + "> - "@ + self.shown(),
    {
        let place = if i == 0 {
            String::from_str("\u{1F947}")
        } else if i == 1 {
            String::from_str("\u{1F948}")
        } else if i == 2 {
            String::from_str("\u{1F949}")
        } else {
            String::from_str("#").concat(decimal_string(i as i64 + 1).as_str())
        };
        let data = match self {
            LeaderboardRow::Eggplants(row) => format_num(row.quantity).concat(" \u{1F346}"),
            LeaderboardRow::LottoTickets(row) => format_num(row.quantity).concat(" \u{1F39F}\u{FE0F}"),
            _ => format_num(self.value()),
        };
        place.concat(" - <@").concat(decimal_string(self.user_id()).as_str()).concat("> - ").concat(
            data.as_str(),
        )
    }

    /// The amount the entry is ranked by.
    pub fn value(&self) -> (r: i64)
        ensures
            r == self.value_of(),
    {
        match self {
            LeaderboardRow::NetWorth(row) => match row.networth {
                Some(n) => n,
                None => 0,
            },
            LeaderboardRow::Coins(row) => row.coins,
            LeaderboardRow::Gems(row) => row.gems,
            LeaderboardRow::Eggplants(row) => row.quantity,
            LeaderboardRow::LottoTickets(row) => row.quantity,
        }
    }
}

/// A user's lottery tickets and coins.
pub struct LottoRow {
    pub id: i64,
    pub coins: i64,
    pub quantity: Option<i64>,
}

impl LottoRow {
    pub fn new(id: i64) -> (r: Self)
        ensures
            r == (LottoRow { id, coins: 0, quantity: Some(0i64) }),
    {
        LottoRow { id, coins: 0, quantity: Some(0) }
    }

    pub open spec fn tickets(&self) -> i64 {
        match self.quantity {
            Some(q) => q,
            None => 0,
        }
    }

    /// Number of tickets held (none when unknown).
    pub fn quantity(&self) -> (r: i64)
        ensures
            r == self.tickets(),
    {
        match self.quantity {
            Some(q) => q,
            None => 0,
        }
    }
}

impl Coins for LottoRow {
    open spec fn coin_balance(&self) -> i64 {
        self.coins
    }

    fn coins(&self) -> (r: i64) {
        self.coins
    }

    fn coins_mut(&mut self) -> (r: &mut i64) {
        &mut self.coins
    }
}

} // verus!
