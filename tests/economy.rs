use gambling::actor::{Coins, Gems, MaxBet, VerifyBet};
use gambling::error::Error;
use gambling::games::{verify_prediction, CoinSide, RPSChoice};
use gambling::mine::{GamblingMineRow, MaxValues, MineRow, Mining};
use gambling::rows::{CoinsRow, GameRow, GemsRow, LeaderboardRow, LottoRow, NetworthRow};
use gambling::shop::{jackpot, ShopCurrency, ShopPage};

#[test]
fn bet_limits() {
    let row = GameRow { id: 1, coins: 500, gems: 0, level: Some(3), prestige: Some(5) };
    assert_eq!(row.max_bet(), 45_000);
    assert_eq!(GameRow::new(1).max_bet(), 10_000);
    assert_eq!(row.verify_bet(0), Err(Error::MinimumBetAmount(1)));
    assert_eq!(row.verify_bet(45_001), Err(Error::MaximumBetAmount(45_000)));
    assert_eq!(
        row.verify_bet(800),
        Err(Error::InsufficientFunds { required: 300, currency: ShopCurrency::Coins })
    );
    assert_eq!(row.verify_bet(500), Ok(()));
}

#[test]
fn balances_move() {
    let mut row = CoinsRow { id: 1, coins: 10 };
    row.add_coins(5);
    row.bet(3);
    assert_eq!(row.coins(), 12);
    let mut gems = GemsRow { id: 1, gems: 2 };
    gems.add_gems(3);
    assert_eq!(gems.gems(), 5);
}

#[test]
fn lottery() {
    assert_eq!(jackpot(0), 1_000_000);
    assert_eq!(jackpot(300), 1_500_000);
    let row = LottoRow { id: 1, coins: 0, quantity: None };
    assert_eq!(row.quantity(), 0);
    assert_eq!(LottoRow::new(2).quantity(), 0);
}

#[test]
fn shop_tables() {
    assert_eq!(ShopCurrency::Tech.craft_req(), [Some((ShopCurrency::Coal, 10)), Some((ShopCurrency::Iron, 5)), None, None]);
    assert_eq!(ShopCurrency::Utility.craft_req()[3], Some((ShopCurrency::Emeralds, 1)));
    assert_eq!(ShopCurrency::Production.craft_req()[1], Some((ShopCurrency::Lapis, 500)));
    assert_eq!(ShopPage::pages().len(), 5);
    assert_eq!(ShopPage::from_name("Boost 2"), Some(ShopPage::Boost2));
    assert_eq!(ShopPage::from_name("Boost 3"), None);
    assert_eq!(ShopPage::Mine1.name(), "Mine 1");
}

#[test]
fn mine_capacity_and_income() {
    let mut row = GamblingMineRow::new(1);
    *row.miners_mut() = 12;
    *row.mines_mut() = 1;
    *row.universes_mut() = 2;
    *row.coal_mut() += 7;
    assert_eq!(row.miners(), 12);
    assert_eq!(row.coal(), 7);
    assert_eq!(row.hourly(), 120);
    let max = row.max_values();
    assert_eq!(
        max,
        MaxValues {
            miner: 20,
            mine: 5,
            land: 25,
            country: 50,
            continent: 7,
            planet: 8,
            solar_system: 100,
            galaxy: 765,
            universe: 1,
        }
    );
    assert_eq!(GamblingMineRow::new(2).hourly(), 0);
    let units = MineRow { mines: 3, prestige: 4, ..Default::default() };
    assert_eq!(units.max_values().miner, 40);
    assert_eq!(units.max_values().universe, 5);
}

#[test]
fn small_games() {
    assert_eq!(CoinSide::Heads.opposite(), CoinSide::Tails);
    assert_eq!(CoinSide::Tails.name(), "Tails");
    assert_eq!(RPSChoice::Rock.winner(&RPSChoice::Scissors), Some(true));
    assert_eq!(RPSChoice::Rock.winner(&RPSChoice::Paper), Some(false));
    assert_eq!(RPSChoice::Paper.winner(&RPSChoice::Paper), None);
    assert_eq!(verify_prediction(3, 1, 6), Ok(()));
    assert_eq!(verify_prediction(7, 1, 6), Err(Error::InvalidPrediction));
}

#[test]
fn leaderboard_entries() {
    let row = LeaderboardRow::NetWorth(NetworthRow { id: 5, networth: None });
    assert_eq!(row.user_id(), 5);
    assert_eq!(row.value(), 0);
    assert_eq!(LeaderboardRow::Coins(CoinsRow { id: 6, coins: 9 }).value(), 9);
}
