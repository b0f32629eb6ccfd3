use gambling::cooldown::GameCache;
use gambling::craft::CraftRow;
use gambling::error::Error;
use gambling::inventory::{GamblingItem, ItemInventory, SellRow};
use gambling::prestige::{can_prestige, DailyRow, PrestigeRow};
use gambling::shop::ShopCurrency;
use gambling::stamina::{Stamina, WorkRow};

fn item(id: &str, quantity: i64) -> GamblingItem {
    GamblingItem { quantity, item_id: id.to_string() }
}

#[test]
fn crafting_spends_resources() {
    let mut row = CraftRow::new(1);
    row.coal = 25;
    row.iron = 12;
    assert_eq!(row.craft(ShopCurrency::Tech, 2), Ok(2));
    assert_eq!((row.coal, row.iron, row.tech), (5, 2, 2));
    assert_eq!(row.amount_of(ShopCurrency::Tech), 2);
}

#[test]
fn crafting_reports_the_first_shortfall() {
    let mut row = CraftRow::new(1);
    row.coal = 100;
    row.gold = 3;
    let before = (row.coal, row.gold, row.utility);
    assert_eq!(
        row.craft(ShopCurrency::Utility, 1),
        Err(Error::InsufficientFunds { required: 7, currency: ShopCurrency::Gold })
    );
    assert_eq!((row.coal, row.gold, row.utility), before);
    assert_eq!(
        row.craft(ShopCurrency::Production, 1),
        Err(Error::InsufficientFunds { required: 97, currency: ShopCurrency::Gold })
    );
}

#[test]
fn inventory_quantities() {
    let mut row = SellRow::new(1);
    assert_eq!(row.edit_item_quantity("eggplant", 1), None);
    row.inventory = Some(vec![item("eggplant", 3), item("lottoticket", 2), item("eggplant", 9)]);
    assert_eq!(row.edit_item_quantity("eggplant", -1), Some(2));
    assert_eq!(row.inventory()[0].quantity, 2);
    assert_eq!(row.edit_item_quantity("eggplant", -2), Some(0));
    let left: Vec<&str> = row.inventory().iter().map(|i| i.item_id.as_str()).collect();
    assert_eq!(left, vec!["lottoticket"]);
    row.inventory = None;
    assert_eq!(row.edit_item_quantity("eggplant", 1), None);
    assert!(row.inventory().is_empty());
}

#[test]
fn game_cooldown() {
    let mut cache = GameCache::new();
    assert_eq!(cache.validate_cooldown(7, 100), Ok(()));
    cache.update(7, 100);
    assert_eq!(cache.validate_cooldown(7, 103), Err(Error::Cooldown(105)));
    assert_eq!(cache.validate_cooldown(7, 105), Err(Error::Cooldown(105)));
    assert_eq!(cache.validate_cooldown(7, 106), Ok(()));
    assert_eq!(cache.validate_cooldown(8, 101), Ok(()));
    cache.update(9, 0);
    assert_eq!(cache.can_play(9), Ok(()));
}

#[test]
fn stamina_bar_and_work_check() {
    let mut row = WorkRow::new(1, 0);
    assert_eq!(row.verify_work(600), Err(Error::OutOfStamina(600)));
    assert_eq!(row.stamina_str(), "\u{2B1B} \u{2B1B} \u{2B1B} ");
    row.stamina = 2;
    assert_eq!(row.verify_work(600), Ok(()));
    row.done_work();
    assert_eq!(row.stamina(), 1);
    assert_eq!(row.stamina_str(), "\u{1F7E9} \u{2B1B} \u{2B1B} ");
    row.stamina = 4;
    assert_eq!(row.stamina_str(), "\u{1F7E9} \u{1F7E9} \u{1F7E9} \u{1F7E9} ");
}

#[test]
fn prestige_resets_the_mine() {
    let mut row = PrestigeRow {
        id: 5,
        coins: 90_000,
        gems: 4,
        stamina: 0,
        inventory: Some(vec![item("lottoticket", 2), item("weaponcrate", 1), item("eggplant", 3)]),
        miners: 1_000_000,
        mines: 10,
        land: 2,
        countries: 1,
        continents: 0,
        planets: 0,
        solar_systems: 0,
        galaxies: 0,
        universes: 0,
        prestige: 1,
        coal: 7,
        iron: 7,
        gold: 7,
        redstone: 7,
        lapis: 7,
        diamonds: 7,
        emeralds: 7,
        tech: 3,
        utility: 2,
        production: 1,
    };
    assert!(can_prestige(row.miners));
    assert!(!can_prestige(938_809));
    row.prestige();
    assert_eq!((row.coins, row.gems, row.stamina, row.prestige), (1_000, 5, 3, 2));
    assert_eq!((row.miners, row.mines, row.land, row.countries), (0, 0, 0, 0));
    assert_eq!((row.coal, row.tech, row.utility, row.production), (0, 0, 0, 0));
    let left: Vec<&str> = row.inventory.as_ref().unwrap().iter().map(|i| i.item_id.as_str()).collect();
    assert_eq!(left, vec!["weaponcrate"]);
}

#[test]
fn daily_claim_once_a_day() {
    let mut row = DailyRow::new(3);
    row.prestige = Some(2);
    assert_eq!(row.claim(739_000, 86_400), Ok(3_000));
    assert_eq!((row.coins, row.daily), (3_000, 739_000));
    assert_eq!(row.claim(739_000, 86_400), Err(Error::DailyClaimed(86_400)));
    assert_eq!(row.coins, 3_000);
    assert_eq!(row.claim(739_001, 172_800), Ok(3_000));
    assert_eq!(row.coins, 6_000);
}
