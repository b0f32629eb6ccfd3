use gambling::actor::{Coins, Gems, MaxBet};
use gambling::goals::{GamblingGoalsRow, GoalDefinition, GoalRegistry};
use gambling::mine::{GamblingMineRow, MineRow, Mining};
use gambling::rows::{CoinsRow, EggplantsRow, GameRow, LeaderboardRow, LottoTicketRow};
use gambling::text::format_num;

#[test]
fn numbers_get_thousands_separators() {
    assert_eq!(format_num(0), "0");
    assert_eq!(format_num(999), "999");
    assert_eq!(format_num(1_000), "1,000");
    assert_eq!(format_num(1_005_020), "1,005,020");
    assert_eq!(format_num(-45), "-45");
    assert_eq!(format_num(-1_234_567), "-1,234,567");
    assert_eq!(format_num(i64::MIN), "-9,223,372,036,854,775,808");
    assert_eq!(format_num(i64::MAX), "9,223,372,036,854,775,807");
}

#[test]
fn goal_titles() {
    assert_eq!(GoalDefinition::Lotto.description(2), "Buy 2 lottery ticket");
    assert_eq!(GoalDefinition::Gift.description(1), "Send a gift");
    assert_eq!(GoalDefinition::WinCount.description(8), "Win 8 times");
    assert_eq!(GoalDefinition::HigherLower.description(5), "Hit a streak of 5x on Higher or Lower");
    assert_eq!(GoalDefinition::WinMaxBet.description(25_000), "Win 25,000 coins");
    assert_eq!(GoalDefinition::WinStreak.description(3), "Win 3 times in a row");
    assert_eq!(GoalDefinition::AllIn.description(1_000), "Go all in (1,000)");
    assert_eq!(GoalDefinition::SendCoins.description(2_500), "Send coins (2,500)");
    assert_eq!(GoalDefinition::Work.description(4), "Work or Dig 4x times");
}

#[test]
fn goal_row_description() {
    let registry = GoalRegistry::standard();
    let row = GamblingGoalsRow { user_id: 1, goal_id: "winmaxbet".to_string(), day: 0, progress: 1_500, target: 12_000 };
    assert_eq!(row.description(&registry), "**Win 12,000 coins**\nProgress: `1,500/12,000`");
    let retired = GamblingGoalsRow { user_id: 1, goal_id: "retired".to_string(), day: 0, progress: 0, target: 1 };
    assert_eq!(retired.description(&registry), "**retired**\nProgress: `0/1`");
}

#[test]
fn balance_strings() {
    let row = GameRow { id: 1, coins: 12_345, gems: 1_000, level: Some(2), prestige: None };
    assert_eq!(row.coins_str(), "12,345");
    assert_eq!(row.gems_str(), "1,000");
    assert_eq!(row.max_bet_str(), "20,000");
}

#[test]
fn leaderboard_lines() {
    let coins = LeaderboardRow::Coins(CoinsRow { id: 42, coins: 1_234 });
    assert_eq!(coins.as_desc(0), "\u{1F947} - <@42> - 1,234");
    assert_eq!(coins.as_desc(1), "\u{1F948} - <@42> - 1,234");
    assert_eq!(coins.as_desc(2), "\u{1F949} - <@42> - 1,234");
    assert_eq!(coins.as_desc(9), "#10 - <@42> - 1,234");
    let eggplants = LeaderboardRow::Eggplants(EggplantsRow { id: 7, quantity: 3 });
    assert_eq!(eggplants.as_desc(3), "#4 - <@7> - 3 \u{1F346}");
    let tickets = LeaderboardRow::LottoTickets(LottoTicketRow { id: 7, quantity: 1_000 });
    assert_eq!(tickets.as_desc(4), "#5 - <@7> - 1,000 \u{1F39F}\u{FE0F}");
    assert_eq!(CoinsRow { id: 1, coins: 5_000 }.coins_str(), "5,000");
}

#[test]
fn mine_unit_summaries() {
    let mut row = GamblingMineRow::new(1);
    *row.miners_mut() = 3;
    let text = row.units();
    assert!(text.starts_with("`3/10` miners\n        `0/5` mines\n        `0/25` plots of land"));
    assert!(text.ends_with("`0/255` galaxies\n        `0/1` universes"));

    let units = MineRow { miners: 10, universes: 0, prestige: 0, ..Default::default() };
    let text = units.units();
    let lines: Vec<&str> = text.lines().collect();
    assert_eq!(lines.len(), 9);
    assert_eq!(lines[0], "\u{2705} miners full");
    assert_eq!(lines[1], "`0 / 5` mines");
    assert_eq!(lines[2], "`0 / 25` plots of land");
    assert_eq!(lines[7], "`0 / 255` galaxies");
    assert_eq!(lines[8], "`0 / 1` universe");
}
