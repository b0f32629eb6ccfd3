use gambling::events::{Event, GameEvent, SendEvent, ShopPurchaseEvent};
use gambling::goals::{GamblingGoalsRow, GoalDefinition, GoalRegistry};
use gambling::rows::GameRow;
use gambling::tracker::GoalHandler;

const TODAY: i32 = 739_000;

fn row(goal_id: &str, progress: i64, target: i64) -> GamblingGoalsRow {
    GamblingGoalsRow {
        user_id: 1,
        goal_id: goal_id.to_string(),
        day: TODAY,
        progress,
        target,
    }
}

fn win(payout: i64) -> Event {
    Event::Game(GameEvent::new("coinflip".to_string(), 1, payout))
}

fn player(coins: i64) -> GameRow {
    GameRow { id: 1, coins, gems: 0, level: Some(1), prestige: Some(0) }
}

#[test]
fn win_three_times_completes_on_third_win() {
    let registry = GoalRegistry::standard();
    let mut stored = vec![row("win10", 0, 3), row("work", 0, 5), row("gift", 0, 1)];
    let mut actor = player(1_000);
    for round in 1..=3 {
        let before = actor.coins;
        let (goals, save) = GoalHandler::process_goals(&registry, stored, &mut actor, &win(100), TODAY);
        assert!(save);
        assert_eq!(goals[0].progress, round);
        if round < 3 {
            assert_eq!(actor.coins, before);
        } else {
            assert!(goals[0].completed());
            assert_eq!(actor.coins, before + 5_000);
        }
        stored = goals;
    }
    assert_eq!(actor.gems, 0);
}

#[test]
fn last_goal_pays_the_gem_once() {
    let registry = GoalRegistry::standard();
    let stored = vec![row("win10", 3, 3), row("gift", 1, 1), row("work", 0, 1)];
    let mut actor = player(0);
    let (goals, save) = GoalHandler::process_goals(&registry, stored, &mut actor, &Event::Work(1), TODAY);
    assert!(save);
    assert!(goals.iter().all(|g| g.completed()));
    assert_eq!(actor.coins, 5_000);
    assert_eq!(actor.gems, 1);

    let (goals, save) = GoalHandler::process_goals(&registry, goals, &mut actor, &Event::Work(1), TODAY);
    assert!(!save);
    assert_eq!(goals.len(), 3);
    assert_eq!(actor.coins, 5_000);
    assert_eq!(actor.gems, 1);
}

#[test]
fn two_goals_completed_by_one_event_pay_twice() {
    let registry = GoalRegistry::standard();
    let stored = vec![row("win10", 2, 3), row("winmaxbet", 400, 500), row("work", 0, 2)];
    let mut actor = player(10);
    let (goals, _) = GoalHandler::process_goals(&registry, stored, &mut actor, &win(100), TODAY);
    assert!(goals[0].completed() && goals[1].completed() && !goals[2].completed());
    assert_eq!(actor.coins, 10 + 2 * 5_000);
    assert_eq!(actor.gems, 0);
}

#[test]
fn streak_resets_on_loss() {
    let mut goal = row("win3row", 2, 3);
    let changed = GoalDefinition::WinStreak.update(&mut goal, &win(-50));
    assert!(!changed);
    assert_eq!(goal.progress, 0);
    let changed = GoalDefinition::WinStreak.update(&mut goal, &win(0));
    assert!(!changed);
    assert_eq!(goal.progress, 0);
    assert!(GoalDefinition::WinStreak.update(&mut goal, &win(10)));
    assert_eq!(goal.progress, 1);
}

#[test]
fn selection_is_stable_within_a_day() {
    let registry = GoalRegistry::standard();
    let actor = player(50_000);
    let first = GoalHandler::get_user_progress(&registry, Vec::new(), 1, &actor, TODAY);
    assert_eq!(first.len(), 3);
    let snapshot: Vec<(String, i64)> = first.iter().map(|g| (g.goal_id.clone(), g.target)).collect();
    let second = GoalHandler::get_user_progress(&registry, first, 1, &actor, TODAY);
    let again: Vec<(String, i64)> = second.iter().map(|g| (g.goal_id.clone(), g.target)).collect();
    assert_eq!(snapshot, again);
    assert!(second.iter().all(|g| g.day == TODAY && g.progress == 0 && g.user_id == 1));
}

#[test]
fn stale_goals_are_replaced() {
    let registry = GoalRegistry::standard();
    let actor = player(50_000);
    let stored = vec![row("win10", 3, 3)];
    let fresh = GoalHandler::get_user_progress(&registry, stored, 1, &actor, TODAY + 1);
    assert_eq!(fresh.len(), 3);
    assert!(fresh.iter().all(|g| g.day == TODAY + 1 && g.progress == 0));
    assert_ne!(fresh[0].goal_id, fresh[1].goal_id);
    assert_ne!(fresh[1].goal_id, fresh[2].goal_id);
    assert_ne!(fresh[0].goal_id, fresh[2].goal_id);
}

#[test]
fn daily_goals_are_distinct_registered_goals() {
    let registry = GoalRegistry::standard();
    for _ in 0..20 {
        let picks = registry.select_daily_goal();
        assert_eq!(picks.len(), 3);
        assert!(picks[0] != picks[1] && picks[1] != picks[2] && picks[0] != picks[2]);
        for p in &picks {
            assert_eq!(registry.get_definition(p.id()), Some(*p));
        }
    }
}

#[test]
fn random_targets_stay_in_range() {
    let actor = player(0);
    for _ in 0..50 {
        let t = GoalDefinition::Lotto.target(&actor);
        assert!((1..=3).contains(&t));
        let t = GoalDefinition::WinCount.target(&actor);
        assert!((7..=10).contains(&t));
        let t = GoalDefinition::HigherLower.target(&actor);
        assert!((4..=8).contains(&t));
        let t = GoalDefinition::Work.target(&actor);
        assert!((3..=7).contains(&t));
    }
}

#[test]
fn balance_sized_targets() {
    // level 1, prestige 0: bet limit 10 000
    let rich = player(200_000);
    assert_eq!(GoalDefinition::WinMaxBet.target(&rich), 10_000);
    assert_eq!(GoalDefinition::AllIn.target(&rich), 10_000);
    assert_eq!(GoalDefinition::SendCoins.target(&rich), 2_500);
    let poor = player(300);
    assert_eq!(GoalDefinition::WinMaxBet.target(&poor), 300);
    assert_eq!(GoalDefinition::AllIn.target(&poor), 1_000);
    assert_eq!(GoalDefinition::Gift.target(&poor), 1);
    assert_eq!(GoalDefinition::WinStreak.target(&poor), 3);
    let whale = GameRow { id: 2, coins: 1_000_000, gems: 0, level: Some(50), prestige: Some(0) };
    assert_eq!(GoalDefinition::SendCoins.target(&whale), 50_000);
}

#[test]
fn purchase_and_transfer_goals() {
    let mut lotto = row("lotto", 0, 2);
    let other = Event::ShopPurchase(ShopPurchaseEvent::new(1, "eggplant".to_string()));
    assert!(!GoalDefinition::Lotto.update(&mut lotto, &other));
    let ticket = Event::ShopPurchase(ShopPurchaseEvent::new(1, "lottoticket".to_string()));
    assert!(GoalDefinition::Lotto.update(&mut lotto, &ticket));
    assert!(lotto.is_complete());

    let mut gift = row("gift", 0, 1);
    assert!(!GoalDefinition::Gift.update(&mut gift, &Event::Send(SendEvent::new(2_499, 1))));
    assert!(GoalDefinition::Gift.update(&mut gift, &Event::Send(SendEvent::new(2_500, 1))));
    assert!(gift.completed());

    let mut send = row("sendcoins", 0, 3_000);
    assert!(GoalDefinition::SendCoins.update(&mut send, &Event::Send(SendEvent::new(2_000, 1))));
    assert_eq!(send.progress, 2_000);
    assert!(GoalDefinition::SendCoins.update(&mut send, &Event::Send(SendEvent::new(2_000, 1))));
    assert_eq!(send.progress, 3_000);
}

#[test]
fn higher_lower_and_all_in_goals() {
    let mut streak = row("higherlower", 0, 6);
    let hl = |payout| Event::Game(GameEvent::new("higherorlower".to_string(), 1, payout));
    assert!(GoalDefinition::HigherLower.update(&mut streak, &hl(4_500)));
    assert_eq!(streak.progress, 4);
    assert!(GoalDefinition::HigherLower.update(&mut streak, &hl(2_000)));
    assert_eq!(streak.progress, 2);
    assert!(GoalDefinition::HigherLower.update(&mut streak, &hl(9_000)));
    assert_eq!(streak.progress, 6);
    assert!(!GoalDefinition::HigherLower.update(&mut streak, &win(9_000)));

    let mut all_in = row("allin", 0, 1_000);
    assert!(!GoalDefinition::AllIn.update(&mut all_in, &win(-400)));
    assert_eq!(all_in.progress, 400);
    assert!(GoalDefinition::AllIn.update(&mut all_in, &win(700)));
    assert_eq!(all_in.progress, 1_000);
}

#[test]
fn progress_is_clamped_at_target() {
    let mut goal = row("work", 4, 5);
    goal.update_progress(10);
    assert_eq!(goal.progress, 5);
    goal.update_progress(i64::MAX);
    assert_eq!(goal.progress, 5);
    goal.reset_progress();
    assert_eq!(goal.progress, 0);
    goal.set_completed();
    assert!(goal.is_complete());
}

#[test]
fn unknown_goals_are_skipped() {
    let registry = GoalRegistry::standard();
    assert_eq!(registry.get_definition("retired"), None);
    assert_eq!(registry.get_definition("win3row"), Some(GoalDefinition::WinStreak));
    let stored = vec![row("retired", 0, 1), row("work", 0, 2), row("gift", 0, 1)];
    let mut actor = player(0);
    let (goals, save) = GoalHandler::process_goals(&registry, stored, &mut actor, &Event::Work(1), TODAY);
    assert!(save);
    assert_eq!(goals[0].progress, 0);
    assert_eq!(goals[1].progress, 1);
    assert_eq!(actor.coins, 0);
}

#[test]
fn registry_drops_repeated_ids() {
    let registry = GoalRegistry::new(vec![GoalDefinition::Work, GoalDefinition::Gift, GoalDefinition::Work]);
    assert_eq!(registry.len(), 2);
    assert_eq!(GoalRegistry::standard().len(), 9);
}

#[test]
fn goal_day_checks() {
    let goal = row("work", 0, 1);
    assert!(goal.is_on(TODAY));
    assert!(!goal.is_on(TODAY + 1));
    let ancient = GamblingGoalsRow::new(1, "work".to_string(), 1, 0);
    assert!(!ancient.is_today());
    assert_eq!(ancient.goal_id(), "work");
}

#[test]
fn event_user_ids() {
    assert_eq!(win(1).user_id(), 1);
    assert_eq!(Event::Work(9).user_id(), 9);
    assert_eq!(Event::Send(SendEvent::new(5, 4)).user_id(), 4);
    assert_eq!(Event::ShopPurchase(ShopPurchaseEvent::new(3, "x".to_string())).user_id(), 3);
}
