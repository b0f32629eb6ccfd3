use gambling::lotto::Lotto;
use gambling::rows::LottoRow;

fn holder(id: i64, tickets: i64) -> LottoRow {
    LottoRow { id, coins: 0, quantity: Some(tickets) }
}

#[test]
fn ticket_totals() {
    let rows = vec![holder(1, 3), holder(2, 0), LottoRow { id: 3, coins: 0, quantity: None }, holder(4, 7)];
    assert_eq!(Lotto::total_tickets(&rows), 10);
    assert_eq!(Lotto::total_tickets(&Vec::new()), 0);
    assert_eq!(Lotto::total_tickets(&vec![holder(1, i64::MAX), holder(2, 5)]), i64::MAX);
}

#[test]
fn winners_hold_tickets_and_are_drawn_once() {
    for _ in 0..20 {
        let rows = vec![holder(1, 2), holder(2, 0), holder(3, 5), holder(4, 1)];
        let winners = Lotto::draw_winners(rows, 3);
        assert_eq!(winners.len(), 3);
        let mut ids: Vec<i64> = winners.iter().map(|w| w.id).collect();
        assert!(!ids.contains(&2));
        ids.sort();
        ids.dedup();
        assert_eq!(ids.len(), 3);
    }
}

#[test]
fn draw_stops_when_tickets_run_out() {
    let rows = vec![holder(1, 0), holder(2, 4), holder(3, 0)];
    let winners = Lotto::draw_winners(rows, 3);
    assert_eq!(winners.len(), 1);
    assert_eq!(winners[0].id, 2);
    assert!(Lotto::draw_winners(Vec::new(), 3).is_empty());
}
