use gambling::error::Error;
use gambling::games::{
    check_draw, check_win, coinflip_payout, higher_lower_guess, roll_payout, verify_send, CoinSide,
    verify_gift, RPSChoice, GIFT_AMOUNT,
};
use gambling::rows::SendRow;
use gambling::shop::ShopCurrency;

#[test]
fn coinflip_outcomes() {
    assert_eq!(coinflip_payout(100, CoinSide::Tails, CoinSide::Tails, false), 100);
    assert_eq!(coinflip_payout(100, CoinSide::Heads, CoinSide::Tails, false), -100);
    assert_eq!(coinflip_payout(100, CoinSide::Heads, CoinSide::Tails, true), 100_000);
}

#[test]
fn roll_outcomes() {
    assert_eq!(roll_payout(50, 6, 4, 4), 300);
    assert_eq!(roll_payout(50, 6, 4, 5), 0);
    assert_eq!(roll_payout(i64::MAX, 20, 1, 1), i64::MAX);
}

#[test]
fn higher_lower_guesses() {
    assert_eq!(higher_lower_guess(5, 9, true, 0), (true, 1_000));
    assert_eq!(higher_lower_guess(5, 5, false, 1_000), (true, 2_000));
    assert_eq!(higher_lower_guess(5, 2, true, 2_000), (false, 2_000));
}

#[test]
fn tic_tac_toe_lines() {
    let x = Some(1u8);
    let o = Some(2u8);
    let row = vec![x, x, x, o, o, None, None, None, None];
    assert!(check_win(&row, 3, 1));
    assert!(!check_win(&row, 3, 2));
    let column = vec![o, x, None, o, x, None, None, x, None];
    assert!(check_win(&column, 3, 1));
    let diagonal = vec![o, x, None, x, o, None, None, x, o];
    assert!(check_win(&diagonal, 3, 2));
    let anti = vec![None, x, o, x, o, None, o, x, None];
    assert!(check_win(&anti, 3, 2));
    assert!(!check_win(&anti, 3, 1));
    let full = vec![x, o, x, x, o, o, o, x, x];
    assert!(check_draw(&full));
    assert!(!check_win(&full, 3, 1) && !check_win(&full, 3, 2));
    assert!(!check_draw(&row));
}

#[test]
fn transfers() {
    let sender = SendRow { id: 1, coins: 20_000, gems: 0, level: Some(1) };
    assert_eq!(verify_send(&sender, 1, 1, 5), Err(Error::SelfSend));
    assert_eq!(verify_send(&sender, 1, 2, -5), Err(Error::NegativeAmount));
    assert_eq!(
        verify_send(&sender, 1, 2, 25_000),
        Err(Error::InsufficientFunds { required: 5_000, currency: ShopCurrency::Coins })
    );
    assert_eq!(verify_send(&sender, 1, 2, 15_000), Err(Error::MaximumSendAmount(10_000)));
    assert_eq!(verify_send(&sender, 1, 2, 10_000), Ok(()));
}

#[test]
fn option_names() {
    assert_eq!(CoinSide::from_name("heads"), Some(CoinSide::Heads));
    assert_eq!(CoinSide::from_name("tails"), Some(CoinSide::Tails));
    assert_eq!(CoinSide::from_name("edge"), None);
    assert_eq!(RPSChoice::from_name("scissors"), Some(RPSChoice::Scissors));
    assert_eq!(RPSChoice::from_name("Rock"), None);
    assert_eq!(RPSChoice::Paper.name(), "Paper");
}

#[test]
fn gifts() {
    assert_eq!(verify_gift(1, 1, 0, 10, 99), Err(Error::SelfGift));
    assert_eq!(verify_gift(1, 2, 10, 10, 99), Err(Error::GiftUsed(99)));
    assert_eq!(verify_gift(1, 2, 9, 10, 99), Ok(()));
    assert_eq!(GIFT_AMOUNT, 2_500);
}
