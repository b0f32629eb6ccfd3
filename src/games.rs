use vstd::prelude::*;

use crate::actor::{clamp_i64, clamp_to_i64, max_bet_of, Coins, MaxBet};
use crate::error::Error;
use crate::shop::ShopCurrency;

verus! {

/// A side of a coin.
#[derive(Clone, Copy, Debug, PartialEq, Eq, Structural)]
pub enum CoinSide {
    Heads,
    Tails,
}

impl CoinSide {
    pub fn opposite(&self) -> (r: CoinSide)
        ensures
            r != *self,
    {
        match self {
            CoinSide::Heads => CoinSide::Tails,
            CoinSide::Tails => CoinSide::Heads,
        }
    }

    pub fn name(&self) -> (r: &'static str)
        ensures
            r@ == (match self {
                CoinSide::Heads => "Heads"@,
                CoinSide::Tails => "Tails"@,
            }),
    {
        match self {
            CoinSide::Heads => "Heads",
            CoinSide::Tails => "Tails",
        }
    }

    /// The side named by a command option: "heads" or "tails".
    pub fn from_name(s: &str) -> (r: Option<CoinSide>)
        ensures
            r == if s@ == "heads"@ {
                Some(CoinSide::Heads)
            } else if s@ == "tails"@ {
                Some(CoinSide::Tails)
            } else {
                None::<CoinSide>
            },
    {
        let given = s.to_owned();
        if given == "heads".to_owned() {
            Some(CoinSide::Heads)
        } else if given == "tails".to_owned() {
            Some(CoinSide::Tails)
        } else {
            None
        }
    }
}

/// A hand in rock, paper, scissors.
#[derive(Clone, Copy, Debug, PartialEq, Eq, Structural)]
pub enum RPSChoice {
    Rock,
    Paper,
    Scissors,
}

impl RPSChoice {
    /// Whether `a` beats `b`.
    pub open spec fn beats(a: RPSChoice, b: RPSChoice) -> bool {
        (a == RPSChoice::Rock && b == RPSChoice::Scissors) || (a == RPSChoice::Paper && b == RPSChoice::Rock) || (
        a == RPSChoice::Scissors && b == RPSChoice::Paper)
    }

    pub fn name(&self) -> (r: &'static str)
        ensures
            r@ == (match self {
                RPSChoice::Rock => "Rock"@,
                RPSChoice::Paper => "Paper"@,
                RPSChoice::Scissors => "Scissors"@,
            }),
    {
        match self {
            RPSChoice::Rock => "Rock",
            RPSChoice::Paper => "Paper",
            RPSChoice::Scissors => "Scissors",
        }
    }

    /// The hand named by a command option: "rock", "paper" or "scissors".
    pub fn from_name(s: &str) -> (r: Option<RPSChoice>)
        ensures
            r == if s@ == "rock"@ {
                Some(RPSChoice::Rock)
            } else if s@ == "paper"@ {
                Some(RPSChoice::Paper)
            } else if s@ == "scissors"@ {
                Some(RPSChoice::Scissors)
            } else {
                None::<RPSChoice>
            },
    {
        let given = s.to_owned();
        if given == "rock".to_owned() {
            Some(RPSChoice::Rock)
        } else if given == "paper".to_owned() {
            Some(RPSChoice::Paper)
        } else if given == "scissors".to_owned() {
            Some(RPSChoice::Scissors)
        } else {
            None
        }
    }

    /// `None` on a draw, else whether this hand wins against `opponent`.
    pub fn winner(&self, opponent: &Self) -> (r: Option<bool>)
        ensures
            r == if *self == *opponent {
                None
            } else {
                Some(Self::beats(*self, *opponent))
            },
    {
        if *self == *opponent {
            None
        } else {
            match (self, opponent) {
                (RPSChoice::Rock, RPSChoice::Scissors)
                | (RPSChoice::Paper, RPSChoice::Rock)
                | (RPSChoice::Scissors, RPSChoice::Paper) => Some(true),
                _ => Some(false),
            }
        }
    }
}

/// Accepts a prediction within `min..=max`.
pub fn verify_prediction(prediction: i64, min: i64, max: i64) -> (r: Result<(), Error>)
    ensures
        r is Ok <==> min <= prediction <= max,
        r is Err ==> r == Err::<(), Error>(Error::InvalidPrediction),
{
    if prediction > max || prediction < min {
        return Err(Error::InvalidPrediction);
    }
    Ok(())
}

/// Payout of a coin flip staking `bet` on `prediction`: a thousand times
/// the stake when the coin lands on its edge, the stake when it lands on the
/// predicted side, and minus the stake otherwise.
pub open spec fn coinflip_outcome(bet: i64, prediction: CoinSide, landed: CoinSide, edge: bool) -> int {
    if edge {
        bet * 1000
    } else if landed == prediction {
        bet as int
    } else {
        -bet
    }
}

pub fn coinflip_payout(bet: i64, prediction: CoinSide, landed: CoinSide, edge: bool) -> (r: i64)
    requires
        0 <= bet,
        bet * 1000 <= i64::MAX,
    ensures
        r == coinflip_outcome(bet, prediction, landed, edge),
{
    if edge {
        bet * 1000
    } else if landed == prediction {
        bet
    } else {
        -bet
    }
}

/// Payout of a die roll staking `bet` on `prediction` with an `n_sides`
/// die: the stake times the number of sides on a hit, nothing on a miss.
pub fn roll_payout(bet: i64, n_sides: i64, prediction: i64, roll: i64) -> (r: i64)
    ensures
        r == if roll == prediction { clamp_i64(bet * n_sides) } else { 0 },
{
    if roll == prediction {
        let (b, n) = (bet as i128, n_sides as i128);
        assert(-0x4000_0000_0000_0000_0000_0000_0000_0000i128 <= b * n <= 0x4000_0000_0000_0000_0000_0000_0000_0000i128) by (nonlinear_arith)
            requires
                -0x8000_0000_0000_0000i128 <= b < 0x8000_0000_0000_0000i128,
                -0x8000_0000_0000_0000i128 <= n < 0x8000_0000_0000_0000i128,
        ;
        clamp_to_i64(b * n)
    } else {
        0
    }
}

/// Coins a right guess adds on higher or lower.
pub const HIGHER_LOWER_STEP: i64 = 1000;

/// One guess on higher or lower: whether the next card `next` bears out the
/// guess (ties count for the player) and the payout after it.
pub fn higher_lower_guess(prev: u8, next: u8, higher: bool, payout: i64) -> (r: (bool, i64))
    requires
        payout + HIGHER_LOWER_STEP <= i64::MAX,
    ensures
        r.0 == if higher { next >= prev } else { next <= prev },
        r.1 == if r.0 { payout + HIGHER_LOWER_STEP } else { payout as int },
{
    let winner = if higher { next >= prev } else { next <= prev };
    (winner, if winner { payout + HIGHER_LOWER_STEP } else { payout })
}

/// Whether the cells at `(r, c)` for every `k` below `size` on a line all
/// hold `mark`; the board is stored row by row.
pub open spec fn line_held(board: Seq<Option<u8>>, size: int, mark: u8, start: int, step: int) -> bool {
    forall|k: int| 0 <= k < size ==> #[trigger] board[start + k * step] == Some(mark)
}

/// Whether `mark` holds a full row, column or diagonal of a `size` by
/// `size` board stored row by row.
pub open spec fn has_line(board: Seq<Option<u8>>, size: int, mark: u8) -> bool {
    ||| exists|r: int| 0 <= r < size && #[trigger] line_held(board, size, mark, r * size, 1)
    ||| exists|c: int| 0 <= c < size && #[trigger] line_held(board, size, mark, c, size)
    ||| line_held(board, size, mark, 0, size + 1)
    ||| line_held(board, size, mark, size - 1, size - 1)
}

fn line_check(board: &Vec<Option<u8>>, size: usize, mark: u8, start: usize, step: usize) -> (r: bool)
    requires
        1 <= size <= 0xffff,
        board@.len() == size * size,
        start + (size - 1) * step < size * size,
    ensures
        r == line_held(board@, size as int, mark, start as int, step as int),
{
    let mut k: usize = 0;
    while k < size
        invariant
            0 <= k <= size,
            1 <= size <= 0xffff,
            board@.len() == size * size,
            start + (size - 1) * step < size * size,
            forall|j: int| 0 <= j < k ==> #[trigger] board@[start + j * step] == Some(mark),
        decreases size - k,
    {
        assert(k * step <= (size - 1) * step) by (nonlinear_arith)
            requires
                k <= size - 1,
                0 <= step,
        ;
        assert(size * size <= 0xffff * 0xffff) by (nonlinear_arith)
            requires
                1 <= size <= 0xffff,
        ;
        let cell = board[start + k * step];
        if cell != Some(mark) {
            return false;
        }
        k += 1;
    }
    true
}

/// Whether `mark` has completed a line of the board.
pub fn check_win(board: &Vec<Option<u8>>, size: usize, mark: u8) -> (r: bool)
    requires
        1 <= size <= 0xffff,
        board@.len() == size * size,
    ensures
        r == has_line(board@, size as int, mark),
{
    let ghost n = size as int;
    let mut r: usize = 0;
    while r < size
        invariant
            0 <= r <= size,
            1 <= size <= 0xffff,
            n == size,
            board@.len() == size * size,
            forall|j: int| 0 <= j < r ==> !#[trigger] line_held(board@, n, mark, j * n, 1),
        decreases size - r,
    {
        assert(r * size + (size - 1) * 1 < size * size) by (nonlinear_arith)
            requires
                r < size,
        ;
        assert(r * size <= size * size <= 0xffff * 0xffff) by (nonlinear_arith)
            requires
                r < size,
                size <= 0xffff,
        ;
        if line_check(board, size, mark, r * size, 1) {
            return true;
        }
        r += 1;
    }
    let mut c: usize = 0;
    while c < size
        invariant
            0 <= c <= size,
            1 <= size <= 0xffff,
            n == size,
            board@.len() == size * size,
            forall|j: int| 0 <= j < size ==> !#[trigger] line_held(board@, n, mark, j * n, 1),
            forall|j: int| 0 <= j < c ==> !#[trigger] line_held(board@, n, mark, j, n),
        decreases size - c,
    {
        assert(c + (size - 1) * size < size * size) by (nonlinear_arith)
            requires
                c < size,
        ;
        if line_check(board, size, mark, c, size) {
            return true;
        }
        c += 1;
    }
    assert(0 + (size - 1) * (size + 1) < size * size) by (nonlinear_arith)
        requires
            1 <= size,
    ;
    if line_check(board, size, mark, 0, size + 1) {
        return true;
    }
    assert((size - 1) + (size - 1) * (size - 1) < size * size) by (nonlinear_arith)
        requires
            1 <= size,
    ;
    line_check(board, size, mark, size - 1, size - 1)
}

/// Whether every cell of the board is taken.
pub fn check_draw(board: &Vec<Option<u8>>) -> (r: bool)
    ensures
        r == forall|i: int| 0 <= i < board@.len() ==> (#[trigger] board@[i]) is Some,
{
    let mut i: usize = 0;
    while i < board.len()
        invariant
            0 <= i <= board@.len(),
            forall|j: int| 0 <= j < i ==> (#[trigger] board@[j]) is Some,
        decreases board@.len() - i,
    {
        if board[i].is_none() {
            return false;
        }
        i += 1;
    }
    true
}

/// Checks a transfer of `amount` coins from `sender` (user `sender_id`) to
/// user `recipient_id`.
pub fn verify_send<R: Coins + MaxBet>(sender: &R, sender_id: u64, recipient_id: u64, amount: i64) -> (r: Result<(), Error>)
    ensures
        r == if recipient_id == sender_id {
            Err(Error::SelfSend)
        } else if amount < 0 {
            Err(Error::NegativeAmount)
        } else if sender.coin_balance() < amount {
            Err(
                Error::InsufficientFunds {
                    required: clamp_i64(amount - sender.coin_balance()),
                    currency: ShopCurrency::Coins,
                },
            )
        } else if amount > max_bet_of(sender.level_of(), sender.prestige_of()) {
            Err(Error::MaximumSendAmount(max_bet_of(sender.level_of(), sender.prestige_of())))
        } else {
            Ok(())
        },
{
    if recipient_id == sender_id {
        return Err(Error::SelfSend);
    }
    if amount < 0 {
        return Err(Error::NegativeAmount);
    }
    let coins = sender.coins();
    if coins < amount {
        return Err(
            Error::InsufficientFunds {
                required: clamp_to_i64(amount as i128 - coins as i128),
                currency: ShopCurrency::Coins,
            },
        );
    }
    let max_send = sender.max_bet();
    if amount > max_send {
        return Err(Error::MaximumSendAmount(max_send));
    }
    Ok(())
}

/// Coins a daily gift gives (two and a half start amounts).
pub const GIFT_AMOUNT: i64 = 2500;

/// Checks a daily gift from user `sender_id`, who last gave on day
/// `last_gift`, to user `recipient_id` on day `today`; a refusal for a gift
/// already given names `next_reset` (Unix seconds).
pub fn verify_gift(sender_id: u64, recipient_id: u64, last_gift: i32, today: i32, next_reset: i64) -> (r: Result<(), Error>)
    ensures
        r == if recipient_id == sender_id {
            Err(Error::SelfGift)
        } else if last_gift == today {
            Err(Error::GiftUsed(next_reset))
        } else {
            Ok(())
        },
{
    if recipient_id == sender_id {
        return Err(Error::SelfGift);
    }
    if last_gift == today {
        return Err(Error::GiftUsed(next_reset));
    }
    Ok(())
}

} // verus!
