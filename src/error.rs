use vstd::prelude::*;

use crate::shop::ShopCurrency;

verus! {

/// Why a request of a user is refused.
#[derive(Clone, Copy, Debug, PartialEq, Eq, Structural)]
pub enum Error {
    /// More of `currency` is needed: `required` units.
    InsufficientFunds { required: i64, currency: ShopCurrency },
    /// The bet is below the smallest allowed bet.
    MinimumBetAmount(i64),
    /// The bet is above the user's bet limit.
    MaximumBetAmount(i64),
    /// The transfer is above the sender's limit.
    MaximumSendAmount(i64),
    /// A user tried to gift themself.
    SelfGift,
    /// Today's gift was sent; the next opens at the given Unix time (seconds).
    GiftUsed(i64),
    /// A user tried to send coins to themself.
    SelfSend,
    /// The amount is negative.
    NegativeAmount,
    /// The prediction is outside the allowed range.
    InvalidPrediction,
    /// Today's coins were collected; the next claim opens at the given Unix
    /// time (seconds).
    DailyClaimed(i64),
    /// No stamina is left until the given Unix time (seconds).
    OutOfStamina(i64),
    /// The user must wait until the given Unix time (seconds).
    Cooldown(i64),
}

} // verus!
