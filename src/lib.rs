//! Economy core of a chat gambling bot: the payout resolver that applies a
//! user's active boosts to a wager's outcome, and the daily goal engine that
//! selects, tracks and rewards a user's quests.

pub mod actor;
mod clock;
mod entropy;
pub mod cooldown;
pub mod craft;
pub mod effects;
pub mod error;
pub mod events;
pub mod games;
pub mod goals;
pub mod inventory;
pub mod lotto;
pub mod mine;
pub mod prestige;
pub mod rows;
pub mod shop;
pub mod stamina;
pub mod text;
pub mod tracker;
