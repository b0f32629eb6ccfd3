use vstd::prelude::*;

verus! {

/// A completed wager: `payout` is the signed amount credited (negative on a loss).
pub struct GameEvent {
    pub game_id: String,
    pub user_id: u64,
    pub payout: i64,
}

impl GameEvent {
    pub fn new(id: String, user_id: u64, payout: i64) -> (r: Self)
        ensures
            r.game_id@ == id@,
            r.user_id == user_id,
            r.payout == payout,
    {
        GameEvent { game_id: id, user_id, payout }
    }
}

/// A purchase of one shop item.
pub struct ShopPurchaseEvent {
    pub user_id: u64,
    pub item_id: String,
}

impl ShopPurchaseEvent {
    pub fn new(user_id: u64, item_id: String) -> (r: Self)
        ensures
            r.user_id == user_id,
            r.item_id@ == item_id@,
    {
        ShopPurchaseEvent { user_id, item_id }
    }
}

/// A transfer of coins from `sender` to another user.
pub struct SendEvent {
    pub amount: i64,
    pub sender: u64,
}

impl SendEvent {
    pub fn new(amount: i64, sender: u64) -> (r: Self)
        ensures
            r.amount == amount,
            r.sender == sender,
    {
        SendEvent { amount, sender }
    }
}

/// One economic action of a user, as fed to the goal engine.
pub enum Event {
    Game(GameEvent),
    ShopPurchase(ShopPurchaseEvent),
    Send(SendEvent),
    Work(u64),
}

impl Event {
    /// The user who performed the action.
    pub open spec fn actor(&self) -> u64 {
        match self {
            Event::Game(e) => e.user_id,
            Event::Work(id) => *id,
            Event::Send(e) => e.sender,
            Event::ShopPurchase(e) => e.user_id,
        }
    }

    pub fn user_id(&self) -> (r: u64)
        ensures
            r == self.actor(),
    {
        match self {
            Event::Game(e) => e.user_id,
            Event::Work(id) => *id,
            Event::Send(e) => e.sender,
            Event::ShopPurchase(e) => e.user_id,
        }
    }
}

} // verus!
