use vstd::prelude::*;

use std::collections::HashMap;

use crate::actor::clamp_i64;
use crate::clock::now_timestamp;
use crate::error::Error;

verus! {

broadcast use vstd::std_specs::hash::group_hash_axioms;

/// Seconds a user waits between two games.
pub const GAME_COOLDOWN_SECS: i64 = 5;

/// When each user last played, in Unix seconds.
pub struct GameCache {
    last_played: HashMap<u64, i64>,
}

impl View for GameCache {
    type V = Map<u64, i64>;

    closed spec fn view(&self) -> Map<u64, i64> {
        self.last_played@
    }
}

/// The moment a cooldown that started at `last` ends.
pub open spec fn cooldown_end(last: i64) -> i64 {
    clamp_i64(last + GAME_COOLDOWN_SECS)
}

impl GameCache {
    /// Whether user `id` may play at `now`: refused with the end of the
    /// cooldown while it has not ended.
    pub open spec fn verdict(&self, id: u64, now: i64) -> Result<(), Error> {
        if self@.contains_key(id) && cooldown_end(self@[id]) >= now {
            Err(Error::Cooldown(cooldown_end(self@[id])))
        } else {
            Ok(())
        }
    }

    pub fn new() -> (r: Self)
        ensures
            r@ == Map::<u64, i64>::empty(),
    {
        GameCache { last_played: HashMap::new() }
    }

    /// Refuses a game while the user's cooldown has not ended at `now`.
    pub fn validate_cooldown(&self, id: u64, now: i64) -> (r: Result<(), Error>)
        ensures
            r == self.verdict(id, now),
    {
        match self.last_played.get(&id) {
            Some(last) => {
                let end = if *last > i64::MAX - GAME_COOLDOWN_SECS { i64::MAX } else { *last + GAME_COOLDOWN_SECS };
                if end >= now {
                    return Err(Error::Cooldown(end));
                }
                Ok(())
            },
            None => Ok(()),
        }
    }

    /// `validate_cooldown` at the current time.
    pub fn can_play(&self, id: u64) -> (r: Result<(), Error>)
        ensures
            exists|now: i64| r == #[trigger] self.verdict(id, now),
    {
        self.validate_cooldown(id, now_timestamp())
    }

    /// Records that the user played at `now`.
    pub fn update(&mut self, id: u64, now: i64)
        ensures
            final(self)@ == old(self)@.insert(id, now),
    {
        self.last_played.insert(id, now);
    }
}

} // verus!
