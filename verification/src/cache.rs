//! The bots that a process serves, by id.

use vstd::prelude::*;
use std::collections::HashMap;

verus! {

/// `bots` after `state` has been offered for the bot: it goes in only where
/// the bot has no state yet.
pub open spec fn offered<H>(bots: Map<u128, H>, bot_id: u128, state: H) -> Map<u128, H> {
    if bots.contains_key(bot_id) {
        bots
    } else {
        bots.insert(bot_id, state)
    }
}

/// Of two states offered for one bot the first stays: the second offer
/// changes nothing, and both who offered find the same state afterwards.
/// For another bot nothing changes either way.
pub proof fn first_offer_stays<H>(bots: Map<u128, H>, bot_id: u128, first: H, second: H)
    ensures
        offered(offered(bots, bot_id, first), bot_id, second) == offered(bots, bot_id, first),
        offered(bots, bot_id, first).contains_key(bot_id),
        !bots.contains_key(bot_id) ==> offered(bots, bot_id, first)[bot_id] == first,
        bots.contains_key(bot_id) ==> offered(bots, bot_id, first)[bot_id] == bots[bot_id],
        forall|other: u128|
            other != bot_id ==> (#[trigger] offered(bots, bot_id, first).contains_key(other)
                == bots.contains_key(other)),
{
}

/// A bot that was evicted has no state until one is offered again, and
/// then the offer goes in.
pub proof fn evicted_bot_returns<H>(bots: Map<u128, H>, bot_id: u128, state: H)
    ensures
        !bots.remove(bot_id).contains_key(bot_id),
        offered(bots.remove(bot_id), bot_id, state)[bot_id] == state,
{
}

/// The state of each bot that has been seen since the process started and
/// has not left its conversation since. There is at most one state per bot.
pub struct BotCache<H> {
    bots: HashMap<u128, H>,
}

impl<H> View for BotCache<H> {
    type V = Map<u128, H>;

    closed spec fn view(&self) -> Map<u128, H> {
        self.bots@
    }
}

impl<H> BotCache<H> {
    /// The cache without any bot.
    pub fn new() -> (r: Self)
        ensures
            r@ == Map::<u128, H>::empty(),
    {
        BotCache { bots: HashMap::new() }
    }

    /// The number of bots.
    pub fn len(&self) -> (n: usize)
        ensures
            n == self@.len(),
    {
        self.bots.len()
    }

    /// The state of the bot, if the cache holds it.
    pub fn get(&self, bot_id: u128) -> (r: Option<&H>)
        ensures
            match r {
                Some(h) => self@.contains_key(bot_id) && *h == self@[bot_id],
                None => !self@.contains_key(bot_id),
            },
    {
        self.bots.get(&bot_id)
    }

    /// Puts the state of a bot into the cache unless the cache holds one
    /// for that bot already, in which case that one stays and `state` is
    /// dropped. Says whether `state` went in.
    pub fn insert_if_absent(&mut self, bot_id: u128, state: H) -> (inserted: bool)
        ensures
            inserted == !old(self)@.contains_key(bot_id),
            final(self)@ == offered(old(self)@, bot_id, state),
    {
        if self.bots.contains_key(&bot_id) {
            false
        } else {
            self.bots.insert(bot_id, state);
            true
        }
    }

    /// Removes the bot from the cache. Says whether it was there.
    pub fn evict(&mut self, bot_id: u128) -> (removed: bool)
        ensures
            removed == old(self)@.contains_key(bot_id),
            final(self)@ == old(self)@.remove(bot_id),
    {
        self.bots.remove(&bot_id).is_some()
    }
}

} // verus!
