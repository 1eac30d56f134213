//! The prekeys of a bot, for a program that keeps nothing else of it.

use vstd::prelude::*;
use crate::encoding::{base64_text, fits_base64};
use crate::storage::{prekey_schedule, StorageManager, MAX_INITIAL_MEMBERS};
use crate::types::EncodedPreKey;
use crate::utils::{pushed_path, Config};

verus! {

/// The prekey store of one bot.
#[derive(Clone, Debug, PartialEq, Eq)]
pub struct OtrManager {
    store: StorageManager,
}

impl OtrManager {
    /// The directory of the bot.
    pub closed spec fn dir(&self) -> Seq<char> {
        self.store.dir()
    }

    /// The prekey store of the bot with the given id: its directory is the
    /// id pushed onto the configured store path.
    pub fn new(config: &Config, id: &str) -> (r: Self)
        ensures
            r.dir() == pushed_path(config.store_path(), id@),
    {
        OtrManager { store: StorageManager::new(config, id) }
    }

    /// The prekeys of a new bot in a conversation of `keys` members, as
    /// `StorageManager::initialize_prekeys` gives them.
    pub fn initialize(&self, keys: usize, fresh: &Vec<Vec<u8>>) -> (r: Vec<EncodedPreKey>)
        requires
            keys <= MAX_INITIAL_MEMBERS,
            fresh@.len() == 8 * keys + 1,
            forall|i: int| 0 <= i < fresh@.len() ==> fits_base64(#[trigger] fresh@[i]@.len()),
        ensures
            r@.len() == 8 * keys + 1,
            forall|i: int|
                0 <= i < r@.len() ==> (#[trigger] r@[i]).id == prekey_schedule(keys as nat)[i]
                    && r@[i].key@ == base64_text(fresh@[i]@),
    {
        StorageManager::initialize_prekeys(keys, fresh)
    }
}

} // verus!
