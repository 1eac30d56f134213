//! What a bot keeps on disk, and the rules by which messages are encrypted
//! for the devices of a conversation. The store itself (files, sessions and
//! the ratchet) is driven by the program around the library; what to ask of
//! it and what to make of its answers is decided here.

use vstd::prelude::*;
use vstd::string::*;
use crate::assoc::position_of;
use crate::devices::DeviceMap;
use crate::encoding::{base64_bytes, base64_decode, base64_encode, base64_text, fits_base64};
use crate::errors::{BerylliumError, BerylliumResult};
use crate::recipients::{cipher_after_add, cipher_for, well_keyed, with_cipher,
    with_cipher_keeps_keys, Recipients};
use crate::text::{join3, same_text};
use crate::types::EncodedPreKey;
use crate::utils::{get_store_path, push_path, pushed_path, Config};

verus! {

/// The name under which the session with a device is kept.
pub open spec fn session_name(user: Seq<char>, client: Seq<char>) -> Seq<char> {
    user + "_"@ + client
}

/// The ids of the prekeys that a bot issues when it joins a conversation of
/// `n` members: `0` to `8n - 1` in rising order, then the id of the last
/// resort prekey, `65535`.
pub open spec fn prekey_schedule(n: nat) -> Seq<u16> {
    Seq::new(
        8 * n + 1,
        |i: int|
            if i < 8 * n {
                i as u16
            } else {
                65535u16
            },
    )
}

/// The largest number of members for which every scheduled id but the last
/// is below the id of the last resort prekey.
pub const MAX_INITIAL_MEMBERS: usize = 8191;

/// Where the session for an encryption comes from.
#[derive(Clone, Debug, PartialEq, Eq)]
pub enum SessionSource {
    /// The session that the store holds.
    Stored,
    /// A new session, started from this prekey of the device.
    Prekey(Vec<u8>),
}

/// One device to encrypt for.
#[derive(Clone, Debug, PartialEq, Eq)]
pub struct DeviceTarget {
    pub user: String,
    pub client: String,
    pub session_id: String,
}

/// What the store made of the attempt to encrypt for one device with the
/// session it holds.
#[derive(Clone, Debug, PartialEq, Eq)]
pub struct DeviceOutcome {
    pub user: String,
    pub client: String,
    /// Whether the store holds a session with the device.
    pub stored: bool,
    /// The ciphertext, where encryption succeeded.
    pub cipher: Option<Vec<u8>>,
    /// Whether the session was saved after the encryption.
    pub saved: bool,
}

/// A `DeviceOutcome` as a mathematical value.
pub struct OutcomeView {
    pub user: Seq<char>,
    pub client: Seq<char>,
    pub stored: bool,
    pub cipher: Option<Seq<u8>>,
    pub saved: bool,
}

impl DeepView for DeviceOutcome {
    type V = OutcomeView;

    open spec fn deep_view(&self) -> OutcomeView {
        OutcomeView {
            user: self.user@,
            client: self.client@,
            stored: self.stored,
            cipher: match self.cipher {
                Some(c) => Some(c@),
                None => None,
            },
            saved: self.saved,
        }
    }
}

/// A device receives the message exactly when the store held a session,
/// the encryption succeeded and the session was saved.
pub open spec fn included(o: OutcomeView) -> bool {
    o.stored && o.cipher.is_some() && o.saved
}

/// The recipients that the outcomes give: for each included device the
/// base64 text of its ciphertext; of two outcomes for one device the first
/// included one counts.
pub open spec fn fan_out(outcomes: Seq<OutcomeView>) -> Seq<(Seq<char>, Seq<(Seq<char>, Seq<char>)>)>
    decreases outcomes.len(),
{
    if outcomes.len() == 0 {
        Seq::empty()
    } else {
        let before = fan_out(outcomes.drop_last());
        let o = outcomes.last();
        if included(o) {
            with_cipher(before, o.user, o.client, base64_text(o.cipher.unwrap()))
        } else {
            before
        }
    }
}

/// The ciphertext of the first included outcome for the device.
pub open spec fn first_cipher(outcomes: Seq<OutcomeView>, user: Seq<char>, client: Seq<char>) -> Option<
    Seq<u8>,
>
    decreases outcomes.len(),
{
    if outcomes.len() == 0 {
        None
    } else {
        let o = outcomes.last();
        match first_cipher(outcomes.drop_last(), user, client) {
            Some(c) => Some(c),
            None => if included(o) && o.user == user && o.client == client {
                o.cipher
            } else {
                None
            },
        }
    }
}

/// Whether some outcome for the device is one that includes it.
pub open spec fn reaches(outcomes: Seq<OutcomeView>, user: Seq<char>, client: Seq<char>) -> bool {
    exists|i: int|
        0 <= i < outcomes.len() && included(#[trigger] outcomes[i]) && outcomes[i].user == user
            && outcomes[i].client == client
}

/// A device is among the recipients of a message exactly when the store
/// held a session with it, encrypted for it and saved the session; what it
/// receives is the base64 text of the first ciphertext made for it.
pub proof fn fan_out_reaches(outcomes: Seq<OutcomeView>, user: Seq<char>, client: Seq<char>)
    ensures
        cipher_for(fan_out(outcomes), user, client).is_some() <==> reaches(outcomes, user, client),
        cipher_for(fan_out(outcomes), user, client) == match first_cipher(outcomes, user, client) {
            Some(c) => Some(base64_text(c)),
            None => None,
        },
        first_cipher(outcomes, user, client).is_some() <==> reaches(outcomes, user, client),
    decreases outcomes.len(),
{
    if outcomes.len() == 0 {
        assert(position_of(fan_out(outcomes), user).is_none());
    } else {
        let front = outcomes.drop_last();
        let o = outcomes.last();
        fan_out_reaches(front, user, client);
        if included(o) {
            cipher_after_add(
                fan_out(front),
                o.user,
                o.client,
                base64_text(o.cipher.unwrap()),
                user,
                client,
            );
            fan_out_reaches(front, o.user, o.client);
        }
        if reaches(front, user, client) {
            let i = choose|i: int|
                0 <= i < front.len() && included(#[trigger] front[i]) && front[i].user == user
                    && front[i].client == client;
            assert(included(outcomes[i]) && outcomes[i].user == user && outcomes[i].client == client);
        }
        if included(o) && o.user == user && o.client == client {
            assert(included(outcomes[outcomes.len() - 1]));
        }
        if reaches(outcomes, user, client) {
            let i = choose|i: int|
                0 <= i < outcomes.len() && included(#[trigger] outcomes[i]) && outcomes[i].user
                    == user && outcomes[i].client == client;
            if i < front.len() {
                assert(included(front[i]) && front[i].user == user && front[i].client == client);
            }
        }
    }
}

/// Among the recipients no user and no client of a user occurs twice.
pub proof fn fan_out_is_well_keyed(outcomes: Seq<OutcomeView>)
    ensures
        well_keyed(fan_out(outcomes)),
    decreases outcomes.len(),
{
    if outcomes.len() > 0 {
        let o = outcomes.last();
        fan_out_is_well_keyed(outcomes.drop_last());
        if included(o) {
            with_cipher_keeps_keys(
                fan_out(outcomes.drop_last()),
                o.user,
                o.client,
                base64_text(o.cipher.unwrap()),
            );
        }
    }
}

/// The scheduled ids are all different, the last resort prekey comes last,
/// and the ids before it rise from zero one by one.
pub proof fn prekey_schedule_is_strict(n: nat)
    requires
        n <= MAX_INITIAL_MEMBERS,
    ensures
        prekey_schedule(n).len() == 8 * n + 1,
        prekey_schedule(n).last() == 65535,
        forall|i: int| 0 <= i < 8 * n ==> #[trigger] prekey_schedule(n)[i] == i,
        forall|i: int, j: int|
            0 <= i < j < prekey_schedule(n).len() ==> prekey_schedule(n)[i] != prekey_schedule(n)[j],
{
}

/// The devices of `devices` one by one: users in their order, and the
/// clients of each user in theirs.
pub open spec fn targets_of(devices: Seq<(Seq<char>, Seq<Seq<char>>)>) -> Seq<(Seq<char>, Seq<char>)>
    decreases devices.len(),
{
    if devices.len() == 0 {
        Seq::empty()
    } else {
        targets_of(devices.drop_last()) + Seq::new(
            devices.last().1.len(),
            |j: int| (devices.last().0, devices.last().1[j]),
        )
    }
}

/// Whether the outcomes are those of the targets: one for each target, in
/// the order of the targets, each for the device of its target.
pub open spec fn answers(outcomes: Seq<OutcomeView>, targets: Seq<(Seq<char>, Seq<char>)>) -> bool {
    &&& outcomes.len() == targets.len()
    &&& forall|i: int|
        0 <= i < outcomes.len() ==> (#[trigger] outcomes[i]).user == targets[i].0
            && outcomes[i].client == targets[i].1
}

/// Where the outcomes are those of the targets, every recipient is one of
/// the targets.
pub proof fn fan_out_stays_within(
    outcomes: Seq<OutcomeView>,
    targets: Seq<(Seq<char>, Seq<char>)>,
    user: Seq<char>,
    client: Seq<char>,
)
    requires
        answers(outcomes, targets),
        cipher_for(fan_out(outcomes), user, client).is_some(),
    ensures
        targets.contains((user, client)),
{
    fan_out_reaches(outcomes, user, client);
    let i = choose|i: int|
        0 <= i < outcomes.len() && included(#[trigger] outcomes[i]) && outcomes[i].user == user
            && outcomes[i].client == client;
    assert(targets[i] == (user, client));
}

/// The store of one bot.
#[derive(Debug, PartialEq, Eq)]
pub struct StorageManager {
    path: String,
}

impl Clone for StorageManager {
    fn clone(&self) -> (r: StorageManager)
        ensures
            r.dir() == self.dir(),
    {
        StorageManager { path: self.path.clone() }
    }
}

impl StorageManager {
    /// The directory of the bot.
    pub closed spec fn dir(&self) -> Seq<char> {
        self.path@
    }

    /// The store of the bot with the given id: its directory is the id
    /// pushed onto the configured store path.
    pub fn new(config: &Config, id: &str) -> (r: Self)
        ensures
            r.dir() == pushed_path(config.store_path(), id@),
    {
        let root = get_store_path(config);
        StorageManager { path: push_path(root.as_str(), id) }
    }

    /// The directory of the bot.
    pub fn path(&self) -> (r: &str)
        ensures
            r@ == self.dir(),
    {
        self.path.as_str()
    }

    /// The file in which the bot's creation data is kept.
    pub fn state_path(&self) -> (r: String)
        ensures
            r@ == pushed_path(self.dir(), "bot_data.json"@),
    {
        proof {
            reveal_strlit("bot_data.json");
        }
        push_path(self.path.as_str(), "bot_data.json")
    }

    /// The name under which the session with a device is kept.
    pub fn session_id(user_id: &str, client_id: &str) -> (r: String)
        ensures
            r@ == session_name(user_id@, client_id@),
    {
        join3(user_id, "_", client_id)
    }

    /// The ids of the prekeys to issue for a conversation of `keys` members.
    pub fn prekey_ids(keys: usize) -> (r: Vec<u16>)
        requires
            keys <= MAX_INITIAL_MEMBERS,
        ensures
            r@ == prekey_schedule(keys as nat),
    {
        let mut ids: Vec<u16> = Vec::new();
        let limit: u16 = (8 * keys) as u16;
        let mut i: u16 = 0;
        while i < limit
            invariant
                i <= limit,
                limit == 8 * keys,
                ids@.len() == i,
                forall|j: int| 0 <= j < i ==> ids@[j] == j as u16,
            decreases limit - i,
        {
            ids.push(i);
            i = i + 1;
        }
        ids.push(u16::MAX);
        assert(ids@ =~= prekey_schedule(keys as nat));
        ids
    }

    /// The prekeys of a new bot in a conversation of `keys` members, ready
    /// to be sent to the platform: `fresh` holds the serialised prekeys
    /// that the store generated for the scheduled ids, in the order of the
    /// schedule. The last resort prekey comes last.
    pub fn initialize_prekeys(keys: usize, fresh: &Vec<Vec<u8>>) -> (r: Vec<EncodedPreKey>)
        requires
            keys <= MAX_INITIAL_MEMBERS,
            fresh@.len() == 8 * keys + 1,
            forall|i: int| 0 <= i < fresh@.len() ==> fits_base64(#[trigger] fresh@[i]@.len()),
        ensures
            r@.len() == 8 * keys + 1,
            forall|i: int|
                0 <= i < r@.len() ==> (#[trigger] r@[i]).id == prekey_schedule(keys as nat)[i]
                    && r@[i].key@ == base64_text(fresh@[i]@),
    {
        let ids = Self::prekey_ids(keys);
        let mut out: Vec<EncodedPreKey> = Vec::new();
        let mut i: usize = 0;
        while i < fresh.len()
            invariant
                i <= fresh.len(),
                fresh@.len() == 8 * keys + 1,
                ids@ == prekey_schedule(keys as nat),
                out@.len() == i,
                forall|j: int| 0 <= j < fresh@.len() ==> fits_base64(#[trigger] fresh@[j]@.len()),
                forall|j: int|
                    0 <= j < i ==> (#[trigger] out@[j]).id == ids@[j] && out@[j].key@
                        == base64_text(fresh@[j]@),
            decreases fresh.len() - i,
        {
            let key = base64_encode(fresh[i].as_slice());
            out.push(EncodedPreKey { id: ids[i], key });
            i = i + 1;
        }
        out
    }

    /// Where the session for an encryption comes from: the stored session
    /// where there is one, whatever prekey is offered; else a new session
    /// from the prekey; without either the encryption cannot be done.
    pub fn encrypt(stored: bool, prekey: Option<Vec<u8>>) -> (r: BerylliumResult<SessionSource>)
        ensures
            stored ==> r == Ok::<SessionSource, BerylliumError>(SessionSource::Stored),
            !stored ==> match prekey {
                Some(p) => r == Ok::<SessionSource, BerylliumError>(SessionSource::Prekey(p)),
                None => r == Err::<SessionSource, BerylliumError>(BerylliumError::MissingPrekey),
            },
    {
        if stored {
            Ok(SessionSource::Stored)
        } else {
            match prekey {
                Some(p) => Ok(SessionSource::Prekey(p)),
                None => Err(BerylliumError::MissingPrekey),
            }
        }
    }

    /// A ciphertext as it goes to the platform: in base64, from which
    /// `decrypt` reads the ciphertext back.
    pub fn encode_cipher(cipher: &[u8]) -> (r: String)
        requires
            fits_base64(cipher@.len()),
        ensures
            r@ == base64_text(cipher@),
            base64_bytes(r@) == Some(cipher@),
    {
        base64_encode(cipher)
    }

    /// The bytes of a ciphertext that arrived in base64. Text that is no
    /// base64 is an error, and nothing is asked of the store.
    pub fn decrypt(data: &str) -> (r: BerylliumResult<Vec<u8>>)
        ensures
            match base64_bytes(data@) {
                Some(b) => r matches Ok(v) && v@ == b,
                None => r matches Err(e) && e is Base64,
            },
    {
        match base64_decode(data) {
            Ok(v) => Ok(v),
            Err(e) => Err(BerylliumError::Base64(e.to_string())),
        }
    }

    /// The devices to encrypt for, one by one, each with the name of its
    /// session.
    pub fn fan_out_targets(devices: &DeviceMap) -> (r: Vec<DeviceTarget>)
        ensures
            r@.len() == targets_of(devices@).len(),
            forall|i: int|
                0 <= i < r@.len() ==> ((#[trigger] r@[i]).user@, r@[i].client@) == targets_of(
                    devices@,
                )[i] && r@[i].session_id@ == session_name(r@[i].user@, r@[i].client@),
    {
        let mut out: Vec<DeviceTarget> = Vec::new();
        let mut u: usize = 0;
        assert(devices@.take(0) =~= Seq::empty());
        while u < devices.len()
            invariant
                u <= devices@.len(),
                out@.len() == targets_of(devices@.take(u as int)).len(),
                forall|i: int|
                    0 <= i < out@.len() ==> ((#[trigger] out@[i]).user@, out@[i].client@)
                        == targets_of(devices@.take(u as int))[i] && out@[i].session_id@
                        == session_name(out@[i].user@, out@[i].client@),
            decreases devices@.len() - u,
        {
            let user = devices.user_at(u);
            let clients = devices.clients_at(u);
            let ghost base = targets_of(devices@.take(u as int));
            let ghost next = devices@.take(u + 1);
            assert(next.drop_last() =~= devices@.take(u as int));
            assert(next.last() == devices@[u as int]);
            let mut c: usize = 0;
            while c < clients.len()
                invariant
                    c <= clients.len(),
                    u < devices@.len(),
                    user@ == devices@[u as int].0,
                    clients.deep_view() == devices@[u as int].1,
                    out@.len() == base.len() + c,
                    forall|i: int|
                        0 <= i < base.len() ==> ((#[trigger] out@[i]).user@, out@[i].client@)
                            == base[i],
                    forall|i: int|
                        base.len() <= i < out@.len() ==> ((#[trigger] out@[i]).user@, out@[i].client@)
                            == (user@, clients.deep_view()[i - base.len()]),
                    forall|i: int|
                        0 <= i < out@.len() ==> (#[trigger] out@[i]).session_id@ == session_name(
                            out@[i].user@,
                            out@[i].client@,
                        ),
                decreases clients.len() - c,
            {
                let client = clients[c].as_str();
                assert(client@ == clients.deep_view()[c as int]);
                out.push(
                    DeviceTarget {
                        user: user.to_owned(),
                        client: client.to_owned(),
                        session_id: Self::session_id(user, client),
                    },
                );
                c = c + 1;
            }
            u = u + 1;
        }
        assert(devices@.take(u as int) =~= devices@);
        out
    }

    /// Whether the outcomes are those of an attempt to encrypt for each
    /// device of `devices`: one for each device, in the order of the
    /// devices.
    pub fn outcomes_answer(devices: &DeviceMap, outcomes: &Vec<DeviceOutcome>) -> (r: bool)
        ensures
            r == answers(outcomes.deep_view(), targets_of(devices@)),
    {
        let targets = Self::fan_out_targets(devices);
        if targets.len() != outcomes.len() {
            return false;
        }
        let mut i: usize = 0;
        while i < outcomes.len()
            invariant
                i <= outcomes.len(),
                targets@.len() == outcomes@.len(),
                targets@.len() == targets_of(devices@).len(),
                forall|j: int|
                    0 <= j < targets@.len() ==> ((#[trigger] targets@[j]).user@, targets@[j].client@)
                        == targets_of(devices@)[j],
                forall|j: int|
                    0 <= j < i ==> (#[trigger] outcomes.deep_view()[j]).user == targets_of(
                        devices@,
                    )[j].0 && outcomes.deep_view()[j].client == targets_of(devices@)[j].1,
            decreases outcomes.len() - i,
        {
            let o = &outcomes[i];
            let t = &targets[i];
            assert(o.deep_view() == outcomes.deep_view()[i as int]);
            assert((t.user@, t.client@) == targets_of(devices@)[i as int]);
            if !same_text(o.user.as_str(), t.user.as_str()) || !same_text(
                o.client.as_str(),
                t.client.as_str(),
            ) {
                return false;
            }
            i = i + 1;
        }
        true
    }

    /// The recipients of a message after the store has tried to encrypt it
    /// for each device of `devices` with the session it holds. A device is
    /// among them exactly when the store held a session, the encryption
    /// succeeded and the session was saved; the others are left out
    /// without an error.
    pub fn encrypt_for_devices(devices: &DeviceMap, outcomes: &Vec<DeviceOutcome>) -> (r: Recipients)
        requires
            answers(outcomes.deep_view(), targets_of(devices@)),
            forall|i: int|
                0 <= i < outcomes@.len() ==> ((#[trigger] outcomes@[i]).cipher matches Some(c)
                    ==> fits_base64(c@.len())),
        ensures
            r@ == fan_out(outcomes.deep_view()),
            well_keyed(r@),
    {
        proof {
            fan_out_is_well_keyed(outcomes.deep_view());
        }
        let mut map = Recipients::new();
        let mut i: usize = 0;
        assert(outcomes.deep_view().take(0) =~= Seq::empty());
        while i < outcomes.len()
            invariant
                i <= outcomes.len(),
                map@ == fan_out(outcomes.deep_view().take(i as int)),
                forall|j: int|
                    0 <= j < outcomes@.len() ==> ((#[trigger] outcomes@[j]).cipher matches Some(c)
                        ==> fits_base64(c@.len())),
            decreases outcomes.len() - i,
        {
            let o = &outcomes[i];
            let ghost next = outcomes.deep_view().take(i + 1);
            assert(next.drop_last() =~= outcomes.deep_view().take(i as int));
            assert(next.last() == o.deep_view());
            if o.stored && o.saved {
                match &o.cipher {
                    Some(c) => {
                        let text = base64_encode(c.as_slice());
                        map.add(o.user.as_str(), o.client.as_str(), text);
                    },
                    None => {},
                }
            }
            i = i + 1;
        }
        assert(outcomes.deep_view().take(i as int) =~= outcomes.deep_view());
        map
    }
}

} // verus!
