//! The delivery of one message to a conversation: encrypt for the devices
//! that are known, send, and where the platform reports devices that the
//! message was not encrypted for, fetch their prekeys, start sessions with
//! them and send once more. The program around the library does what each
//! step asks and reports back; the steps themselves are decided here.

use vstd::prelude::*;
use vstd::string::*;
use crate::client::{host_address, messages_path, ApiRequest, ContentKind, HttpsClient, Reply,
    reply_to_message};
use crate::devices::{knows, knows_after_append, with_client, DeviceMap};
use crate::errors::{BerylliumError, BerylliumResult};
use crate::recipients::{cipher_after_add, cipher_for, well_keyed, with_cipher, Recipients};
use crate::encoding::{base64_bytes, base64_decode, base64_encode, base64_text, fits_base64};
use crate::storage::{answers, fan_out, session_name, targets_of, DeviceOutcome, DeviceTarget,
    StorageManager};
use crate::types::{DevicePreKey, MessageRequest, MessageStatus};

verus! {

/// How far the delivery of a message has come.
#[derive(Clone, Copy, Debug, PartialEq, Eq, Structural)]
pub enum Phase {
    /// The message is being encrypted for the known devices.
    FanOut,
    /// The message was sent; the platform's answer is awaited.
    FirstReply,
    /// The prekeys of the missing devices were asked for.
    Prekeys,
    /// A session is being started with one of the missing devices.
    Bootstrap,
    /// The message was sent a second time; the answer is awaited.
    SecondReply,
    /// The delivery has ended.
    Done,
}

/// What the program around the library is to do next.
#[derive(Debug, PartialEq, Eq)]
pub enum SendAction {
    /// Send the message, and report the answer.
    Post { request: ApiRequest, message: MessageRequest },
    /// Ask for the prekeys of these devices, and report the answer.
    FetchPrekeys { request: ApiRequest, missing: DeviceMap },
    /// Encrypt the message for the device, starting a session from the
    /// prekey where the store holds none, save the session, and report the
    /// ciphertext.
    Bootstrap { target: DeviceTarget, prekey: Vec<u8> },
    /// Make `devices` the devices that the bot knows, send the message
    /// again, and report the answer.
    Resend { request: ApiRequest, message: MessageRequest, devices: DeviceMap },
    /// Nothing: the delivery has ended, in success or with the error.
    Finished(BerylliumResult<()>),
}

/// The recipients of the second sending: for each device whose session was
/// started, in the order of the prekeys, its ciphertext.
pub open spec fn resend_recipients(
    pending: Seq<(Seq<char>, Seq<char>, (u16, Seq<char>))>,
    sealed: Seq<Seq<char>>,
) -> Seq<(Seq<char>, Seq<(Seq<char>, Seq<char>)>)>
    decreases sealed.len(),
{
    if sealed.len() == 0 {
        Seq::empty()
    } else {
        let k = sealed.len() - 1;
        with_cipher(
            resend_recipients(pending, sealed.drop_last()),
            pending[k].0,
            pending[k].1,
            sealed[k],
        )
    }
}

/// `devices` after the first `n` devices of `pending` have been appended,
/// each to the clients of its user.
pub open spec fn appended_all(
    devices: Seq<(Seq<char>, Seq<Seq<char>>)>,
    pending: Seq<(Seq<char>, Seq<char>, (u16, Seq<char>))>,
    n: nat,
) -> Seq<(Seq<char>, Seq<Seq<char>>)>
    decreases n,
{
    if n == 0 {
        devices
    } else {
        with_client(
            appended_all(devices, pending, (n - 1) as nat),
            pending[n - 1].0,
            pending[n - 1].1,
        )
    }
}

/// Once the sessions with the missing devices have been started, each of
/// those devices is among the devices that the bot knows, and every device
/// that was known before still is.
pub proof fn recovered_devices_are_known(
    devices: Seq<(Seq<char>, Seq<Seq<char>>)>,
    pending: Seq<(Seq<char>, Seq<char>, (u16, Seq<char>))>,
    n: nat,
)
    requires
        n <= pending.len(),
    ensures
        forall|k: int|
            0 <= k < n ==> knows(
                appended_all(devices, pending, n),
                (#[trigger] pending[k]).0,
                pending[k].1,
            ),
        forall|user: Seq<char>, client: Seq<char>|
            knows(devices, user, client) ==> #[trigger] knows(
                appended_all(devices, pending, n),
                user,
                client,
            ),
    decreases n,
{
    if n > 0 {
        let before = appended_all(devices, pending, (n - 1) as nat);
        let last = pending[n - 1];
        recovered_devices_are_known(devices, pending, (n - 1) as nat);
        assert forall|k: int| 0 <= k < n implies knows(
            appended_all(devices, pending, n),
            (#[trigger] pending[k]).0,
            pending[k].1,
        ) by {
            knows_after_append(before, last.0, last.1, pending[k].0, pending[k].1);
        }
        assert forall|user: Seq<char>, client: Seq<char>| knows(devices, user, client) implies #[trigger] knows(
            appended_all(devices, pending, n),
            user,
            client,
        ) by {
            knows_after_append(before, last.0, last.1, user, client);
        }
    }
}

/// Every missing device with which a session was started is among the
/// recipients of the second sending.
pub proof fn resend_reaches_recovered(
    pending: Seq<(Seq<char>, Seq<char>, (u16, Seq<char>))>,
    sealed: Seq<Seq<char>>,
)
    requires
        sealed.len() <= pending.len(),
    ensures
        forall|k: int|
            0 <= k < sealed.len() ==> cipher_for(
                resend_recipients(pending, sealed),
                (#[trigger] pending[k]).0,
                pending[k].1,
            ).is_some(),
    decreases sealed.len(),
{
    if sealed.len() > 0 {
        let n = sealed.len() - 1;
        let before = resend_recipients(pending, sealed.drop_last());
        resend_reaches_recovered(pending, sealed.drop_last());
        assert forall|k: int| 0 <= k < sealed.len() implies cipher_for(
            resend_recipients(pending, sealed),
            (#[trigger] pending[k]).0,
            pending[k].1,
        ).is_some() by {
            cipher_after_add(
                before,
                pending[n].0,
                pending[n].1,
                sealed[n],
                pending[k].0,
                pending[k].1,
            );
        }
    }
}

/// How far a delivery is from its end: first by its phase, then by the
/// number of missing devices that are still to be taken up.
pub open spec fn distance(phase: Phase, devices_left: nat) -> (nat, nat) {
    (
        match phase {
            Phase::FanOut => 5nat,
            Phase::FirstReply => 4nat,
            Phase::Prekeys => 3nat,
            Phase::Bootstrap => 2nat,
            Phase::SecondReply => 1nat,
            Phase::Done => 0nat,
        },
        devices_left,
    )
}

/// Whether `after` is nearer to the end than `before`.
pub open spec fn nearer(after: (nat, nat), before: (nat, nat)) -> bool {
    after.0 < before.0 || (after.0 == before.0 && after.1 < before.1)
}

/// Whether `request` is the JSON request for `path` with the token.
pub open spec fn is_json_request(request: ApiRequest, path: Seq<char>, token: Seq<char>) -> bool {
    &&& request.url@ == host_address() + path
    &&& request.bearer@ == token
    &&& request.content == Some(ContentKind::Json)
    &&& request.content_length.is_none()
}

/// The delivery of one message.
#[derive(Debug, PartialEq, Eq)]
pub struct SendSession {
    client: HttpsClient,
    snapshot: DeviceMap,
    pending: Vec<DevicePreKey>,
    sealed: Vec<String>,
    phase: Phase,
}

impl SendSession {
    /// How far the delivery has come.
    pub closed spec fn phase(&self) -> Phase {
        self.phase
    }

    /// The id of the bot's own device.
    pub closed spec fn sender(&self) -> Seq<char> {
        self.client.client_id()
    }

    /// The token of the bot.
    pub closed spec fn token(&self) -> Seq<char> {
        self.client.auth_token()
    }

    /// The devices that the bot knew when the delivery began.
    pub closed spec fn snapshot(&self) -> Seq<(Seq<char>, Seq<Seq<char>>)> {
        self.snapshot@
    }

    /// The prekeys that the platform returned for the missing devices.
    pub closed spec fn pending(&self) -> Seq<(Seq<char>, Seq<char>, (u16, Seq<char>))> {
        self.pending.deep_view()
    }

    /// The ciphertexts for the missing devices with which a session has
    /// been started, in the order of the prekeys.
    pub closed spec fn sealed(&self) -> Seq<Seq<char>> {
        self.sealed.deep_view()
    }

    /// How far the delivery is from its end.
    pub open spec fn steps_left(&self) -> (nat, nat) {
        distance(self.phase(), (self.pending().len() - self.sealed().len()) as nat)
    }

    /// The state is one that a delivery can be in.
    pub open spec fn wf(&self) -> bool {
        &&& self.sealed().len() <= self.pending().len()
        &&& self.phase() == Phase::Bootstrap ==> self.sealed().len() < self.pending().len()
    }

    /// What follows once the sessions in `sealed` have been started: the
    /// next missing device is taken up (its prekey must be base64, else the
    /// delivery fails), or, when none is left, the message is sent again to
    /// the devices that were missing, which are now known.
    pub open spec fn proceeds(&self, action: SendAction) -> bool {
        let k = self.sealed().len() as int;
        if k < self.pending().len() {
            match base64_bytes(self.pending()[k].2.1) {
                Some(bytes) => {
                    &&& self.phase() == Phase::Bootstrap
                    &&& action matches SendAction::Bootstrap { target, prekey }
                    &&& target.user@ == self.pending()[k].0
                    &&& target.client@ == self.pending()[k].1
                    &&& target.session_id@ == session_name(target.user@, target.client@)
                    &&& prekey@ == bytes
                },
                None => {
                    &&& self.phase() == Phase::Done
                    &&& action matches SendAction::Finished(Err(e))
                    &&& e is Base64
                },
            }
        } else {
            &&& self.phase() == Phase::SecondReply
            &&& action matches SendAction::Resend { request, message, devices }
            &&& is_json_request(request, messages_path(false), self.token())
            &&& message.sender@ == self.sender()
            &&& message.recipients@ == resend_recipients(self.pending(), self.sealed())
            &&& well_keyed(message.recipients@)
            &&& devices@ == appended_all(self.snapshot(), self.pending(), self.pending().len())
        }
    }

    fn fail(&mut self, e: BerylliumError) -> (action: SendAction)
        requires
            old(self).sealed().len() <= old(self).pending().len(),
        ensures
            action == SendAction::Finished(Err(e)),
            final(self).phase() == Phase::Done,
            final(self).wf(),
            final(self).sender() == old(self).sender(),
            final(self).token() == old(self).token(),
            final(self).snapshot() == old(self).snapshot(),
            final(self).pending() == old(self).pending(),
            final(self).sealed() == old(self).sealed(),
    {
        self.phase = Phase::Done;
        SendAction::Finished(Err(e))
    }

    /// Takes the outcomes of the encryption for the devices that the bot
    /// knew when the delivery began, one for each device and in their
    /// order: the message goes to the devices for which it was encrypted,
    /// and the platform is to report the devices it was not encrypted for.
    /// Outcomes that are not those of these devices end the delivery.
    pub fn on_fan_out(&mut self, outcomes: &Vec<DeviceOutcome>) -> (action: SendAction)
        requires
            old(self).wf(),
            forall|i: int|
                0 <= i < outcomes@.len() ==> ((#[trigger] outcomes@[i]).cipher matches Some(c)
                    ==> fits_base64(c@.len())),
        ensures
            final(self).wf(),
            old(self).phase() != Phase::Done ==> nearer(
                final(self).steps_left(),
                old(self).steps_left(),
            ),
            final(self).sender() == old(self).sender(),
            final(self).token() == old(self).token(),
            final(self).snapshot() == old(self).snapshot(),
            final(self).pending() == old(self).pending(),
            final(self).sealed() == old(self).sealed(),
            old(self).phase() == Phase::FanOut && answers(
                outcomes.deep_view(),
                targets_of(old(self).snapshot()),
            ) ==> {
                &&& final(self).phase() == Phase::FirstReply
                &&& action matches SendAction::Post { request, message }
                &&& is_json_request(request, messages_path(false), old(self).token())
                &&& message.sender@ == old(self).sender()
                &&& message.recipients@ == fan_out(outcomes.deep_view())
                &&& well_keyed(message.recipients@)
            },
            old(self).phase() != Phase::FanOut || !answers(
                outcomes.deep_view(),
                targets_of(old(self).snapshot()),
            ) ==> {
                &&& final(self).phase() == Phase::Done
                &&& action == SendAction::Finished(Err(BerylliumError::Unreachable))
            },
    {
        match self.phase {
            Phase::FanOut => {
                if !StorageManager::outcomes_answer(&self.snapshot, outcomes) {
                    return self.fail(BerylliumError::Unreachable);
                }
                let recipients = StorageManager::encrypt_for_devices(&self.snapshot, outcomes);
                let message = MessageRequest {
                    sender: self.client.sender().to_owned(),
                    recipients,
                };
                let request = self.client.message_request(false);
                self.phase = Phase::FirstReply;
                SendAction::Post { request, message }
            },
            _ => self.fail(BerylliumError::Unreachable),
        }
    }

    /// Takes the platform's answer to the message (see
    /// `HttpsClient::send_message` for `missing` and `payload`). After the
    /// first sending an answer that accepts the message ends the delivery,
    /// and one that reports missing devices has their prekeys asked for.
    /// After the second sending the delivery ends either way: missing
    /// devices are then an error. An answer that rejects the message, or
    /// that cannot be read, always ends the delivery with that error.
    pub fn on_reply(
        &mut self,
        status: u16,
        missing: BerylliumResult<DeviceMap>,
        payload: &str,
    ) -> (action: SendAction)
        requires
            old(self).wf(),
        ensures
            final(self).wf(),
            old(self).phase() != Phase::Done ==> nearer(
                final(self).steps_left(),
                old(self).steps_left(),
            ),
            final(self).sender() == old(self).sender(),
            final(self).token() == old(self).token(),
            final(self).snapshot() == old(self).snapshot(),
            final(self).pending() == old(self).pending(),
            final(self).sealed() == old(self).sealed(),
            old(self).phase() == Phase::FirstReply || old(self).phase() == Phase::SecondReply
                ==> match reply_to_message(status) {
                Reply::Accepted => final(self).phase() == Phase::Done && action
                    == SendAction::Finished(Ok(())),
                Reply::Rejected => {
                    &&& final(self).phase() == Phase::Done
                    &&& action matches SendAction::Finished(Err(BerylliumError::Other(m)))
                    &&& m@ == "Error sending message. Response: "@ + payload@
                },
                Reply::MissingDevices => match missing {
                    Err(e) => final(self).phase() == Phase::Done && action
                        == SendAction::Finished(Err(e)),
                    Ok(devices) => if old(self).phase() == Phase::FirstReply {
                        &&& final(self).phase() == Phase::Prekeys
                        &&& action matches SendAction::FetchPrekeys { request, missing: asked }
                        &&& is_json_request(request, "/bot/users/prekeys"@, old(self).token())
                        &&& asked == devices
                    } else {
                        &&& final(self).phase() == Phase::Done
                        &&& action matches SendAction::Finished(Err(BerylliumError::Other(m)))
                        &&& m@ == "Cannot send message! Failed after device check"@
                    },
                },
            },
            old(self).phase() != Phase::FirstReply && old(self).phase() != Phase::SecondReply ==> {
                &&& final(self).phase() == Phase::Done
                &&& action == SendAction::Finished(Err(BerylliumError::Unreachable))
            },
            old(self).phase() != Phase::FirstReply ==> final(self).phase() == Phase::Done
                && action is Finished,
    {
        let first = match self.phase {
            Phase::FirstReply => true,
            Phase::SecondReply => false,
            _ => {
                return self.fail(BerylliumError::Unreachable);
            },
        };
        match HttpsClient::send_message(status, missing, payload) {
            Ok(MessageStatus::Sent) => {
                self.phase = Phase::Done;
                SendAction::Finished(Ok(()))
            },
            Ok(MessageStatus::Failed(devices)) => {
                if first {
                    let request = self.client.prekeys_request();
                    self.phase = Phase::Prekeys;
                    SendAction::FetchPrekeys { request, missing: devices.missing }
                } else {
                    self.fail(
                        BerylliumError::Other(
                            "Cannot send message! Failed after device check".to_owned(),
                        ),
                    )
                }
            },
            Err(e) => self.fail(e),
        }
    }

    fn advance(&mut self) -> (action: SendAction)
        requires
            old(self).sealed().len() <= old(self).pending().len(),
        ensures
            final(self).wf(),
            final(self).sender() == old(self).sender(),
            final(self).token() == old(self).token(),
            final(self).snapshot() == old(self).snapshot(),
            final(self).pending() == old(self).pending(),
            final(self).sealed() == old(self).sealed(),
            final(self).proceeds(action),
    {
        let k = self.sealed.len();
        if k < self.pending.len() {
            let entry = &self.pending[k];
            assert(entry.deep_view() == self.pending.deep_view()[k as int]);
            match base64_decode(entry.prekey.key.as_str()) {
                Ok(prekey) => {
                    let target = DeviceTarget {
                        user: entry.user.clone(),
                        client: entry.client.clone(),
                        session_id: StorageManager::session_id(
                            entry.user.as_str(),
                            entry.client.as_str(),
                        ),
                    };
                    self.phase = Phase::Bootstrap;
                    SendAction::Bootstrap { target, prekey }
                },
                Err(e) => self.fail(BerylliumError::Base64(e.to_string())),
            }
        } else {
            let mut recipients = Recipients::new();
            let mut devices = self.snapshot.clone();
            let mut i: usize = 0;
            assert(self.sealed.deep_view().take(0) =~= Seq::empty());
            while i < self.pending.len()
                invariant
                    i <= self.pending.len(),
                    self.sealed.len() == self.pending.len(),
                    recipients@ == resend_recipients(
                        self.pending.deep_view(),
                        self.sealed.deep_view().take(i as int),
                    ),
                    well_keyed(recipients@),
                    devices@ == appended_all(self.snapshot@, self.pending.deep_view(), i as nat),
                decreases self.pending.len() - i,
            {
                let entry = &self.pending[i];
                assert(entry.deep_view() == self.pending.deep_view()[i as int]);
                let ghost next = self.sealed.deep_view().take(i + 1);
                assert(next.drop_last() =~= self.sealed.deep_view().take(i as int));
                assert(next[i as int] == self.sealed[i as int]@);
                recipients.add(entry.user.as_str(), entry.client.as_str(), self.sealed[i].clone());
                devices.append_client(entry.user.as_str(), entry.client.as_str());
                i = i + 1;
            }
            assert(self.sealed.deep_view().take(i as int) =~= self.sealed.deep_view());
            let message = MessageRequest { sender: self.client.sender().to_owned(), recipients };
            let request = self.client.message_request(false);
            self.phase = Phase::SecondReply;
            SendAction::Resend { request, message, devices }
        }
    }

    /// Takes the platform's answer to the request for prekeys (see
    /// `HttpsClient::get_prekeys` for `keys` and `payload`). With the
    /// prekeys in hand the missing devices are taken up one by one; any
    /// other answer ends the delivery with its error.
    pub fn on_prekeys(
        &mut self,
        status: u16,
        keys: BerylliumResult<Vec<DevicePreKey>>,
        payload: &str,
    ) -> (action: SendAction)
        requires
            old(self).wf(),
        ensures
            final(self).wf(),
            old(self).phase() != Phase::Done ==> nearer(
                final(self).steps_left(),
                old(self).steps_left(),
            ),
            final(self).sender() == old(self).sender(),
            final(self).token() == old(self).token(),
            final(self).snapshot() == old(self).snapshot(),
            old(self).phase() == Phase::Prekeys ==> if status == 200 {
                match keys {
                    Ok(k) => {
                        &&& final(self).pending() == k.deep_view()
                        &&& final(self).sealed().len() == 0
                        &&& final(self).proceeds(action)
                    },
                    Err(e) => final(self).phase() == Phase::Done && action
                        == SendAction::Finished(Err(e)),
                }
            } else {
                &&& final(self).phase() == Phase::Done
                &&& action matches SendAction::Finished(Err(BerylliumError::Other(m)))
                &&& m@ == "Cannot obtain prekeys for missing devices. Response: "@ + payload@
            },
            old(self).phase() != Phase::Prekeys ==> {
                &&& final(self).phase() == Phase::Done
                &&& action == SendAction::Finished(Err(BerylliumError::Unreachable))
            },
    {
        match self.phase {
            Phase::Prekeys => {},
            _ => {
                return self.fail(BerylliumError::Unreachable);
            },
        }
        match HttpsClient::get_prekeys(status, keys, payload) {
            Ok(k) => {
                self.pending = k;
                self.sealed = Vec::new();
                assert(self.sealed.deep_view() =~= Seq::empty());
                self.advance()
            },
            Err(e) => self.fail(e),
        }
    }

    /// Takes the ciphertext for the missing device that was taken up last,
    /// or the error that kept the store from producing it. An error ends
    /// the delivery; with the ciphertext the next missing device is taken
    /// up, or the message sent again when none is left.
    pub fn on_bootstrapped(&mut self, cipher: BerylliumResult<Vec<u8>>) -> (action: SendAction)
        requires
            old(self).wf(),
            cipher matches Ok(c) ==> fits_base64(c@.len()),
        ensures
            final(self).wf(),
            old(self).phase() != Phase::Done ==> nearer(
                final(self).steps_left(),
                old(self).steps_left(),
            ),
            final(self).sender() == old(self).sender(),
            final(self).token() == old(self).token(),
            final(self).snapshot() == old(self).snapshot(),
            final(self).pending() == old(self).pending(),
            old(self).phase() == Phase::Bootstrap ==> match cipher {
                Ok(c) => {
                    &&& final(self).sealed() == old(self).sealed().push(base64_text(c@))
                    &&& final(self).proceeds(action)
                },
                Err(e) => {
                    &&& final(self).sealed() == old(self).sealed()
                    &&& final(self).phase() == Phase::Done
                    &&& action == SendAction::Finished(Err(e))
                },
            },
            old(self).phase() != Phase::Bootstrap ==> {
                &&& final(self).sealed() == old(self).sealed()
                &&& final(self).phase() == Phase::Done
                &&& action == SendAction::Finished(Err(BerylliumError::Unreachable))
            },
    {
        match self.phase {
            Phase::Bootstrap => {},
            _ => {
                return self.fail(BerylliumError::Unreachable);
            },
        }
        match cipher {
            Ok(c) => {
                let text = base64_encode(c.as_slice());
                self.sealed.push(text);
                assert(self.sealed.deep_view() =~= old(self).sealed().push(base64_text(c@)));
                self.advance()
            },
            Err(e) => self.fail(e),
        }
    }
}

impl HttpsClient {
    /// Begins the delivery of a message by this bot, which knows `devices`:
    /// the message is first to be encrypted for each of these devices with
    /// the session that the store holds. What the store made of each is
    /// then reported with `SendSession::on_fan_out`.
    pub fn send_encrypted_message(&self, devices: &DeviceMap) -> (r: (SendSession, Vec<DeviceTarget>))
        ensures
            r.0.wf(),
            r.0.phase() == Phase::FanOut,
            r.0.sender() == self.client_id(),
            r.0.token() == self.auth_token(),
            r.0.snapshot() == devices@,
            r.0.pending().len() == 0,
            r.0.sealed().len() == 0,
            r.1@.len() == targets_of(devices@).len(),
            forall|i: int|
                0 <= i < r.1@.len() ==> ((#[trigger] r.1@[i]).user@, r.1@[i].client@) == targets_of(
                    devices@,
                )[i] && r.1@[i].session_id@ == session_name(r.1@[i].user@, r.1@[i].client@),
    {
        let snapshot = devices.clone();
        let targets = StorageManager::fan_out_targets(&snapshot);
        let session = SendSession {
            client: self.clone(),
            snapshot,
            pending: Vec::new(),
            sealed: Vec::new(),
            phase: Phase::FanOut,
        };
        (session, targets)
    }
}

} // verus!
