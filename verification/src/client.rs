//! The calls that a bot makes to the platform: which request each call is,
//! and what each answer of the platform means.

use vstd::prelude::*;
use vstd::string::*;
use crate::devices::DeviceMap;
use crate::errors::{BerylliumError, BerylliumResult};
use crate::messages::{ConfirmationType, Content, GenericMessage};
use crate::ids::{format_id, uuid_text};
use crate::storage::StorageManager;
use crate::text::join2;
use crate::utils::{pushed_path, Config};
use crate::types::{AssetData, BotCreationData, DevicePreKey, Devices, MessageStatus};

verus! {

/// The address of the platform.
pub const HOST_ADDRESS: &'static str = "https://prod-nginz-https.wire.com";

/// The boundary between the parts of an asset upload.
pub const MULTIPART_BOUNDARY: &'static str = "frontier";

/// The address of the platform, as a mathematical value.
pub open spec fn host_address() -> Seq<char> {
    "https://prod-nginz-https.wire.com"@
}

/// The path of the call that sends a message.
pub open spec fn messages_path(ignore_missing: bool) -> Seq<char> {
    if ignore_missing {
        "/bot/messages?ignore_missing=true"@
    } else {
        "/bot/messages?ignore_missing=false"@
    }
}

/// The kind of a request's body.
#[derive(Clone, Copy, Debug, PartialEq, Eq, Structural)]
pub enum ContentKind {
    /// A JSON document.
    Json,
    /// The parts of an asset, separated by `MULTIPART_BOUNDARY`.
    MultipartMixed,
}

impl ContentKind {
    /// The value of the `Content-Type` header for this kind of body.
    pub fn header_value(&self) -> (r: &'static str)
        ensures
            r@ == match self {
                ContentKind::Json => "application/json"@,
                ContentKind::MultipartMixed => "multipart/mixed; boundary=frontier"@,
            },
    {
        match self {
            ContentKind::Json => "application/json",
            ContentKind::MultipartMixed => "multipart/mixed; boundary=frontier",
        }
    }
}

/// A request to the platform, without its body. Every request is a POST
/// and carries the bot's token as a bearer token.
#[derive(Clone, Debug, PartialEq, Eq)]
pub struct ApiRequest {
    pub url: String,
    pub bearer: String,
    pub content: Option<ContentKind>,
    pub content_length: Option<u64>,
}

/// What an answer to a message means, by its status code: `412` reports
/// devices that the message was not encrypted for, and comes before
/// everything else; any other code from `200` to `299` accepts the message;
/// every other code rejects it.
#[derive(Clone, Copy, Debug, PartialEq, Eq, Structural)]
pub enum Reply {
    Accepted,
    MissingDevices,
    Rejected,
}

/// Whether the status code reports success.
pub open spec fn is_success(status: u16) -> bool {
    200 <= status < 300
}

/// What an answer with this status code means for a message.
pub open spec fn reply_to_message(status: u16) -> Reply {
    if status == 412 {
        Reply::MissingDevices
    } else if is_success(status) {
        Reply::Accepted
    } else {
        Reply::Rejected
    }
}

/// What an answer with this status code means for a message.
pub fn classify_reply(status: u16) -> (r: Reply)
    ensures
        r == reply_to_message(status),
{
    if status == 412 {
        Reply::MissingDevices
    } else if 200 <= status && status < 300 {
        Reply::Accepted
    } else {
        Reply::Rejected
    }
}

/// The part of a bot's identity that its calls to the platform need.
#[derive(Debug, PartialEq, Eq)]
pub struct HttpsClient {
    client_id: String,
    auth_token: String,
}

impl Clone for HttpsClient {
    fn clone(&self) -> (r: HttpsClient)
        ensures
            r.client_id() == self.client_id(),
            r.auth_token() == self.auth_token(),
    {
        HttpsClient { auth_token: self.auth_token.clone(), client_id: self.client_id.clone() }
    }
}

impl HttpsClient {
    /// The id of the bot's own device.
    pub closed spec fn client_id(&self) -> Seq<char> {
        self.client_id@
    }

    /// The token that the platform issued to the bot.
    pub closed spec fn auth_token(&self) -> Seq<char> {
        self.auth_token@
    }

    /// The client of the bot that was created with `data`.
    pub fn from(data: &BotCreationData) -> (r: HttpsClient)
        ensures
            r.client_id() == data.client@,
            r.auth_token() == data.token@,
    {
        HttpsClient { auth_token: data.token.clone(), client_id: data.client.clone() }
    }

    /// The id of the bot's own device.
    pub fn sender(&self) -> (r: &str)
        ensures
            r@ == self.client_id(),
    {
        self.client_id.as_str()
    }

    /// The request for a path of the platform, with the bot's token and
    /// nothing said of a body.
    pub fn prepare_request_for_url(&self, rel_url: &str) -> (r: ApiRequest)
        ensures
            r.url@ == host_address() + rel_url@,
            r.bearer@ == self.auth_token(),
            r.content.is_none(),
            r.content_length.is_none(),
    {
        ApiRequest {
            url: join2(HOST_ADDRESS, rel_url),
            bearer: self.auth_token.clone(),
            content: None,
            content_length: None,
        }
    }

    /// The request for a path of the platform that takes a JSON document.
    pub fn request(&self, rel_url: &str) -> (r: ApiRequest)
        ensures
            r.url@ == host_address() + rel_url@,
            r.bearer@ == self.auth_token(),
            r.content == Some(ContentKind::Json),
            r.content_length.is_none(),
    {
        let mut request = self.prepare_request_for_url(rel_url);
        request.content = Some(ContentKind::Json);
        request
    }

    /// The request that sends a message.
    pub fn message_request(&self, ignore_missing: bool) -> (r: ApiRequest)
        ensures
            r.url@ == host_address() + messages_path(ignore_missing),
            r.bearer@ == self.auth_token(),
            r.content == Some(ContentKind::Json),
            r.content_length.is_none(),
    {
        if ignore_missing {
            self.request("/bot/messages?ignore_missing=true")
        } else {
            self.request("/bot/messages?ignore_missing=false")
        }
    }

    /// What the platform's answer to a message means. `missing` is what the
    /// body of the answer holds when it is read as a list of devices, and
    /// `payload` is the body as text: with code `412` the answer reports
    /// the devices (or the error of reading them); with another code of
    /// success the message is sent; any other code is an error that quotes
    /// the payload.
    pub fn send_message(status: u16, missing: BerylliumResult<DeviceMap>, payload: &str) -> (r:
        BerylliumResult<MessageStatus>)
        ensures
            match reply_to_message(status) {
                Reply::MissingDevices => match missing {
                    Ok(m) => r matches Ok(MessageStatus::Failed(d)) && d.missing == m,
                    Err(e) => r == Err::<MessageStatus, BerylliumError>(e),
                },
                Reply::Accepted => r == Ok::<MessageStatus, BerylliumError>(MessageStatus::Sent),
                Reply::Rejected => r matches Err(BerylliumError::Other(m)) && m@
                    == "Error sending message. Response: "@ + payload@,
            },
    {
        match classify_reply(status) {
            Reply::MissingDevices => match missing {
                Ok(m) => Ok(MessageStatus::Failed(Devices { missing: m })),
                Err(e) => Err(e),
            },
            Reply::Accepted => Ok(MessageStatus::Sent),
            Reply::Rejected => Err(
                BerylliumError::Other(join2("Error sending message. Response: ", payload)),
            ),
        }
    }

    /// The request that asks for the prekeys of devices.
    pub fn prekeys_request(&self) -> (r: ApiRequest)
        ensures
            r.url@ == host_address() + "/bot/users/prekeys"@,
            r.bearer@ == self.auth_token(),
            r.content == Some(ContentKind::Json),
            r.content_length.is_none(),
    {
        self.request("/bot/users/prekeys")
    }

    /// What the platform's answer to a request for prekeys means. Only the
    /// code `200` brings prekeys: `keys` is what the body holds when it is
    /// read as prekeys. Any other code is an error that quotes the payload.
    pub fn get_prekeys(status: u16, keys: BerylliumResult<Vec<DevicePreKey>>, payload: &str) -> (r:
        BerylliumResult<Vec<DevicePreKey>>)
        ensures
            status == 200 ==> r == keys,
            status != 200 ==> (r matches Err(BerylliumError::Other(m)) && m@
                == "Cannot obtain prekeys for missing devices. Response: "@ + payload@),
    {
        if status == 200 {
            keys
        } else {
            Err(
                BerylliumError::Other(
                    join2("Cannot obtain prekeys for missing devices. Response: ", payload),
                ),
            )
        }
    }

    /// The request that uploads an asset of `length` bytes.
    pub fn asset_request(&self, length: u64) -> (r: ApiRequest)
        ensures
            r.url@ == host_address() + "/bots/assets"@,
            r.bearer@ == self.auth_token(),
            r.content == Some(ContentKind::MultipartMixed),
            r.content_length == Some(length),
    {
        let mut request = self.prepare_request_for_url("/bots/assets");
        request.content = Some(ContentKind::MultipartMixed);
        request.content_length = Some(length);
        request
    }

    /// What the platform's answer to an upload means. A code of success
    /// brings the place of the asset: `asset` is what the body holds when
    /// it is read as such. Any other code is an error that quotes the
    /// payload.
    pub fn upload_asset(status: u16, asset: BerylliumResult<AssetData>, payload: &str) -> (r:
        BerylliumResult<AssetData>)
        ensures
            is_success(status) ==> r == asset,
            !is_success(status) ==> (r matches Err(BerylliumError::Other(m)) && m@
                == "Error uploading asset. Response: "@ + payload@),
    {
        if 200 <= status && status < 300 {
            asset
        } else {
            Err(BerylliumError::Other(join2("Error uploading asset. Response: ", payload)))
        }
    }

    /// The message that confirms the delivery of the message with the id
    /// `message_id`; `fresh_id` becomes the id of the confirmation itself.
    pub fn send_confirmation(fresh_id: String, message_id: &str) -> (r: GenericMessage)
        ensures
            r.message_id@ == fresh_id@,
            r.content matches Content::Confirmation { message_id: m, kind } && m@ == message_id@
                && kind == ConfirmationType::Delivered,
    {
        GenericMessage::confirmation(fresh_id, message_id)
    }
}

/// Everything that a process keeps of one bot.
#[derive(Clone, Debug, PartialEq, Eq)]
pub struct BotData {
    pub storage: StorageManager,
    pub data: BotCreationData,
    pub client: HttpsClient,
    /// The devices that the bot has learnt of since the process started.
    pub devices: Devices,
}

impl BotData {
    /// The state of the bot with the id `bot_id` as it is when the bot is
    /// first seen: `data` is what the platform sent when it created the
    /// bot, as the bot's store holds it. The store is the directory named
    /// by the id, and no device is known yet.
    pub fn from_storage(config: &Config, bot_id: u128, data: BotCreationData) -> (r: BotData)
        ensures
            r.storage.dir() == pushed_path(config.store_path(), uuid_text(bot_id)),
            r.client.client_id() == data.client@,
            r.client.auth_token() == data.token@,
            r.data == data,
            r.devices.missing@.len() == 0,
    {
        let id = format_id(bot_id);
        let storage = StorageManager::new(config, id.as_str());
        let client = HttpsClient::from(&data);
        BotData { storage, client, data, devices: Devices::default() }
    }
}

/// What the bot's own code holds to act as the bot.
#[derive(Clone, Debug, PartialEq, Eq)]
pub struct BotClient {
    inner: HttpsClient,
    sender: String,
    storage: StorageManager,
}

impl BotClient {
    /// The id of the bot's own device.
    pub closed spec fn sender(&self) -> Seq<char> {
        self.sender@
    }

    /// The client of the bot.
    pub closed spec fn inner(&self) -> HttpsClient {
        self.inner
    }

    /// The store of the bot.
    pub closed spec fn storage(&self) -> StorageManager {
        self.storage
    }

    /// What the bot's own code holds for the bot with this state.
    pub fn from(data: &BotData) -> (r: BotClient)
        ensures
            r.sender() == data.data.client@,
            r.inner().client_id() == data.client.client_id(),
            r.inner().auth_token() == data.client.auth_token(),
            r.storage().dir() == data.storage.dir(),
    {
        BotClient {
            inner: data.client.clone(),
            sender: data.data.client.clone(),
            storage: data.storage.clone(),
        }
    }

    /// The client of the bot.
    pub fn client(&self) -> (r: &HttpsClient)
        ensures
            *r == self.inner(),
    {
        &self.inner
    }

    /// The store of the bot.
    pub fn store(&self) -> (r: &StorageManager)
        ensures
            *r == self.storage(),
    {
        &self.storage
    }

    /// The message that carries `text` to the conversation; `fresh_id`
    /// becomes its id.
    pub fn send_message(&self, fresh_id: String, text: &str) -> (r: GenericMessage)
        ensures
            r.message_id@ == fresh_id@,
            r.content matches Content::Text(t) && t@ == text@,
    {
        GenericMessage::text(fresh_id, text)
    }
}

} // verus!
