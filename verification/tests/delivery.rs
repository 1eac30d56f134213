use beryllium::client::{ApiRequest, BotClient, BotData, ContentKind, HttpsClient, Reply, classify_reply};
use beryllium::delivery::{SendAction, SendSession};
use beryllium::devices::DeviceMap;
use beryllium::errors::BerylliumError;
use beryllium::members::MemberSet;
use beryllium::messages::{ConfirmationType, Content};
use beryllium::recipients::Recipients;
use beryllium::storage::{DeviceOutcome, DeviceTarget};
use beryllium::types::{
    AssetData, BotCreationData, Conversation, DevicePreKey, Devices, EncodedPreKey,
    MessageStatus, Origin,
};
use beryllium::utils::Config;

fn creation_data() -> BotCreationData {
    BotCreationData {
        id: 0x550e8400_e29b_41d4_a716_446655440000,
        client: String::from("c0ffee"),
        origin: Origin { id: 1, name: String::from("Ann"), handle: String::from("ann"), accent_id: 2 },
        conversation: Conversation { id: 7, name: String::from("friends"), members: MemberSet::new() },
        token: String::from("secret"),
        locale: String::from("en"),
    }
}

fn client() -> HttpsClient {
    HttpsClient::from(&creation_data())
}

fn send_request() -> ApiRequest {
    ApiRequest {
        url: String::from("https://prod-nginz-https.wire.com/bot/messages?ignore_missing=false"),
        bearer: String::from("secret"),
        content: Some(ContentKind::Json),
        content_length: None,
    }
}

fn prekey(user: &str, client: &str, key: &str) -> DevicePreKey {
    DevicePreKey {
        user: String::from(user),
        client: String::from(client),
        prekey: EncodedPreKey { id: 3, key: String::from(key) },
    }
}

fn missing(user: &str, clients: &[&str]) -> DeviceMap {
    let mut m = DeviceMap::new();
    m.insert(user, clients.iter().map(|c| String::from(*c)).collect());
    m
}

fn no_session(targets: &[DeviceTarget]) -> Vec<DeviceOutcome> {
    targets
        .iter()
        .map(|t| DeviceOutcome {
            user: t.user.clone(),
            client: t.client.clone(),
            stored: false,
            cipher: None,
            saved: false,
        })
        .collect()
}

fn awaiting_first_reply(devices: &DeviceMap) -> SendSession {
    let (mut session, targets) = client().send_encrypted_message(devices);
    let action = session.on_fan_out(&no_session(&targets));
    assert!(matches!(action, SendAction::Post { .. }));
    session
}

#[test]
fn requests_carry_the_token_and_the_address() {
    let c = client();
    assert_eq!(c.sender(), "c0ffee");
    assert_eq!(
        c.prepare_request_for_url("/x"),
        ApiRequest {
            url: String::from("https://prod-nginz-https.wire.com/x"),
            bearer: String::from("secret"),
            content: None,
            content_length: None,
        }
    );
    assert_eq!(c.request("/x").content, Some(ContentKind::Json));
    assert_eq!(c.message_request(false), send_request());
    assert_eq!(
        c.message_request(true).url,
        "https://prod-nginz-https.wire.com/bot/messages?ignore_missing=true"
    );
    assert_eq!(c.prekeys_request().url, "https://prod-nginz-https.wire.com/bot/users/prekeys");
    let upload = c.asset_request(42);
    assert_eq!(upload.url, "https://prod-nginz-https.wire.com/bots/assets");
    assert_eq!(upload.content, Some(ContentKind::MultipartMixed));
    assert_eq!(upload.content_length, Some(42));
    assert_eq!(ContentKind::Json.header_value(), "application/json");
    assert_eq!(ContentKind::MultipartMixed.header_value(), "multipart/mixed; boundary=frontier");
}

#[test]
fn replies_by_status() {
    assert_eq!(classify_reply(200), Reply::Accepted);
    assert_eq!(classify_reply(201), Reply::Accepted);
    assert_eq!(classify_reply(299), Reply::Accepted);
    assert_eq!(classify_reply(412), Reply::MissingDevices);
    assert_eq!(classify_reply(199), Reply::Rejected);
    assert_eq!(classify_reply(300), Reply::Rejected);
    assert_eq!(classify_reply(404), Reply::Rejected);
    assert_eq!(classify_reply(500), Reply::Rejected);
}

#[test]
fn send_message_reads_the_answer() {
    let none = || Err::<DeviceMap, BerylliumError>(BerylliumError::Serde(String::from("eof")));
    assert_eq!(HttpsClient::send_message(200, none(), ""), Ok(MessageStatus::Sent));
    assert_eq!(
        HttpsClient::send_message(412, Ok(missing("u", &["c"])), "{}"),
        Ok(MessageStatus::Failed(Devices { missing: missing("u", &["c"]) }))
    );
    assert_eq!(
        HttpsClient::send_message(412, none(), "{}"),
        Err(BerylliumError::Serde(String::from("eof")))
    );
    assert_eq!(
        HttpsClient::send_message(403, Ok(missing("u", &["c"])), "Ok(\"denied\")"),
        Err(BerylliumError::Other(String::from(
            "Error sending message. Response: Ok(\"denied\")"
        )))
    );
}

#[test]
fn get_prekeys_reads_the_answer() {
    let keys = vec![prekey("u", "c", "AQID")];
    assert_eq!(HttpsClient::get_prekeys(200, Ok(keys.clone()), ""), Ok(keys.clone()));
    assert_eq!(
        HttpsClient::get_prekeys(200, Err(BerylliumError::Serde(String::from("bad"))), ""),
        Err(BerylliumError::Serde(String::from("bad")))
    );
    assert_eq!(
        HttpsClient::get_prekeys(201, Ok(keys), "x"),
        Err(BerylliumError::Other(String::from(
            "Cannot obtain prekeys for missing devices. Response: x"
        )))
    );
}

#[test]
fn upload_asset_reads_the_answer() {
    let asset = AssetData { key: String::from("k"), token: String::from("t") };
    assert_eq!(HttpsClient::upload_asset(201, Ok(asset.clone()), ""), Ok(asset.clone()));
    assert_eq!(
        HttpsClient::upload_asset(500, Ok(asset), "boom"),
        Err(BerylliumError::Other(String::from("Error uploading asset. Response: boom")))
    );
}

#[test]
fn direct_send_ends_in_success() {
    let mut known = DeviceMap::new();
    known.insert("ux", vec![String::from("c1"), String::from("c2")]);
    let (mut session, targets) = client().send_encrypted_message(&known);
    assert_eq!(
        targets,
        vec![
            DeviceTarget {
                user: String::from("ux"),
                client: String::from("c1"),
                session_id: String::from("ux_c1"),
            },
            DeviceTarget {
                user: String::from("ux"),
                client: String::from("c2"),
                session_id: String::from("ux_c2"),
            },
        ]
    );
    let outcomes = vec![
        DeviceOutcome {
            user: String::from("ux"),
            client: String::from("c1"),
            stored: true,
            cipher: Some(b"hello".to_vec()),
            saved: true,
        },
        DeviceOutcome {
            user: String::from("ux"),
            client: String::from("c2"),
            stored: false,
            cipher: None,
            saved: false,
        },
    ];
    let action = session.on_fan_out(&outcomes);
    match action {
        SendAction::Post { request, message } => {
            assert_eq!(request, send_request());
            assert_eq!(message.sender, "c0ffee");
            assert_eq!(message.recipients.len(), 1);
            assert_eq!(message.recipients.get("ux", "c1"), Some("aGVsbG8="));
            assert_eq!(message.recipients.get("ux", "c2"), None);
        }
        other => panic!("unexpected {:?}", other),
    }
    let action = session.on_reply(201, Err(BerylliumError::Unreachable), "");
    assert_eq!(action, SendAction::Finished(Ok(())));
}

#[test]
fn outcomes_for_other_devices_end_the_delivery() {
    let stranger = vec![DeviceOutcome {
        user: String::from("ux"),
        client: String::from("c1"),
        stored: true,
        cipher: Some(b"hello".to_vec()),
        saved: true,
    }];
    let (mut session, _) = client().send_encrypted_message(&DeviceMap::new());
    assert_eq!(
        session.on_fan_out(&stranger),
        SendAction::Finished(Err(BerylliumError::Unreachable))
    );
    let mut known = DeviceMap::new();
    known.insert("ux", vec![String::from("c1"), String::from("c2")]);
    let (mut session, _) = client().send_encrypted_message(&known);
    assert_eq!(
        session.on_fan_out(&stranger),
        SendAction::Finished(Err(BerylliumError::Unreachable))
    );
    let (mut session, targets) = client().send_encrypted_message(&known);
    let mut swapped = no_session(&targets);
    swapped.swap(0, 1);
    assert_eq!(
        session.on_fan_out(&swapped),
        SendAction::Finished(Err(BerylliumError::Unreachable))
    );
    let (mut session, _) = client().send_encrypted_message(&known);
    assert_eq!(
        session.on_fan_out(&vec![]),
        SendAction::Finished(Err(BerylliumError::Unreachable))
    );
}

#[test]
fn first_send_without_sessions_has_no_recipients() {
    let (mut session, targets) = client().send_encrypted_message(&DeviceMap::new());
    assert!(targets.is_empty());
    match session.on_fan_out(&vec![]) {
        SendAction::Post { message, .. } => assert!(message.recipients.is_empty()),
        other => panic!("unexpected {:?}", other),
    }
}

#[test]
fn missing_devices_are_recovered_and_the_message_is_sent_again() {
    let mut session = awaiting_first_reply(&DeviceMap::new());
    let action = session.on_reply(412, Ok(missing("ux", &["cy"])), "");
    match action {
        SendAction::FetchPrekeys { request, missing: asked } => {
            assert_eq!(request.url, "https://prod-nginz-https.wire.com/bot/users/prekeys");
            assert_eq!(request.bearer, "secret");
            assert_eq!(request.content, Some(ContentKind::Json));
            assert_eq!(asked, missing("ux", &["cy"]));
        }
        other => panic!("unexpected {:?}", other),
    }
    let action = session.on_prekeys(200, Ok(vec![prekey("ux", "cy", "AQID")]), "");
    assert_eq!(
        action,
        SendAction::Bootstrap {
            target: DeviceTarget {
                user: String::from("ux"),
                client: String::from("cy"),
                session_id: String::from("ux_cy"),
            },
            prekey: vec![1, 2, 3],
        }
    );
    let action = session.on_bootstrapped(Ok(b"hello".to_vec()));
    match action {
        SendAction::Resend { request, message, devices } => {
            assert_eq!(request, send_request());
            assert_eq!(message.sender, "c0ffee");
            assert_eq!(message.recipients.get("ux", "cy"), Some("aGVsbG8="));
            assert_eq!(devices.get("ux"), Some(&vec![String::from("cy")]));
            assert_eq!(devices.len(), 1);
        }
        other => panic!("unexpected {:?}", other),
    }
    let action = session.on_reply(200, Err(BerylliumError::Unreachable), "");
    assert_eq!(action, SendAction::Finished(Ok(())));
}

#[test]
fn recovered_devices_are_appended_to_the_known_ones() {
    let mut known = DeviceMap::new();
    known.insert("ux", vec![String::from("c1")]);
    let mut session = awaiting_first_reply(&known);
    session.on_reply(412, Ok(missing("ux", &["c2"])), "");
    let keys = vec![prekey("ux", "c2", "AQID"), prekey("uz", "c3", "BAUG"), prekey("ux", "c2", "AQID")];
    assert!(matches!(session.on_prekeys(200, Ok(keys), ""), SendAction::Bootstrap { .. }));
    match session.on_bootstrapped(Ok(vec![1])) {
        SendAction::Bootstrap { target, prekey } => {
            assert_eq!(target.session_id, "uz_c3");
            assert_eq!(prekey, vec![4, 5, 6]);
        }
        other => panic!("unexpected {:?}", other),
    }
    assert!(matches!(session.on_bootstrapped(Ok(vec![2])), SendAction::Bootstrap { .. }));
    match session.on_bootstrapped(Ok(vec![3])) {
        SendAction::Resend { message, devices, .. } => {
            assert_eq!(
                devices.get("ux"),
                Some(&vec![String::from("c1"), String::from("c2"), String::from("c2")])
            );
            assert_eq!(devices.get("uz"), Some(&vec![String::from("c3")]));
            assert_eq!(devices.user_at(0), "ux");
            assert_eq!(devices.user_at(1), "uz");
            assert_eq!(message.recipients.get("ux", "c2"), Some("AQ=="));
            assert_eq!(message.recipients.get("uz", "c3"), Some("Ag=="));
            assert_eq!(message.recipients.get("ux", "c1"), None);
        }
        other => panic!("unexpected {:?}", other),
    }
}

#[test]
fn no_prekeys_still_sends_again() {
    let mut session = awaiting_first_reply(&DeviceMap::new());
    session.on_reply(412, Ok(missing("ux", &["cy"])), "");
    match session.on_prekeys(200, Ok(vec![]), "") {
        SendAction::Resend { message, devices, .. } => {
            assert_eq!(message.recipients, Recipients::new());
            assert!(devices.is_empty());
        }
        other => panic!("unexpected {:?}", other),
    }
}

#[test]
fn second_report_of_missing_devices_is_an_error() {
    let mut session = awaiting_first_reply(&DeviceMap::new());
    session.on_reply(412, Ok(missing("ux", &["cy"])), "");
    session.on_prekeys(200, Ok(vec![]), "");
    let action = session.on_reply(412, Ok(missing("ux", &["cy"])), "");
    assert_eq!(
        action,
        SendAction::Finished(Err(BerylliumError::Other(String::from(
            "Cannot send message! Failed after device check"
        ))))
    );
    let again = session.on_reply(200, Ok(DeviceMap::new()), "");
    assert_eq!(again, SendAction::Finished(Err(BerylliumError::Unreachable)));
}

#[test]
fn rejected_message_quotes_the_payload() {
    let mut session = awaiting_first_reply(&DeviceMap::new());
    let action = session.on_reply(500, Ok(DeviceMap::new()), "Ok(\"down\")");
    assert_eq!(
        action,
        SendAction::Finished(Err(BerylliumError::Other(String::from(
            "Error sending message. Response: Ok(\"down\")"
        ))))
    );
}

#[test]
fn unreadable_report_of_missing_devices_is_an_error() {
    let mut session = awaiting_first_reply(&DeviceMap::new());
    let action = session.on_reply(412, Err(BerylliumError::Serde(String::from("eof"))), "");
    assert_eq!(action, SendAction::Finished(Err(BerylliumError::Serde(String::from("eof")))));
}

#[test]
fn refused_prekeys_end_the_delivery() {
    let mut session = awaiting_first_reply(&DeviceMap::new());
    session.on_reply(412, Ok(missing("ux", &["cy"])), "");
    let action = session.on_prekeys(404, Ok(vec![]), "gone");
    assert_eq!(
        action,
        SendAction::Finished(Err(BerylliumError::Other(String::from(
            "Cannot obtain prekeys for missing devices. Response: gone"
        ))))
    );
}

#[test]
fn prekey_that_is_no_base64_ends_the_delivery() {
    let mut session = awaiting_first_reply(&DeviceMap::new());
    session.on_reply(412, Ok(missing("ux", &["cy"])), "");
    let action = session.on_prekeys(200, Ok(vec![prekey("ux", "cy", "***")]), "");
    assert!(matches!(action, SendAction::Finished(Err(BerylliumError::Base64(_)))));
}

#[test]
fn failed_bootstrap_ends_the_delivery() {
    let mut session = awaiting_first_reply(&DeviceMap::new());
    session.on_reply(412, Ok(missing("ux", &["cy"])), "");
    session.on_prekeys(200, Ok(vec![prekey("ux", "cy", "AQID")]), "");
    let action = session.on_bootstrapped(Err(BerylliumError::CBox(String::from("broken"))));
    assert_eq!(action, SendAction::Finished(Err(BerylliumError::CBox(String::from("broken")))));
}

#[test]
fn reports_out_of_turn_are_unreachable() {
    let (mut session, _) = client().send_encrypted_message(&DeviceMap::new());
    assert_eq!(
        session.on_reply(200, Ok(DeviceMap::new()), ""),
        SendAction::Finished(Err(BerylliumError::Unreachable))
    );
    let (mut session, _) = client().send_encrypted_message(&DeviceMap::new());
    assert_eq!(
        session.on_prekeys(200, Ok(vec![]), ""),
        SendAction::Finished(Err(BerylliumError::Unreachable))
    );
    let (mut session, _) = client().send_encrypted_message(&DeviceMap::new());
    assert_eq!(
        session.on_bootstrapped(Ok(vec![])),
        SendAction::Finished(Err(BerylliumError::Unreachable))
    );
    let mut session = awaiting_first_reply(&DeviceMap::new());
    assert_eq!(
        session.on_fan_out(&vec![]),
        SendAction::Finished(Err(BerylliumError::Unreachable))
    );
}

#[test]
fn bot_state_from_storage() {
    let mut config = Config::new();
    beryllium::utils::set_store_path(&mut config, "/var/bots");
    let data = creation_data();
    let bot = BotData::from_storage(&config, data.id, data.clone());
    assert_eq!(bot.storage.path(), "/var/bots/550e8400-e29b-41d4-a716-446655440000");
    assert_eq!(bot.client, client());
    assert_eq!(bot.data, data);
    assert!(bot.devices.missing.is_empty());
    let handle = BotClient::from(&bot);
    assert_eq!(handle.client(), &client());
    assert_eq!(handle.store().path(), "/var/bots/550e8400-e29b-41d4-a716-446655440000");
    let message = handle.send_message(String::from("id-1"), "hello");
    assert_eq!(message.message_id, "id-1");
    assert_eq!(message.content, Content::Text(String::from("hello")));
}

#[test]
fn confirmation_of_a_received_message() {
    let m = HttpsClient::send_confirmation(String::from("fresh"), "received");
    assert_eq!(m.message_id, "fresh");
    assert_eq!(
        m.content,
        Content::Confirmation {
            message_id: String::from("received"),
            kind: ConfirmationType::Delivered,
        }
    );
}

#[test]
fn devices_start_empty() {
    assert!(Devices::default().missing.is_empty());
}
