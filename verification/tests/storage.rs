use beryllium::devices::DeviceMap;
use beryllium::encoding::fits;
use beryllium::errors::BerylliumError;
use beryllium::file_store::{decimal_text, FileStore};
use beryllium::otr_manager::OtrManager;
use beryllium::recipients::Recipients;
use beryllium::service::load_private_key;
use beryllium::storage::{DeviceOutcome, SessionSource, StorageManager, MAX_INITIAL_MEMBERS};
use beryllium::utils::{set_store_path, Config};

fn devices_of(outcomes: &[DeviceOutcome]) -> DeviceMap {
    let mut devices = DeviceMap::new();
    for o in outcomes {
        devices.append_client(&o.user, &o.client);
    }
    devices
}

fn outcome(user: &str, client: &str, stored: bool, cipher: Option<&[u8]>, saved: bool) -> DeviceOutcome {
    DeviceOutcome {
        user: String::from(user),
        client: String::from(client),
        stored,
        cipher: cipher.map(|c| c.to_vec()),
        saved,
    }
}

#[test]
fn prekey_ids_for_two_members() {
    let ids = StorageManager::prekey_ids(2);
    let mut expected: Vec<u16> = (0..16).collect();
    expected.push(65535);
    assert_eq!(ids, expected);
}

#[test]
fn prekey_ids_for_no_member() {
    assert_eq!(StorageManager::prekey_ids(0), vec![65535]);
}

#[test]
fn prekey_ids_for_the_largest_conversation() {
    let ids = StorageManager::prekey_ids(MAX_INITIAL_MEMBERS);
    assert_eq!(ids.len(), 8 * 8191 + 1);
    assert_eq!(ids[65527], 65527);
    assert_eq!(ids[65528], 65535);
    for (i, id) in ids[..65528].iter().enumerate() {
        assert_eq!(*id as usize, i);
    }
}

#[test]
fn prekeys_are_encoded_in_the_order_of_the_schedule() {
    let fresh: Vec<Vec<u8>> = (0..9u8).map(|i| vec![i]).collect();
    let keys = StorageManager::initialize_prekeys(1, &fresh);
    assert_eq!(keys.len(), 9);
    let ids: Vec<u16> = keys.iter().map(|k| k.id).collect();
    assert_eq!(ids, vec![0, 1, 2, 3, 4, 5, 6, 7, 65535]);
    assert_eq!(keys[0].key, "AA==");
    assert_eq!(keys[7].key, "Bw==");
    assert_eq!(keys[8].key, "CA==");
    let mut config = Config::new();
    set_store_path(&mut config, "/data");
    let otr = OtrManager::new(&config, "bot");
    assert_eq!(otr.initialize(1, &fresh), keys);
}

#[test]
fn store_directory_is_the_id_under_the_store_path() {
    let mut config = Config::new();
    assert_eq!(StorageManager::new(&config, "bot").path(), "./bot");
    set_store_path(&mut config, "/data");
    let store = StorageManager::new(&config, "bot");
    assert_eq!(store.path(), "/data/bot");
    assert_eq!(store.state_path(), "/data/bot/bot_data.json");
    set_store_path(&mut config, "/data/");
    assert_eq!(StorageManager::new(&config, "bot").path(), "/data/bot");
    assert_eq!(StorageManager::new(&config, "/abs").path(), "/abs");
    set_store_path(&mut config, "");
    assert_eq!(StorageManager::new(&config, "bot").path(), "bot");
    assert_eq!(StorageManager::new(&config, "").path(), "");
}

#[test]
fn session_is_named_by_user_and_client() {
    assert_eq!(StorageManager::session_id("user", "client"), "user_client");
    assert_eq!(StorageManager::session_id("", ""), "_");
}

#[test]
fn stored_session_is_used_whatever_prekey_is_offered() {
    assert_eq!(StorageManager::encrypt(true, None), Ok(SessionSource::Stored));
    assert_eq!(StorageManager::encrypt(true, Some(vec![1, 2])), Ok(SessionSource::Stored));
}

#[test]
fn new_session_starts_from_the_prekey() {
    assert_eq!(
        StorageManager::encrypt(false, Some(vec![1, 2])),
        Ok(SessionSource::Prekey(vec![1, 2]))
    );
}

#[test]
fn no_session_and_no_prekey_is_an_error() {
    assert_eq!(StorageManager::encrypt(false, None), Err(BerylliumError::MissingPrekey));
}

#[test]
fn ciphertext_goes_out_in_base64() {
    assert_eq!(StorageManager::encode_cipher(b"hello"), "aGVsbG8=");
    assert_eq!(StorageManager::encode_cipher(b""), "");
    assert_eq!(StorageManager::encode_cipher(&[0xfb, 0xff]), "+/8=");
}

#[test]
fn ciphertext_comes_in_in_base64() {
    assert_eq!(StorageManager::decrypt("aGVsbG8="), Ok(b"hello".to_vec()));
    assert_eq!(StorageManager::decrypt(""), Ok(vec![]));
    assert!(matches!(StorageManager::decrypt("a"), Err(BerylliumError::Base64(_))));
    assert!(matches!(StorageManager::decrypt("aGVsbG8"), Err(BerylliumError::Base64(_))));
    assert!(matches!(StorageManager::decrypt("not base64!"), Err(BerylliumError::Base64(_))));
}

#[test]
fn ciphertext_survives_the_way_out_and_in() {
    for cipher in [&b""[..], &b"a"[..], &b"ab"[..], &b"abc"[..], &[0u8, 255, 128, 7][..]] {
        let text = StorageManager::encode_cipher(cipher);
        assert_eq!(StorageManager::decrypt(&text), Ok(cipher.to_vec()));
    }
}

#[test]
fn fan_out_targets_follow_the_order_of_the_devices() {
    let mut devices = DeviceMap::new();
    devices.insert("u1", vec![String::from("a"), String::from("b")]);
    devices.insert("u2", vec![]);
    devices.insert("u3", vec![String::from("c")]);
    let targets = StorageManager::fan_out_targets(&devices);
    let ids: Vec<&str> = targets.iter().map(|t| t.session_id.as_str()).collect();
    assert_eq!(ids, vec!["u1_a", "u1_b", "u3_c"]);
    assert_eq!(targets[1].user, "u1");
    assert_eq!(targets[1].client, "b");
    assert!(StorageManager::fan_out_targets(&DeviceMap::new()).is_empty());
}

#[test]
fn device_is_a_recipient_only_if_loaded_encrypted_and_saved() {
    let outcomes = vec![
        outcome("u1", "ok", true, Some(b"hello"), true),
        outcome("u1", "no-session", false, None, false),
        outcome("u1", "no-cipher", true, None, true),
        outcome("u1", "not-saved", true, Some(b"x"), false),
        outcome("u2", "no-session", false, Some(b"x"), true),
        outcome("u3", "ok", true, Some(&[0xff]), true),
    ];
    let devices = devices_of(&outcomes);
    assert!(StorageManager::outcomes_answer(&devices, &outcomes));
    let recipients = StorageManager::encrypt_for_devices(&devices, &outcomes);
    assert_eq!(recipients.len(), 2);
    assert_eq!(recipients.user_at(0), "u1");
    assert_eq!(recipients.user_at(1), "u3");
    assert_eq!(recipients.ciphers_at(0).len(), 1);
    assert_eq!(recipients.get("u1", "ok"), Some("aGVsbG8="));
    assert_eq!(recipients.get("u3", "ok"), Some("/w=="));
    assert_eq!(recipients.get("u1", "no-session"), None);
    assert_eq!(recipients.get("u1", "no-cipher"), None);
    assert_eq!(recipients.get("u1", "not-saved"), None);
    assert_eq!(recipients.get("u2", "no-session"), None);
    assert_eq!(recipients.position("u2"), None);
}

#[test]
fn outcomes_answer_the_devices_one_by_one() {
    let mut devices = DeviceMap::new();
    devices.insert("u1", vec![String::from("a"), String::from("b")]);
    devices.insert("u2", vec![String::from("c")]);
    let right = vec![
        outcome("u1", "a", true, Some(b"x"), true),
        outcome("u1", "b", false, None, false),
        outcome("u2", "c", true, None, true),
    ];
    assert!(StorageManager::outcomes_answer(&devices, &right));
    assert!(StorageManager::outcomes_answer(&DeviceMap::new(), &vec![]));
    assert!(!StorageManager::outcomes_answer(&devices, &right[..2].to_vec()));
    assert!(!StorageManager::outcomes_answer(&DeviceMap::new(), &right[..1].to_vec()));
    assert!(!StorageManager::outcomes_answer(&devices, &vec![]));
    let mut swapped = right.clone();
    swapped.swap(0, 1);
    assert!(!StorageManager::outcomes_answer(&devices, &swapped));
    let mut other_user = right.clone();
    other_user[2].user = String::from("u3");
    assert!(!StorageManager::outcomes_answer(&devices, &other_user));
    let mut other_client = right.clone();
    other_client[1].client = String::from("z");
    assert!(!StorageManager::outcomes_answer(&devices, &other_client));
    let mut longer = right.clone();
    longer.push(outcome("u2", "d", true, Some(b"x"), true));
    assert!(!StorageManager::outcomes_answer(&devices, &longer));
}

#[test]
fn base64_fits_all_but_the_longest_buffers() {
    assert!(fits(0));
    assert!(fits(1));
    assert!(fits(1 << 20));
    let limit = isize::MAX as usize;
    assert!(fits(limit / 4 * 3));
    assert!(!fits(limit / 4 * 3 + 1));
    assert!(!fits(limit));
    assert!(!fits(usize::MAX));
}

#[test]
fn first_ciphertext_for_a_device_stays() {
    let outcomes = vec![
        outcome("u1", "c", true, Some(&[1]), true),
        outcome("u1", "c", true, Some(&[2]), true),
    ];
    let devices = devices_of(&outcomes);
    assert!(StorageManager::outcomes_answer(&devices, &outcomes));
    let recipients = StorageManager::encrypt_for_devices(&devices, &outcomes);
    assert_eq!(recipients.get("u1", "c"), Some("AQ=="));
    assert_eq!(recipients.ciphers_at(0).len(), 1);
    assert_eq!(
        StorageManager::encrypt_for_devices(&DeviceMap::new(), &vec![]),
        Recipients::new()
    );
}

#[test]
fn recipients_add_keeps_what_is_there() {
    let mut r = Recipients::new();
    assert!(r.is_empty());
    r.add("u", "c", String::from("one"));
    r.add("u", "c", String::from("two"));
    r.add("u", "d", String::from("three"));
    r.add("v", "c", String::from("four"));
    assert_eq!(r.len(), 2);
    assert_eq!(r.get("u", "c"), Some("one"));
    assert_eq!(r.get("u", "d"), Some("three"));
    assert_eq!(r.get("v", "c"), Some("four"));
    assert_eq!(r.get("v", "d"), None);
    assert_eq!(r.get("w", "c"), None);
    assert_eq!(r.position("v"), Some(1));
}

#[test]
fn device_map_insert_and_append() {
    let mut m = DeviceMap::new();
    assert!(m.is_empty());
    m.append_client("u", "a");
    m.append_client("v", "b");
    m.append_client("u", "a");
    assert_eq!(m.len(), 2);
    assert_eq!(m.get("u"), Some(&vec![String::from("a"), String::from("a")]));
    assert_eq!(m.get("v"), Some(&vec![String::from("b")]));
    assert_eq!(m.get("w"), None);
    assert_eq!(m.position("v"), Some(1));
    m.insert("u", vec![String::from("z")]);
    assert_eq!(m.clients_at(0), &vec![String::from("z")]);
    assert_eq!(m.user_at(0), "u");
    m.insert("w", vec![]);
    assert_eq!(m.len(), 3);
    assert_eq!(m.get("w"), Some(&vec![]));
    let copy = m.clone();
    assert_eq!(copy, m);
}

#[test]
fn files_of_a_bot() {
    let store = FileStore::new("/data", String::from("bot"));
    assert_eq!(store.identity_path(), "/data/bot/identity.id");
    assert_eq!(store.session_path("user_client"), "/data/bot/user_client");
    assert_eq!(store.prekey_path(0), "/data/bot/0.pkid");
    assert_eq!(store.prekey_path(15), "/data/bot/15.pkid");
    assert_eq!(store.prekey_path(65535), "/data/bot/65535.pkid");
}

#[test]
fn numbers_in_decimal() {
    assert_eq!(decimal_text(0), "0");
    assert_eq!(decimal_text(9), "9");
    assert_eq!(decimal_text(10), "10");
    assert_eq!(decimal_text(109), "109");
    assert_eq!(decimal_text(65535), "65535");
    for n in [1u16, 42, 100, 999, 1000, 12345, 60000] {
        assert_eq!(decimal_text(n), format!("{}", n));
    }
}

#[test]
fn private_key_is_the_first_of_the_file() {
    assert_eq!(load_private_key(vec![]), Err(BerylliumError::PemFileError));
    assert_eq!(load_private_key(vec![vec![1]]), Ok(vec![1]));
    assert_eq!(load_private_key(vec![vec![1], vec![2], vec![3]]), Ok(vec![1]));
}
