use kimi_quota_bar::error::{AuthError, ErrorKind};
use kimi_quota_bar::json::{parse, render};
use kimi_quota_bar::keychain::{
    keychain_password, safe_storage_key, session_key, session_key_added, KeyStep, Ran,
    ITEM_NOT_FOUND,
};
use kimi_quota_bar::oscrypt::{
    aes_gcm_decrypt, aes_gcm_encrypt, aes_gcm_seal, decrypt_safe_storage, decrypt_with_key,
    encrypt_safe_storage, key_of_unwrapped, marked_protected, oscrypt_decrypt, oscrypt_encrypt,
    oscrypt_key_from, seal_safe_storage, session_came_back, session_crypto_roundtrip,
    session_decrypt, session_encrypt, OpenStep, SealStep,
};
use kimi_quota_bar::store::{
    document_of_bytes, load_sealed_store, load_session, load_store, load_store_with_key,
    os_crypt_key, read_session, read_store, save_sealed_store, save_session, save_store,
    session_text, store_text, unmarked_key, wrapped_key_of, LoadStep, StoreStep,
};
use kimi_quota_bar::text::hex_of;

const STORE: &str = "djEw3bYqJ3xaqcgcp0sxsdnZEyOpDW6Wi/PjqiFUODdOAuK8hnMeUdONIKCt0U2iDzyqH5WFgEm1fuEMrZ/uBXVIrxq++BsSTabZZ55gnkiTjKk=";
const STORE_DOC: &str =
    "{\"tokens\":{\"access_token\":\"stored\",\"refresh_token\":\"r0\"},\"user\":{\"n\":7}}";
const SESSION: &str = "djEwFZ4EW3iSLJ501VMDuLHyUGPRJOsePR9YuQP7sYi42i9N/YoLP1FCOA+NlcoaoIcG100yvSE39zB5ErycbuJRRrPF0S6XFxxg+otsEaW3cp4=";

fn key() -> [u8; 16] {
    oscrypt_key_from("secret")
}

fn bytes(hex: &str) -> Vec<u8> {
    (0..hex.len() / 2)
        .map(|i| u8::from_str_radix(&hex[2 * i..2 * i + 2], 16).unwrap())
        .collect()
}

fn gcm_key() -> [u8; 32] {
    let mut k = [0u8; 32];
    for (i, b) in k.iter_mut().enumerate() {
        *b = i as u8;
    }
    k
}

fn nonce() -> [u8; 12] {
    [0, 1, 2, 3, 4, 5, 6, 7, 8, 9, 10, 11]
}

const GCM_HELLO: &str = "763130000102030405060708090a0b2f67ba77aa2797ff353b8a046d28236dcd9d057bbb";

#[test]
fn keys_are_derived_from_passwords() {
    assert_eq!(hex_of(&oscrypt_key_from("peanuts")), "d9a09d499b4e1b7461f28e67972c6dbd");
    assert_eq!(hex_of(&key()), "1a7404704ee35b4506624ed49171a534");
}

#[test]
fn cbc_data_have_their_known_form() {
    assert_eq!(
        hex_of(&oscrypt_encrypt(&key(), "hello").unwrap()),
        "7631301772261beb48aa9403768595deec0b41"
    );
    assert_eq!(
        hex_of(&oscrypt_encrypt(&key(), "0123456789abcdef").unwrap()),
        "763130b46e4c539799d09a7ff625490048fe15752c8935b5a1363b80754e3e71edacda"
    );
    assert_eq!(
        hex_of(&oscrypt_encrypt(&key(), "").unwrap()),
        "7631306c9da7948b7e3226c81ff830d30e0d70"
    );
}

#[test]
fn cbc_data_are_opened() {
    let blob = bytes("7631301772261beb48aa9403768595deec0b41");
    assert_eq!(oscrypt_decrypt(&key(), &blob).unwrap(), "hello");
    assert_eq!(session_decrypt(&key(), &blob).unwrap(), "hello");
}

#[test]
fn cbc_data_are_refused() {
    let no_mark = oscrypt_decrypt(&key(), b"v11abc").unwrap_err();
    assert_eq!(no_mark.kind, ErrorKind::Prefix);
    assert_eq!(oscrypt_decrypt(&key(), b"v1").unwrap_err().kind, ErrorKind::Prefix);
    let bad_pad = bytes("7631304db44c4f3dc65e1b76a9faec2623dd3a");
    assert_eq!(oscrypt_decrypt(&key(), &bad_pad).unwrap_err().kind, ErrorKind::Unpad);
    assert_eq!(oscrypt_decrypt(&key(), b"v10short").unwrap_err().kind, ErrorKind::Unpad);
    let no_text = bytes("763130a9a41709cad0ed73e7a8c4929c82156e");
    assert_eq!(oscrypt_decrypt(&key(), &no_text).unwrap_err().kind, ErrorKind::Utf8);
}

#[test]
fn cbc_data_fill_whole_blocks() {
    for len in [0usize, 1, 15, 16, 17, 32, 100] {
        let text = "a".repeat(len);
        let blob = oscrypt_encrypt(&key(), &text).unwrap();
        assert!(blob.starts_with(b"v10"));
        assert_eq!(blob.len(), 3 + 16 * (len / 16 + 1));
        assert_eq!(oscrypt_decrypt(&key(), &blob).unwrap(), text);
        assert_eq!(
            oscrypt_decrypt(&key(), &blob[..blob.len() - 1]).unwrap_err().kind,
            ErrorKind::Unpad
        );
    }
    assert_eq!(oscrypt_decrypt(&key(), b"v10").unwrap_err().kind, ErrorKind::Unpad);
}

#[test]
fn an_item_that_is_refused_is_not_replaced() {
    for status in [Some(128), Some(36), Some(51), None] {
        match session_key(Ran::Failed(status)) {
            KeyStep::Fail(e) => assert_eq!(
                e.message(),
                "钥匙串读取被拒绝，请允许访问 \"kimi-quota-bar Session Key\""
            ),
            other => panic!("{other:?}"),
        }
    }
    match session_key(Ran::Not) {
        KeyStep::Fail(e) => assert_eq!(e.kind, ErrorKind::KeychainRead),
        other => panic!("{other:?}"),
    }
    match session_key(Ran::Well(vec![0xff])) {
        KeyStep::Fail(e) => assert_eq!(e.kind, ErrorKind::Utf8),
        other => panic!("{other:?}"),
    }
}

#[test]
fn fractions_are_read_back() {
    let text = "{\"deep\":[{\"f\":-2.25}],\"ratio\":0.5}";
    let raw = save_session(parse(text).unwrap(), &key()).unwrap();
    assert_eq!(render(load_session(Some(&raw), Ok(key())).unwrap().unwrap()), text);
    let raw = save_store(parse(text).unwrap(), &key()).unwrap();
    assert_eq!(render(load_store(&raw, Ok(key())).unwrap()), text);
}

#[test]
fn sessions_survive_their_encryption() {
    for text in ["", "{\"t\":\"kqb-probe\"}", "额度 0123456789abcdef"] {
        let blob = session_encrypt(&key(), text).unwrap();
        assert_ne!(blob, text.as_bytes());
        assert_eq!(session_decrypt(&key(), &blob).unwrap(), text);
        assert!(session_crypto_roundtrip(&key(), text).unwrap());
    }
}

#[test]
fn gcm_data_have_their_known_form() {
    let blob = aes_gcm_seal(&gcm_key(), &nonce(), "hello").unwrap();
    assert_eq!(hex_of(&blob), GCM_HELLO);
    assert_eq!(aes_gcm_decrypt(&gcm_key(), &blob).unwrap(), "hello");
    assert_eq!(blob.len(), 31 + "hello".len());
}

#[test]
fn gcm_data_are_refused() {
    assert_eq!(aes_gcm_decrypt(&gcm_key(), b"v10").unwrap_err().kind, ErrorKind::NotGcm);
    assert_eq!(aes_gcm_decrypt(&gcm_key(), &[0u8; 40]).unwrap_err().kind, ErrorKind::NotGcm);
    let mut tampered = bytes(GCM_HELLO);
    tampered[20] ^= 1;
    assert_eq!(aes_gcm_decrypt(&gcm_key(), &tampered).unwrap_err().kind, ErrorKind::GcmOpen);
    assert_eq!(
        aes_gcm_decrypt(&[9u8; 32], &bytes(GCM_HELLO)).unwrap_err().kind,
        ErrorKind::GcmOpen
    );
    let no_text = bytes("763130000102030405060708090a0bb89b344619cb68c27daf8f9b393586ec63");
    assert_eq!(aes_gcm_decrypt(&gcm_key(), &no_text).unwrap_err().kind, ErrorKind::Utf8);
}

#[test]
fn gcm_draws_a_nonce_for_each_message() {
    let one = aes_gcm_encrypt(&gcm_key(), "hello").unwrap();
    let two = aes_gcm_encrypt(&gcm_key(), "hello").unwrap();
    assert_eq!(one.len(), 3 + 12 + 5 + 16);
    assert_ne!(one, two);
    assert_eq!(aes_gcm_decrypt(&gcm_key(), &one).unwrap(), "hello");
    assert_eq!(aes_gcm_decrypt(&gcm_key(), &two).unwrap(), "hello");
}

#[test]
fn what_gcm_cannot_open_goes_to_dpapi() {
    let blob = bytes(GCM_HELLO);
    assert!(matches!(decrypt_safe_storage(&blob), OpenStep::Key));
    match decrypt_with_key(Some(&gcm_key()), &blob) {
        OpenStep::Text(t) => assert_eq!(t, "hello"),
        other => panic!("{other:?}"),
    }
    match decrypt_with_key(None, &blob) {
        OpenStep::Unprotect(b) => assert_eq!(b, blob[3..].to_vec()),
        other => panic!("{other:?}"),
    }
    match decrypt_with_key(Some(&[0u8; 32]), &blob) {
        OpenStep::Unprotect(b) => assert_eq!(b, blob[3..].to_vec()),
        other => panic!("{other:?}"),
    }
    match decrypt_safe_storage(b"raw") {
        OpenStep::Unprotect(b) => assert_eq!(b, b"raw".to_vec()),
        other => panic!("{other:?}"),
    }
    match decrypt_safe_storage(b"v10raw") {
        OpenStep::Unprotect(b) => assert_eq!(b, b"raw".to_vec()),
        other => panic!("{other:?}"),
    }
}

#[test]
fn what_gcm_cannot_seal_goes_to_dpapi() {
    match encrypt_safe_storage(None, "hello").unwrap() {
        SealStep::Protect(b) => assert_eq!(b, b"hello".to_vec()),
        other => panic!("{other:?}"),
    }
    match encrypt_safe_storage(Some(&gcm_key()), "hello").unwrap() {
        SealStep::Data(b) => assert_eq!(aes_gcm_decrypt(&gcm_key(), &b).unwrap(), "hello"),
        other => panic!("{other:?}"),
    }
    match seal_safe_storage(Some(&gcm_key()), &nonce(), "hello") {
        SealStep::Data(b) => assert_eq!(hex_of(&b), GCM_HELLO),
        other => panic!("{other:?}"),
    }
    match seal_safe_storage(None, &nonce(), "hello") {
        SealStep::Protect(b) => assert_eq!(b, b"hello".to_vec()),
        other => panic!("{other:?}"),
    }
    assert_eq!(marked_protected(&[1, 2]), vec![0x76, 0x31, 0x30, 1, 2]);
}

#[test]
fn keys_have_thirty_two_bytes() {
    assert_eq!(key_of_unwrapped(&gcm_key()).unwrap(), gcm_key());
    assert_eq!(key_of_unwrapped(&[0u8; 31]).unwrap_err().kind, ErrorKind::KeyLength);
    assert_eq!(key_of_unwrapped(&[0u8; 33]).unwrap_err().kind, ErrorKind::KeyLength);
}

#[test]
fn the_token_store_is_read() {
    let raw = format!("{{\"encryption\":\"safeStorage.v1\",\"data\":\"{STORE}\"}}");
    assert_eq!(render(load_store(&raw, Ok(key())).unwrap()), STORE_DOC);
    let denied = load_store(&raw, Err(AuthError::new(ErrorKind::KeychainRead))).unwrap_err();
    assert_eq!(denied.kind, ErrorKind::KeychainRead);
}

#[test]
fn the_token_store_is_refused() {
    let denied = || Err(AuthError::new(ErrorKind::KeychainRead));
    assert_eq!(load_store("nothing", denied()).unwrap_err().kind, ErrorKind::Json);
    let other = load_store("{\"encryption\":\"rot13\",\"data\":\"AQID\"}", denied()).unwrap_err();
    assert_eq!(other.kind, ErrorKind::StoreEncryption);
    assert_eq!(other.message(), "未知的令牌加密方式: rot13");
    assert_eq!(read_store("{}").unwrap_err().message(), "未知的令牌加密方式: ");
    assert_eq!(
        read_store("{\"encryption\":\"safeStorage\"}").unwrap_err().kind,
        ErrorKind::StoreData
    );
    assert_eq!(
        read_store("{\"encryption\":\"safeStorage\",\"data\":\"*\"}").unwrap_err().kind,
        ErrorKind::Base64
    );
    let no_document = "{\"encryption\":\"safeStorage\",\"data\":\"djEwe+b+hogqQjAHuVdd/cJd1A==\"}";
    assert_eq!(load_store(no_document, Ok(key())).unwrap_err().kind, ErrorKind::Json);
}

#[test]
fn what_is_written_to_the_token_store_is_read_back() {
    let raw = save_store(parse(STORE_DOC).unwrap(), &key()).unwrap();
    assert_eq!(
        raw,
        format!("{{\"data\":\"{STORE}\",\"encryption\":\"safeStorage.v1\"}}")
    );
    assert_eq!(render(load_store(&raw, Ok(key())).unwrap()), STORE_DOC);
    assert_eq!(read_store(&store_text(&[1, 2, 3])).unwrap(), vec![1, 2, 3]);
}

#[test]
fn a_token_store_is_read_step_by_step_on_windows() {
    let sealed = match save_sealed_store(parse(STORE_DOC).unwrap(), Some(&gcm_key())).unwrap() {
        StoreStep::Text(raw) => raw,
        other => panic!("{other:?}"),
    };
    assert!(matches!(load_sealed_store(&sealed), LoadStep::Key));
    match load_store_with_key(&sealed, Some(&gcm_key())) {
        LoadStep::Done(Ok(doc)) => assert_eq!(render(doc), STORE_DOC),
        other => panic!("{other:?}"),
    }
    let blob = read_store(&sealed).unwrap();
    for key in [None, Some(&[1u8; 32])] {
        match load_store_with_key(&sealed, key) {
            LoadStep::Unprotect(b) => assert_eq!(b, blob[3..].to_vec()),
            other => panic!("{other:?}"),
        }
    }
    let short = store_text(&marked_protected(&[1, 2, 3]));
    match load_sealed_store(&short) {
        LoadStep::Unprotect(b) => assert_eq!(b, vec![1, 2, 3]),
        other => panic!("{other:?}"),
    }
    let long = store_text(&marked_protected(&[7u8; 40]));
    assert!(matches!(load_sealed_store(&long), LoadStep::Key));
    match load_store_with_key(&long, Some(&gcm_key())) {
        LoadStep::Unprotect(b) => assert_eq!(b, vec![7u8; 40]),
        other => panic!("{other:?}"),
    }
    match load_sealed_store("{}") {
        LoadStep::Done(Err(e)) => assert_eq!(e.kind, ErrorKind::StoreEncryption),
        other => panic!("{other:?}"),
    }
}

#[test]
fn what_dpapi_gave_back_is_compared() {
    assert!(session_came_back("额".as_bytes().to_vec(), "额").unwrap());
    assert!(!session_came_back(b"x".to_vec(), "y").unwrap());
    assert_eq!(session_came_back(vec![0xff], "y").unwrap_err().kind, ErrorKind::Utf8);
}

#[test]
fn a_sealed_token_store_is_read_back() {
    match save_sealed_store(parse(STORE_DOC).unwrap(), Some(&gcm_key())).unwrap() {
        StoreStep::Text(raw) => {
            let blob = read_store(&raw).unwrap();
            assert_eq!(aes_gcm_decrypt(&gcm_key(), &blob).unwrap(), STORE_DOC);
        }
        other => panic!("{other:?}"),
    }
    match save_sealed_store(parse(STORE_DOC).unwrap(), None).unwrap() {
        StoreStep::Protect(b) => assert_eq!(render(document_of_bytes(b).unwrap()), STORE_DOC),
        other => panic!("{other:?}"),
    }
    assert_eq!(document_of_bytes(vec![0xff]).unwrap_err().kind, ErrorKind::Utf8);
    assert_eq!(document_of_bytes(b"{".to_vec()).unwrap_err().kind, ErrorKind::Json);
}

#[test]
fn the_session_is_read() {
    let raw = format!("{{\"encryption\":\"kqb.v1\",\"data\":\"{SESSION}\"}}");
    let session = load_session(Some(&raw), Ok(key())).unwrap().unwrap();
    assert_eq!(session.text_at("access_token"), Some("own"));
    assert_eq!(session.text_at("source"), Some("qr"));
    assert!(load_session(None, Err(AuthError::new(ErrorKind::KeychainRead))).unwrap().is_none());
    assert_eq!(
        load_session(Some(&raw), Err(AuthError::new(ErrorKind::KeychainRead))).unwrap_err().kind,
        ErrorKind::KeychainRead
    );
    assert_eq!(read_session("{}").unwrap_err().kind, ErrorKind::SessionData);
    assert_eq!(read_session("[").unwrap_err().kind, ErrorKind::Json);
}

#[test]
fn what_is_written_to_the_session_is_read_back() {
    let text = "{\"access_token\":\"own\",\"refresh_token\":\"r1\",\"source\":\"qr\",\"user_id\":\"u\"}";
    let raw = save_session(parse(text).unwrap(), &key()).unwrap();
    assert!(raw.contains("\"encryption\":\"kqb.v1\""));
    let read = load_session(Some(&raw), Ok(key())).unwrap().unwrap();
    assert_eq!(render(read), text);
    assert_eq!(read_session(&session_text(&[9])).unwrap(), vec![9]);
}

#[test]
fn the_wrapped_key_is_found() {
    let state = "{\"os_crypt\":{\"encrypted_key\":\"RFBBUEkBAgM=\"}}";
    assert_eq!(os_crypt_key(state).unwrap(), vec![1, 2, 3]);
    assert_eq!(wrapped_key_of(&parse(state).unwrap()).unwrap(), vec![1, 2, 3]);
    assert_eq!(os_crypt_key("{}").unwrap_err().kind, ErrorKind::NoWrappedKey);
    assert_eq!(os_crypt_key("").unwrap_err().kind, ErrorKind::Json);
    let other = "{\"os_crypt\":{\"encrypted_key\":\"WFBBUEkBAgM=\"}}";
    assert_eq!(os_crypt_key(other).unwrap_err().kind, ErrorKind::KeyWrapping);
    let broken = "{\"os_crypt\":{\"encrypted_key\":\"*\"}}";
    assert_eq!(os_crypt_key(broken).unwrap_err().kind, ErrorKind::Base64);
    assert_eq!(unmarked_key(b"DPAPIx").unwrap(), b"x".to_vec());
    assert_eq!(unmarked_key(b"DPAP").unwrap_err().kind, ErrorKind::KeyWrapping);
}

#[test]
fn passwords_come_from_the_keychain() {
    let out = |s: &str| Ran::Well(s.as_bytes().to_vec());
    assert_eq!(keychain_password("svc", out("secret\n")).unwrap(), "secret");
    assert_eq!(keychain_password("svc", out(" s \r\n")).unwrap(), " s");
    assert_eq!(keychain_password("svc", Ran::Not).unwrap_err().kind, ErrorKind::KeychainRead);
    assert_eq!(
        keychain_password("svc", Ran::Failed(Some(128))).unwrap_err().message(),
        "钥匙串读取被拒绝，请允许访问 \"svc\""
    );
    assert_eq!(
        keychain_password("svc", Ran::Well(vec![0xff])).unwrap_err().kind,
        ErrorKind::Utf8
    );
    assert_eq!(safe_storage_key(out("secret\n")).unwrap(), key());
    assert_eq!(
        safe_storage_key(Ran::Failed(Some(44))).unwrap_err().message(),
        "钥匙串读取被拒绝，请允许访问 \"kimi-desktop Safe Storage\""
    );
}

#[test]
fn a_made_password_is_found_again() {
    match session_key(Ran::Well(b"secret\n".to_vec())) {
        KeyStep::Key(k) => assert_eq!(k, key()),
        other => panic!("{other:?}"),
    }
    let password = match session_key(Ran::Failed(Some(ITEM_NOT_FOUND))) {
        KeyStep::Add(p) => p,
        other => panic!("{other:?}"),
    };
    assert_eq!(password.len(), 32);
    assert!(password.bytes().all(|b| b.is_ascii_digit() || (b'a'..=b'f').contains(&b)));
    let first = session_key_added(&password, Ran::Well(Vec::new())).unwrap();
    match session_key(Ran::Well(format!("{password}\n").into_bytes())) {
        KeyStep::Key(later) => assert_eq!(later, first),
        other => panic!("{other:?}"),
    }
    assert_eq!(
        session_key_added(&password, Ran::Not).unwrap_err().kind,
        ErrorKind::KeychainWrite
    );
    assert_eq!(
        session_key_added(&password, Ran::Failed(Some(45))).unwrap_err().kind,
        ErrorKind::KeychainCreate
    );
}
