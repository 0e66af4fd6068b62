use modem::codec::{decode_exponent, decode_modulus, EncryptError};
use modem::modem::{HttpMethod, HuaweiE337, Modem, ModemError};

const MODULUS_B64: &str = "0LhZnDkmMFnyjBBdH7F8I5DBks/TrJSvDyHdtmytSiaNEW7OFzj32T2cFyQR4guPaw1Um28DZ1oWAKNaCZlQ2Db2dcyB50716OJdlA7ZBHWVMZhdXZ3J+BgY6BGJL5Ar0j8IJBKLLzMMXH/QpqOkUGUTJw4mng038qdN5FLmtDk=";

fn initialised() -> HuaweiE337 {
    let mut m = HuaweiE337::new("192.168.8.1".to_string(), 30);
    m.set_tokens("S".to_string(), "T".to_string());
    m
}

#[test]
fn new_client_holds_no_tokens() {
    let m = HuaweiE337::new("192.168.8.1".to_string(), 30);
    assert_eq!(m.session_token(), None);
    assert_eq!(m.verification_token(), None);
    let req = m.session_info_request();
    assert_eq!(req.method, HttpMethod::Get);
    assert_eq!(req.url, "http://192.168.8.1/api/webserver/SesTokInfo");
    assert!(req.headers.is_empty());
    assert_eq!(req.timeout_secs, 30);
}

#[test]
fn requests_need_both_tokens() {
    let m = HuaweiE337::new("192.168.8.1".to_string(), 30);
    assert_eq!(m.reconnect_request().unwrap_err(), ModemError::MissingTokens);
    assert_eq!(m.public_key_request().unwrap_err(), ModemError::MissingTokens);
    assert_eq!(m.reboot_request().unwrap_err(), ModemError::MissingTokens);
}

#[test]
fn modem_reconnect_round_trip() {
    let mut m = HuaweiE337::new("192.168.8.1".to_string(), 30);
    m.refresh_session_token("<SesInfo>S</SesInfo><TokInfo>T</TokInfo>").unwrap();
    assert_eq!(m.session_token().as_deref(), Some("S"));
    assert_eq!(m.verification_token().as_deref(), Some("T"));
    let req = m.reboot_request().unwrap();
    assert_eq!(req.method, HttpMethod::Post);
    assert_eq!(req.url, "http://192.168.8.1/api/device/control");
    assert_eq!(req.headers[0].name, "Cookie");
    assert_eq!(req.headers[0].value, "SessionId=S");
    assert_eq!(req.headers[1].name, "__RequestVerificationToken");
    assert_eq!(req.headers[1].value, "T");
    assert_eq!(
        req.body.as_deref(),
        Some(r#"<?xml version="1.0" encoding="UTF-8"?><request><Control>1</Control></request>"#)
    );
    let body = "<?xml version=\"1.0\"?>\n<response>OK</response>";
    assert_eq!(m.finish_reboot(Some("T2".to_string()), body), Ok(()));
    assert_eq!(m.verification_token().as_deref(), Some("T2"));
    assert_eq!(m.session_token().as_deref(), Some("S"));
}

#[test]
fn reconnect_failure_keeps_body() {
    let mut m = initialised();
    let body = "<error><code>125003</code></error>";
    assert_eq!(m.finish_reboot(None, body), Err(ModemError::ReconnectFailed(body.to_string())));
    assert_eq!(m.verification_token().as_deref(), Some("T"));
}

#[test]
fn public_key_request_carries_tokens() {
    let mut m = initialised();
    m.update_verification_token(Some("T3".to_string()));
    let req = m.public_key_request().unwrap();
    assert_eq!(req.url, "http://192.168.8.1/api/webserver/publickey");
    assert_eq!(req.headers[1].value, "T3");
    assert!(req.body.is_none());
}

#[test]
fn hex_and_base64_decoding() {
    assert_eq!(decode_exponent("010001"), Some(vec![1, 0, 1]));
    assert_eq!(decode_exponent("0aFf"), Some(vec![0x0a, 0xff]));
    assert_eq!(decode_exponent("abc"), None);
    assert_eq!(decode_exponent("z!"), None);
    assert_eq!(decode_modulus("AQAB"), Some(vec![1, 0, 1]));
    assert_eq!(decode_modulus("!!"), None);
}

#[test]
fn key_fields_fall_back_between_encodings() {
    assert_eq!(decode_modulus("AQAB"), Some(vec![1, 0, 1]));
    assert_eq!(decode_modulus("0aff"), Some(vec![0xd1, 0xa7, 0xdf]));
    assert_eq!(decode_modulus("0a-f"), None);
    assert_eq!(decode_exponent("010001"), Some(vec![1, 0, 1]));
    assert_eq!(decode_exponent("AQAB"), Some(vec![1, 0, 1]));
    assert_eq!(decode_exponent("?"), None);
}

fn key_reply(modulus: &str, exponent: &str) -> String {
    format!(
        "<?xml version=\"1.0\" encoding=\"UTF-8\"?>\n<response>\n  <encpubkeyn>{}</encpubkeyn>\n  <encpubkeye>{}</encpubkeye>\n</response>",
        modulus, exponent
    )
}

#[test]
fn session_reply_sets_tokens() {
    let mut m = HuaweiE337::new("192.168.8.1".to_string(), 30);
    let body = "<?xml version=\"1.0\"?><response><SesInfo>S</SesInfo><TokInfo>T</TokInfo></response>";
    assert_eq!(m.refresh_session_token(body), Ok(()));
    assert_eq!(m.session_token().as_deref(), Some("S"));
    assert_eq!(m.verification_token().as_deref(), Some("T"));
}

#[test]
fn session_reply_without_tag_changes_nothing() {
    let mut m = HuaweiE337::new("192.168.8.1".to_string(), 30);
    let err = m.refresh_session_token("<response><SesInfo>S</SesInfo></response>").unwrap_err();
    assert_eq!(err, ModemError::MissingElement("TokInfo".to_string()));
    assert_eq!(m.session_token(), None);
    let err = m.refresh_session_token("<response><TokInfo>T</TokInfo></response>").unwrap_err();
    assert_eq!(err, ModemError::MissingElement("SesInfo".to_string()));
    assert_eq!(m.verification_token(), None);
}

#[test]
fn encryption_needs_tokens() {
    let mut m = HuaweiE337::new("192.168.8.1".to_string(), 30);
    let r = m.encrypt_with_public_key(Some("T9".to_string()), &key_reply(MODULUS_B64, "010001"), "x");
    assert_eq!(r, Err(ModemError::MissingTokens));
    assert_eq!(m.verification_token(), None);
}

#[test]
fn encryption_reports_missing_key_elements() {
    let mut m = initialised();
    let r = m.encrypt_with_public_key(None, "<response><encpubkeye>010001</encpubkeye></response>", "x");
    assert_eq!(r, Err(ModemError::MissingElement("encpubkeyn".to_string())));
    let r = m.encrypt_with_public_key(None, "<response><encpubkeyn>AQAB</encpubkeyn></response>", "x");
    assert_eq!(r, Err(ModemError::MissingElement("encpubkeye".to_string())));
}

#[test]
fn encryption_yields_base64_of_modulus_size() {
    let mut m = initialised();
    let c = m.encrypt_with_public_key(Some("T4".to_string()), &key_reply(MODULUS_B64, "010001"), "password").unwrap();
    assert_eq!(m.verification_token().as_deref(), Some("T4"));
    assert_eq!(c.len(), 172);
    assert_eq!(decode_modulus(&c).map(|b| b.len()), Some(128));
    assert!(c.ends_with('=') || c.len() % 4 == 0);
}

#[test]
fn encryption_reports_bad_key_fields() {
    let mut m = initialised();
    assert_eq!(
        m.encrypt_with_public_key(None, &key_reply("not a key!", "010001"), "x"),
        Err(ModemError::Encrypt(EncryptError::Modulus))
    );
    assert_eq!(
        m.encrypt_with_public_key(None, &key_reply(MODULUS_B64, "?"), "x"),
        Err(ModemError::Encrypt(EncryptError::Exponent))
    );
    assert_eq!(m.verification_token().as_deref(), Some("T"));
}
