//! Tests of the identifier and number codecs and the identity store.

use zkbridge::exid::{format_external_id, parse_external_id};
use zkbridge::identity::{
    encode_user_id, get_tauri_uid, get_tauri_login_data, login_data, LocalIdentity, LoginData,
    UserId,
};
use zkbridge::errors::ZkErr;
use zkbridge::numtext::{i64_to_dec_string, u64_to_dec_string};

#[test]
fn uuid_parse_canonical_roundtrip() {
    let s = "0a49bca7-8e4b-4f2d-9c3e-1b2a3c4d5e6f";
    let id = parse_external_id(s).expect("canonical text must parse");
    assert_eq!(format_external_id(&id), s);
}

#[test]
fn uuid_parse_uppercase_canonicalizes() {
    let s = "0A49BCA7-8E4B-4F2D-9C3E-1B2A3C4D5E6F";
    let id = parse_external_id(s).expect("uppercase text must parse");
    assert_eq!(
        format_external_id(&id),
        "0a49bca7-8e4b-4f2d-9c3e-1b2a3c4d5e6f"
    );
}

#[test]
fn uuid_reparse_of_serialized_id() {
    let id = parse_external_id("DEADBEEF-0000-1111-2222-333344445555").unwrap();
    let text = id.to_text();
    let id2 = parse_external_id(text.as_str()).expect("serialized form must re-parse");
    assert_eq!(format_external_id(&id2), text);
}

#[test]
fn uuid_simple_form_canonicalizes() {
    let id = parse_external_id("0A49BCA78E4B4F2D9C3E1B2A3C4D5E6F").expect("simple form parses");
    assert_eq!(format_external_id(&id), "0a49bca7-8e4b-4f2d-9c3e-1b2a3c4d5e6f");
}

#[test]
fn uuid_braced_form_canonicalizes() {
    let id =
        parse_external_id("{0a49bca7-8e4b-4f2d-9c3e-1b2a3c4d5e6f}").expect("braced form parses");
    assert_eq!(format_external_id(&id), "0a49bca7-8e4b-4f2d-9c3e-1b2a3c4d5e6f");
}

#[test]
fn uuid_urn_form_canonicalizes() {
    let id = parse_external_id("urn:uuid:0a49bca7-8e4b-4f2d-9c3e-1b2a3c4d5e6f")
        .expect("urn form parses");
    assert_eq!(format_external_id(&id), "0a49bca7-8e4b-4f2d-9c3e-1b2a3c4d5e6f");
    let upper = parse_external_id("URN:UUID:0A49BCA7-8E4B-4F2D-9C3E-1B2A3C4D5E6F")
        .expect("uppercase urn form parses");
    assert_eq!(format_external_id(&upper), "0a49bca7-8e4b-4f2d-9c3e-1b2a3c4d5e6f");
}

#[test]
fn uuid_rejects_malformed() {
    assert!(parse_external_id("not-a-uuid").is_none());
    assert!(parse_external_id("").is_none());
    assert!(parse_external_id("0a49bca7-8e4b-4f2d-9c3e-1b2a3c4d5e6").is_none());
    assert!(parse_external_id("0a49bca7-8e4b-4f2d-9c3e-1b2a3c4d5e6ff").is_none());
    assert!(parse_external_id("0a49bca78e4b-4f2d-9c3e-1b2a3c4d5e6f1").is_none());
    assert!(parse_external_id("ga49bca7-8e4b-4f2d-9c3e-1b2a3c4d5e6f").is_none());
    assert!(parse_external_id("0A49BCA78E4B4F2D9C3E1B2A3C4D5EZZ").is_none());
    assert!(parse_external_id("[0a49bca7-8e4b-4f2d-9c3e-1b2a3c4d5e6f]").is_none());
    assert!(parse_external_id("urn:uuld:0a49bca7-8e4b-4f2d-9c3e-1b2a3c4d5e6f").is_none());
}

#[test]
fn decimal_strings_exact() {
    assert_eq!(u64_to_dec_string(0), "0");
    assert_eq!(u64_to_dec_string(7), "7");
    assert_eq!(u64_to_dec_string(105), "105");
    assert_eq!(u64_to_dec_string(u64::MAX), "18446744073709551615");
    assert_eq!(i64_to_dec_string(0), "0");
    assert_eq!(i64_to_dec_string(-5), "-5");
    assert_eq!(i64_to_dec_string(i64::MAX), "9223372036854775807");
    assert_eq!(i64_to_dec_string(i64::MIN), "-9223372036854775808");
}

#[test]
fn encode_user_id_is_decimal() {
    assert_eq!(encode_user_id(UserId::Uid(42)), "42");
    assert_eq!(encode_user_id(UserId::Uid(-3)), "-3");
}

#[test]
fn stored_value_decodes_to_user() {
    let r = get_tauri_uid(Ok(Some("123".to_string())));
    assert_eq!(r.unwrap(), Some(UserId::Uid(123)));
}

#[test]
fn stored_garbage_reads_as_logged_out() {
    assert_eq!(get_tauri_uid(Ok(Some("".to_string()))).unwrap(), None);
    assert_eq!(get_tauri_uid(Ok(Some("garbage".to_string()))).unwrap(), None);
    assert_eq!(get_tauri_uid(Ok(None)).unwrap(), None);
}

#[test]
fn store_error_propagates() {
    let r = get_tauri_uid(Err(ZkErr::Store("cannot open".to_string())));
    assert!(matches!(r, Err(ZkErr::Store(t)) if t == "cannot open"));
}

#[test]
fn login_roundtrip_through_store() {
    let mut identity = LocalIdentity { stored: None };
    assert_eq!(identity.get_current_user(), None);
    identity.set_current_user(UserId::Uid(77));
    assert_eq!(identity.get_current_user(), Some(UserId::Uid(77)));
    identity.set_current_user(UserId::Uid(-9));
    assert_eq!(identity.get_current_user(), Some(UserId::Uid(-9)));
}

#[test]
fn clear_current_user_is_idempotent() {
    let mut identity = LocalIdentity { stored: Some("55".to_string()) };
    identity.clear_current_user();
    let after_once = identity.stored.clone();
    identity.clear_current_user();
    assert_eq!(identity.stored, after_once);
    assert_eq!(identity.stored, Some(String::new()));
    assert_eq!(identity.get_current_user(), None);
}

#[test]
fn profile_assembled_from_collaborator_answers() {
    let uid = Ok(Some(UserId::Uid(4)));
    let base = LoginData {
        userid: UserId::Uid(4),
        uuid: "0a49bca7-8e4b-4f2d-9c3e-1b2a3c4d5e6f".to_string(),
        name: "ada".to_string(),
        data: None,
    };
    let r = get_tauri_login_data(uid, Some(Ok(base)), Some(Ok(Some("{\"x\":1}".to_string()))));
    let ld = r.unwrap().expect("profile expected");
    assert!(matches!(ld.userid, UserId::Uid(4)));
    assert_eq!(ld.name, "ada");
    assert_eq!(ld.data, Some("{\"x\":1}".to_string()));
}

#[test]
fn no_user_means_no_profile() {
    let r = get_tauri_login_data(Ok(None), None, None);
    assert!(matches!(r, Ok(None)));
}

#[test]
fn profile_fetch_error_propagates() {
    let r = get_tauri_login_data(
        Ok(Some(UserId::Uid(4))),
        Some(Err(ZkErr::Store("read failed".to_string()))),
        None,
    );
    assert!(matches!(r, Err(ZkErr::Store(t)) if t == "read failed"));
}

#[test]
fn login_data_command_renders_error() {
    let r = login_data(Err(ZkErr::Store("no db".to_string())));
    assert!(matches!(r, Err(t) if t == "no db"));
    let ok = login_data(Ok(None));
    assert!(matches!(ok, Ok(None)));
}
