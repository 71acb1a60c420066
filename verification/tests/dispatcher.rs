//! Tests of the three dispatcher families and the upload flow.

use zkbridge::dispatch::{
    apply_user_response, pimsg, tauri_zk_interface_loggedin, uimsg, uimsg_err,
    user_response_store_value, zimsg, PrivateReply, PublicReply, UserResponse,
};
use zkbridge::errors::ZkErr;
use zkbridge::identity::{login_token, LocalIdentity, LoginData, UserId};
use zkbridge::upload::{
    file_display_name, push_uploaded, resolve_upload_user, timsg, timsg_err,
    upload_display_names, TauriReply, TauriRequest, UploadPlan, ZkListNote,
};

fn profile(uid: i64) -> LoginData {
    LoginData {
        userid: UserId::Uid(uid),
        uuid: "0a49bca7-8e4b-4f2d-9c3e-1b2a3c4d5e6f".to_string(),
        name: "ada".to_string(),
        data: None,
    }
}

#[test]
fn private_request_without_identity_is_refused_before_any_call() {
    let r = tauri_zk_interface_loggedin(None);
    match r {
        Err(ZkErr::Message(m)) => {
            assert_eq!(m, "zimsg: not logged in");
            assert!(m.contains("not logged in"));
        }
        _ => panic!("expected the authentication error"),
    }
    let ok = tauri_zk_interface_loggedin(Some(UserId::Uid(3)));
    assert!(matches!(ok, Ok(UserId::Uid(3))));
}

#[test]
fn private_reply_is_timestamped_and_echoes_closure_id() {
    let r = zimsg(91, Ok(PrivateReply::PvyPayload("notes".to_string())), Ok(1700000000000));
    assert_eq!(r.utcmillis, 1700000000000);
    assert_eq!(r.data.closure_id, 91);
    assert!(matches!(r.data.reply, PrivateReply::PvyPayload(p) if p == "notes"));
}

#[test]
fn private_failure_becomes_typed_server_error() {
    let r = zimsg(7, Err(ZkErr::Collaborator("boom".to_string())), Ok(5));
    assert_eq!(r.utcmillis, 5);
    assert_eq!(r.data.closure_id, 7);
    assert!(matches!(r.data.reply, PrivateReply::PvyServerError(m) if m == "boom"));
}

#[test]
fn private_failure_without_clock_keeps_business_error() {
    let r = zimsg(
        7,
        Err(ZkErr::Collaborator("boom".to_string())),
        Err("no clock".to_string()),
    );
    assert_eq!(r.utcmillis, 0);
    assert!(matches!(r.data.reply, PrivateReply::PvyServerError(m) if m == "boom"));
}

#[test]
fn private_clock_failure_keeps_typed_payload() {
    let r = zimsg(
        7,
        Ok(PrivateReply::PvyPayload("notes".to_string())),
        Err("clock unavailable".to_string()),
    );
    assert_eq!(r.utcmillis, 0);
    assert!(matches!(r.data.reply, PrivateReply::PvyServerError(m) if m == "clock unavailable"));
}

#[test]
fn public_reply_is_timestamped() {
    let r = pimsg(Ok(PublicReply::PbyPayload("page".to_string())), Ok(42));
    assert_eq!(r.utcmillis, 42);
    assert!(matches!(r.data, PublicReply::PbyPayload(p) if p == "page"));
}

#[test]
fn public_failure_becomes_typed_server_error() {
    let r = pimsg(Err(ZkErr::Collaborator("down".to_string())), Ok(42));
    assert_eq!(r.utcmillis, 42);
    assert!(matches!(r.data, PublicReply::PbyServerError(m) if m == "down"));
}

#[test]
fn public_clock_failure_overrides_reply() {
    let r = pimsg(Ok(PublicReply::PbyPayload("page".to_string())), Err("no clock".to_string()));
    assert_eq!(r.utcmillis, 0);
    assert!(matches!(r.data, PublicReply::PbyServerError(m) if m == "no clock"));
}

#[test]
fn login_reply_calls_for_identifier_write() {
    let w = user_response_store_value(&UserResponse::UrpLoggedIn(profile(12)));
    assert_eq!(w, Some("12".to_string()));
    let w2 = user_response_store_value(&UserResponse::UrpLoggedOut);
    assert_eq!(w2, Some(String::new()));
    let w3 = user_response_store_value(&UserResponse::UrpPayload("x".to_string()));
    assert_eq!(w3, None);
}

#[test]
fn successful_login_passes_through_when_persisted() {
    let r = uimsg_err(Ok(UserResponse::UrpLoggedIn(profile(12))), Some(Ok(())));
    match r {
        Ok(UserResponse::UrpLoggedIn(ld)) => assert!(matches!(ld.userid, UserId::Uid(12))),
        _ => panic!("expected the login reply unchanged"),
    }
}

#[test]
fn persistence_failure_overrides_successful_login() {
    let r = uimsg_err(
        Ok(UserResponse::UrpLoggedIn(profile(12))),
        Some(Err("disk full".to_string())),
    );
    match r {
        Err(ZkErr::Message(m)) => assert_eq!(m, "error saving last login. disk full"),
        _ => panic!("expected the override error"),
    }
}

#[test]
fn persistence_failure_overrides_successful_logout() {
    let r = uimsg_err(Ok(UserResponse::UrpLoggedOut), Some(Err("disk full".to_string())));
    match r {
        Err(ZkErr::Message(m)) => assert_eq!(m, "error saving logged out status. disk full"),
        _ => panic!("expected the override error"),
    }
}

#[test]
fn account_collaborator_failure_is_a_typed_reply() {
    let r = uimsg_err(Err(ZkErr::Collaborator("denied".to_string())), None);
    assert!(matches!(r, Ok(UserResponse::UrpServerError(m)) if m == "denied"));
}

#[test]
fn uimsg_renders_remaining_errors() {
    let out = uimsg(Err(ZkErr::Message("late".to_string())));
    assert!(matches!(out, UserResponse::UrpServerError(m) if m == "late"));
    let pass = uimsg(Ok(UserResponse::UrpLoggedOut));
    assert!(matches!(pass, UserResponse::UrpLoggedOut));
}

#[test]
fn login_then_read_sees_new_user() {
    let mut identity = LocalIdentity { stored: None };
    apply_user_response(&mut identity, &UserResponse::UrpLoggedIn(profile(31)));
    assert_eq!(identity.get_current_user(), Some(UserId::Uid(31)));
    apply_user_response(&mut identity, &UserResponse::UrpLoggedOut);
    assert_eq!(identity.get_current_user(), None);
    let before = identity.stored.clone();
    apply_user_response(&mut identity, &UserResponse::UrpPayload("other".to_string()));
    assert_eq!(identity.stored, before);
}

#[test]
fn session_token_is_the_profile_uuid() {
    let ld = profile(4);
    let uuid = ld.uuid.clone();
    assert_eq!(login_token(&Some(ld)), Some(uuid));
    assert_eq!(login_token(&None), None);
}

#[test]
fn cancelled_picker_gives_empty_upload_reply() {
    let p = timsg_err(&TauriRequest::TrqUploadFiles, None);
    match p {
        UploadPlan::Reply(TauriReply::TyUploadedFiles(u)) => assert!(u.notes.is_empty()),
        _ => panic!("expected an empty uploaded-files reply"),
    }
}

#[test]
fn chosen_paths_go_on_to_processing() {
    let p = timsg_err(
        &TauriRequest::TrqUploadFiles,
        Some(vec!["/home/ada/a.txt".to_string(), "/home/ada/b.txt".to_string()]),
    );
    match p {
        UploadPlan::Process(ps) => {
            assert_eq!(ps, vec!["/home/ada/a.txt".to_string(), "/home/ada/b.txt".to_string()])
        }
        _ => panic!("expected the chosen paths"),
    }
}

#[test]
fn display_name_is_last_segment() {
    assert_eq!(file_display_name("/home/ada/a.txt"), Some("a.txt".to_string()));
    assert_eq!(file_display_name("a.txt"), Some("a.txt".to_string()));
    assert_eq!(file_display_name("/home/ada/"), None);
    assert_eq!(file_display_name(""), None);
}

#[test]
fn nameless_paths_are_skipped_in_order() {
    let names = upload_display_names(&vec![
        "/a/x.txt".to_string(),
        "/a/".to_string(),
        "y.md".to_string(),
        "".to_string(),
    ]);
    assert_eq!(names, vec!["x.txt".to_string(), "y.md".to_string()]);
}

#[test]
fn upload_without_identity_refuses_batch() {
    let r = resolve_upload_user(None);
    assert!(matches!(r, Err(ZkErr::NotLoggedIn)));
    assert!(matches!(resolve_upload_user(Some(UserId::Uid(2))), Ok(UserId::Uid(2))));
}

#[test]
fn first_failure_aborts_batch() {
    let mut notes: Vec<ZkListNote> = Vec::new();
    let ok = push_uploaded(&mut notes, Ok(ZkListNote { payload: "n1".to_string() }));
    assert!(ok.is_ok());
    assert_eq!(notes.len(), 1);
    let err = push_uploaded(&mut notes, Err(ZkErr::Store("write failed".to_string())));
    assert!(matches!(err, Err(ZkErr::Store(t)) if t == "write failed"));
    assert_eq!(notes.len(), 1);
}

#[test]
fn upload_failure_becomes_typed_reply() {
    let out = timsg(Err(ZkErr::NotLoggedIn));
    assert!(matches!(out, TauriReply::TyServerError(m) if m == "not logged in"));
}
