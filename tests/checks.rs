use p0nygramm::backend_api::request_data::{
    check_file_mime, check_form_content_mime, CommentData, LoginData, RegisterData, TagData,
};
use p0nygramm::backend_api::response_result::ErrorCode;
use p0nygramm::backend_api::{
    check_login_credentials, check_login_input, login_precheck, login_result, logout_result, prepare_registration,
    register_result, session_error_response,
};
use p0nygramm::db_api::db_result::{DbApiError, DbApiErrorType, SessionData, SessionError, SessionErrorType, UserData};
use p0nygramm::security::{
    check_and_escape_comment, check_filename, check_invite_key, check_password, check_tag, check_username,
    password_accepted, password_is_correct, presented_session_id, verify_password,
};

const DOC_HASH: &str = "$argon2i$v=19$m=4096,t=3,p=1$c29tZXNhbHQ$iWh06vD8Fy27wf9npn6FXWiCX4K6pW6Ue1Bnzz07Z8A";

#[test]
fn usernames() {
    assert!(check_username("alice42"));
    assert!(check_username(""));
    assert!(check_username(&"a".repeat(32)));
    assert!(!check_username(&"a".repeat(33)));
    assert!(!check_username("al ice"));
    assert!(!check_username("älice"));
}

#[test]
fn passwords() {
    assert!(check_password("secret!!"));
    assert!(!check_password("short"));
    assert!(check_password(&"x".repeat(64)));
    assert!(!check_password(&"x".repeat(65)));
    assert!(!check_password("has space in it"));
    assert!(check_password("pässwört"));
    // 32 two-byte characters are 64 bytes; 33 are too many.
    assert!(check_password(&"ä".repeat(32)));
    assert!(!check_password(&"ä".repeat(33)));
}

#[test]
fn invite_keys_filenames_tags() {
    assert!(check_invite_key("Ab1Ab1Ab1Ab1Ab1Ab1Ab1Ab1Ab1Ab1xy"));
    assert!(!check_invite_key(&"a".repeat(31)));
    assert!(!check_invite_key(&format!("{}-", "a".repeat(31))));
    assert!(check_filename("cat_picture-1.png"));
    assert!(!check_filename("abc"));
    assert!(!check_filename("a.b.c"));
    assert!(check_filename(".png"));
    assert!(!check_filename("../etc/passwd"));
    assert!(!check_filename(&format!("{}.png", "a".repeat(29))));
    assert!(check_tag("funny cat"));
    assert!(!check_tag("funny,cat"));
    assert!(check_tag(&"t".repeat(64)));
    assert!(!check_tag(&"t".repeat(65)));
}

#[test]
fn comments_are_escaped() {
    assert_eq!(check_and_escape_comment("a<b> & \"c\" 'd' /e").unwrap(), "a&lt;b&gt; &amp; &quot;c&quot; &#x27;d&#x27; &#x2f;e");
    assert_eq!(check_and_escape_comment("plain text").unwrap(), "plain text");
    assert!(check_and_escape_comment("bell\u{7}").is_none());
    assert!(check_and_escape_comment(&"a".repeat(8001)).is_none());
    assert_eq!(check_and_escape_comment(&"a".repeat(8000)).unwrap().len(), 8000);
}

#[test]
fn comment_validation_needs_upload() {
    let c = CommentData { upload_id: 3, comment_text: "<hi>".to_string() };
    let v = c.validate_data(true).unwrap();
    assert_eq!(v.upload_id, 3);
    assert_eq!(v.comment_text, "&lt;hi&gt;");
    assert!(c.validate_data(false).is_none());
}

#[test]
fn malformed_hash_never_verifies() {
    assert_eq!(verify_password("not a hash", "password", ""), None);
    assert_eq!(verify_password("", "password", ""), None);
    assert_eq!(verify_password("$argon2i$broken", "password", ""), None);
    assert!(!password_is_correct("not a hash", "password", ""));
    assert!(!password_accepted(None));
    assert!(!password_accepted(Some(false)));
    assert!(password_accepted(Some(true)));
    // Framed like a hash, but not one.
    assert_eq!(verify_password("$argon2id$v=19$m=4096,t=3,p=1$!!$??", "password", ""), None);
    assert!(!password_is_correct("$argon2id$v=19$m=4096,t=3,p=1$!!$??", "password", ""));
}

#[test]
fn known_hash_verifies() {
    assert_eq!(verify_password(DOC_HASH, "password", ""), Some(true));
    assert_eq!(verify_password(DOC_HASH, "passw0rd", ""), Some(false));
    assert!(password_is_correct(DOC_HASH, "password", ""));
    assert!(!password_is_correct(DOC_HASH, "password", "pepper"));
}

#[test]
fn presented_ids() {
    assert_eq!(presented_session_id(None).err().unwrap().error_type, SessionErrorType::NoSession);
    assert_eq!(presented_session_id(Some(String::new())).err().unwrap().error_type, SessionErrorType::NoSession);
    assert_eq!(presented_session_id(Some("abc".to_string())).ok().unwrap(), "abc");
}

#[test]
fn tag_lists() {
    let t = TagData::from_str(" cat ,  dog,bad-tag,, big bird ");
    assert_eq!(t.taglist, vec!["cat".to_string(), "dog".to_string(), "".to_string(), "big bird".to_string()]);
    assert!(!t.full_success);
    assert_eq!(t.as_str_ref_vec(), vec!["cat", "dog", "", "big bird"]);
    let t = TagData::from_str("one,two");
    assert_eq!(t.taglist, vec!["one".to_string(), "two".to_string()]);
    assert!(t.full_success);
    let t = TagData::from_str("");
    assert_eq!(t.taglist, vec!["".to_string()]);
    assert!(t.full_success);
}

#[test]
fn media_types() {
    assert!(check_file_mime("image", "png"));
    assert!(check_file_mime("image", "jpeg"));
    assert!(check_file_mime("image", "gif"));
    assert!(check_file_mime("video", "mp4"));
    assert!(!check_file_mime("video", "png"));
    assert!(!check_file_mime("text", "plain"));
    assert!(check_form_content_mime("application", "octet-stream"));
    assert!(!check_form_content_mime("application", "json"));
}

fn user() -> UserData {
    UserData::new(7, "alice", DOC_HASH, false)
}

#[test]
fn login_does_not_tell_unknown_user_from_wrong_password() {
    let unknown = check_login_credentials(&Err(DbApiError::new(DbApiErrorType::NoResult, "none")), "password", "")
        .err()
        .unwrap();
    let wrong = check_login_credentials(&Ok(user()), "passw0rd", "").err().unwrap();
    assert_eq!(unknown.http_status_code, 403);
    assert_eq!(unknown.http_status_code, wrong.http_status_code);
    assert!(unknown.error_code == ErrorCode::UserInputError && wrong.error_code == ErrorCode::UserInputError);
    assert_eq!(unknown.error_msg, wrong.error_msg);
    assert!(check_login_credentials(&Ok(user()), "password", "").is_ok());
    let down = check_login_credentials(&Err(DbApiError::new(DbApiErrorType::ConnectionError, "down")), "password", "")
        .err()
        .unwrap();
    assert_eq!(down.http_status_code, 500);
    assert!(down.error_code == ErrorCode::DatabaseError);
    let broken = UserData::new(7, "alice", "garbage", false);
    assert_eq!(check_login_credentials(&Ok(broken), "password", "").err().unwrap().http_status_code, 403);
}

#[test]
fn login_steps() {
    let live = Ok(SessionData::new("s".to_string(), 7, 100, false));
    let e = login_precheck(&live).err().unwrap();
    assert!(e.error_code == ErrorCode::Ignored);
    assert_eq!(e.http_status_code, 400);
    assert!(login_precheck(&Err(SessionError::new(SessionErrorType::NoSession, "x"))).is_ok());

    let ok = LoginData { username: "alice".to_string(), password: "password1".to_string(), keep_logged_in: false };
    assert!(check_login_input(&ok).is_ok());
    let bad = LoginData { username: "al ice".to_string(), password: "password1".to_string(), keep_logged_in: true };
    assert_eq!(check_login_input(&bad).err().unwrap().http_status_code, 400);

    let created = Ok(SessionData::new("s".to_string(), 7, 100, false));
    let r = login_result(&user(), &created, true).ok().unwrap();
    assert_eq!(r.user_id, 7);
    assert_eq!(r.username, "alice");
    assert!(login_result(&user(), &created, false).err().unwrap().error_code == ErrorCode::CookieError);
    let failed = Err(SessionError::new(SessionErrorType::DbError, "down"));
    assert!(login_result(&user(), &failed, true).err().unwrap().error_code == ErrorCode::DatabaseError);

    assert!(logout_result(&Ok(())).ok().unwrap().success);
    let e = logout_result(&Err(SessionError::new(SessionErrorType::DbError, "down"))).err().unwrap();
    assert_eq!(e.http_status_code, 500);
    assert_eq!(e.error_msg, "down");
}

#[test]
fn session_errors_map_to_statuses() {
    let e = session_error_response(&SessionError::new(SessionErrorType::DbError, "store down"));
    assert_eq!(e.http_status_code, 500);
    assert!(e.error_code == ErrorCode::DatabaseError);
    assert_eq!(e.error_msg, "store down");
    for t in [SessionErrorType::NoSession, SessionErrorType::SessionInvalid, SessionErrorType::UnknownError] {
        let e = session_error_response(&SessionError::new(t, "m"));
        assert_eq!(e.http_status_code, 403);
        assert!(e.error_code == ErrorCode::Unauthorized);
    }
}

#[test]
fn registration_checks() {
    let key = "Ab1Ab1Ab1Ab1Ab1Ab1Ab1Ab1Ab1Ab1xy";
    let bad = RegisterData { username: "bob!".to_string(), password: "password1".to_string(), invite_key: key.to_string() };
    assert_eq!(prepare_registration(&bad, key, "pepper").err().unwrap().http_status_code, 400);
    let wrong_key = RegisterData {
        username: "bob".to_string(),
        password: "password1".to_string(),
        invite_key: "Zz9Zz9Zz9Zz9Zz9Zz9Zz9Zz9Zz9Zz9xy".to_string(),
    };
    let e = prepare_registration(&wrong_key, key, "pepper").err().unwrap();
    assert_eq!(e.http_status_code, 403);
    assert!(e.error_code == ErrorCode::UserInputError);
    assert!(register_result(true).ok().unwrap().success);
    assert_eq!(register_result(false).err().unwrap().http_status_code, 500);
}
