//! What the request handlers decide: login, logout and how session errors
//! reach the client. The handlers run the store transactions and hand the
//! outcomes to these functions.

pub mod request_data;
pub mod response_result;

use vstd::prelude::*;
use crate::backend_api::request_data::{LoginData, RegisterData};
use crate::backend_api::response_result::{BackendError, ErrorCode, SuccessReport, UserData};
use crate::db_api::db_result::{self, DbApiError, DbApiErrorType, SessionData, SessionError, SessionErrorType};
use crate::security::{check_invite_key, check_password, check_username, hash_password, password_is_correct};
use crate::text::same_text;

verus! {

pub const BAD_REQUEST: u16 = 400;
pub const FORBIDDEN: u16 = 403;
pub const INTERNAL_SERVER_ERROR: u16 = 500;

/// The transport status and error code of each kind of session error.
pub open spec fn session_error_status(t: SessionErrorType) -> (u16, ErrorCode) {
    if t == SessionErrorType::DbError {
        (INTERNAL_SERVER_ERROR, ErrorCode::DatabaseError)
    } else {
        (FORBIDDEN, ErrorCode::Unauthorized)
    }
}

/// A session error as the client receives it: a store failure is a server
/// error, anything else means the client must log in.
pub fn session_error_response(error: &SessionError) -> (r: BackendError)
    ensures
        (r.http_status_code, r.error_code) == session_error_status(error.error_type),
        r.error_msg@ == error.error_msg@,
{
    if error.error_type == SessionErrorType::DbError {
        BackendError::new(INTERNAL_SERVER_ERROR, ErrorCode::DatabaseError, error.error_msg.as_str())
    } else {
        BackendError::new(FORBIDDEN, ErrorCode::Unauthorized, error.error_msg.as_str())
    }
}

/// The single answer to a failed login, whatever failed: unknown user or
/// wrong password.
pub open spec fn is_denied_login(e: BackendError) -> bool {
    &&& e.http_status_code == FORBIDDEN
    &&& e.error_code == ErrorCode::UserInputError
    &&& e.error_msg@ == "Benutzername oder Passwort ist falsch"@
}

/// A caller who already holds a valid session is not logged in again.
pub fn login_precheck(current_session: &Result<SessionData, SessionError>) -> (r: Result<(), BackendError>)
    ensures
        current_session is Ok <==> r is Err,
        r is Err ==> r->Err_0.http_status_code == BAD_REQUEST && r->Err_0.error_code == ErrorCode::Ignored,
{
    match current_session {
        Ok(_) => Err(BackendError::new(BAD_REQUEST, ErrorCode::Ignored, "Es ist bereits ein Benutzer eingelogt")),
        Err(_) => Ok(()),
    }
}

/// Username and password must be well formed before anything is looked up.
pub fn check_login_input(login_data: &LoginData) -> (r: Result<(), BackendError>)
    ensures
        r is Ok <==> (crate::security::utf8_len(login_data.username@) <= 32
            && crate::security::all_ascii_alnum(login_data.username@)
            && 8 <= crate::security::utf8_len(login_data.password@) <= 64
            && crate::security::all_password_chars(login_data.password@)),
        r is Err ==> r->Err_0.http_status_code == BAD_REQUEST && r->Err_0.error_code == ErrorCode::UserInputError,
{
    if check_username(login_data.username.as_str()) && check_password(login_data.password.as_str()) {
        Ok(())
    } else {
        Err(BackendError::new(BAD_REQUEST, ErrorCode::UserInputError, "Ungültige Zeichen in Benutzername oder Passwort"))
    }
}

fn denied_login() -> (r: BackendError)
    ensures
        is_denied_login(r),
{
    BackendError::new(FORBIDDEN, ErrorCode::UserInputError, "Benutzername oder Passwort ist falsch")
}

/// Checks the submitted password against the looked-up user. An unknown
/// user and a wrong password get the same answer, so the answer does not
/// tell which usernames exist; a stored hash that cannot be read denies.
pub fn check_login_credentials(
    lookup: &Result<db_result::UserData, DbApiError>,
    password: &str,
    secret_key: &str,
) -> (r: Result<(), BackendError>)
    ensures
        match lookup {
            Ok(user) => {
                &&& r is Ok <==> (crate::security::argon2_verify_ok(user.password_hash@, password@, secret_key@)
                    && crate::security::argon2_password_matches(user.password_hash@, password@, secret_key@))
                &&& r is Err ==> is_denied_login(r->Err_0)
                &&& !crate::security::hash_is_framed(user.password_hash@) ==> r is Err
            },
            Err(e) => {
                &&& r is Err
                &&& e.error_type == DbApiErrorType::NoResult ==> is_denied_login(r->Err_0)
                &&& e.error_type != DbApiErrorType::NoResult ==> r->Err_0.http_status_code == INTERNAL_SERVER_ERROR
                    && r->Err_0.error_code == ErrorCode::DatabaseError
            },
        },
{
    match lookup {
        Ok(user) => {
            if password_is_correct(user.password_hash.as_str(), password, secret_key) {
                Ok(())
            } else {
                Err(denied_login())
            }
        },
        Err(e) => {
            if e.error_type == DbApiErrorType::NoResult {
                Err(denied_login())
            } else {
                Err(BackendError::new(INTERNAL_SERVER_ERROR, ErrorCode::DatabaseError, e.error_msg.as_str()))
            }
        },
    }
}

/// The answer to a login once the session was created and the cookie set.
pub fn login_result(user: &db_result::UserData, created: &Result<SessionData, SessionError>, cookie_set: bool) -> (r: Result<UserData, BackendError>)
    ensures
        created is Ok && cookie_set <==> r is Ok,
        r is Ok ==> r->Ok_0.user_id == user.user_id && r->Ok_0.username@ == user.username@
            && r->Ok_0.user_is_mod == user.user_is_mod,
        created is Err ==> r->Err_0.http_status_code == INTERNAL_SERVER_ERROR && r->Err_0.error_code == ErrorCode::DatabaseError,
        created is Ok && !cookie_set ==> r->Err_0.http_status_code == INTERNAL_SERVER_ERROR && r->Err_0.error_code == ErrorCode::CookieError,
{
    match created {
        Ok(_) => {
            if cookie_set {
                Ok(UserData::new(user))
            } else {
                Err(BackendError::new(INTERNAL_SERVER_ERROR, ErrorCode::CookieError, "Fehler beim Setzen des Session Cookies"))
            }
        },
        Err(_) => Err(BackendError::new(
            INTERNAL_SERVER_ERROR,
            ErrorCode::DatabaseError,
            "Fehler beim Anlegen der Session in der Redis Datenbank",
        )),
    }
}

/// The answer to a logout once the session's keys were deleted.
pub fn logout_result(destroyed: &Result<(), SessionError>) -> (r: Result<SuccessReport, BackendError>)
    ensures
        destroyed is Ok <==> r is Ok,
        r is Ok ==> r->Ok_0.success,
        r is Err ==> r->Err_0.http_status_code == INTERNAL_SERVER_ERROR && r->Err_0.error_code == ErrorCode::DatabaseError
            && r->Err_0.error_msg@ == destroyed->Err_0.error_msg@,
{
    match destroyed {
        Ok(()) => Ok(SuccessReport::new(true)),
        Err(e) => Err(BackendError::new(INTERNAL_SERVER_ERROR, ErrorCode::DatabaseError, e.error_msg.as_str())),
    }
}

/// Registration up to the insertion of the user: the data must be well
/// formed and the invite key must be the configured one; then the password
/// is hashed with the pepper `secret_key`, and the hash is what gets stored.
/// Hashing fails only for a pepper longer than `u32::MAX` bytes.
pub fn prepare_registration(register_data: &RegisterData, master_invite_key: &str, secret_key: &str) -> (r: Result<String, BackendError>)
    ensures
        ({
            let well_formed = crate::security::utf8_len(register_data.username@) <= 32
                && crate::security::all_ascii_alnum(register_data.username@)
                && 8 <= crate::security::utf8_len(register_data.password@) <= 64
                && crate::security::all_password_chars(register_data.password@)
                && crate::security::utf8_len(register_data.invite_key@) == 32
                && crate::security::all_ascii_alnum(register_data.invite_key@);
            &&& !well_formed ==> r is Err && r->Err_0.http_status_code == BAD_REQUEST
                && r->Err_0.error_code == ErrorCode::UserInputError
            &&& well_formed && register_data.invite_key@ != master_invite_key@ ==> r is Err
                && r->Err_0.http_status_code == FORBIDDEN && r->Err_0.error_code == ErrorCode::UserInputError
            &&& well_formed && register_data.invite_key@ == master_invite_key@ && crate::security::fits_u32(secret_key@)
                ==> r is Ok && crate::security::password_hash_tag().is_prefix_of(r->Ok_0@)
            &&& r is Ok ==> crate::security::password_hash_made_from(r->Ok_0@, register_data.password@, secret_key@)
                && crate::security::argon2id_hash_of(r->Ok_0@, register_data.password@, secret_key@)
            &&& well_formed && register_data.invite_key@ == master_invite_key@ && !crate::security::fits_u32(secret_key@)
                ==> r is Err && r->Err_0.http_status_code == INTERNAL_SERVER_ERROR
                && r->Err_0.error_code == ErrorCode::DatabaseError
        }),
{
    let username_is_ok = check_username(register_data.username.as_str());
    let password_is_ok = check_password(register_data.password.as_str());
    let invite_key_is_ok = check_invite_key(register_data.invite_key.as_str());
    if !(username_is_ok && password_is_ok && invite_key_is_ok) {
        return Err(BackendError::new(BAD_REQUEST, ErrorCode::UserInputError, "Die eingegebenen Daten entsprechen nicht den Richtlinien"));
    }
    if !same_text(register_data.invite_key.as_str(), master_invite_key) {
        return Err(BackendError::new(FORBIDDEN, ErrorCode::UserInputError, "Der eingegebene Invitecode ist ungültig"));
    }
    match hash_password(register_data.password.as_str(), secret_key) {
        Some(h) => Ok(h),
        None => Err(BackendError::new(INTERNAL_SERVER_ERROR, ErrorCode::DatabaseError, "Fehler beim Hashen des Passwortes")),
    }
}

/// The answer to a registration once the relational store was asked to add the user.
pub fn register_result(user_added: bool) -> (r: Result<SuccessReport, BackendError>)
    ensures
        user_added <==> r is Ok,
        r is Ok ==> r->Ok_0.success,
        r is Err ==> r->Err_0.http_status_code == INTERNAL_SERVER_ERROR && r->Err_0.error_code == ErrorCode::DatabaseError,
{
    if user_added {
        Ok(SuccessReport::new(true))
    } else {
        Err(BackendError::new(INTERNAL_SERVER_ERROR, ErrorCode::DatabaseError, "Fehler beim Anlegen des Benutzers in der Datenbank"))
    }
}

} // verus!
