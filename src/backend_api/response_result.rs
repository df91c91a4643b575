use vstd::prelude::*;
use crate::db_api::db_result;

verus! {

#[derive(Copy, Clone, Debug, PartialEq, Eq, Structural)]
pub enum ErrorCode {
    DatabaseError,
    UserInputError,
    NoResult,
    Unauthorized,
    Ignored,
    UnknownError,
    CookieError,
    InternalError,
}

/// An error as the client receives it, with the HTTP status to answer with.
#[derive(Clone)]
pub struct BackendError {
    pub http_status_code: u16,
    pub error_code: ErrorCode,
    pub error_msg: String,
}

impl BackendError {
    pub fn new(http_status_code: u16, error_code: ErrorCode, error_msg: &str) -> (r: BackendError)
        ensures
            r.http_status_code == http_status_code,
            r.error_code == error_code,
            r.error_msg@ == error_msg@,
    {
        BackendError { http_status_code, error_code, error_msg: error_msg.to_owned() }
    }
}

#[derive(Clone)]
pub struct AddUploadSuccess {
    pub upload_success: bool,
    pub upload_id: i32,
    pub tags_part_success: bool,
    pub tags_full_success: bool,
}

impl AddUploadSuccess {
    pub fn new(upload_success: bool, upload_id: i32, tags_part_success: bool, tags_full_success: bool) -> (r: AddUploadSuccess)
        ensures
            r.upload_success == upload_success,
            r.upload_id == upload_id,
            r.tags_part_success == tags_part_success,
            r.tags_full_success == tags_full_success,
    {
        AddUploadSuccess { upload_success, upload_id, tags_part_success, tags_full_success }
    }
}

#[derive(Clone)]
pub struct UserExists {
    pub user_exists: bool,
}

impl UserExists {
    pub fn new(user_exists: bool) -> (r: UserExists)
        ensures
            r.user_exists == user_exists,
    {
        UserExists { user_exists }
    }
}

#[derive(Clone)]
pub struct Filter {
    pub show_sfw: bool,
    pub show_nsfw: bool,
}

impl Filter {
    pub fn new(show_sfw: bool, show_nsfw: bool) -> (r: Filter)
        ensures
            r.show_sfw == show_sfw,
            r.show_nsfw == show_nsfw,
    {
        Filter { show_sfw, show_nsfw }
    }
}

#[derive(Clone)]
pub struct SuccessReport {
    pub success: bool,
}

impl SuccessReport {
    pub fn new(success: bool) -> (r: SuccessReport)
        ensures
            r.success == success,
    {
        SuccessReport { success }
    }
}

/// A user as the client sees it: no password hash.
#[derive(Clone)]
pub struct UserData {
    pub user_id: i32,
    pub username: String,
    pub user_is_mod: bool,
}

impl UserData {
    pub fn new(db_userdata: &db_result::UserData) -> (r: UserData)
        ensures
            r.user_id == db_userdata.user_id,
            r.username@ == db_userdata.username@,
            r.user_is_mod == db_userdata.user_is_mod,
    {
        UserData {
            user_id: db_userdata.user_id,
            username: db_userdata.username.clone(),
            user_is_mod: db_userdata.user_is_mod,
        }
    }
}

} // verus!
