use vstd::prelude::*;

pub use crate::backend_api::response_result::{ErrorCode, Filter, UserData};

verus! {

/// An error as the script receives it.
#[derive(Clone)]
pub struct BackendError {
    pub error_code: ErrorCode,
    pub error_msg: String,
}

impl BackendError {
    pub fn new(error_code: ErrorCode, error_msg: &str) -> (r: BackendError)
        ensures
            r.error_code == error_code,
            r.error_msg@ == error_msg@,
    {
        BackendError { error_code, error_msg: error_msg.to_owned() }
    }
}

#[derive(Clone)]
pub struct AddUploadSuccess {
    pub upload_success: bool,
    pub tags_part_success: bool,
    pub tags_full_success: bool,
}

impl AddUploadSuccess {
    pub fn new(upload_success: bool, tags_part_success: bool, tags_full_success: bool) -> (r: AddUploadSuccess)
        ensures
            r.upload_success == upload_success,
            r.tags_part_success == tags_part_success,
            r.tags_full_success == tags_full_success,
    {
        AddUploadSuccess { upload_success, tags_part_success, tags_full_success }
    }
}

} // verus!
