use vstd::prelude::*;
use crate::backend_api::response_result::{BackendError, ErrorCode, Filter, UserData};

verus! {

/// What the index page is rendered from.
#[derive(Clone)]
pub struct IndexViewTemplateData {
    pub backend_error: Option<BackendError>,
    pub filter_settings: Option<Filter>,
    pub user_data: Option<UserData>,
    pub read_access: bool,
}

impl IndexViewTemplateData {
    /// For a visitor who is not logged in.
    pub fn new_empty() -> (r: IndexViewTemplateData)
        ensures
            r.backend_error is None,
            r.filter_settings is None,
            r.user_data is None,
            !r.read_access,
    {
        IndexViewTemplateData { backend_error: None, filter_settings: None, user_data: None, read_access: false }
    }

    /// For a failure of the backend, such as a store that is down.
    pub fn new_error(backend_error: BackendError) -> (r: IndexViewTemplateData)
        ensures
            r.backend_error == Some(backend_error),
            r.filter_settings is None,
            r.user_data is None,
            !r.read_access,
    {
        IndexViewTemplateData { backend_error: Some(backend_error), filter_settings: None, user_data: None, read_access: false }
    }

    /// The index page from the filter and the user data that were looked up:
    /// a visitor without a session gets the empty page, another failure the
    /// error page.
    pub fn new_index(filter_data: Result<Filter, BackendError>, user_data: Result<UserData, BackendError>) -> (r: IndexViewTemplateData)
        ensures
            match filter_data {
                Err(e) => if e.error_code == ErrorCode::Unauthorized {
                    r.backend_error is None && !r.read_access
                } else {
                    r.backend_error == Some(e) && !r.read_access
                },
                Ok(f) => match user_data {
                    Err(e) => r.backend_error == Some(e) && !r.read_access,
                    Ok(u) => {
                        &&& r.backend_error is None
                        &&& r.filter_settings == Some(f)
                        &&& r.user_data == Some(u)
                        &&& r.read_access
                    },
                },
            },
    {
        match filter_data {
            Err(e) => {
                if e.error_code == ErrorCode::Unauthorized {
                    IndexViewTemplateData::new_empty()
                } else {
                    IndexViewTemplateData::new_error(e)
                }
            },
            Ok(f) => match user_data {
                Err(e) => IndexViewTemplateData::new_error(e),
                Ok(u) => IndexViewTemplateData {
                    backend_error: None,
                    filter_settings: Some(f),
                    user_data: Some(u),
                    read_access: true,
                },
            },
        }
    }
}

} // verus!
