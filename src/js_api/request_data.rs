pub use crate::backend_api::request_data::{
    check_file_mime,
    check_form_content_mime,
    LoginData,
    RegisterData,
    TagData,
};
