//! Records of the script-facing interface.

pub mod request_data;
pub mod response_result;
