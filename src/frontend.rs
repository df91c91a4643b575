//! Data for the page templates.

pub mod template_data;
