//! Verified core of a self-hosted whistleblower-reporting and case-handling
//! system.

pub mod auth_helper;
pub mod encoding;
pub mod form;
pub mod handlers;
pub mod html;
pub mod labels;
pub mod laws;
pub mod markup;
pub mod models;
pub mod records;
pub mod reply;
pub mod statement;
pub mod text;
pub mod time;
