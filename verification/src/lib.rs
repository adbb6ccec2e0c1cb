//! The rules of a UGC (user-generated content) campaign app, verified.
pub mod api;
pub mod app_events;
pub mod auth;
pub mod catalog;
pub mod clock;
pub mod composio;
pub mod connect;
pub mod connect_laws;
pub mod engine;
pub mod execute;
pub mod fetch_laws;
pub mod host_laws;
pub mod inputs;
pub mod json;
pub mod laws;
pub mod list_laws;
pub mod lists;
pub mod message_laws;
pub mod payloads;
pub mod payout_api;
pub mod post_laws;
pub mod price_laws;
pub mod pricing;
pub mod records;
pub mod refresh;
pub mod render;
pub mod replies;
pub mod reply_laws;
pub mod report_laws;
pub mod reports;
pub mod request_laws;
pub mod review_laws;
pub mod rows;
pub mod runtime;
pub mod settings;
pub mod store;
pub mod store_laws;
pub mod submission_api;
pub mod tables;
pub mod text;
pub mod text_laws;
pub mod weburl;
pub mod wire_laws;
