//! Verified core of a cookie-session OAuth2 front end with a sharded
//! gateway router: cookie jar with delta tracking, authorization-URL
//! construction, the session-lifecycle state machine, the access guard,
//! and the gateway forwarding plan.

pub mod auth;
pub mod cookie;
pub mod gateway;
pub mod guard;
mod server_info;
pub mod session;
pub mod text;
pub mod user;

pub use server_info::ServerInfo;
