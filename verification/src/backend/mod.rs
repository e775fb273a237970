//! What the commands send to the service and what they make of its
//! answers.

pub mod auth;
pub mod global;
pub mod request;
pub mod torrents;
pub mod util;
