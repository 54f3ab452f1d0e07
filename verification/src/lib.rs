pub mod auth;
pub mod body;
pub mod header;
pub mod message;
pub mod prefix;
pub mod config;
pub mod request;
pub mod response;
pub mod time;
pub mod version;
