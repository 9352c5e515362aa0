//! Decision logic of the Enchiridion announcement-management service:
//! pagination, request approval, announcement scheduling, device status and
//! sessions, livestream bucketing, authentication rules and the error
//! vocabulary of the HTTP API.
pub mod text;
pub mod time;
pub mod database;
pub mod features;
pub mod media;
pub mod cloud_storage;
pub mod credentials;
pub mod email;
pub mod config;
pub mod http;
