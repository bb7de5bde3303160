//! Verified core of the Boluo chat server.
pub mod api;
pub mod bytes;
pub mod cache;
pub mod context;
pub mod crypto;
pub mod csrf;
pub mod database;
pub mod edits;
pub mod error;
pub mod events;
pub mod flows;
pub mod id;
pub mod media;
pub mod messages;
pub mod models;
pub mod permissions;
pub mod pool;
pub mod redis;
pub mod routes;
pub mod session;
pub mod text;
pub mod users;
pub mod utils;
pub mod validator;
pub mod websocket;
