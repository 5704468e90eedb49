pub mod channel;
pub mod commands;
pub mod connection;
pub mod error;
pub mod fragment;
pub mod frame;
pub mod message;
pub mod mux;
pub mod schema;
pub mod service;
pub mod stream;
pub mod tls;
