//! Session and synchronisation core of a shared grid world: admission of
//! connections, the position store, the broadcast fanout and the state
//! machine of one session, with every rule stated as a contract.

pub mod admission;
pub mod broadcast;
pub mod client;
pub mod config;
pub mod credentials;
pub mod entities;
pub mod errors;
pub mod flow;
pub mod grid;
pub mod json;
pub mod redis_repository;
pub mod repository;
pub mod service;
pub mod session;
pub mod store;
pub mod text;
pub mod wire;
