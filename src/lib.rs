//! Username/password authentication core: credential hashing, signed
//! session tokens, a user-repository contract, and the register / login /
//! profile services built on them.

pub mod error;
pub mod user;
pub mod repository;
pub mod hasher;
pub mod jwt;
pub mod auth;
pub mod service;
pub mod laws;
pub mod config;
