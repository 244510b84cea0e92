pub mod auth;
pub mod decimal;
pub mod error;
pub mod hasher;
pub mod jwt;
pub mod laws;
pub mod runtime;
pub mod session;
pub mod store;
