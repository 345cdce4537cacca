//! Token-based authentication and role authorization over a shared user registry.
pub mod config;
pub mod decimal;
pub mod error;
pub mod hasher;
pub mod model;
pub mod registry;
pub mod service;
pub mod strings;
pub mod token;
