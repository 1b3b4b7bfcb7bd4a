//! A small multi-user task-tracking service: account registration and login,
//! signed identity tokens, and per-user task ownership, with the record store
//! modelled as an in-memory document collection.

pub mod auth_controller;
pub mod auth_middleware;
pub mod errors;
pub mod ids;
pub mod password;
pub mod store;
pub mod task_controller;
pub mod task_model;
pub mod user_model;
