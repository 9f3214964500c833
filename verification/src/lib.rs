//! Verified core of a small log-collection service: token checks,
//! permission checks, password hashing, request gating and log selection.
pub mod access;
pub mod config;
pub mod handler;
pub mod handlers;
pub mod response;
pub mod structs;
pub mod userconfig;
pub mod utils;
