//! The core of a small HTTP status service: how its configuration is
//! resolved, which routes it serves and what each route answers.
//!
//! The library works on plain values and reads nothing but the clock.
//! Reading the environment, binding a listener and serving requests are left
//! to the program that links it.

pub mod clock;
pub mod config;
pub mod json;
pub mod payload;
pub mod routes;
pub mod text;
