//! Task automation service: task and user records, the rules for logging in
//! and signing up, the request decoding of the HTTP handlers, and the text
//! that goes to and comes from the database.
pub mod controllers;
pub mod helpers;
pub mod models;
