//! A headless client for Misskey: what it asks a server for, what it makes of
//! the answers, what it keeps, and what it shows.
use vstd::prelude::*;

pub mod api;
pub mod cli;
pub mod commands;
pub mod credentials;
pub mod db;
pub mod emoji;
pub mod error;
pub mod format;
pub mod http_server;
pub mod ids;
pub mod json;
pub mod keychain;
pub mod models;
pub mod streaming;
pub mod table;
pub mod text;
pub mod theme;

pub use crate::credentials::get_credentials;

verus! {

} // verus!
