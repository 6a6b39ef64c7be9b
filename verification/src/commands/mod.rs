//! What the commands of the command line do.
pub mod auth;
pub mod run;
