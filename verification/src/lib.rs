//! A film-record service library: validation of film records, token
//! authentication, SQL statement planning and the texts of the replies.

pub mod text;
pub mod models;
pub mod auth;
pub mod format;
pub mod config;
pub mod error;
pub mod db;
pub mod routes;
pub mod laws;
pub mod statement_laws;
