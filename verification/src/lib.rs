//! Verified core of a Model Context Protocol server for the Jot notes
//! database: record decoding, SQL statement construction and the text of
//! every tool reply.

pub mod config;
pub mod ident;
mod placeholder_counts;
pub mod records;
pub mod replies;
pub mod sql;
pub mod text;
