//! Removing a finished torrent from a torrent client: the session, the file
//! listing with its media classification, the history records and the
//! order in which the steps of one run follow each other.

pub mod config;
pub mod downloads;
pub mod error;
pub mod media;
pub mod mongo;
pub mod qtorrent;
pub mod run;
pub mod scan;
pub mod torrents;

pub use crate::run::execute;
