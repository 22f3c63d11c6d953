//! Authenticated creation of posts with an attached image.
//!
//! The crate holds the decisions of a small publishing backend: who may
//! write (`token`, `auth`), what may be uploaded (`upload`), in which order
//! the database and the file system are touched while a post is created
//! (`create`), and how stored rows are shown to readers (`reader`).
//! Everything that waits on a socket, a database or a disk is left to the
//! caller, which performs the actions this crate asks for and reports back
//! how they went.

pub mod account;
pub mod auth;
pub mod clock;
pub mod config;
pub mod consistency;
pub mod create;
pub mod error;
pub mod reader;
pub mod token;
pub mod upload;
