//! Client-side core of a remote sandbox service: the length-prefixed
//! envelope codec, the resumable event stream reader, the process event
//! model and the command session rules built on top of them.

pub mod config;
pub mod envelope;
pub mod error;
pub mod event;
pub mod files;
pub mod handle;
pub mod interpreter;
pub mod json;
pub mod listing;
pub mod models;
pub mod sandbox;
pub mod session;
pub mod stream;
pub mod text;

pub use error::Error;
