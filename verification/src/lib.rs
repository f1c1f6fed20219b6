//! Access layer for the system pasteboard.
//!
//! The pasteboard itself lives in the operating system. This crate holds
//! everything that is decided on this side of it: which objects are asked
//! for, how an answer is read, what is published and in which order, and
//! which failure each refusal becomes. The caller performs the requests
//! against the pasteboard and hands the answers back as plain values.

pub mod clipboard;
pub mod error;
pub mod exchange;
pub mod item;
pub mod laws;
pub mod text;

pub use clipboard::Clipboard;
pub use error::{ClipboardError, ReadFailure};
pub use exchange::{Command, ContentClass, PasteboardObject, ReadRequest};
pub use item::{Item, ATTACHMENT_TYPE, PLAIN_TEXT_TYPE};
