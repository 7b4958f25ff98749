//! The state machine behind a single-document sticker printing tool.
//!
//! The crate holds no toolkit, codec or device. It takes events in, one at a time, keeps
//! the state of the one image that is being worked on, and tells the shell around it
//! what to do next: open the file picker, read a file, turn the sticker, print it.
//!
//! - [`image`]: the life of the image, from absent over loading to loaded or errored.
//! - [`action`]: the events, and what the shell is asked for in return.
//! - [`state`]: the state of the tool and the dispatcher that alone changes it.
//! - [`print`]: one batch of print jobs, which stops at the first failure.

pub mod action;
pub mod image;
pub mod print;
pub mod state;
