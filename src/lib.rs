//! A clipboard-history picker: parses the history store's listing, drives an
//! interactive chooser through its command-line and stdin protocol, decodes
//! what it returns, and runs the text/image browsing state machine.
use vstd::prelude::*;

pub mod cache;
pub mod clipboard;
pub mod cliphist;
pub mod config;
pub mod error;
pub mod rofi;
pub mod text;

verus! {

} // verus!
