//! Decisions of a desktop relay that, on a global hotkey or a periodic timer,
//! copies the current selection, deletes it, and reads the clipboard.
//!
//! The work against the operating system (keystroke injection, clipboard
//! access, shortcut registration, the event bus) is done by the caller; this
//! crate says which keystrokes to send, which event follows which, when the
//! timer fires, and what text a clipboard read yields.
use vstd::prelude::*;

pub mod chain;
pub mod clipboard;
pub mod hotkey;
pub mod keys;
pub mod timer;

verus! {

} // verus!
