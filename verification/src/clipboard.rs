//! Clipboard backends.
//!
//! A clipboard backend is supplied by the user of the library and is
//! invoked from the backend's callbacks; the trait is the surface the
//! user implements.

use vstd::prelude::*;

verus! {

/// Trait for clipboard backends.
pub trait ClipboardBackend {
    /// Returns the current clipboard contents, or `None` if the
    /// clipboard is empty or inaccessible.
    fn get(&mut self) -> Option<String>;

    /// Sets the clipboard contents.
    fn set(&mut self, value: &str);
}

/// A clipboard backend that stores nothing and returns nothing.
pub struct DummyClipboardContext {}

impl ClipboardBackend for DummyClipboardContext {
    fn get(&mut self) -> Option<String> {
        None
    }

    fn set(&mut self, value: &str) {
        let _ = value;
    }
}

} // verus!
