//! Callback handling for text input widgets.
//!
//! While a text input widget is active, the backend invokes a
//! user-supplied handler with a view of the edit buffer; the handler
//! may inspect and edit the text, the cursor and the selection. The
//! trait below is the surface the user implements, and
//! [`TextCallbackData`] is the edit-buffer view, with all positions
//! measured in characters.

use vstd::prelude::*;
use vstd::string::{StrSliceExecFns, StringExecFns};

verus! {

/// The arrow key a user pressed to trigger the history callback.
#[derive(Copy, Clone, Eq, PartialEq, Structural, Debug)]
pub enum HistoryDirection {
    Up,
    Down,
}

/// The view of a text input widget's edit buffer handed to callbacks.
///
/// Positions are character indices into the text; the selection is the
/// half-open range from `selection_start` to `selection_end`, and the
/// dirty flag tells the backend to re-read the buffer.
pub struct TextCallbackData {
    buf: String,
    dirty: bool,
    cursor: usize,
    sel_start: usize,
    sel_end: usize,
}

impl TextCallbackData {
    /// The characters of the edit buffer.
    pub closed spec fn text_view(&self) -> Seq<char> {
        self.buf@
    }

    /// Whether the buffer was marked dirty.
    pub closed spec fn dirty_spec(&self) -> bool {
        self.dirty
    }

    /// The cursor position, in characters.
    pub closed spec fn cursor_spec(&self) -> int {
        self.cursor as int
    }

    /// The start of the selection, in characters.
    pub closed spec fn selection_start_spec(&self) -> int {
        self.sel_start as int
    }

    /// The end of the selection, in characters.
    pub closed spec fn selection_end_spec(&self) -> int {
        self.sel_end as int
    }

    /// Positions lie within the text and the selection is ordered.
    pub open spec fn wf(&self) -> bool {
        &&& self.selection_start_spec() <= self.selection_end_spec() <= self.text_view().len()
        &&& self.cursor_spec() <= self.text_view().len()
    }

    /// Creates a clean edit-buffer view over the given text: cursor at
    /// the start, nothing selected, not dirty.
    pub fn new(text: String) -> (d: TextCallbackData)
        ensures
            d.text_view() == text@,
            !d.dirty_spec(),
            d.cursor_spec() == 0,
            d.selection_start_spec() == 0,
            d.selection_end_spec() == 0,
            d.wf(),
    {
        TextCallbackData { buf: text, dirty: false, cursor: 0, sel_start: 0, sel_end: 0 }
    }

    /// The text, as an ordinary string slice.
    pub fn text(&self) -> (r: &str)
        ensures
            r@ == self.text_view(),
    {
        self.buf.as_str()
    }

    /// Sets the dirty flag, telling the backend to reapply the buffer
    /// to its internal state.
    pub fn set_dirty(&mut self)
        ensures
            final(self).dirty_spec(),
            final(self).text_view() == old(self).text_view(),
            final(self).cursor_spec() == old(self).cursor_spec(),
            final(self).selection_start_spec() == old(self).selection_start_spec(),
            final(self).selection_end_spec() == old(self).selection_end_spec(),
            old(self).wf() ==> final(self).wf(),
    {
        self.dirty = true;
    }

    /// The selected character range, start and end.
    pub fn selection(&self) -> (r: (usize, usize))
        ensures
            r.0 == self.selection_start_spec(),
            r.1 == self.selection_end_spec(),
    {
        (self.sel_start, self.sel_end)
    }

    /// The selected text; empty when nothing is selected.
    pub fn selected(&self) -> (r: String)
        requires
            self.wf(),
        ensures
            r@ == self.text_view().subrange(
                self.selection_start_spec(),
                self.selection_end_spec(),
            ),
    {
        let sub = self.buf.as_str().substring_char(self.sel_start, self.sel_end);
        String::from_str(sub)
    }

    /// Returns true when some text is selected.
    pub fn has_selection(&self) -> (r: bool)
        ensures
            r == (self.selection_start_spec() != self.selection_end_spec()),
    {
        self.sel_start != self.sel_end
    }

    /// Selects the whole text.
    pub fn select_all(&mut self)
        requires
            old(self).text_view().len() <= usize::MAX,
        ensures
            final(self).selection_start_spec() == 0,
            final(self).selection_end_spec() == old(self).text_view().len(),
            final(self).text_view() == old(self).text_view(),
            final(self).cursor_spec() == old(self).cursor_spec(),
            final(self).dirty_spec() == old(self).dirty_spec(),
            old(self).wf() ==> final(self).wf(),
    {
        self.sel_start = 0;
        self.sel_end = self.buf.as_str().unicode_len();
    }

    /// Clears the selection, leaving both ends at the cursor.
    pub fn clear_selection(&mut self)
        ensures
            final(self).selection_start_spec() == old(self).cursor_spec(),
            final(self).selection_end_spec() == old(self).cursor_spec(),
            final(self).text_view() == old(self).text_view(),
            final(self).cursor_spec() == old(self).cursor_spec(),
            final(self).dirty_spec() == old(self).dirty_spec(),
            old(self).wf() ==> final(self).wf(),
    {
        self.sel_start = self.cursor;
        self.sel_end = self.cursor;
    }

    /// The cursor position, in characters.
    pub fn cursor_pos(&self) -> (r: usize)
        ensures
            r == self.cursor_spec(),
    {
        self.cursor
    }

    /// Moves the cursor to the given character position.
    pub fn set_cursor_pos(&mut self, pos: usize)
        requires
            pos <= old(self).text_view().len(),
        ensures
            final(self).cursor_spec() == pos,
            final(self).text_view() == old(self).text_view(),
            final(self).selection_start_spec() == old(self).selection_start_spec(),
            final(self).selection_end_spec() == old(self).selection_end_spec(),
            final(self).dirty_spec() == old(self).dirty_spec(),
            old(self).wf() ==> final(self).wf(),
    {
        self.cursor = pos;
    }

    /// Gives mutable access to the start of the selection.
    pub fn selection_start_mut(&mut self) -> (r: &mut usize)
        ensures
            *r == old(self).selection_start_spec(),
            final(self).selection_start_spec() == *final(r),
            final(self).text_view() == old(self).text_view(),
            final(self).cursor_spec() == old(self).cursor_spec(),
            final(self).selection_end_spec() == old(self).selection_end_spec(),
            final(self).dirty_spec() == old(self).dirty_spec(),
    {
        &mut self.sel_start
    }

    /// Gives mutable access to the end of the selection.
    pub fn selection_end_mut(&mut self) -> (r: &mut usize)
        ensures
            *r == old(self).selection_end_spec(),
            final(self).selection_end_spec() == *final(r),
            final(self).text_view() == old(self).text_view(),
            final(self).cursor_spec() == old(self).cursor_spec(),
            final(self).selection_start_spec() == old(self).selection_start_spec(),
            final(self).dirty_spec() == old(self).dirty_spec(),
    {
        &mut self.sel_end
    }

    /// Appends the given text to the end of the buffer and marks it
    /// dirty.
    pub fn push_str(&mut self, s: &str)
        ensures
            final(self).text_view() == old(self).text_view() + s@,
            final(self).dirty_spec(),
            final(self).cursor_spec() == old(self).cursor_spec(),
            final(self).selection_start_spec() == old(self).selection_start_spec(),
            final(self).selection_end_spec() == old(self).selection_end_spec(),
    {
        let joined = self.buf.clone().concat(s);
        self.buf = joined;
        self.dirty = true;
    }

    /// Inserts the given text at the given character position and
    /// marks the buffer dirty. Cursor and selection are left where
    /// they were.
    pub fn insert_chars(&mut self, pos: usize, s: &str)
        requires
            old(self).wf(),
            pos <= old(self).text_view().len(),
        ensures
            final(self).text_view() == old(self).text_view().subrange(0, pos as int) + s@ + old(
                self,
            ).text_view().subrange(pos as int, old(self).text_view().len() as int),
            final(self).dirty_spec(),
            final(self).cursor_spec() == old(self).cursor_spec(),
            final(self).selection_start_spec() == old(self).selection_start_spec(),
            final(self).selection_end_spec() == old(self).selection_end_spec(),
    {
        let n = self.buf.as_str().unicode_len();
        let left = String::from_str(self.buf.as_str().substring_char(0, pos));
        let right = String::from_str(self.buf.as_str().substring_char(pos, n));
        let joined = left.concat(s).concat(right.as_str());
        self.buf = joined;
        self.dirty = true;
    }

    /// Removes `count` characters starting at the given character
    /// position and marks the buffer dirty. Cursor and selection are
    /// left where they were.
    pub fn remove_chars(&mut self, pos: usize, count: usize)
        requires
            old(self).wf(),
            pos + count <= old(self).text_view().len(),
        ensures
            final(self).text_view() == old(self).text_view().subrange(0, pos as int) + old(
                self,
            ).text_view().subrange(
                pos as int + count as int,
                old(self).text_view().len() as int,
            ),
            final(self).dirty_spec(),
            final(self).cursor_spec() == old(self).cursor_spec(),
            final(self).selection_start_spec() == old(self).selection_start_spec(),
            final(self).selection_end_spec() == old(self).selection_end_spec(),
    {
        let n = self.buf.as_str().unicode_len();
        let left = String::from_str(self.buf.as_str().substring_char(0, pos));
        let right = self.buf.as_str().substring_char(pos + count, n);
        let joined = left.concat(right);
        self.buf = joined;
        self.dirty = true;
    }
}

/// The interface the backend calls on text input callbacks. Each
/// method is called if and only if the corresponding callback flag was
/// passed when the widget was built.
pub trait InputTextCallbackHandler {
    /// Filters a character: `None` removes it, another character
    /// substitutes it.
    fn char_filter(&mut self, c: char) -> Option<char> {
        Some(c)
    }

    /// Performs completion work when the completion key is pressed.
    fn on_completion(&mut self, data: &mut TextCallbackData) {
        let _ = data;
    }

    /// Edits the buffer whenever it changed.
    fn on_edit(&mut self, data: &mut TextCallbackData) {
        let _ = data;
    }

    /// Reacts to the history keys (up/down).
    fn on_history(&mut self, dir: HistoryDirection, data: &mut TextCallbackData) {
        let _ = dir;
        let _ = data;
    }

    /// Runs every tick while the widget is active.
    fn on_always(&mut self, data: &mut TextCallbackData) {
        let _ = data;
    }
}

/// A handler that changes nothing: every character passes the filter
/// and every other callback does nothing.
pub struct PassthroughCallback {}

impl InputTextCallbackHandler for PassthroughCallback {

}

} // verus!
