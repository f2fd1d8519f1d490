//! Single-line editable text with an explicit caret.
//!
//! The buffer holds characters (not bytes), so every caret position is a
//! character index; the caret always lies in `[0, len]`.

use vstd::prelude::*;

use crate::event::Key;

verus! {

/// Mathematical model of a text field: its characters and the caret index.
pub struct TextModel {
    pub content: Seq<char>,
    pub caret: int,
}

/// The caret never leaves `[0, len(content)]`.
pub open spec fn text_wf(m: TextModel) -> bool {
    0 <= m.caret <= m.content.len()
}

/// Insert a character at the caret and advance the caret past it.
pub open spec fn insert_model(m: TextModel, c: char) -> TextModel {
    TextModel { content: m.content.insert(m.caret, c), caret: m.caret + 1 }
}

/// Move the caret one position left, stopping at the start.
pub open spec fn move_left_model(m: TextModel) -> TextModel {
    TextModel { caret: if m.caret > 0 { m.caret - 1 } else { 0 }, ..m }
}

/// Move the caret one position right, stopping at the end.
pub open spec fn move_right_model(m: TextModel) -> TextModel {
    TextModel { caret: if m.caret < m.content.len() { m.caret + 1 } else { m.caret }, ..m }
}

/// Remove the character before the caret and move the caret onto its place;
/// nothing happens with the caret at the start.
pub open spec fn backspace_model(m: TextModel) -> TextModel {
    if m.caret > 0 {
        TextModel { content: m.content.remove(m.caret - 1), caret: m.caret - 1 }
    } else {
        m
    }
}

/// Remove the character at the caret without moving the caret;
/// nothing happens with the caret at the end.
pub open spec fn delete_forward_model(m: TextModel) -> TextModel {
    if m.caret < m.content.len() {
        TextModel { content: m.content.remove(m.caret), ..m }
    } else {
        m
    }
}

/// How one key edits the field: characters insert, the arrows move the
/// caret, backspace and delete remove; every other key leaves it alone.
pub open spec fn edit_key_model(m: TextModel, key: Key) -> TextModel {
    match key {
        Key::Char(c) => insert_model(m, c),
        Key::Left => move_left_model(m),
        Key::Right => move_right_model(m),
        Key::Backspace => backspace_model(m),
        Key::Delete => delete_forward_model(m),
        _ => m,
    }
}

/// A whole sequence of keys applied in order, first key first.
pub open spec fn edit_keys_model(m: TextModel, keys: Seq<Key>) -> TextModel
    decreases keys.len(),
{
    if keys.len() == 0 {
        m
    } else {
        edit_key_model(edit_keys_model(m, keys.drop_last()), keys.last())
    }
}

/// Law: one editing step keeps the caret within `[0, len(content)]`.
pub proof fn lemma_edit_key_preserves_wf(m: TextModel, key: Key)
    requires
        text_wf(m),
    ensures
        text_wf(edit_key_model(m, key)),
{
}

/// Law: however many editing keys are applied, in whatever order, the caret
/// stays within `[0, len(content)]`.
pub proof fn lemma_edit_keys_preserve_wf(m: TextModel, keys: Seq<Key>)
    requires
        text_wf(m),
    ensures
        text_wf(edit_keys_model(m, keys)),
    decreases keys.len(),
{
    if keys.len() > 0 {
        lemma_edit_keys_preserve_wf(m, keys.drop_last());
        lemma_edit_key_preserves_wf(edit_keys_model(m, keys.drop_last()), keys.last());
    }
}

/// Law: inserting a character and immediately backspacing restores the
/// original contents and caret.
pub proof fn lemma_insert_backspace_round_trip(m: TextModel, c: char)
    requires
        text_wf(m),
    ensures
        backspace_model(insert_model(m, c)) == m,
{
    assert(insert_model(m, c).content.remove(m.caret) =~= m.content);
}

/// A single-line text field: its characters and the caret position.
pub struct TextInput {
    pub input: Vec<char>,
    pub cursor_position: usize,
}

impl View for TextInput {
    type V = TextModel;

    open spec fn view(&self) -> TextModel {
        TextModel { content: self.input@, caret: self.cursor_position as int }
    }
}

impl TextInput {
    pub open spec fn wf(&self) -> bool {
        text_wf(self@)
    }

    /// An empty field with the caret at the start.
    pub fn new() -> (r: TextInput)
        ensures
            r@.content == Seq::<char>::empty(),
            r@.caret == 0,
            r.wf(),
    {
        TextInput { input: Vec::new(), cursor_position: 0 }
    }

    /// The characters of the field, in order.
    pub fn text(&self) -> (r: &Vec<char>)
        ensures
            r@ == self@.content,
    {
        &self.input
    }

    /// Reset the field to empty with the caret at the start.
    pub fn clear(&mut self)
        ensures
            final(self)@.content == Seq::<char>::empty(),
            final(self)@.caret == 0,
            final(self).wf(),
    {
        self.input = Vec::new();
        self.cursor_position = 0;
    }

    /// Insert a character at the caret; the caret advances past it.
    pub fn on_input_char(&mut self, char_to_insert: char)
        requires
            old(self).wf(),
        ensures
            final(self)@ == insert_model(old(self)@, char_to_insert),
            final(self).wf(),
    {
        let at = self.cursor_position;
        self.input.insert(at, char_to_insert);
        proof {
            // the new length fits in usize, so the caret can follow the insertion
            assert(self.input.len() == old(self).input@.len() + 1);
        }
        self.cursor_position = at + 1;
    }

    /// Route one key to the field: characters insert, the arrows move the
    /// caret, backspace and delete remove; every other key is ignored.
    pub fn on_input(&mut self, keycode: Key)
        requires
            old(self).wf(),
        ensures
            final(self)@ == edit_key_model(old(self)@, keycode),
            final(self).wf(),
    {
        match keycode {
            Key::Char(char_to_insert) => self.on_input_char(char_to_insert),
            Key::Left => self.move_left(),
            Key::Right => self.move_right(),
            Key::Backspace => self.backspace_char(),
            Key::Delete => self.delete_char(),
            _ => {},
        }
    }

    /// Move the caret one position left; a no-op at the start.
    pub fn move_left(&mut self)
        requires
            old(self).wf(),
        ensures
            final(self)@ == move_left_model(old(self)@),
            final(self).wf(),
    {
        if self.cursor_position > 0 {
            self.cursor_position = self.cursor_position - 1;
        }
    }

    /// Move the caret one position right; a no-op at the end.
    pub fn move_right(&mut self)
        requires
            old(self).wf(),
        ensures
            final(self)@ == move_right_model(old(self)@),
            final(self).wf(),
    {
        if self.cursor_position < self.input.len() {
            self.cursor_position = self.cursor_position + 1;
        }
    }

    /// Remove the character before the caret; a no-op at the start.
    pub fn backspace_char(&mut self)
        requires
            old(self).wf(),
        ensures
            final(self)@ == backspace_model(old(self)@),
            final(self).wf(),
    {
        if self.cursor_position != 0 {
            let at = self.cursor_position - 1;
            self.input.remove(at);
            self.cursor_position = at;
        }
    }

    /// Remove the character at the caret; a no-op at the end.
    pub fn delete_char(&mut self)
        requires
            old(self).wf(),
        ensures
            final(self)@ == delete_forward_model(old(self)@),
            final(self).wf(),
    {
        if self.cursor_position < self.input.len() {
            let at = self.cursor_position;
            self.input.remove(at);
        }
    }

    /// The caret index.
    pub fn cursor_position(&self) -> (r: usize)
        ensures
            r as int == self@.caret,
    {
        self.cursor_position
    }
}

} // verus!
