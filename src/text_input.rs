//! A single-line text editor whose cursor counts Unicode codepoints.
use vstd::prelude::*;
use vstd::string::*;
use crate::key::Key;
use crate::text::push_char;

verus! {

/// Editor state: the text, a cursor between codepoints, and whether the
/// panel that shows it has focus.
#[derive(Debug)]
pub struct TextInputState {
    content: String,
    cursor: usize,
    is_focus: bool,
}

impl TextInputState {
    /// The text, as codepoints.
    pub closed spec fn text(&self) -> Seq<char> {
        self.content@
    }

    /// The cursor, as a codepoint index.
    pub closed spec fn cursor_pos(&self) -> nat {
        self.cursor as nat
    }

    pub closed spec fn focused(&self) -> bool {
        self.is_focus
    }

    /// The cursor lies within the text.
    pub open spec fn wf(&self) -> bool {
        self.cursor_pos() <= self.text().len()
    }

    /// What one key does to the editor: `post` is the state after `key`
    /// was pressed in `pre`, and `out` the command text it handed out.
    pub open spec fn key_step(pre: &Self, key: Key, post: &Self, out: Seq<char>) -> bool {
        let t = pre.text();
        let c = pre.cursor_pos();
        &&& post.focused() == pre.focused()
        &&& match key {
            Key::Char(ch) => post.text() == t.insert(c as int, ch) && post.cursor_pos() == c + 1
                && out.len() == 0,
            Key::Backspace => (if c > 0 {
                post.text() == t.remove(c - 1) && post.cursor_pos() == c - 1
            } else {
                post.text() == t && post.cursor_pos() == c
            }) && out.len() == 0,
            Key::Delete => (if c < t.len() {
                post.text() == t.remove(c as int)
            } else {
                post.text() == t
            }) && post.cursor_pos() == c && out.len() == 0,
            Key::Left => post.text() == t && post.cursor_pos() == (if c > 0 {
                c - 1
            } else {
                0
            }) && out.len() == 0,
            Key::Right => post.text() == t && post.cursor_pos() == (if c + 1 <= t.len() {
                c + 1
            } else {
                t.len()
            }) && out.len() == 0,
            Key::Home => post.text() == t && post.cursor_pos() == 0 && out.len() == 0,
            Key::End => post.text() == t && post.cursor_pos() == t.len() && out.len() == 0,
            Key::Enter => post.text().len() == 0 && post.cursor_pos() == 0 && out == t,
            _ => post.text() == t && post.cursor_pos() == c && out.len() == 0,
        }
    }

    /// An empty editor without focus.
    pub fn new() -> (r: Self)
        ensures
            r.text().len() == 0,
            r.cursor_pos() == 0,
            !r.focused(),
            r.wf(),
    {
        TextInputState { content: String::new(), cursor: 0, is_focus: false }
    }

    /// Inserts `ch` at the cursor and moves the cursor past it.
    pub fn insert(&mut self, ch: char)
        requires
            old(self).wf(),
            old(self).text().len() < usize::MAX,
        ensures
            final(self).wf(),
            final(self).text() == old(self).text().insert(old(self).cursor_pos() as int, ch),
            final(self).cursor_pos() == old(self).cursor_pos() + 1,
            final(self).focused() == old(self).focused(),
    {
        let len = self.content.as_str().unicode_len();
        let mut s = String::from_str(self.content.as_str().substring_char(0, self.cursor));
        push_char(&mut s, ch);
        s.append(self.content.as_str().substring_char(self.cursor, len));
        assert(s@ =~= self.content@.insert(self.cursor as int, ch));
        self.content = s;
        self.cursor = self.cursor + 1;
    }

    /// Removes the codepoint at `at`, which lies within the text.
    fn remove_at(&mut self, at: usize)
        requires
            at < old(self).content@.len(),
        ensures
            final(self).content@ == old(self).content@.remove(at as int),
            final(self).cursor == old(self).cursor,
            final(self).is_focus == old(self).is_focus,
    {
        let len = self.content.as_str().unicode_len();
        let mut s = String::from_str(self.content.as_str().substring_char(0, at));
        s.append(self.content.as_str().substring_char(at + 1, len));
        assert(s@ =~= self.content@.remove(at as int));
        self.content = s;
    }

    /// Removes the codepoint before the cursor, if any, and moves the cursor
    /// back over it.
    pub fn backspace(&mut self)
        requires
            old(self).wf(),
        ensures
            final(self).wf(),
            Self::key_step(old(self), Key::Backspace, final(self), seq![]),
    {
        if self.cursor > 0 {
            self.remove_at(self.cursor - 1);
            self.cursor = self.cursor - 1;
        }
    }

    /// Removes the codepoint at the cursor, if any; the cursor stays.
    pub fn delete_forward(&mut self)
        requires
            old(self).wf(),
        ensures
            final(self).wf(),
            Self::key_step(old(self), Key::Delete, final(self), seq![]),
    {
        let len = self.content.as_str().unicode_len();
        if self.cursor < len {
            self.remove_at(self.cursor);
        }
    }

    pub fn move_left(&mut self)
        requires
            old(self).wf(),
        ensures
            final(self).wf(),
            Self::key_step(old(self), Key::Left, final(self), seq![]),
    {
        if self.cursor > 0 {
            self.cursor = self.cursor - 1;
        }
    }

    pub fn move_right(&mut self)
        requires
            old(self).wf(),
        ensures
            final(self).wf(),
            Self::key_step(old(self), Key::Right, final(self), seq![]),
    {
        let len = self.content.as_str().unicode_len();
        if self.cursor < len {
            self.cursor = self.cursor + 1;
        }
    }

    pub fn home(&mut self)
        requires
            old(self).wf(),
        ensures
            final(self).wf(),
            Self::key_step(old(self), Key::Home, final(self), seq![]),
    {
        self.cursor = 0;
    }

    pub fn end(&mut self)
        requires
            old(self).wf(),
        ensures
            final(self).wf(),
            Self::key_step(old(self), Key::End, final(self), seq![]),
    {
        self.cursor = self.content.as_str().unicode_len();
    }

    /// The cancel key hands out no command and leaves the text as it is.
    pub fn cancel(&self) -> (r: String)
        ensures
            r@.len() == 0,
    {
        String::new()
    }

    /// Hands out the text as a command and empties the editor.
    pub fn submit(&mut self) -> (r: String)
        requires
            old(self).wf(),
        ensures
            final(self).wf(),
            r@ == old(self).text(),
            Self::key_step(old(self), Key::Enter, final(self), r@),
    {
        let s = self.content.clone();
        self.content = String::new();
        self.cursor = 0;
        s
    }

    /// Applies one key press; returns the submitted command text, which is
    /// empty unless the key was Enter.
    pub fn handle_key(&mut self, key: Key) -> (r: String)
        requires
            old(self).wf(),
            key is Char ==> old(self).text().len() < usize::MAX,
        ensures
            final(self).wf(),
            Self::key_step(old(self), key, final(self), r@),
    {
        match key {
            Key::Char(ch) => self.insert(ch),
            Key::Backspace => self.backspace(),
            Key::Delete => self.delete_forward(),
            Key::Left => self.move_left(),
            Key::Right => self.move_right(),
            Key::Home => self.home(),
            Key::End => self.end(),
            Key::Esc => {
                return self.cancel();
            },
            Key::Enter => {
                return self.submit();
            },
            _ => {},
        }
        String::new()
    }

    pub fn value(&self) -> (r: &str)
        ensures
            r@ == self.text(),
    {
        self.content.as_str()
    }

    /// Replaces the text and puts the cursor at its end.
    pub fn set_value(&mut self, s: String)
        ensures
            final(self).wf(),
            final(self).text() == s@,
            final(self).cursor_pos() == s@.len(),
            final(self).focused() == old(self).focused(),
    {
        self.content = s;
        self.cursor = self.content.as_str().unicode_len();
    }

    pub fn visual_cursor(&self) -> (r: usize)
        ensures
            r == self.cursor_pos(),
    {
        self.cursor
    }

    pub fn set_focus(&mut self, focus: bool)
        ensures
            final(self).text() == old(self).text(),
            final(self).cursor_pos() == old(self).cursor_pos(),
            final(self).focused() == focus,
    {
        self.is_focus = focus;
    }

    pub fn is_focused(&self) -> (r: bool)
        ensures
            r == self.focused(),
    {
        self.is_focus
    }
}

/// An edit key (a character, Backspace, Delete, Left or Right) keeps the
/// cursor within the text, and changes the text by at most one whole
/// character: the typed one inserted at the cursor, or one removed.
pub proof fn lemma_edit_keeps_cursor_in_range(
    pre: TextInputState,
    key: Key,
    post: TextInputState,
    out: Seq<char>,
)
    requires
        pre.wf(),
        key is Char || key is Backspace || key is Delete || key is Left || key is Right,
        TextInputState::key_step(&pre, key, &post, out),
    ensures
        post.wf(),
        out.len() == 0,
        post.text() == pre.text() || (key is Char && post.text() == pre.text().insert(
            pre.cursor_pos() as int,
            key->Char_0,
        )) || (exists|i: int| 0 <= i < pre.text().len() && post.text() == pre.text().remove(i)),
{
    let c = pre.cursor_pos();
    match key {
        Key::Backspace => {
            if c > 0 {
                assert(0 <= c - 1 < pre.text().len() && post.text() == pre.text().remove(
                    c - 1,
                ));
            }
        },
        Key::Delete => {
            if c < pre.text().len() {
                assert(0 <= c < pre.text().len() && post.text() == pre.text().remove(c as int));
            }
        },
        _ => {},
    }
}

/// The command line widget, drawn from a `TextInputState`: when focused, the
/// codepoint under the cursor (or a blank after the end) is shown inverted.
#[derive(Debug, Clone, Copy)]
pub struct TextInput;

impl Default for TextInputState {
    fn default() -> (r: Self)
        ensures
            r.text().len() == 0,
            r.cursor_pos() == 0,
            !r.focused(),
    {
        Self::new()
    }
}

} // verus!
