//! Single-line text input with cursor movement and editing.

use vstd::prelude::*;
use vstd::string::*;
use crate::text::{concat2, concat3, own, push_char, repeat_char};
use crate::ui::key::Key;

verus! {

/// The abstract state of a text field: its characters and the cursor,
/// counted in characters from the start.
pub struct TextInputView {
    pub text: Seq<char>,
    pub cursor: nat,
}

impl TextInputView {
    /// The cursor lies within the text (or just past its end).
    pub open spec fn valid(self) -> bool {
        self.cursor <= self.text.len()
    }
}

/// The field after inserting `s` at the cursor; the cursor ends up after `s`.
pub open spec fn spec_insert(t: TextInputView, s: Seq<char>) -> TextInputView {
    TextInputView {
        text: t.text.take(t.cursor as int) + s + t.text.skip(t.cursor as int),
        cursor: t.cursor + s.len(),
    }
}

/// The field after a key press, and whether the key was consumed.
pub open spec fn key_step(t: TextInputView, key: Key, control: bool) -> (TextInputView, bool) {
    let n = t.text.len();
    let c = t.cursor;
    if control {
        (t, false)
    } else {
        match key {
            Key::Char(ch) => (spec_insert(t, seq![ch]), true),
            Key::Backspace => if c == 0 {
                (t, true)
            } else {
                (
                    TextInputView {
                        text: t.text.take(c - 1) + t.text.skip(c as int),
                        cursor: (c - 1) as nat,
                    },
                    true,
                )
            },
            Key::Delete => if c >= n {
                (t, true)
            } else {
                (TextInputView { text: t.text.take(c as int) + t.text.skip(c + 1 as int), cursor: c }, true)
            },
            Key::Left => (TextInputView { cursor: if c > 0 { (c - 1) as nat } else { c }, ..t }, true),
            Key::Right => (TextInputView { cursor: if c < n { c + 1 } else { c }, ..t }, true),
            Key::Home => (TextInputView { cursor: 0, ..t }, true),
            Key::End => (TextInputView { cursor: n, ..t }, true),
            _ => (t, false),
        }
    }
}

/// The first `max_chars` characters of `s`, or all of `s` when it is shorter.
pub open spec fn spec_truncate_display(s: Seq<char>, max_chars: nat) -> Seq<char> {
    if s.len() <= max_chars {
        s
    } else {
        s.take(max_chars as int)
    }
}

/// What the field shows: its text, or one bullet per character when masked.
pub open spec fn spec_display(text: Seq<char>, revealed: bool) -> Seq<char> {
    if revealed {
        text
    } else {
        Seq::new(text.len(), |_i: int| '•')
    }
}

/// `a - b`, or 0 when `b > a` (`u16::saturating_sub`).
pub open spec fn sat_sub(a: int, b: int) -> int {
    if a >= b {
        a - b
    } else {
        0
    }
}

/// Editable single-line text field.
#[derive(Debug)]
pub struct TextInput {
    text: String,
    /// Cursor position, in characters.
    at: usize,
}

impl View for TextInput {
    type V = TextInputView;

    closed spec fn view(&self) -> TextInputView {
        TextInputView { text: self.text@, cursor: self.at as nat }
    }
}

impl TextInput {
    #[verifier::type_invariant]
    spec fn cursor_in_text(self) -> bool {
        self.at <= self.text@.len()
    }

    /// An empty field with the cursor at the start.
    pub fn new() -> (r: TextInput)
        ensures
            r@.text == Seq::<char>::empty(),
            r@.cursor == 0,
    {
        TextInput { text: String::new(), at: 0 }
    }

    /// The current text.
    pub fn text(&self) -> (r: &str)
        ensures
            r@ == self@.text,
    {
        self.text.as_str()
    }

    /// The cursor as a byte offset into the UTF-8 text.
    pub fn cursor(&self) -> (r: usize)
        ensures
            r == vstd::utf8::encode_utf8(self@.text.take(self@.cursor as int)).len(),
    {
        proof {
            use_type_invariant(self);
        }
        let before = self.text.as_str().substring_char(0, self.at);
        before.as_bytes().len()
    }

    /// The cursor as a count of characters before it.
    pub fn cursor_char_index(&self) -> (r: usize)
        ensures
            r == self@.cursor,
            self@.valid(),
    {
        proof {
            use_type_invariant(self);
        }
        self.at
    }

    /// Whether the field holds no text.
    pub fn is_empty(&self) -> (r: bool)
        ensures
            r == (self@.text.len() == 0),
    {
        self.text.as_str().is_empty()
    }

    /// Inserts `s` at the cursor and moves the cursor past it.
    pub fn insert_str(&mut self, s: &str)
        ensures
            final(self)@ == spec_insert(old(self)@, s@),
    {
        proof {
            use_type_invariant(&*self);
        }
        if s.is_empty() {
            assert(old(self)@.text.take(old(self)@.cursor as int) + s@ + old(self)@.text.skip(
                old(self)@.cursor as int,
            ) =~= old(self)@.text);
            return;
        }
        let n = self.text.as_str().unicode_len();
        let at = self.at;
        let text = {
            let before = self.text.as_str().substring_char(0, at);
            let after = self.text.as_str().substring_char(at, n);
            concat3(before, s, after)
        };
        assert(self.text@.subrange(0, at as int) =~= self.text@.take(at as int));
        assert(self.text@.subrange(at as int, n as int) =~= self.text@.skip(at as int));
        // The cursor ends up right before the text that followed it.
        let new_at = text.as_str().unicode_len() - (n - at);
        *self = TextInput { text, at: new_at };
    }

    /// Text to render: the text itself when `revealed`, else one `•` per character.
    pub fn display_text(&self, revealed: bool) -> (r: String)
        ensures
            r@ == spec_display(self@.text, revealed),
    {
        if revealed {
            own(self.text.as_str())
        } else {
            let r = repeat_char('•', self.text.as_str().unicode_len());
            assert(r@ =~= spec_display(self@.text, revealed));
            r
        }
    }

    /// What a field `width` columns wide shows: the displayed text cut to the
    /// room left beside the borders, and the column of the cursor within it.
    pub fn field_layout(&self, revealed: bool, width: u16) -> (r: (String, usize))
        ensures
            r.0@ == spec_truncate_display(
                spec_display(self@.text, revealed),
                sat_sub(width as int, 6) as nat,
            ),
            r.1 == (if self@.cursor <= sat_sub(sat_sub(width as int, 6), 1) {
                self@.cursor as int
            } else {
                sat_sub(sat_sub(width as int, 6), 1)
            }),
    {
        let field_width = width.saturating_sub(6) as usize;
        let display = self.display_text(revealed);
        let truncated = truncate_display(display.as_str(), field_width);
        let last = field_width.saturating_sub(1);
        let col = if self.at <= last {
            self.at
        } else {
            last
        };
        (truncated, col)
    }

    /// Handles a key press; returns whether the key was consumed.
    pub fn handle_key(&mut self, key: Key, control: bool) -> (r: bool)
        ensures
            final(self)@ == key_step(old(self)@, key, control).0,
            r == key_step(old(self)@, key, control).1,
    {
        proof {
            use_type_invariant(&*self);
        }
        if control {
            return false;
        }
        let n = self.text.as_str().unicode_len();
        let at = self.at;
        match key {
            Key::Char(ch) => {
                let mut text = own(self.text.as_str().substring_char(0, at));
                push_char(&mut text, ch);
                text.append(self.text.as_str().substring_char(at, n));
                proof {
                    let t = old(self)@;
                    assert(text@ =~= t.text.take(at as int) + seq![ch] + t.text.skip(at as int));
                }
                let new_at = text.as_str().unicode_len() - (n - at);
                *self = TextInput { text, at: new_at };
                true
            },
            Key::Backspace => {
                if at == 0 {
                    return true;
                }
                let text = concat2(
                    self.text.as_str().substring_char(0, at - 1),
                    self.text.as_str().substring_char(at, n),
                );
                proof {
                    let t = old(self)@;
                    assert(text@ =~= t.text.take(at - 1) + t.text.skip(at as int));
                }
                *self = TextInput { text, at: at - 1 };
                true
            },
            Key::Delete => {
                if at >= n {
                    return true;
                }
                let text = concat2(
                    self.text.as_str().substring_char(0, at),
                    self.text.as_str().substring_char(at + 1, n),
                );
                proof {
                    let t = old(self)@;
                    assert(text@ =~= t.text.take(at as int) + t.text.skip(at + 1));
                }
                *self = TextInput { text, at };
                true
            },
            Key::Left => {
                if at > 0 {
                    self.at = at - 1;
                }
                true
            },
            Key::Right => {
                if at < n {
                    self.at = at + 1;
                }
                true
            },
            Key::Home => {
                self.at = 0;
                true
            },
            Key::End => {
                self.at = n;
                true
            },
            _ => false,
        }
    }
}

impl Clone for TextInput {
    fn clone(&self) -> (r: TextInput)
        ensures
            r@ == self@,
    {
        proof {
            use_type_invariant(self);
        }
        TextInput { text: own(self.text.as_str()), at: self.at }
    }
}

impl Default for TextInput {
    fn default() -> (r: TextInput)
        ensures
            r@.text == Seq::<char>::empty(),
            r@.cursor == 0,
    {
        TextInput::new()
    }
}

/// The first `max_chars` characters of `text`, or all of it when shorter.
pub fn truncate_display(text: &str, max_chars: usize) -> (r: String)
    ensures
        r@ == spec_truncate_display(text@, max_chars as nat),
{
    let n = text.unicode_len();
    if n <= max_chars {
        own(text)
    } else {
        let r = own(text.substring_char(0, max_chars));
        assert(r@ =~= text@.take(max_chars as int));
        r
    }
}

/// Typing a character and then pressing Backspace leaves the field as it was.
pub proof fn lemma_backspace_undoes_char(t: TextInputView, ch: char)
    requires
        t.valid(),
    ensures
        key_step(key_step(t, Key::Char(ch), false).0, Key::Backspace, false).0 == t,
{
    let t1 = key_step(t, Key::Char(ch), false).0;
    let c = t.cursor as int;
    assert(t1.text.take(c) =~= t.text.take(c));
    assert(t1.text.skip(c + 1) =~= t.text.skip(c));
    assert(t.text.take(c) + t.text.skip(c) =~= t.text);
}

/// Every key press keeps the cursor within the text.
pub proof fn lemma_key_step_valid(t: TextInputView, key: Key, control: bool)
    requires
        t.valid(),
    ensures
        key_step(t, key, control).0.valid(),
{
}

/// Inserting text keeps the cursor within the text, right after what was inserted.
pub proof fn lemma_insert_valid(t: TextInputView, s: Seq<char>)
    requires
        t.valid(),
    ensures
        spec_insert(t, s).valid(),
        spec_insert(t, s).text.take(spec_insert(t, s).cursor as int) == t.text.take(
            t.cursor as int,
        ) + s,
{
    let r = spec_insert(t, s);
    assert(r.text.take(r.cursor as int) =~= t.text.take(t.cursor as int) + s);
}

/// What each editing key does to a field, stated with sequence insertion
/// and removal: a character goes in at the cursor and the cursor moves past
/// it; Backspace removes the character before the cursor and Delete the one
/// under it; Left and Right move one character, stopping at either end; Home
/// and End go to the ends.  A key pressed with Control changes nothing.
pub proof fn lemma_editing_keys(t: TextInputView, ch: char)
    requires
        t.valid(),
    ensures
        key_step(t, Key::Char(ch), false) == (
            TextInputView { text: t.text.insert(t.cursor as int, ch), cursor: t.cursor + 1 },
            true,
        ),
        t.cursor > 0 ==> key_step(t, Key::Backspace, false) == (
            TextInputView { text: t.text.remove(t.cursor - 1), cursor: (t.cursor - 1) as nat },
            true,
        ),
        t.cursor == 0 ==> key_step(t, Key::Backspace, false) == (t, true),
        t.cursor < t.text.len() ==> key_step(t, Key::Delete, false) == (
            TextInputView { text: t.text.remove(t.cursor as int), cursor: t.cursor },
            true,
        ),
        t.cursor == t.text.len() ==> key_step(t, Key::Delete, false) == (t, true),
        key_step(t, Key::Right, false).0.text == t.text,
        key_step(t, Key::Right, false).0.cursor == if t.cursor < t.text.len() {
            t.cursor + 1
        } else {
            t.text.len()
        },
        key_step(t, Key::Left, false).0.text == t.text,
        key_step(t, Key::Left, false).0.cursor == if t.cursor > 0 {
            t.cursor - 1
        } else {
            0
        },
        key_step(t, Key::Home, false) == (TextInputView { text: t.text, cursor: 0 }, true),
        key_step(t, Key::End, false) == (TextInputView { text: t.text, cursor: t.text.len() }, true),
        key_step(t, Key::Right, false).1 && key_step(t, Key::Left, false).1,
        key_step(t, Key::Char(ch), true) == (t, false),
{
    let c = t.cursor as int;
    assert(t.text.take(c) + seq![ch] + t.text.skip(c) =~= t.text.insert(c, ch));
    if c > 0 {
        assert(t.text.take(c - 1) + t.text.skip(c) =~= t.text.remove(c - 1));
    }
    if c < t.text.len() {
        assert(t.text.take(c) + t.text.skip(c + 1) =~= t.text.remove(c));
    }
}

/// Left undoes Right, and Right undoes Left, away from the ends.
pub proof fn lemma_left_right_inverse(t: TextInputView)
    requires
        t.valid(),
    ensures
        t.cursor < t.text.len() ==> key_step(key_step(t, Key::Right, false).0, Key::Left, false).0 == t,
        t.cursor > 0 ==> key_step(key_step(t, Key::Left, false).0, Key::Right, false).0 == t,
{
}

} // verus!
