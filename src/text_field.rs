use vstd::prelude::*;

verus! {

/// Whether keystrokes navigate (`Normal`) or edit the buffer (`Insert`).
#[derive(Debug, Clone, Copy, PartialEq, Eq, Structural)]
pub enum InputMode {
    Normal,
    Insert,
}

/// The characters of `s`, in order.
pub fn chars_of(s: &str) -> (r: Vec<char>)
    ensures
        r@ == s@,
{
    broadcast use vstd::string::axiom_spec_iter;
    let mut v: Vec<char> = Vec::new();
    for c in it: s.chars()
        invariant
            it.seq() == s@,
            v@ == s@.take(it.index() as int),
    {
        v.push(c);
        assert(v@ =~= s@.take(it.index() as int + 1));
    }
    assert(v@ =~= s@);
    v
}

/// Relies on std's `FromIterator<char>` for `String`: collecting characters
/// yields a string of exactly those characters, in order.
#[verifier::external_body]
fn string_of(chars: &Vec<char>) -> (r: String)
    ensures
        r@ == chars@,
{
    chars.iter().collect()
}

/// Buffer and cursor after inserting `c` at the cursor.
pub open spec fn inserted(text: Seq<char>, cursor: int, c: char) -> (Seq<char>, int) {
    (text.insert(cursor, c), cursor + 1)
}

/// Buffer and cursor after a backspace: the character before the cursor goes,
/// and nothing changes at the start of the buffer.
pub open spec fn backspaced(text: Seq<char>, cursor: int) -> (Seq<char>, int) {
    if cursor > 0 {
        (text.remove(cursor - 1), cursor - 1)
    } else {
        (text, cursor)
    }
}

/// Buffer after a delete: the character at the cursor goes, and nothing
/// changes at the end of the buffer.
pub open spec fn deleted(text: Seq<char>, cursor: int) -> Seq<char> {
    if cursor < text.len() {
        text.remove(cursor)
    } else {
        text
    }
}

/// A text buffer with a cursor between characters and an editing mode.
#[derive(Debug)]
pub struct TextField {
    pub text: Vec<char>,
    pub cursor: usize,
    pub mode: InputMode,
}

impl TextField {
    /// The cursor lies within the buffer, at most just past its last character.
    pub open spec fn wf(&self) -> bool {
        self.cursor <= self.text@.len()
    }

    /// A field in navigation mode holding `text`, with the cursor at the start.
    pub fn new(text: Vec<char>) -> (r: TextField)
        ensures
            r.wf(),
            r.text@ == text@,
            r.cursor == 0,
            r.mode == InputMode::Normal,
    {
        TextField { text, cursor: 0, mode: InputMode::Normal }
    }

    /// The buffer as a string.
    pub fn text_string(&self) -> (r: String)
        ensures
            r@ == self.text@,
    {
        string_of(&self.text)
    }

    /// Inserts `c` at the cursor and moves the cursor past it.
    pub fn insert_char(&mut self, c: char)
        requires
            old(self).wf(),
            old(self).text@.len() < usize::MAX,
        ensures
            final(self).wf(),
            final(self).mode == old(self).mode,
            (final(self).text@, final(self).cursor as int)
                == inserted(old(self).text@, old(self).cursor as int, c),
    {
        self.text.insert(self.cursor, c);
        self.cursor += 1;
    }

    /// Removes the character before the cursor, if any, and moves the cursor back.
    pub fn backspace(&mut self)
        requires
            old(self).wf(),
        ensures
            final(self).wf(),
            final(self).mode == old(self).mode,
            (final(self).text@, final(self).cursor as int)
                == backspaced(old(self).text@, old(self).cursor as int),
    {
        if self.cursor > 0 {
            self.cursor -= 1;
            self.text.remove(self.cursor);
        }
    }

    /// Removes the character at the cursor, if any; the cursor stays.
    pub fn delete(&mut self)
        requires
            old(self).wf(),
        ensures
            final(self).wf(),
            final(self).mode == old(self).mode,
            final(self).cursor == old(self).cursor,
            final(self).text@ == deleted(old(self).text@, old(self).cursor as int),
    {
        if self.cursor < self.text.len() {
            self.text.remove(self.cursor);
        }
    }

    /// Moves the cursor one character back, stopping at the start.
    pub fn move_left(&mut self)
        requires
            old(self).wf(),
        ensures
            final(self).wf(),
            final(self).mode == old(self).mode,
            final(self).text@ == old(self).text@,
            final(self).cursor == if old(self).cursor > 0 {
                (old(self).cursor - 1) as usize
            } else {
                0usize
            },
    {
        if self.cursor > 0 {
            self.cursor -= 1;
        }
    }

    /// Moves the cursor one character forward, stopping at the end.
    pub fn move_right(&mut self)
        requires
            old(self).wf(),
        ensures
            final(self).wf(),
            final(self).mode == old(self).mode,
            final(self).text@ == old(self).text@,
            final(self).cursor as int == if old(self).cursor < old(self).text@.len() {
                old(self).cursor + 1
            } else {
                old(self).cursor as int
            },
    {
        if self.cursor < self.text.len() {
            self.cursor += 1;
        }
    }

    /// Moves the cursor to the start of the buffer.
    pub fn move_home(&mut self)
        requires
            old(self).wf(),
        ensures
            final(self).wf(),
            final(self).mode == old(self).mode,
            final(self).text@ == old(self).text@,
            final(self).cursor == 0,
    {
        self.cursor = 0;
    }

    /// Moves the cursor to the end of the buffer.
    pub fn move_end(&mut self)
        requires
            old(self).wf(),
        ensures
            final(self).wf(),
            final(self).mode == old(self).mode,
            final(self).text@ == old(self).text@,
            final(self).cursor == old(self).text@.len(),
    {
        self.cursor = self.text.len();
    }

    /// Switches to editing mode; buffer and cursor stay.
    pub fn enter_edit(&mut self)
        ensures
            final(self).mode == InputMode::Insert,
            final(self).text@ == old(self).text@,
            final(self).cursor == old(self).cursor,
    {
        self.mode = InputMode::Insert;
    }

    /// Switches back to navigation mode; buffer and cursor stay.
    pub fn leave_edit(&mut self)
        ensures
            final(self).mode == InputMode::Normal,
            final(self).text@ == old(self).text@,
            final(self).cursor == old(self).cursor,
    {
        self.mode = InputMode::Normal;
    }
}

/// Inserting a character and then deleting it with a backspace gives back the
/// buffer and cursor one started with.
pub proof fn lemma_insert_backspace_identity(text: Seq<char>, cursor: int, c: char)
    requires
        0 <= cursor <= text.len(),
    ensures
        ({
            let (t1, c1) = inserted(text, cursor, c);
            backspaced(t1, c1)
        }) == (text, cursor),
{
    let (t1, c1) = inserted(text, cursor, c);
    assert(t1.remove(c1 - 1) =~= text);
}

} // verus!
