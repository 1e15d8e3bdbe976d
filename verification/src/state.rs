//! Application state and the mode state machine.

use vstd::prelude::*;

use crate::text::string_of_chars;

verus! {

/// The current interpretation context for keyboard input: in `Command`
/// mode keystrokes invoke commands, in `Composing` mode they edit the
/// entry being composed.
#[derive(Clone, Copy, Debug, PartialEq, Eq, Structural)]
pub enum Mode {
    Command,
    Composing,
}

impl Default for Mode {
    /// The machine starts in `Command` mode.
    fn default() -> (m: Self)
        ensures
            m == Mode::Command,
    {
        Mode::Command
    }
}

/// A keyboard event as the state machine sees it: a character key, one of
/// the named keys it reacts to, or any other key (always ignored).
#[derive(Clone, Copy, Debug, PartialEq, Eq, Structural)]
pub enum Key {
    Char(char),
    Esc,
    Enter,
    Backspace,
    Left,
    Right,
    Other,
}

/// The abstract value of an [`App`]: the entry being composed with its
/// cursor, the committed entries, the exit flag and the mode.
#[verifier::ext_equal]
pub ghost struct AppView {
    pub input: Seq<char>,
    pub char_index: int,
    pub todos: Seq<Seq<char>>,
    pub exit: bool,
    pub mode: Mode,
}

impl AppView {
    /// The cursor addresses a valid insertion point: before an existing
    /// character of the input, or at its end.
    pub open spec fn wf(self) -> bool {
        0 <= self.char_index <= self.input.len()
    }
}

/// What one key does to the state: the mode state machine together with
/// the line-editing rules.
///
/// In `Command` mode: `q` requests exit, `a` enters `Composing` mode, `s`
/// is reserved for persistence and does nothing. In `Composing` mode:
/// `Esc` returns to `Command` mode leaving the buffer as it is; `Enter`
/// commits the buffer as a new entry, clears it and returns to `Command`
/// mode; a character key inserts at the cursor and advances it;
/// `Backspace` deletes the character before the cursor; `Left` and
/// `Right` move the cursor by one, clamped to the buffer. Every other key
/// changes nothing.
pub open spec fn key_transition(s: AppView, k: Key) -> AppView {
    match s.mode {
        Mode::Command => match k {
            Key::Char(c) => if c == 'q' {
                AppView { exit: true, ..s }
            } else if c == 'a' {
                AppView { mode: Mode::Composing, ..s }
            } else {
                s
            },
            _ => s,
        },
        Mode::Composing => match k {
            Key::Esc => AppView { mode: Mode::Command, ..s },
            Key::Enter => AppView {
                todos: s.todos.push(s.input),
                input: Seq::<char>::empty(),
                char_index: 0,
                mode: Mode::Command,
                ..s
            },
            Key::Char(c) => AppView {
                input: s.input.insert(s.char_index, c),
                char_index: s.char_index + 1,
                ..s
            },
            Key::Backspace => if s.char_index > 0 {
                AppView {
                    input: s.input.remove(s.char_index - 1),
                    char_index: s.char_index - 1,
                    ..s
                }
            } else {
                s
            },
            Key::Left => if s.char_index > 0 {
                AppView { char_index: s.char_index - 1, ..s }
            } else {
                s
            },
            Key::Right => if s.char_index < s.input.len() {
                AppView { char_index: s.char_index + 1, ..s }
            } else {
                s
            },
            _ => s,
        },
    }
}

/// The state after a whole sequence of keys, applied first to last.
pub open spec fn process_keys(s: AppView, ks: Seq<Key>) -> AppView
    decreases ks.len(),
{
    if ks.len() == 0 {
        s
    } else {
        process_keys(key_transition(s, ks[0]), ks.drop_first())
    }
}

/// The whole application state: the single mutable object of a session.
pub struct App {
    /// The characters of the entry being composed.
    pub input: Vec<char>,
    /// The insertion point within `input`, counted in characters.
    pub char_index: usize,
    /// The committed entries, in insertion order.
    pub todos: Vec<String>,
    /// Whether the user asked to quit.
    pub exit: bool,
    /// The current interpretation context for keys.
    pub mode: Mode,
}

impl View for App {
    type V = AppView;

    open spec fn view(&self) -> AppView {
        AppView {
            input: self.input@,
            char_index: self.char_index as int,
            todos: self.todos@.map_values(|t: String| t@),
            exit: self.exit,
            mode: self.mode,
        }
    }
}

impl App {
    /// A fresh state: command mode, empty input, cursor at zero, no
    /// committed entries, exit not requested.
    pub fn new() -> (app: Self)
        ensures
            app@.input == Seq::<char>::empty(),
            app@.char_index == 0,
            app@.todos == Seq::<Seq<char>>::empty(),
            !app@.exit,
            app@.mode == Mode::Command,
            app@.wf(),
    {
        let app = App {
            input: Vec::new(),
            char_index: 0,
            todos: Vec::new(),
            exit: false,
            mode: Mode::Command,
        };
        proof {
            assert(app@.todos =~= Seq::<Seq<char>>::empty());
        }
        app
    }

    /// Dispatch one key press through the mode state machine, mutating
    /// the state exactly as [`key_transition`] says.
    pub fn handle_key(&mut self, key: Key)
        requires
            old(self)@.wf(),
        ensures
            final(self)@ == key_transition(old(self)@, key),
            final(self)@.wf(),
    {
        match self.mode {
            Mode::Command => {
                match key {
                    Key::Char(c) => {
                        if c == 'q' {
                            self.exit = true;
                        } else if c == 'a' {
                            self.mode = Mode::Composing;
                        }
                        // 's' is reserved for persistence: a no-op.
                    },
                    _ => {},
                }
            },
            Mode::Composing => {
                match key {
                    Key::Esc => {
                        self.mode = Mode::Command;
                    },
                    Key::Enter => {
                        let entry = string_of_chars(&self.input);
                        self.todos.push(entry);
                        self.input.clear();
                        self.char_index = 0;
                        self.mode = Mode::Command;
                        proof {
                            assert(self@.todos =~= key_transition(old(self)@, key).todos);
                        }
                    },
                    Key::Char(c) => {
                        self.input.insert(self.char_index, c);
                        // The grown length bounds the cursor from above, so
                        // the increment cannot overflow.
                        let n = self.input.len();
                        proof {
                            assert(self.char_index < n);
                        }
                        self.char_index = self.char_index + 1;
                    },
                    Key::Backspace => {
                        if self.char_index > 0 {
                            self.char_index = self.char_index - 1;
                            self.input.remove(self.char_index);
                        }
                    },
                    Key::Left => {
                        if self.char_index > 0 {
                            self.char_index = self.char_index - 1;
                        }
                    },
                    Key::Right => {
                        if self.char_index < self.input.len() {
                            self.char_index = self.char_index + 1;
                        }
                    },
                    Key::Other => {},
                }
            },
        }
        proof {
            assert(self@ =~~= key_transition(old(self)@, key));
        }
    }
}

/// After any key the mode is exactly one of `Command` and `Composing`;
/// `a` in `Command` mode always yields `Composing`, and `Esc` in
/// `Composing` mode always yields `Command`.
pub proof fn lemma_mode_transitions(s: AppView, k: Key)
    ensures
        key_transition(s, k).mode == Mode::Command || key_transition(s, k).mode
            == Mode::Composing,
        s.mode == Mode::Command && k == Key::Char('a') ==> key_transition(s, k).mode
            == Mode::Composing,
        s.mode == Mode::Composing && k == Key::Esc ==> key_transition(s, k).mode == Mode::Command,
{
}

/// After any whole sequence of keys the mode is exactly one of `Command`
/// and `Composing`.
pub proof fn lemma_process_keys_mode(s: AppView, ks: Seq<Key>)
    ensures
        process_keys(s, ks).mode == Mode::Command || process_keys(s, ks).mode == Mode::Composing,
{
}

/// One key keeps the state well formed: the cursor still addresses a
/// valid insertion point of the input.
pub proof fn lemma_wf_preserved(s: AppView, k: Key)
    requires
        s.wf(),
    ensures
        key_transition(s, k).wf(),
{
}

/// A whole sequence of keys keeps the state well formed.
pub proof fn lemma_process_keys_wf(s: AppView, ks: Seq<Key>)
    requires
        s.wf(),
    ensures
        process_keys(s, ks).wf(),
    decreases ks.len(),
{
    if ks.len() > 0 {
        lemma_wf_preserved(s, ks[0]);
        lemma_process_keys_wf(key_transition(s, ks[0]), ks.drop_first());
    }
}

/// The commit law: pressing `Enter` while composing appends exactly one
/// entry, equal to the composed text, immediately after all previously
/// committed entries, resets the buffer to empty with the cursor at zero,
/// and returns to `Command` mode.
pub proof fn lemma_commit(s: AppView)
    requires
        s.mode == Mode::Composing,
    ensures
        key_transition(s, Key::Enter).todos == s.todos.push(s.input),
        key_transition(s, Key::Enter).todos.len() == s.todos.len() + 1,
        key_transition(s, Key::Enter).todos[s.todos.len() as int] == s.input,
        forall|i: int|
            0 <= i < s.todos.len() ==> key_transition(s, Key::Enter).todos[i] == s.todos[i],
        key_transition(s, Key::Enter).input == Seq::<char>::empty(),
        key_transition(s, Key::Enter).char_index == 0,
        key_transition(s, Key::Enter).mode == Mode::Command,
        key_transition(s, Key::Enter).exit == s.exit,
{
}

/// The cursor boundaries: `Left` with the cursor at zero changes nothing,
/// and `Right` with the cursor at the end of the input changes nothing.
pub proof fn lemma_cursor_boundaries(s: AppView)
    requires
        s.mode == Mode::Composing,
    ensures
        s.char_index == 0 ==> key_transition(s, Key::Left) == s,
        s.char_index == s.input.len() ==> key_transition(s, Key::Right) == s,
{
}

} // verus!
