//! The navigator: a two-mode state machine over the list of matches, with a
//! cursor-addressed input line.
use vstd::prelude::*;
use crate::walker::NavigationDataFeild;
use crate::command::{DispatchOutcome, outcome_of, exits_on, expected_action};

verus! {

/// Whether keys move the selection or edit the input line.
#[derive(Clone, Copy, Debug, PartialEq, Eq, Structural)]
pub enum Mode {
    Selection,
    Command,
}

/// A key press, as the navigator sees it.
#[derive(Clone, Copy, Debug, PartialEq, Eq, Structural)]
pub enum Key {
    Up,
    Down,
    Left,
    Right,
    Backspace,
    Delete,
    Enter,
    Char(char),
    Other,
}

/// What the caller must carry out after a key press.
#[derive(Debug)]
pub enum Action {
    Nothing,
    /// Open the editor on this path, then report with `display_stdout`.
    OpenEditor(String),
    /// Print the working directory for this path; the session has ended.
    PrintDir(String),
}

/// The input line, and the output of the last action.
#[derive(Debug)]
pub struct UserInput {
    /// Position in `content`, in characters.
    pub cursor: usize,
    pub content: Vec<char>,
    pub stdout_result: Option<String>,
    /// The input pane shows `stdout_result` rather than `content`.
    pub show_stdout_result: bool,
}

/// The input line as values.
pub struct InputView {
    pub cursor: nat,
    pub content: Seq<char>,
    pub output: Option<Seq<char>>,
    pub show_output: bool,
}

/// The text of an optional string.
pub open spec fn text_view(t: Option<String>) -> Option<Seq<char>> {
    match t {
        Some(s) => Some(s@),
        None => None,
    }
}

impl View for UserInput {
    type V = InputView;

    open spec fn view(&self) -> InputView {
        InputView {
            cursor: self.cursor as nat,
            content: self.content@,
            output: text_view(self.stdout_result),
            show_output: self.show_stdout_result,
        }
    }
}

impl UserInput {
    pub open spec fn wf(&self) -> bool {
        self.cursor <= self.content@.len()
    }
}

/// The cursor one character left, kept at the start.
pub open spec fn cursor_left(v: InputView) -> InputView {
    InputView { cursor: if v.cursor > 0 { (v.cursor - 1) as nat } else { 0 }, ..v }
}

/// The cursor one character right, kept at the end.
pub open spec fn cursor_right(v: InputView) -> InputView {
    InputView { cursor: if v.cursor < v.content.len() { v.cursor + 1 } else { v.content.len() }, ..v }
}

/// The character before the cursor removed.
pub open spec fn backspace(v: InputView) -> InputView {
    if v.cursor > 0 {
        InputView { cursor: (v.cursor - 1) as nat, content: v.content.remove(v.cursor - 1), ..v }
    } else {
        v
    }
}

/// The character at the cursor removed.
pub open spec fn delete_at_cursor(v: InputView) -> InputView {
    if v.cursor < v.content.len() {
        InputView { content: v.content.remove(v.cursor as int), ..v }
    } else {
        v
    }
}

/// `c` inserted at the cursor, which moves past it; the input pane shows
/// the input line again.
pub open spec fn insert_char(v: InputView, c: char) -> InputView {
    InputView {
        cursor: v.cursor + 1,
        content: v.content.insert(v.cursor as int, c),
        show_output: false,
        ..v
    }
}

/// An empty input line.
pub open spec fn cleared(v: InputView) -> InputView {
    InputView { cursor: 0, content: Seq::empty(), ..v }
}

/// An empty input line after a submission: the pane shows the output.
pub open spec fn submitted(v: InputView) -> InputView {
    InputView { cursor: 0, content: Seq::empty(), show_output: true, ..v }
}

/// The selection one record further down, kept at the last record.
pub open spec fn next_index(sel: Option<usize>, n: nat) -> Option<usize> {
    match sel {
        Some(i) => if i + 1 < n {
            Some((i + 1) as usize)
        } else {
            Some(i)
        },
        None => None,
    }
}

/// The selection one record further up, kept at the first record.
pub open spec fn prev_index(sel: Option<usize>) -> Option<usize> {
    match sel {
        Some(i) => if i > 0 {
            Some((i - 1) as usize)
        } else {
            Some(i)
        },
        None => None,
    }
}

/// The selection after `k` presses of Down.
pub open spec fn downs(sel: Option<usize>, n: nat, k: nat) -> Option<usize>
    decreases k,
{
    if k == 0 {
        sel
    } else {
        downs(next_index(sel, n), n, (k - 1) as nat)
    }
}

/// The selection after `k` presses of Up.
pub open spec fn ups(sel: Option<usize>, k: nat) -> Option<usize>
    decreases k,
{
    if k == 0 {
        sel
    } else {
        ups(prev_index(sel), (k - 1) as nat)
    }
}

/// From the first record of a list of `n`, `k` presses of Down select record
/// `min(k, n - 1)`, and `k` presses of Up after them select the first again.
pub proof fn lemma_down_then_up(n: nat, k: nat)
    requires
        0 < n <= usize::MAX,
    ensures
        downs(Some(0usize), n, k) == Some((if k < n - 1 { k } else { (n - 1) as nat }) as usize),
        ups(downs(Some(0usize), n, k), k) == Some(0usize),
{
    lemma_downs_from(n, 0, k);
    let m: nat = if k < n - 1 { k } else { (n - 1) as nat };
    lemma_ups_from(m, k);
}

proof fn lemma_downs_from(n: nat, i: nat, k: nat)
    requires
        i < n <= usize::MAX,
    ensures
        downs(Some(i as usize), n, k) == Some((if i + k < n - 1 { i + k } else { (n - 1) as nat }) as usize),
    decreases k,
{
    if k > 0 {
        lemma_downs_from(n, if i + 1 < n { i + 1 } else { i }, (k - 1) as nat);
    }
}

proof fn lemma_ups_from(i: nat, k: nat)
    requires
        i <= k,
        i <= usize::MAX,
    ensures
        ups(Some(i as usize), k) == Some(0usize),
    decreases k,
{
    if k > 0 {
        lemma_ups_from(if i > 0 { (i - 1) as nat } else { 0 }, (k - 1) as nat);
    }
}

/// The navigator's state: the matches, the selection, the mode, the input
/// line, and whether the session has ended.
#[derive(Debug)]
pub struct App {
    pub field: Vec<NavigationDataFeild>,
    pub selected: Option<usize>,
    pub mode: Mode,
    pub input: UserInput,
    pub exit: bool,
}

impl App {
    /// The selection is a record of the list, and absent only when the list
    /// is empty; the cursor lies within the input line.
    pub open spec fn wf(&self) -> bool {
        &&& self.input.wf()
        &&& match self.selected {
            Some(i) => i < self.field@.len(),
            None => self.field@.len() == 0,
        }
    }

    /// Everything but the input line is as in `other`.
    pub open spec fn same_but_input(&self, other: App) -> bool {
        &&& self.field == other.field
        &&& self.selected == other.selected
        &&& self.mode == other.mode
        &&& self.exit == other.exit
    }

    /// A session over `field`, in selection mode, with the first record
    /// selected.
    pub fn new(field: Vec<NavigationDataFeild>) -> (r: App)
        ensures
            r.wf(),
            r.field@ == field@,
            r.selected == (if field@.len() > 0 { Some(0usize) } else { None::<usize> }),
            r.mode == Mode::Selection,
            !r.exit,
            r.input@ == (InputView { cursor: 0, content: Seq::empty(), output: None, show_output: false }),
    {
        let selected = if field.len() > 0 { Some(0usize) } else { None };
        App {
            field,
            selected,
            mode: Mode::Selection,
            input: UserInput {
                cursor: 0,
                content: Vec::new(),
                stdout_result: None,
                show_stdout_result: false,
            },
            exit: false,
        }
    }

    pub fn select_next(&mut self)
        requires
            old(self).wf(),
        ensures
            final(self).wf(),
            *final(self) == (App { selected: next_index(old(self).selected, old(self).field@.len()), ..*old(self) }),
    {
        match self.selected {
            Some(i) => {
                if i < self.field.len() - 1 {
                    self.selected = Some(i + 1);
                }
            },
            None => {},
        }
    }

    pub fn select_previous(&mut self)
        requires
            old(self).wf(),
        ensures
            final(self).wf(),
            *final(self) == (App { selected: prev_index(old(self).selected), ..*old(self) }),
    {
        match self.selected {
            Some(i) => {
                if i > 0 {
                    self.selected = Some(i - 1);
                }
            },
            None => {},
        }
    }

    /// `pos`, kept within the input line.
    pub fn clamp_cursor(&self, pos: usize) -> (r: usize)
        ensures
            r == (if pos <= self.input.content@.len() { pos as int } else { self.input.content@.len() as int }),
    {
        let len = self.input.content.len();
        if pos <= len {
            pos
        } else {
            len
        }
    }

    pub fn move_cursor_left(&mut self)
        requires
            old(self).wf(),
        ensures
            final(self).wf(),
            final(self).same_but_input(*old(self)),
            final(self).input@ == cursor_left(old(self).input@),
    {
        let pos = if self.input.cursor > 0 { self.input.cursor - 1 } else { 0 };
        self.input.cursor = self.clamp_cursor(pos);
    }

    pub fn move_cursor_right(&mut self)
        requires
            old(self).wf(),
        ensures
            final(self).wf(),
            final(self).same_but_input(*old(self)),
            final(self).input@ == cursor_right(old(self).input@),
    {
        let len = self.input.content.len();
        let pos = if self.input.cursor < len { self.input.cursor + 1 } else { len };
        self.input.cursor = self.clamp_cursor(pos);
    }

    pub fn reset_cursor(&mut self)
        requires
            old(self).wf(),
        ensures
            final(self).wf(),
            final(self).same_but_input(*old(self)),
            final(self).input@ == (InputView { cursor: 0, ..old(self).input@ }),
    {
        self.input.cursor = 0;
    }

    pub fn insert_ch(&mut self, ch: char)
        requires
            old(self).wf(),
            old(self).input.content@.len() < usize::MAX,
        ensures
            final(self).wf(),
            final(self).same_but_input(*old(self)),
            final(self).input@ == insert_char(old(self).input@, ch),
    {
        self.input.content.insert(self.input.cursor, ch);
        self.input.show_stdout_result = false;
        self.move_cursor_right();
    }

    pub fn delete_ch(&mut self)
        requires
            old(self).wf(),
        ensures
            final(self).wf(),
            final(self).same_but_input(*old(self)),
            final(self).input@ == delete_at_cursor(old(self).input@),
    {
        if self.input.cursor < self.input.content.len() {
            self.input.content.remove(self.input.cursor);
        }
    }

    pub fn backspace_ch(&mut self)
        requires
            old(self).wf(),
        ensures
            final(self).wf(),
            final(self).same_but_input(*old(self)),
            final(self).input@ == backspace(old(self).input@),
    {
        if self.input.cursor > 0 {
            self.move_cursor_left();
            self.input.content.remove(self.input.cursor);
        }
    }

    /// Handles one key press. In selection mode Up and Down move the
    /// selection and `:` opens an empty input line in command mode; in
    /// command mode keys edit the input line, and Enter submits it, empties
    /// it and shows the output. Other keys change nothing.
    pub fn handle_key(&mut self, key: Key) -> (a: Action)
        requires
            old(self).wf(),
            old(self).input.content@.len() < usize::MAX,
        ensures
            final(self).wf(),
            old(self).mode == Mode::Selection ==> match key {
                Key::Up => *final(self) == (App { selected: prev_index(old(self).selected), ..*old(self) })
                    && a is Nothing,
                Key::Down => *final(self) == (App {
                    selected: next_index(old(self).selected, old(self).field@.len()),
                    ..*old(self)
                }) && a is Nothing,
                Key::Char(':') => final(self).mode == Mode::Command && final(self).field == old(self).field
                    && final(self).selected == old(self).selected && final(self).exit == old(self).exit
                    && final(self).input@ == cleared(old(self).input@) && a is Nothing,
                _ => *final(self) == *old(self) && a is Nothing,
            },
            old(self).mode == Mode::Command ==> match key {
                Key::Left => final(self).same_but_input(*old(self)) && final(self).input@ == cursor_left(
                    old(self).input@,
                ) && a is Nothing,
                Key::Right => final(self).same_but_input(*old(self)) && final(self).input@
                    == cursor_right(old(self).input@) && a is Nothing,
                Key::Backspace => final(self).same_but_input(*old(self)) && final(self).input@
                    == backspace(old(self).input@) && a is Nothing,
                Key::Delete => final(self).same_but_input(*old(self)) && final(self).input@
                    == delete_at_cursor(old(self).input@) && a is Nothing,
                Key::Char(c) => final(self).same_but_input(*old(self)) && final(self).input@
                    == insert_char(old(self).input@, c) && a is Nothing,
                Key::Enter => final(self).field == old(self).field && final(self).selected == old(
                    self,
                ).selected && final(self).mode == Mode::Command && final(self).exit == (old(self).exit
                    || exits_on(old(self).input.content@, old(self).selected)) && final(self).input@
                    == submitted(old(self).input@) && expected_action(a, *old(self)),
                _ => *final(self) == *old(self) && a is Nothing,
            },
            old(self).mode == Mode::Command && key == Key::Enter && outcome_of(old(self).input.content@)
                == DispatchOutcome::Exit ==> final(self).exit && final(self).input@.output == old(self).input@.output,
            old(self).mode == Mode::Command && key == Key::Enter && outcome_of(old(self).input.content@)
                == DispatchOutcome::NoOp ==> final(self).field == old(self).field && final(self).selected
                == old(self).selected && final(self).mode == old(self).mode && final(self).exit == old(
                self,
            ).exit && final(self).input@.output == old(self).input@.output
                && final(self).input.content@ == Seq::<char>::empty() && final(self).input.cursor == 0
                && final(self).input.show_stdout_result && a is Nothing,
    {
        match self.mode {
            Mode::Selection => {
                match key {
                    Key::Up => self.select_previous(),
                    Key::Down => self.select_next(),
                    Key::Char(':') => {
                        self.mode = Mode::Command;
                        self.reset_cursor();
                        self.input.content = Vec::new();
                    },
                    _ => {},
                }
                Action::Nothing
            },
            Mode::Command => {
                match key {
                    Key::Left => {
                        self.move_cursor_left();
                        Action::Nothing
                    },
                    Key::Right => {
                        self.move_cursor_right();
                        Action::Nothing
                    },
                    Key::Backspace => {
                        self.backspace_ch();
                        Action::Nothing
                    },
                    Key::Delete => {
                        self.delete_ch();
                        Action::Nothing
                    },
                    Key::Char(ch) => {
                        self.insert_ch(ch);
                        Action::Nothing
                    },
                    Key::Enter => {
                        let action = self.handle_cmd();
                        self.reset_cursor();
                        self.input.content = Vec::new();
                        self.input.show_stdout_result = true;
                        action
                    },
                    _ => Action::Nothing,
                }
            },
        }
    }
}

} // verus!
