//! The commands that the input line accepts, and what each does to the
//! session.
use vstd::prelude::*;
use vstd::string::StringExecFns;
use vstd::utf8::*;
use crate::navigator::{Action, App, text_view};
use crate::walker::{NavigationDataFeild, path_bytes};

verus! {

/// What a submitted command asks for.
#[derive(Clone, Copy, Debug, PartialEq, Eq, Structural)]
pub enum DispatchOutcome {
    /// `quit`: end the session.
    Exit,
    /// `code`: open the selected path in the editor.
    OpenEditor,
    /// `cd`: print the working directory of the selected path and end.
    ChangeDirectoryPrint,
    /// Any other text: nothing happens.
    NoOp,
}

pub open spec fn outcome_of(cmd: Seq<char>) -> DispatchOutcome {
    if cmd == seq!['q', 'u', 'i', 't'] {
        DispatchOutcome::Exit
    } else if cmd == seq!['c', 'o', 'd', 'e'] {
        DispatchOutcome::OpenEditor
    } else if cmd == seq!['c', 'd'] {
        DispatchOutcome::ChangeDirectoryPrint
    } else {
        DispatchOutcome::NoOp
    }
}

/// Whether submitting `cmd` ends the session at once.
pub open spec fn exits_on(cmd: Seq<char>, selected: Option<usize>) -> bool {
    match outcome_of(cmd) {
        DispatchOutcome::Exit => true,
        DispatchOutcome::ChangeDirectoryPrint => selected is Some,
        _ => false,
    }
}

/// The action that submitting the input line of `app` hands to the caller:
/// the selected path for `code` and `cd`, nothing otherwise.
pub open spec fn expected_action(a: Action, app: App) -> bool {
    match app.selected {
        Some(i) => match outcome_of(app.input.content@) {
            DispatchOutcome::OpenEditor => a is OpenEditor && a->OpenEditor_0@
                == app.field@[i as int].path@,
            DispatchOutcome::ChangeDirectoryPrint => a is PrintDir && a->PrintDir_0@
                == app.field@[i as int].path@,
            _ => a is Nothing,
        },
        None => a is Nothing,
    }
}

/// The text shown when the editor could not be started.
pub open spec fn spawn_failed_text() -> Seq<char> {
    "Err! Failed to execute"@
}

/// The command that `cmd` names.
pub fn dispatch_outcome(cmd: &Vec<char>) -> (r: DispatchOutcome)
    ensures
        r == outcome_of(cmd@),
{
    let n = cmd.len();
    if n == 4 && cmd[0] == 'q' && cmd[1] == 'u' && cmd[2] == 'i' && cmd[3] == 't' {
        assert(cmd@ =~= seq!['q', 'u', 'i', 't']);
        DispatchOutcome::Exit
    } else if n == 4 && cmd[0] == 'c' && cmd[1] == 'o' && cmd[2] == 'd' && cmd[3] == 'e' {
        assert(cmd@ =~= seq!['c', 'o', 'd', 'e']);
        DispatchOutcome::OpenEditor
    } else if n == 2 && cmd[0] == 'c' && cmd[1] == 'd' {
        assert(cmd@ =~= seq!['c', 'd']);
        DispatchOutcome::ChangeDirectoryPrint
    } else {
        assert(cmd@ != seq!['q', 'u', 'i', 't'] && cmd@ != seq!['c', 'o', 'd', 'e'] && cmd@ != seq!['c', 'd']) by {
            if cmd@ == seq!['q', 'u', 'i', 't'] {
                assert(cmd@[0] == 'q' && cmd@[1] == 'u' && cmd@[2] == 'i' && cmd@[3] == 't');
            }
            if cmd@ == seq!['c', 'o', 'd', 'e'] {
                assert(cmd@[0] == 'c' && cmd@[1] == 'o' && cmd@[2] == 'd' && cmd@[3] == 'e');
            }
            if cmd@ == seq!['c', 'd'] {
                assert(cmd@[0] == 'c' && cmd@[1] == 'd');
            }
        }
        DispatchOutcome::NoOp
    }
}

/// The directory that `cd` reports for a path: the path itself if it is a
/// directory, else its parent; none where there is no parent, in which case
/// the caller reports the current directory.
pub fn working_dir(path: String, is_dir: bool, parent: Option<String>) -> (r: Option<String>)
    ensures
        r == (if is_dir { Some(path) } else { parent }),
{
    if is_dir {
        Some(path)
    } else {
        parent
    }
}

/// Relies on `String`'s `FromIterator<char>`: the string of the characters,
/// in order.
#[verifier::external_body]
fn string_of_chars(v: &Vec<char>) -> (r: String)
    ensures
        r@ == v@,
{
    v.iter().collect()
}

proof fn lemma_boundary_in_prefix(bytes: Seq<u8>, end: int, start: int)
    requires
        valid_utf8(bytes),
        0 <= start <= end <= bytes.len(),
        is_char_boundary(bytes, start),
        is_char_boundary(bytes, end),
    ensures
        valid_utf8(bytes.subrange(0, end)),
        is_char_boundary(bytes.subrange(0, end), start),
{
    valid_utf8_split(bytes, end);
    let prefix = bytes.subrange(0, end);
    is_char_boundary_start_end_of_seq(prefix);
    if 0 < start < end {
        is_char_boundary_iff_not_is_continuation_byte(prefix, start);
        is_char_boundary_iff_not_is_continuation_byte(bytes, start);
    }
}

impl App {
    pub fn quit(&mut self)
        ensures
            *final(self) == (App { exit: true, ..*old(self) }),
    {
        self.exit = true;
    }

    /// The selected record, if any.
    pub fn get_selected(&self) -> (r: Option<&NavigationDataFeild>)
        requires
            self.wf(),
        ensures
            r == (match self.selected {
                Some(i) => Some(&self.field@[i as int]),
                None => None::<&NavigationDataFeild>,
            }),
    {
        match self.selected {
            Some(i) => Some(&self.field[i]),
            None => None,
        }
    }

    /// The path of the selected record, if any.
    pub fn get_path(&self) -> (r: Option<&String>)
        requires
            self.wf(),
        ensures
            r == (match self.selected {
                Some(i) => Some(&self.field@[i as int].path),
                None => None::<&String>,
            }),
    {
        match self.get_selected() {
            Some(rec) => Some(&rec.path),
            None => None,
        }
    }

    /// The request to open the selected path in the editor.
    pub fn code(&self) -> (a: Action)
        requires
            self.wf(),
        ensures
            match self.selected {
                Some(i) => a is OpenEditor && a->OpenEditor_0@ == self.field@[i as int].path@,
                None => a is Nothing,
            },
    {
        match self.get_path() {
            Some(p) => Action::OpenEditor(p.clone()),
            None => Action::Nothing,
        }
    }

    /// Ends the session with a request to print the selected path's working
    /// directory.
    pub fn cd(&mut self) -> (a: Action)
        requires
            old(self).wf(),
        ensures
            match old(self).selected {
                Some(i) => a is PrintDir && a->PrintDir_0@ == old(self).field@[i as int].path@
                    && *final(self) == (App { exit: true, ..*old(self) }),
                None => a is Nothing && *final(self) == *old(self),
            },
    {
        match self.get_path() {
            Some(p) => {
                let dir = p.clone();
                self.quit();
                Action::PrintDir(dir)
            },
            None => Action::Nothing,
        }
    }

    /// Records how the editor went: `Some` with its diagnostic output when it
    /// ran, which ends the session (non-empty output is kept for display);
    /// `None` when it could not be started, which keeps the session and
    /// shows a failure message.
    pub fn display_stdout(&mut self, captured: Option<String>)
        requires
            old(self).wf(),
        ensures
            final(self).wf(),
            final(self).field == old(self).field,
            final(self).selected == old(self).selected,
            final(self).mode == old(self).mode,
            final(self).input.cursor == old(self).input.cursor,
            final(self).input.content == old(self).input.content,
            final(self).input.show_stdout_result == old(self).input.show_stdout_result,
            match captured {
                Some(out) => final(self).exit && text_view(final(self).input.stdout_result) == (
                if out@.len() > 0 {
                    Some(out@)
                } else {
                    text_view(old(self).input.stdout_result)
                }),
                None => final(self).exit == old(self).exit && text_view(
                    final(self).input.stdout_result,
                ) == Some(spawn_failed_text()),
            },
    {
        match captured {
            Some(out) => {
                if !out.as_str().is_empty() {
                    self.input.stdout_result = Some(out);
                }
                self.quit();
            },
            None => {
                self.input.stdout_result = Some(String::from_str("Err! Failed to execute"));
            },
        }
    }

    /// Carries out the command on the input line.
    pub fn handle_cmd(&mut self) -> (a: Action)
        requires
            old(self).wf(),
        ensures
            final(self).wf(),
            final(self).field == old(self).field,
            final(self).selected == old(self).selected,
            final(self).mode == old(self).mode,
            final(self).input == old(self).input,
            final(self).exit == (old(self).exit || exits_on(old(self).input.content@, old(self).selected)),
            expected_action(a, *old(self)),
    {
        match dispatch_outcome(&self.input.content) {
            DispatchOutcome::Exit => {
                self.quit();
                Action::Nothing
            },
            DispatchOutcome::OpenEditor => self.code(),
            DispatchOutcome::ChangeDirectoryPrint => self.cd(),
            DispatchOutcome::NoOp => Action::Nothing,
        }
    }

    /// The text of the input pane: the last output when it is shown, else
    /// the input line.
    pub fn input_text(&self) -> (r: String)
        ensures
            r@ == (if self.input.show_stdout_result {
                match self.input.stdout_result {
                    Some(s) => s@,
                    None => Seq::<char>::empty(),
                }
            } else {
                self.input.content@
            }),
    {
        if self.input.show_stdout_result {
            match &self.input.stdout_result {
                Some(s) => s.clone(),
                None => String::new(),
            }
        } else {
            string_of_chars(&self.input.content)
        }
    }

    /// A record's path in three parts: before the match, the match, after
    /// it. Where a span end does not fall between characters, the whole path
    /// comes first and the other parts are empty.
    pub fn get_formated_display_path(nav_field: &NavigationDataFeild) -> (r: (String, String, String))
        requires
            nav_field.start <= nav_field.end <= path_bytes(*nav_field).len(),
        ensures
            ({
                let pb = path_bytes(*nav_field);
                if is_char_boundary(pb, nav_field.start as int) && is_char_boundary(pb, nav_field.end as int) {
                    &&& encode_utf8(r.0@) == pb.subrange(0, nav_field.start as int)
                    &&& encode_utf8(r.1@) == pb.subrange(nav_field.start as int, nav_field.end as int)
                    &&& encode_utf8(r.2@) == pb.subrange(nav_field.end as int, pb.len() as int)
                } else {
                    &&& r.0@ == nav_field.path@
                    &&& r.1@ == Seq::<char>::empty()
                    &&& r.2@ == Seq::<char>::empty()
                }
            }),
    {
        let s = nav_field.path.as_str();
        let start = nav_field.start;
        let end = nav_field.end;
        if s.is_char_boundary(start) && s.is_char_boundary(end) {
            proof {
                encode_utf8_valid_utf8(nav_field.path@);
                lemma_boundary_in_prefix(path_bytes(*nav_field), end as int, start as int);
            }
            let (ab, c) = s.split_at(end);
            let (a, b) = ab.split_at(start);
            proof {
                let pb = path_bytes(*nav_field);
                assert(pb.subrange(0, end as int).subrange(0, start as int) =~= pb.subrange(0, start as int));
                assert(pb.subrange(0, end as int).subrange(start as int, end as int) =~= pb.subrange(start as int, end as int));
            }
            (a.to_owned(), b.to_owned(), c.to_owned())
        } else {
            (nav_field.path.clone(), String::new(), String::new())
        }
    }
}

} // verus!
