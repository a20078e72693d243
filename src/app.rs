//! The interactive application's state and its transition function.

use vstd::prelude::*;
use vstd::string::*;
use crate::models::{without_id, CommandDatabase, CommandEntry};
use crate::runner::{exec_status, exec_status_text, ExecOutcome};
use crate::storage::Storage;
use crate::text::{decimal, decimal_text, split_commas, split_on, trim, trim_of};

verus! {

/// The field of the add form that receives keystrokes.
#[derive(Clone, Copy, Debug, PartialEq, Eq, Structural)]
pub enum AddingField {
    Command,
    Description,
    Tags,
}

/// The application's top-level state.
#[derive(Clone, Copy, Debug, PartialEq, Eq, Structural)]
pub enum Mode {
    /// Browsing the list.
    Normal,
    /// Filling in the add form, with the active field.
    Adding(AddingField),
    /// Asking whether to delete the selected entry.
    ConfirmDelete,
}

/// What the user asked for.
#[derive(Clone, Copy, Debug, PartialEq, Eq, Structural)]
pub enum Message {
    MoveUp,
    MoveDown,
    MoveToTop,
    MoveToBottom,
    StartAdding,
    CancelAdding,
    ConfirmAdd,
    NextField,
    PrevField,
    StartDelete,
    CancelDelete,
    ConfirmDelete,
    CopyToClipboard,
    ExecuteCommand,
    Quit,
}

/// What the caller has to carry out after a transition.
#[derive(Debug)]
pub enum Effect {
    /// Nothing.
    Nothing,
    /// Write the store to its file.
    Save,
    /// Put the text on the clipboard, then report with `copy_finished`.
    CopyText(String),
}

/// The field after `f` in the form's cycle.
pub open spec fn next_field(f: AddingField) -> AddingField {
    match f {
        AddingField::Command => AddingField::Description,
        AddingField::Description => AddingField::Tags,
        AddingField::Tags => AddingField::Command,
    }
}

/// The field before `f` in the form's cycle.
pub open spec fn prev_field(f: AddingField) -> AddingField {
    match f {
        AddingField::Command => AddingField::Tags,
        AddingField::Description => AddingField::Command,
        AddingField::Tags => AddingField::Description,
    }
}

/// The selection after the list changed to `len` entries: kept when still in
/// range, else the last entry, or 0 (no selection) when the list is empty.
pub open spec fn clamp_selection(sel: int, len: int) -> int {
    if len <= 0 {
        0
    } else if sel >= len {
        len - 1
    } else {
        sel
    }
}

/// The selection after a navigation message over a list of `len` entries.
pub open spec fn moved_selection(sel: int, len: int, msg: Message) -> int {
    match msg {
        Message::MoveUp => if sel > 0 {
            sel - 1
        } else {
            sel
        },
        Message::MoveDown => if sel + 1 < len {
            sel + 1
        } else {
            sel
        },
        Message::MoveToTop => 0,
        Message::MoveToBottom => if len > 0 {
            len - 1
        } else {
            sel
        },
        _ => sel,
    }
}

/// Whether the message only moves the selection.
pub open spec fn is_navigation(msg: Message) -> bool {
    msg == Message::MoveUp || msg == Message::MoveDown || msg == Message::MoveToTop || msg
        == Message::MoveToBottom
}

/// The tags typed into the form: none when the text is blank, else the
/// comma-separated pieces, each trimmed.
pub open spec fn tags_of(text: Seq<char>) -> Seq<Seq<char>> {
    if trim_of(text).len() == 0 {
        Seq::<Seq<char>>::empty()
    } else {
        split_on(trim_of(text), ',').map_values(|p: Seq<char>| trim_of(p))
    }
}

/// The tags typed into the form: none when the text is blank, else the
/// comma-separated pieces, each trimmed.
pub fn parse_tags(text: &str) -> (r: Vec<String>)
    ensures
        r.deep_view() == tags_of(text@),
{
    let t = trim(text);
    let mut out: Vec<String> = Vec::new();
    if t.unicode_len() == 0 {
        proof {
            assert(out.deep_view() =~= tags_of(text@));
        }
        return out;
    }
    let pieces = split_commas(t);
    let mut i: usize = 0;
    while i < pieces.len()
        invariant
            i <= pieces@.len(),
            pieces.deep_view() == split_on(t@, ','),
            out.deep_view() == pieces.deep_view().subrange(0, i as int).map_values(
                |p: Seq<char>| trim_of(p),
            ),
        decreases pieces.len() - i,
    {
        let piece = trim(pieces[i].as_str());
        let ghost prev = out.deep_view();
        out.push(String::from_str(piece));
        proof {
            assert(pieces.deep_view()[i as int] == pieces@[i as int]@);
            assert(out.deep_view() =~= prev.push(piece@));
            assert(out.deep_view() =~= pieces.deep_view().subrange(0, i + 1).map_values(
                |p: Seq<char>| trim_of(p),
            ));
        }
        i = i + 1;
    }
    proof {
        assert(pieces.deep_view().subrange(0, pieces@.len() as int) =~= pieces.deep_view());
    }
    out
}

/// The application's state.
pub struct App {
    /// The current mode.
    pub mode: Mode,
    /// The entry store.
    pub db: CommandDatabase,
    /// Where the store is saved.
    pub storage: Storage,
    /// The selected position in the list; 0 when the list is empty.
    pub selected_index: usize,
    /// The add form's command text.
    pub command_input: String,
    /// The add form's description text.
    pub description_input: String,
    /// The add form's tags text, comma-separated.
    pub tags_input: String,
    /// A message for the status line.
    pub status_message: Option<String>,
    /// Whether the session should end.
    pub should_quit: bool,
    /// Whether the selected command should be run.
    pub execute_requested: bool,
}

/// The status line after a successful add.
pub open spec fn added_text(id: u64) -> Seq<char> {
    "✓ Command added (ID: "@ + decimal(id as nat) + ")"@
}

/// The status line after a deletion.
pub open spec fn deleted_text(id: u64) -> Seq<char> {
    "✓ Command "@ + decimal(id as nat) + " deleted"@
}

/// Whether the add form's three texts are empty in `b`.
pub open spec fn cleared_inputs(b: App) -> bool {
    &&& b.command_input@.len() == 0
    &&& b.description_input@.len() == 0
    &&& b.tags_input@.len() == 0
}

/// Whether the form's texts are the same in both states.
pub open spec fn same_inputs(a: App, b: App) -> bool {
    &&& b.command_input == a.command_input
    &&& b.description_input == a.description_input
    &&& b.tags_input == a.tags_input
}

/// Whether the two states agree on everything but the mode, the form's
/// texts and the status message.
pub open spec fn same_core(a: App, b: App) -> bool {
    &&& b.db == a.db
    &&& b.storage == a.storage
    &&& b.selected_index == a.selected_index
    &&& b.should_quit == a.should_quit
    &&& b.execute_requested == a.execute_requested
}

/// Whether `b` is `a` with only the listed fields changed to the given values.
pub open spec fn only_changed(a: App, b: App, mode: Mode, sel: int) -> bool {
    &&& b.mode == mode
    &&& b.selected_index == sel
    &&& b.db == a.db
    &&& b.storage == a.storage
    &&& same_inputs(a, b)
    &&& b.status_message == a.status_message
    &&& b.should_quit == a.should_quit
    &&& b.execute_requested == a.execute_requested
}

impl App {
    /// The state's invariant: the store is well formed and the selection is
    /// in range (0 when the list is empty).
    pub open spec fn wf(&self) -> bool {
        &&& self.db.wf()
        &&& self.db.entries@.len() > 0 ==> self.selected_index < self.db.entries@.len()
        &&& self.db.entries@.len() == 0 ==> self.selected_index == 0
    }

    /// A fresh session over a loaded store: browsing, first entry selected,
    /// empty form, no status.
    pub fn new(storage: Storage, db: CommandDatabase) -> (r: Self)
        requires
            db.wf(),
        ensures
            r.wf(),
            r.mode == Mode::Normal,
            r.db == db,
            r.storage == storage,
            r.selected_index == 0,
            cleared_inputs(r),
            r.status_message is None,
            !r.should_quit,
            !r.execute_requested,
    {
        App {
            mode: Mode::Normal,
            db,
            storage,
            selected_index: 0,
            command_input: String::new(),
            description_input: String::new(),
            tags_input: String::new(),
            status_message: None,
            should_quit: false,
            execute_requested: false,
        }
    }

    /// The selected entry, if the list is not empty.
    pub fn selected_entry(&self) -> (r: Option<&CommandEntry>)
        ensures
            r is Some <==> self.selected_index < self.db.entries@.len(),
            r matches Some(e) ==> *e == self.db.entries@[self.selected_index as int],
    {
        if self.selected_index < self.db.entries.len() {
            Some(&self.db.entries[self.selected_index])
        } else {
            None
        }
    }

    /// The number of entries.
    pub fn entry_count(&self) -> (r: usize)
        ensures
            r == self.db.entries@.len(),
    {
        self.db.entries.len()
    }

    /// Empties the add form.
    fn clear_inputs(&mut self)
        ensures
            cleared_inputs(*final(self)),
            same_core(*old(self), *final(self)),
            final(self).mode == old(self).mode,
            final(self).status_message == old(self).status_message,
    {
        self.command_input = String::new();
        self.description_input = String::new();
        self.tags_input = String::new();
    }

    /// Commits the add form: rejects a blank command with a status message,
    /// else appends the entry with trimmed texts and parsed tags, selects it
    /// and empties the form.
    fn add_command(&mut self) -> (r: Effect)
        requires
            old(self).wf(),
        ensures
            final(self).wf(),
            final(self).mode == old(self).mode,
            final(self).storage == old(self).storage,
            final(self).should_quit == old(self).should_quit,
            final(self).execute_requested == old(self).execute_requested,
            add_outcome(*old(self), *final(self), r),
    {
        let command = trim(self.command_input.as_str());
        if command.unicode_len() == 0 {
            self.status_message = Some(String::from_str("Command cannot be empty"));
            return Effect::Nothing;
        }
        if !self.db.can_add() {
            self.status_message = Some(String::from_str("No ids are left to assign"));
            return Effect::Nothing;
        }
        let command = String::from_str(command);
        let description = String::from_str(trim(self.description_input.as_str()));
        let tags = parse_tags(self.tags_input.as_str());
        let id = self.db.add(command, description, tags);
        let mut status = String::from_str("✓ Command added (ID: ");
        let digits = decimal_text(id);
        status.append(digits.as_str());
        status.append(")");
        self.status_message = Some(status);
        self.clear_inputs();
        self.selected_index = self.db.entries.len() - 1;
        Effect::Save
    }

    /// Deletes the selected entry, if any, and clamps the selection.
    fn delete_selected(&mut self) -> (r: Effect)
        requires
            old(self).wf(),
        ensures
            final(self).wf(),
            final(self).mode == old(self).mode,
            final(self).storage == old(self).storage,
            same_inputs(*old(self), *final(self)),
            final(self).should_quit == old(self).should_quit,
            final(self).execute_requested == old(self).execute_requested,
            delete_outcome(*old(self), *final(self), r),
    {
        if self.selected_index < self.db.entries.len() {
            let id = self.db.entries[self.selected_index].id;
            self.db.remove_by_id(id);
            let mut status = String::from_str("✓ Command ");
            let digits = decimal_text(id);
            status.append(digits.as_str());
            status.append(" deleted");
            self.status_message = Some(status);
            let len = self.db.entries.len();
            if len == 0 {
                self.selected_index = 0;
            } else if self.selected_index >= len {
                self.selected_index = len - 1;
            }
            Effect::Save
        } else {
            Effect::Nothing
        }
    }

    /// Applies one message: the state machine's single entry point. The
    /// returned effect says what the caller has to carry out.
    pub fn update(&mut self, msg: Message) -> (r: Effect)
        requires
            old(self).wf(),
        ensures
            final(self).wf(),
            final(self).storage == old(self).storage,
            is_navigation(msg) ==> only_changed(
                *old(self),
                *final(self),
                old(self).mode,
                moved_selection(old(self).selected_index as int, old(self).db.entries@.len() as int, msg),
            ) && r is Nothing,
            msg == Message::StartAdding ==> final(self).mode == Mode::Adding(AddingField::Command)
                && cleared_inputs(*final(self)) && same_core(*old(self), *final(self))
                && final(self).status_message == old(self).status_message && r is Nothing,
            msg == Message::CancelAdding ==> final(self).mode == Mode::Normal && cleared_inputs(*final(self))
                && same_core(*old(self), *final(self))
                && final(self).status_message == old(self).status_message && r is Nothing,
            msg == Message::NextField ==> r is Nothing && only_changed(
                *old(self),
                *final(self),
                match old(self).mode {
                    Mode::Adding(f) => Mode::Adding(next_field(f)),
                    m => m,
                },
                old(self).selected_index as int,
            ),
            msg == Message::PrevField ==> r is Nothing && only_changed(
                *old(self),
                *final(self),
                match old(self).mode {
                    Mode::Adding(f) => Mode::Adding(prev_field(f)),
                    m => m,
                },
                old(self).selected_index as int,
            ),
            msg == Message::ConfirmAdd ==> final(self).mode == Mode::Normal && add_outcome(*old(self), *final(self), r)
                && final(self).should_quit == old(self).should_quit
                && final(self).execute_requested == old(self).execute_requested,
            msg == Message::StartDelete ==> r is Nothing && only_changed(
                *old(self),
                *final(self),
                if old(self).db.entries@.len() > 0 {
                    Mode::ConfirmDelete
                } else {
                    old(self).mode
                },
                old(self).selected_index as int,
            ),
            msg == Message::CancelDelete ==> r is Nothing && only_changed(
                *old(self),
                *final(self),
                Mode::Normal,
                old(self).selected_index as int,
            ),
            msg == Message::ConfirmDelete ==> final(self).mode == Mode::Normal && delete_outcome(*old(self), *final(self), r)
                && same_inputs(*old(self), *final(self))
                && final(self).should_quit == old(self).should_quit
                && final(self).execute_requested == old(self).execute_requested,
            msg == Message::CopyToClipboard ==> only_changed(
                *old(self),
                *final(self),
                old(self).mode,
                old(self).selected_index as int,
            ) && (if old(self).db.entries@.len() > 0 {
                (r matches Effect::CopyText(t) && t@ == old(self).db.entries@[old(self).selected_index as int].command@)
            } else {
                r is Nothing
            }),
            msg == Message::ExecuteCommand ==> r is Nothing && final(self).mode == old(self).mode
                && same_inputs(*old(self), *final(self)) && final(self).db == old(self).db
                && final(self).selected_index == old(self).selected_index
                && final(self).status_message == old(self).status_message
                && final(self).should_quit == old(self).should_quit
                && final(self).execute_requested == (old(self).execute_requested || old(self).db.entries@.len() > 0),
            msg == Message::Quit ==> r is Nothing && final(self).should_quit && final(self).mode == old(self).mode
                && same_inputs(*old(self), *final(self)) && final(self).db == old(self).db
                && final(self).selected_index == old(self).selected_index
                && final(self).status_message == old(self).status_message
                && final(self).execute_requested == old(self).execute_requested,
    {
        match msg {
            Message::MoveUp => {
                if self.selected_index > 0 {
                    self.selected_index = self.selected_index - 1;
                }
                Effect::Nothing
            },
            Message::MoveDown => {
                if self.db.entries.len() > 0 && self.selected_index < self.db.entries.len() - 1 {
                    self.selected_index = self.selected_index + 1;
                }
                Effect::Nothing
            },
            Message::MoveToTop => {
                self.selected_index = 0;
                Effect::Nothing
            },
            Message::MoveToBottom => {
                if self.db.entries.len() > 0 {
                    self.selected_index = self.db.entries.len() - 1;
                }
                Effect::Nothing
            },
            Message::StartAdding => {
                self.mode = Mode::Adding(AddingField::Command);
                self.clear_inputs();
                Effect::Nothing
            },
            Message::CancelAdding => {
                self.mode = Mode::Normal;
                self.clear_inputs();
                Effect::Nothing
            },
            Message::NextField => {
                match self.mode {
                    Mode::Adding(field) => {
                        self.mode = Mode::Adding(
                            match field {
                                AddingField::Command => AddingField::Description,
                                AddingField::Description => AddingField::Tags,
                                AddingField::Tags => AddingField::Command,
                            },
                        );
                    },
                    _ => {},
                }
                Effect::Nothing
            },
            Message::PrevField => {
                match self.mode {
                    Mode::Adding(field) => {
                        self.mode = Mode::Adding(
                            match field {
                                AddingField::Command => AddingField::Tags,
                                AddingField::Description => AddingField::Command,
                                AddingField::Tags => AddingField::Description,
                            },
                        );
                    },
                    _ => {},
                }
                Effect::Nothing
            },
            Message::ConfirmAdd => {
                let effect = self.add_command();
                self.mode = Mode::Normal;
                effect
            },
            Message::StartDelete => {
                if self.db.entries.len() > 0 {
                    self.mode = Mode::ConfirmDelete;
                }
                Effect::Nothing
            },
            Message::CancelDelete => {
                self.mode = Mode::Normal;
                Effect::Nothing
            },
            Message::ConfirmDelete => {
                let effect = self.delete_selected();
                self.mode = Mode::Normal;
                effect
            },
            Message::CopyToClipboard => {
                if self.selected_index < self.db.entries.len() {
                    Effect::CopyText(self.db.entries[self.selected_index].command.clone())
                } else {
                    Effect::Nothing
                }
            },
            Message::ExecuteCommand => {
                if self.db.entries.len() > 0 {
                    self.execute_requested = true;
                }
                Effect::Nothing
            },
            Message::Quit => {
                self.should_quit = true;
                Effect::Nothing
            },
        }
    }

    /// Records how copying to the clipboard went, in the status line.
    pub fn copy_finished(&mut self, result: Result<(), String>)
        ensures
            final(self).mode == old(self).mode,
            same_core(*old(self), *final(self)),
            same_inputs(*old(self), *final(self)),
            result is Ok ==> (final(self).status_message matches Some(m) && m@ == "✓ Copied to clipboard"@),
            result matches Err(e) ==> (final(self).status_message matches Some(m) && m@ == "✗ Clipboard error: "@ + e@),
    {
        match result {
            Ok(()) => {
                self.status_message = Some(String::from_str("✓ Copied to clipboard"));
            },
            Err(e) => {
                let mut s = String::from_str("✗ Clipboard error: ");
                s.append(e.as_str());
                self.status_message = Some(s);
            },
        }
    }

    /// Takes a pending request to run the selected command: clears the
    /// request and returns the command text, when there is a selection.
    pub fn take_execution(&mut self) -> (r: Option<String>)
        requires
            old(self).wf(),
        ensures
            final(self).wf(),
            !final(self).execute_requested,
            final(self).mode == old(self).mode,
            final(self).db == old(self).db,
            final(self).storage == old(self).storage,
            final(self).selected_index == old(self).selected_index,
            same_inputs(*old(self), *final(self)),
            final(self).status_message == old(self).status_message,
            final(self).should_quit == old(self).should_quit,
            r is Some <==> old(self).execute_requested && old(self).db.entries@.len() > 0,
            r matches Some(c) ==> c@ == old(self).db.entries@[old(self).selected_index as int].command@,
    {
        if !self.execute_requested {
            return None;
        }
        self.execute_requested = false;
        if self.selected_index < self.db.entries.len() {
            Some(self.db.entries[self.selected_index].command.clone())
        } else {
            None
        }
    }

    /// Records how running a command ended, in the status line.
    pub fn finish_execution(&mut self, outcome: &ExecOutcome)
        ensures
            final(self).mode == old(self).mode,
            same_core(*old(self), *final(self)),
            same_inputs(*old(self), *final(self)),
            (final(self).status_message matches Some(m) && m@ == exec_status_text(*outcome)),
    {
        self.status_message = Some(exec_status(outcome));
    }

    /// Replaces the store with one read again from its file, clamping the
    /// selection to the new list.
    pub fn reload(&mut self, db: CommandDatabase)
        requires
            db.wf(),
        ensures
            final(self).wf(),
            final(self).db == db,
            final(self).selected_index == clamp_selection(old(self).selected_index as int, db.entries@.len() as int),
            final(self).mode == old(self).mode,
            final(self).storage == old(self).storage,
            same_inputs(*old(self), *final(self)),
            final(self).status_message == old(self).status_message,
            final(self).should_quit == old(self).should_quit,
            final(self).execute_requested == old(self).execute_requested,
    {
        self.db = db;
        let len = self.db.entries.len();
        if len == 0 {
            self.selected_index = 0;
        } else if self.selected_index >= len {
            self.selected_index = len - 1;
        }
    }

    /// Replaces the text of the form's active field; does nothing outside
    /// the add form.
    pub fn set_current_input(&mut self, text: String)
        ensures
            final(self).mode == old(self).mode,
            same_core(*old(self), *final(self)),
            final(self).status_message == old(self).status_message,
            old(self).mode == Mode::Adding(AddingField::Command) ==> final(self).command_input == text
                && final(self).description_input == old(self).description_input
                && final(self).tags_input == old(self).tags_input,
            old(self).mode == Mode::Adding(AddingField::Description) ==> final(self).description_input == text
                && final(self).command_input == old(self).command_input
                && final(self).tags_input == old(self).tags_input,
            old(self).mode == Mode::Adding(AddingField::Tags) ==> final(self).tags_input == text
                && final(self).command_input == old(self).command_input
                && final(self).description_input == old(self).description_input,
            !(old(self).mode is Adding) ==> same_inputs(*old(self), *final(self)),
    {
        match self.mode {
            Mode::Adding(AddingField::Command) => {
                self.command_input = text;
            },
            Mode::Adding(AddingField::Description) => {
                self.description_input = text;
            },
            Mode::Adding(AddingField::Tags) => {
                self.tags_input = text;
            },
            _ => {},
        }
    }
}

/// What committing the add form did, from state `a` to state `b`: a blank
/// command (after trimming) leaves the store and the form and says so; with
/// no id left to hand out the same holds; otherwise the entry is appended
/// with the trimmed texts and the parsed tags, selected, the form emptied,
/// and the store is to be saved.
pub open spec fn add_outcome(a: App, b: App, r: Effect) -> bool {
    let command = trim_of(a.command_input@);
    if command.len() == 0 {
        &&& r is Nothing
        &&& b.db == a.db
        &&& b.selected_index == a.selected_index
        &&& same_inputs(a, b)
        &&& (b.status_message matches Some(m) && m@ == "Command cannot be empty"@)
    } else if a.db.next_id == u64::MAX {
        &&& r is Nothing
        &&& b.db == a.db
        &&& b.selected_index == a.selected_index
        &&& same_inputs(a, b)
        &&& (b.status_message matches Some(m) && m@ == "No ids are left to assign"@)
    } else {
        &&& r is Save
        &&& b.db.next_id == a.db.next_id + 1
        &&& b.db.entries@.len() == a.db.entries@.len() + 1
        &&& b.db.entries@.drop_last() == a.db.entries@
        &&& b.db.entries@.last().id == a.db.next_id
        &&& b.db.entries@.last().command@ == command
        &&& b.db.entries@.last().description@ == trim_of(a.description_input@)
        &&& b.db.entries@.last().tags.deep_view() == tags_of(a.tags_input@)
        &&& b.selected_index == b.db.entries@.len() - 1
        &&& cleared_inputs(b)
        &&& (b.status_message matches Some(m) && m@ == added_text(a.db.next_id))
    }
}

/// What deleting the selected entry did, from state `a` to state `b`: every
/// entry with the selected entry's id is gone, the selection is clamped to
/// the shorter list, and the store is to be saved; with an empty list
/// nothing changes.
pub open spec fn delete_outcome(a: App, b: App, r: Effect) -> bool {
    if a.db.entries@.len() > 0 {
        let id = a.db.entries@[a.selected_index as int].id;
        &&& r is Save
        &&& b.db.next_id == a.db.next_id
        &&& b.db.entries@ == without_id(a.db.entries@, id)
        &&& b.selected_index == clamp_selection(a.selected_index as int, b.db.entries@.len() as int)
        &&& (b.status_message matches Some(m) && m@ == deleted_text(id))
    } else {
        &&& r is Nothing
        &&& b.db == a.db
        &&& b.selected_index == a.selected_index
        &&& b.status_message == a.status_message
    }
}

/// Deleting the selected entry when it is the last one selects the new last
/// entry, or nothing (0) when the list becomes empty.
pub proof fn lemma_delete_last_selects_new_last(a: App, b: App, r: Effect)
    requires
        a.wf(),
        a.db.entries@.len() > 0,
        a.selected_index == a.db.entries@.len() - 1,
        delete_outcome(a, b, r),
    ensures
        b.db.entries@.len() > 0 ==> b.selected_index == b.db.entries@.len() - 1,
        b.db.entries@.len() == 0 ==> b.selected_index == 0,
{
    let s = a.db.entries@;
    let id = s[a.selected_index as int].id;
    assert(s.drop_last().push(s.last()) =~= s);
    s.drop_last().lemma_filter_push(s.last(), |e: CommandEntry| e.id != id);
    s.drop_last().lemma_filter_len(|e: CommandEntry| e.id != id);
}

} // verus!
