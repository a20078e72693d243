//! The decisions of the non-interactive commands.

use vstd::prelude::*;
use crate::error::CmdKeeperError;
use crate::models::{edited, index_of, CommandDatabase, CommandEntry};
use crate::text::{lower_of, lowercase, same_text, trim, trim_of};

verus! {

/// The entry with the id, or `CommandNotFound` when there is none.
pub fn find_entry(db: &CommandDatabase, id: u64) -> (r: Result<&CommandEntry, CmdKeeperError>)
    ensures
        index_of(db.entries@, id) == -1 ==> r == Err::<&CommandEntry, CmdKeeperError>(
            CmdKeeperError::CommandNotFound(id),
        ),
        index_of(db.entries@, id) >= 0 ==> (r matches Ok(e) && *e == db.entries@[index_of(
            db.entries@,
            id,
        )]),
{
    match db.find_by_id(id) {
        Some(e) => Ok(e),
        None => Err(CmdKeeperError::CommandNotFound(id)),
    }
}

/// Why an edit was refused.
#[derive(Clone, Copy, Debug, PartialEq, Eq, Structural)]
pub enum EditError {
    /// No field to change was given.
    NothingToChange,
    /// No entry has the id.
    NotFound(u64),
}

/// Changes the given fields of the entry with the id: refused when no field
/// is given or no entry has the id, and then the store is unchanged.
pub fn edit_entry(
    db: &mut CommandDatabase,
    id: u64,
    command: Option<String>,
    description: Option<String>,
    tags: Option<Vec<String>>,
) -> (r: Result<(), EditError>)
    requires
        old(db).wf(),
    ensures
        final(db).wf(),
        final(db).next_id == old(db).next_id,
        command is None && description is None && tags is None ==> r == Err::<(), EditError>(
            EditError::NothingToChange,
        ) && final(db).entries@ == old(db).entries@,
        !(command is None && description is None && tags is None) && index_of(old(db).entries@, id)
            == -1 ==> r == Err::<(), EditError>(EditError::NotFound(id)) && final(db).entries@
            == old(db).entries@,
        !(command is None && description is None && tags is None) && index_of(old(db).entries@, id)
            >= 0 ==> r is Ok && final(db).entries@ == old(db).entries@.update(
            index_of(old(db).entries@, id),
            edited(old(db).entries@[index_of(old(db).entries@, id)], command, description, tags),
        ),
{
    if command.is_none() && description.is_none() && tags.is_none() {
        return Err(EditError::NothingToChange);
    }
    if db.update(id, command, description, tags) {
        Ok(())
    } else {
        Err(EditError::NotFound(id))
    }
}

/// Whether an answer to a yes/no prompt is yes: `y` or `yes` in any case,
/// around whitespace.
pub fn is_confirmed(answer: &str) -> (r: bool)
    ensures
        r == (lower_of(trim_of(answer@)) == "y"@ || lower_of(trim_of(answer@)) == "yes"@),
{
    let lowered = lowercase(trim(answer));
    same_text(lowered.as_str(), "y") || same_text(lowered.as_str(), "yes")
}

} // verus!
