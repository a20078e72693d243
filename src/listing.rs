//! Rows of the static listing and search output.

use vstd::prelude::*;
use crate::models::{tags_text, CommandEntry};
use crate::text::truncated;
use crate::view::truncate_str;

verus! {

/// One row of the listing table.
#[derive(Clone, Debug)]
pub struct CommandRow {
    pub id: u64,
    pub command: String,
    pub description: String,
    pub tags: String,
}

/// `s` cut to at most `max_len` bytes, ending in `...` when it was cut.
pub fn truncate(s: &str, max_len: usize) -> (r: String)
    ensures
        r@ == truncated(s@, max_len as nat),
{
    truncate_str(s, max_len)
}

/// The row for an entry: its fields whole when `full`, else the command cut
/// to 50 bytes, the description to 40 and the tags to 20.
pub fn create_row(entry: &CommandEntry, full: bool) -> (r: CommandRow)
    ensures
        r.id == entry.id,
        full ==> r.command@ == entry.command@ && r.description@ == entry.description@ && r.tags@
            == tags_text(entry.tags.deep_view()),
        !full ==> r.command@ == truncated(entry.command@, 50) && r.description@ == truncated(
            entry.description@,
            40,
        ) && r.tags@ == truncated(tags_text(entry.tags.deep_view()), 20),
{
    let tags = entry.tags_display();
    if full {
        CommandRow {
            id: entry.id,
            command: entry.command.clone(),
            description: entry.description.clone(),
            tags,
        }
    } else {
        CommandRow {
            id: entry.id,
            command: truncate(entry.command.as_str(), 50),
            description: truncate(entry.description.as_str(), 40),
            tags: truncate(tags.as_str(), 20),
        }
    }
}

} // verus!
