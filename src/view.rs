//! The text that the interactive screen shows for a state.

use vstd::prelude::*;
use vstd::string::*;
use vstd::utf8::{char_is_scalar, encode_scalar, encode_utf8};
use crate::app::{App, Mode};
use crate::models::{CommandEntry, Timestamp};
use crate::text::{chars_within, decimal, decimal_text, push_char, truncated};

verus! {

/// The longest command text shown in a list row.
pub const LIST_COMMAND_WIDTH: usize = 40;

/// The longest command text shown in the delete confirmation.
pub const CONFIRM_COMMAND_WIDTH: usize = 30;

/// `s` preceded by spaces up to `width` characters.
pub open spec fn pad_left(s: Seq<char>, width: nat) -> Seq<char> {
    if s.len() >= width {
        s
    } else {
        Seq::new((width - s.len()) as nat, |i: int| ' ') + s
    }
}

/// A list row: the id right-aligned in three columns, then the command cut
/// to the list width.
pub open spec fn list_item_spec(e: CommandEntry) -> Seq<char> {
    " "@ + pad_left(decimal(e.id as nat), 3) + " │ "@ + truncated(e.command@, LIST_COMMAND_WIDTH as nat)
}

/// The status line: the status message when there is one, else the number
/// of entries and the 1-based position of the selection (0 when empty).
pub open spec fn status_spec(a: App) -> Seq<char> {
    match a.status_message {
        Some(m) => m@,
        None => {
            let n = a.db.entries@.len();
            " "@ + decimal(n) + " command(s) │ Selected: "@ + decimal(
                if n > 0 {
                    (a.selected_index + 1) as nat
                } else {
                    0
                },
            ) + "/"@ + decimal(n)
        },
    }
}

/// The delete confirmation: the selected entry's id and its command cut to
/// the confirmation width.
pub open spec fn confirm_spec(a: App) -> Seq<char> {
    if a.selected_index < a.db.entries@.len() {
        let e = a.db.entries@[a.selected_index as int];
        "Delete command #"@ + decimal(e.id as nat) + "?\n\n\""@ + truncated(
            e.command@,
            CONFIRM_COMMAND_WIDTH as nat,
        ) + "\"\n\n[y] Yes  [n] No"@
    } else {
        "No command selected"@
    }
}

/// A creation time as `YYYY-MM-DD HH:MM` in UTC, as chrono formats it, or
/// `None` for a time outside chrono's range.
pub uninterp spec fn minute_text(secs: i64, nanos: u32) -> Option<Seq<char>>;

/// Relies on chrono::DateTime::from_timestamp and its `format` with
/// `%Y-%m-%d %H:%M`: the time in UTC to the minute.
#[verifier::external_body]
fn format_minute(secs: i64, nanos: u32) -> (r: Option<String>)
    ensures
        r matches Some(s) ==> minute_text(secs, nanos) == Some(s@),
        r is None ==> minute_text(secs, nanos) is None,
{
    match chrono::DateTime::from_timestamp(secs, nanos) {
        Some(t) => Some(t.format("%Y-%m-%d %H:%M").to_string()),
        None => None,
    }
}

/// The number of bytes of the UTF-8 encoding of `c`.
fn utf8_width(c: char) -> (w: usize)
    ensures
        w == encode_scalar(c as u32).len(),
{
    proof {
        char_is_scalar(c);
    }
    let u = c as u32;
    if u <= 0x7f {
        1
    } else if u <= 0x7ff {
        2
    } else if u <= 0xffff {
        3
    } else {
        4
    }
}

/// `s` cut to at most `max_len` bytes, ending in `...` when it was cut; a
/// cut that would split a character falls at the boundary below it.
pub fn truncate_str(s: &str, max_len: usize) -> (r: String)
    ensures
        r@ == truncated(s@, max_len as nat),
{
    proof {
        assert(s.spec_bytes() == encode_utf8(s@));
    }
    if s.as_bytes().len() <= max_len {
        return String::from_str(s);
    }
    let keep: usize = if max_len >= 3 {
        max_len - 3
    } else {
        0
    };
    let n = s.unicode_len();
    let mut i: usize = 0;
    let mut used: usize = 0;
    proof {
        assert(s@.subrange(0, n as int) =~= s@);
    }
    while i < n
        invariant
            n == s@.len(),
            i <= n,
            used <= keep,
            chars_within(s@, keep as int) == i + chars_within(s@.subrange(i as int, n as int), keep - used),
        ensures
            i <= n,
            chars_within(s@, keep as int) == i + chars_within(s@.subrange(i as int, n as int), keep - used),
            i < n ==> chars_within(s@.subrange(i as int, n as int), keep - used) == 0,
        decreases n - i,
    {
        let ghost rest = s@.subrange(i as int, n as int);
        proof {
            assert(rest[0] == s@[i as int]);
        }
        let w = utf8_width(s.get_char(i));
        if w > keep - used {
            proof {
                assert(encode_scalar(rest[0] as u32).len() > keep - used);
            }
            break;
        }
        proof {
            assert(rest.drop_first() =~= s@.subrange(i + 1, n as int));
        }
        used = used + w;
        i = i + 1;
    }
    proof {
        let rest = s@.subrange(i as int, n as int);
        if i == n {
            assert(rest.len() == 0);
        }
        assert(chars_within(s@, keep as int) == i);
    }
    let mut r = String::from_str(s.substring_char(0, i));
    r.append("...");
    proof {
        reveal_strlit("...");
        assert(r@ =~= s@.subrange(0, i as int) + seq!['.', '.', '.']);
    }
    r
}

/// `s` preceded by spaces up to `width` characters.
pub fn pad_text(s: String, width: usize) -> (r: String)
    ensures
        r@ == pad_left(s@, width as nat),
{
    let n = s.unicode_len();
    if n >= width {
        return s;
    }
    let mut out = String::new();
    let mut i: usize = 0;
    while i < width - n
        invariant
            n == s@.len(),
            n < width,
            i <= width - n,
            out@ == Seq::new(i as nat, |j: int| ' '),
        decreases width - n - i,
    {
        push_char(&mut out, ' ');
        proof {
            assert(out@ =~= Seq::new((i + 1) as nat, |j: int| ' '));
        }
        i = i + 1;
    }
    out.append(s.as_str());
    out
}

/// A list row for an entry.
pub fn list_item_text(e: &CommandEntry) -> (r: String)
    ensures
        r@ == list_item_spec(*e),
{
    let mut out = String::from_str(" ");
    let id = pad_text(decimal_text(e.id), 3);
    out.append(id.as_str());
    out.append(" │ ");
    let cmd = truncate_str(e.command.as_str(), LIST_COMMAND_WIDTH);
    out.append(cmd.as_str());
    out
}

/// The status line for a state.
pub fn status_text(a: &App) -> (r: String)
    requires
        a.wf(),
    ensures
        r@ == status_spec(*a),
{
    match &a.status_message {
        Some(m) => m.clone(),
        None => {
            let n = a.db.entries.len();
            let pos: u64 = if n > 0 {
                (a.selected_index + 1) as u64
            } else {
                0
            };
            let mut out = String::from_str(" ");
            let count = decimal_text(n as u64);
            out.append(count.as_str());
            out.append(" command(s) │ Selected: ");
            let p = decimal_text(pos);
            out.append(p.as_str());
            out.append("/");
            out.append(count.as_str());
            out
        },
    }
}

/// The help line for a mode.
pub fn help_text(mode: Mode) -> (r: &'static str)
    ensures
        mode == Mode::Normal ==> r@
            == " q: Quit │ a: Add │ d: Delete │ y: Copy │ Enter/x: Run │ j/↓: Down │ k/↑: Up │ g: Top │ G: Bottom "@,
        mode is Adding ==> r@ == " Tab: Next Field │ Shift+Tab: Prev │ Ctrl+S: Save │ Esc: Cancel "@,
        mode == Mode::ConfirmDelete ==> r@ == " y: Confirm Delete │ n/Esc: Cancel "@,
{
    match mode {
        Mode::Normal => " q: Quit │ a: Add │ d: Delete │ y: Copy │ Enter/x: Run │ j/↓: Down │ k/↑: Up │ g: Top │ G: Bottom ",
        Mode::Adding(_) => " Tab: Next Field │ Shift+Tab: Prev │ Ctrl+S: Save │ Esc: Cancel ",
        Mode::ConfirmDelete => " y: Confirm Delete │ n/Esc: Cancel ",
    }
}

/// The text of the delete confirmation for a state.
pub fn delete_confirm_text(a: &App) -> (r: String)
    ensures
        r@ == confirm_spec(*a),
{
    if a.selected_index < a.db.entries.len() {
        let e = &a.db.entries[a.selected_index];
        let mut out = String::from_str("Delete command #");
        let id = decimal_text(e.id);
        out.append(id.as_str());
        out.append("?\n\n\"");
        let cmd = truncate_str(e.command.as_str(), CONFIRM_COMMAND_WIDTH);
        out.append(cmd.as_str());
        out.append("\"\n\n[y] Yes  [n] No");
        out
    } else {
        String::from_str("No command selected")
    }
}

/// When an entry was created, to the minute, or `None` for a time outside
/// the calendar's range.
pub fn created_text(t: &Timestamp) -> (r: Option<String>)
    ensures
        r matches Some(s) ==> minute_text(t.secs, t.nanos) == Some(s@),
        r is None ==> minute_text(t.secs, t.nanos) is None,
{
    format_minute(t.secs, t.nanos)
}

} // verus!
