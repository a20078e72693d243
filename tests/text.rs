use cmd_keeper::app::{App, Message};
use cmd_keeper::commands::{edit_entry, find_entry, is_confirmed, EditError};
use cmd_keeper::error::CmdKeeperError;
use cmd_keeper::listing::{create_row, truncate};
use cmd_keeper::models::{matches_lowered_texts, CommandDatabase, Timestamp};
use cmd_keeper::storage::{storage_in, Storage};
use cmd_keeper::text::{decimal_text, join, same_text, signed_decimal_text};
use cmd_keeper::view::{
    created_text, delete_confirm_text, help_text, list_item_text, pad_text, status_text,
    truncate_str,
};

#[test]
fn truncation_keeps_short_and_cuts_long() {
    assert_eq!(truncate_str("short", 10), "short");
    assert_eq!(truncate_str("abcdefghij", 10), "abcdefghij");
    assert_eq!(truncate_str("abcdefghijk", 10), "abcdefg...");
    assert_eq!(truncate_str("abcdef", 2), "...");
    assert_eq!(truncate("éééééé", 5), "é...");
    assert_eq!(truncate_str("éé", 3), "...");
    assert_eq!(truncate_str("éé", 4), "éé");
    assert_eq!(truncate_str("aaéxyz", 6), "aa...");
    assert_eq!(truncate_str("aaéxyz", 7), "aaéxyz");
}

#[test]
fn number_formatting() {
    assert_eq!(decimal_text(0), "0");
    assert_eq!(decimal_text(1234567890), "1234567890");
    assert_eq!(decimal_text(u64::MAX), "18446744073709551615");
    assert_eq!(signed_decimal_text(-42), "-42");
    assert_eq!(signed_decimal_text(i32::MIN), "-2147483648");
    assert_eq!(pad_text("7".to_string(), 3), "  7");
    assert_eq!(pad_text("1234".to_string(), 3), "1234");
}

#[test]
fn joining_and_comparing() {
    let parts = vec!["a".to_string(), "b".to_string(), "c".to_string()];
    assert_eq!(join(&parts, "--"), "a--b--c");
    assert_eq!(join(&Vec::new(), ", "), "");
    assert!(same_text("abc", "abc"));
    assert!(!same_text("abc", "abd"));
}

#[test]
fn screen_texts() {
    let mut db = CommandDatabase::new();
    db.add("git status".to_string(), "status".to_string(), vec![]);
    db.add("ls".to_string(), "list".to_string(), vec![]);
    let mut app = App::new(Storage::with_path("db.json".to_string()), db);
    assert_eq!(list_item_text(&app.db.entries[0]), "   1 │ git status");
    assert_eq!(status_text(&app), " 2 command(s) │ Selected: 1/2");
    app.update(Message::MoveDown);
    assert_eq!(delete_confirm_text(&app), "Delete command #2?\n\n\"ls\"\n\n[y] Yes  [n] No");
    app.status_message = Some("hello".to_string());
    assert_eq!(status_text(&app), "hello");
    assert_eq!(help_text(app.mode), " q: Quit │ a: Add │ d: Delete │ y: Copy │ Enter/x: Run │ j/↓: Down │ k/↑: Up │ g: Top │ G: Bottom ");
    let empty = App::new(Storage::with_path("db.json".to_string()), CommandDatabase::new());
    assert_eq!(status_text(&empty), " 0 command(s) │ Selected: 0/0");
    assert_eq!(delete_confirm_text(&empty), "No command selected");
}

#[test]
fn creation_time_to_the_minute() {
    let t = Timestamp { secs: 86_400 + 3_600 + 120 + 5, nanos: 0 };
    assert_eq!(created_text(&t).as_deref(), Some("1970-01-02 01:02"));
    assert!(created_text(&Timestamp { secs: i64::MAX, nanos: 0 }).is_none());
}

#[test]
fn listing_rows() {
    let mut db = CommandDatabase::new();
    let long = "x".repeat(60);
    db.add(long.clone(), "d".to_string(), vec!["a".to_string(), "b".to_string()]);
    let full = create_row(&db.entries[0], true);
    assert_eq!(full.command, long);
    assert_eq!(full.tags, "a, b");
    let cut = create_row(&db.entries[0], false);
    assert_eq!(cut.command, format!("{}...", "x".repeat(47)));
    assert_eq!(cut.id, 1);
}

#[test]
fn error_messages() {
    assert_eq!(CmdKeeperError::CommandNotFound(5).message(), "Command with ID 5 not found");
    assert_eq!(CmdKeeperError::Io("disk".to_string()).message(), "IO error: disk");
    assert_eq!(CmdKeeperError::Json("bad".to_string()).message(), "JSON error: bad");
    assert_eq!(CmdKeeperError::Clipboard("none".to_string()).message(), "Clipboard error: none");
    assert!(CmdKeeperError::ConfigDirNotFound.message().starts_with("Could not determine config directory"));
}

#[test]
fn cli_decisions() {
    let mut db = CommandDatabase::new();
    db.add("a".to_string(), "x".to_string(), vec![]);
    assert!(find_entry(&db, 1).is_ok());
    assert!(matches!(find_entry(&db, 2), Err(CmdKeeperError::CommandNotFound(2))));
    assert_eq!(edit_entry(&mut db, 1, None, None, None), Err(EditError::NothingToChange));
    assert_eq!(edit_entry(&mut db, 3, Some("b".to_string()), None, None), Err(EditError::NotFound(3)));
    assert_eq!(edit_entry(&mut db, 1, Some("b".to_string()), None, None), Ok(()));
    assert_eq!(db.entries[0].command, "b");
    assert!(is_confirmed("  YES \n"));
    assert!(is_confirmed("y"));
    assert!(!is_confirmed("no"));
    assert!(!is_confirmed(""));
}

#[test]
fn storage_default_location() {
    if let Ok(s) = Storage::new() {
        assert!(s.db_path().ends_with("cmd-keeper/commands.json"));
    }
}

#[test]
fn storage_under_a_directory() {
    let s = storage_in(Some("/home/u/.config".to_string())).ok().unwrap();
    assert_eq!(s.db_path(), "/home/u/.config/cmd-keeper/commands.json");
    assert!(matches!(storage_in(None), Err(CmdKeeperError::ConfigDirNotFound)));
}

#[test]
fn matching_lowered_texts() {
    let tags = vec!["net".to_string(), "docker".to_string()];
    assert!(matches_lowered_texts("git status", "show", &tags, "stat"));
    assert!(matches_lowered_texts("git status", "show", &tags, "how"));
    assert!(matches_lowered_texts("git status", "show", &tags, "dock"));
    assert!(!matches_lowered_texts("git status", "show", &tags, "Git"));
    assert!(matches_lowered_texts("", "", &Vec::new(), ""));
}
