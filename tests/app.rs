use cmd_keeper::app::{parse_tags, AddingField, App, Effect, Message, Mode};
use cmd_keeper::keys::{handle_key_event, Key, KeyOutcome, KeyPress};
use cmd_keeper::models::CommandDatabase;
use cmd_keeper::runner::{args_from_words, command_args, exec_status, ExecOutcome, RunError};
use cmd_keeper::storage::{database_or_new, Storage};

fn fresh_app() -> App {
    App::new(Storage::with_path("db.json".to_string()), CommandDatabase::new())
}

fn add_via_form(app: &mut App, command: &str, description: &str, tags: &str) -> Effect {
    app.update(Message::StartAdding);
    app.set_current_input(command.to_string());
    app.update(Message::NextField);
    app.set_current_input(description.to_string());
    app.update(Message::NextField);
    app.set_current_input(tags.to_string());
    app.update(Message::ConfirmAdd)
}

#[test]
fn start_delete_on_empty_store_stays_normal() {
    let mut app = fresh_app();
    assert!(matches!(app.update(Message::StartDelete), Effect::Nothing));
    assert_eq!(app.mode, Mode::Normal);
}

#[test]
fn confirm_add_trims_tags() {
    let mut app = fresh_app();
    let effect = add_via_form(&mut app, "echo hi", "say hi", "a, b ,c");
    assert!(matches!(effect, Effect::Save));
    assert_eq!(app.mode, Mode::Normal);
    assert_eq!(app.db.entries.len(), 1);
    assert_eq!(
        app.db.entries[0].tags,
        vec!["a".to_string(), "b".to_string(), "c".to_string()]
    );
    assert_eq!(app.status_message.as_deref(), Some("✓ Command added (ID: 1)"));
    assert!(app.command_input.is_empty() && app.tags_input.is_empty());
}

#[test]
fn confirm_add_with_blank_command_reports() {
    let mut app = fresh_app();
    let effect = add_via_form(&mut app, "   ", "d", "");
    assert!(matches!(effect, Effect::Nothing));
    assert!(app.db.entries.is_empty());
    assert_eq!(app.status_message.as_deref(), Some("Command cannot be empty"));
    assert_eq!(app.mode, Mode::Normal);
}

#[test]
fn adding_selects_new_entry() {
    let mut app = fresh_app();
    add_via_form(&mut app, "one", "", "");
    add_via_form(&mut app, "  two  ", " second ", "");
    assert_eq!(app.selected_index, 1);
    assert_eq!(app.db.entries[1].command, "two");
    assert_eq!(app.db.entries[1].description, "second");
    assert!(app.db.entries[1].tags.is_empty());
}

#[test]
fn field_cycle_forward_and_back() {
    let mut app = fresh_app();
    app.update(Message::StartAdding);
    assert_eq!(app.mode, Mode::Adding(AddingField::Command));
    app.update(Message::NextField);
    assert_eq!(app.mode, Mode::Adding(AddingField::Description));
    app.update(Message::NextField);
    app.update(Message::NextField);
    assert_eq!(app.mode, Mode::Adding(AddingField::Command));
    app.update(Message::PrevField);
    assert_eq!(app.mode, Mode::Adding(AddingField::Tags));
    app.update(Message::CancelAdding);
    assert_eq!(app.mode, Mode::Normal);
}

#[test]
fn deleting_selected_last_entry_selects_new_last() {
    let mut app = fresh_app();
    add_via_form(&mut app, "a", "", "");
    add_via_form(&mut app, "b", "", "");
    add_via_form(&mut app, "c", "", "");
    assert_eq!(app.selected_index, 2);
    app.update(Message::StartDelete);
    assert_eq!(app.mode, Mode::ConfirmDelete);
    assert!(matches!(app.update(Message::ConfirmDelete), Effect::Save));
    assert_eq!(app.mode, Mode::Normal);
    assert_eq!(app.db.entries.len(), 2);
    assert_eq!(app.selected_index, 1);
    assert_eq!(app.status_message.as_deref(), Some("✓ Command 3 deleted"));
    app.update(Message::MoveToTop);
    app.update(Message::ConfirmDelete);
    app.update(Message::ConfirmDelete);
    assert!(app.db.entries.is_empty());
    assert_eq!(app.selected_index, 0);
}

#[test]
fn navigation_stays_in_range() {
    let mut app = fresh_app();
    app.update(Message::MoveDown);
    app.update(Message::MoveToBottom);
    assert_eq!(app.selected_index, 0);
    add_via_form(&mut app, "a", "", "");
    add_via_form(&mut app, "b", "", "");
    app.update(Message::MoveToTop);
    app.update(Message::MoveUp);
    assert_eq!(app.selected_index, 0);
    app.update(Message::MoveDown);
    app.update(Message::MoveDown);
    assert_eq!(app.selected_index, 1);
}

#[test]
fn copy_and_execute_requests() {
    let mut app = fresh_app();
    assert!(matches!(app.update(Message::CopyToClipboard), Effect::Nothing));
    app.update(Message::ExecuteCommand);
    assert!(app.take_execution().is_none());
    add_via_form(&mut app, "ls -la", "", "");
    match app.update(Message::CopyToClipboard) {
        Effect::CopyText(t) => assert_eq!(t, "ls -la"),
        _ => panic!("expected a copy"),
    }
    app.copy_finished(Ok(()));
    assert_eq!(app.status_message.as_deref(), Some("✓ Copied to clipboard"));
    app.copy_finished(Err("no display".to_string()));
    assert_eq!(app.status_message.as_deref(), Some("✗ Clipboard error: no display"));
    app.update(Message::ExecuteCommand);
    assert!(app.execute_requested);
    assert_eq!(app.take_execution().as_deref(), Some("ls -la"));
    assert!(!app.execute_requested);
    app.update(Message::Quit);
    assert!(app.should_quit);
}

#[test]
fn parse_tags_blank_and_pieces() {
    assert!(parse_tags("   ").is_empty());
    assert_eq!(parse_tags("x,,y"), vec!["x".to_string(), "".to_string(), "y".to_string()]);
}

#[test]
fn tokenize_respects_quotes() {
    let args = command_args("echo \"hello world\"").unwrap();
    assert_eq!(args, vec!["echo".to_string(), "hello world".to_string()]);
}

#[test]
fn tokenize_errors() {
    assert_eq!(command_args("   ").unwrap_err(), RunError::EmptyCommand);
    assert_eq!(command_args("echo \"open").unwrap_err(), RunError::Unparsable);
    assert_eq!(args_from_words(vec![]).unwrap_err(), RunError::EmptyCommand);
    assert_eq!(RunError::EmptyCommand.message(), "Empty command");
}

#[test]
fn execution_status_lines() {
    assert_eq!(exec_status(&ExecOutcome::Exited(0)), "✓ Command executed successfully");
    assert_eq!(exec_status(&ExecOutcome::Exited(2)), "⚠ Command exited with code 2");
    assert_eq!(exec_status(&ExecOutcome::Exited(-1)), "⚠ Command exited with code -1");
    assert_eq!(
        exec_status(&ExecOutcome::Failed("Empty command".to_string())),
        "✗ Error: Empty command"
    );
    let mut app = fresh_app();
    app.finish_execution(&ExecOutcome::Exited(130));
    assert_eq!(app.status_message.as_deref(), Some("⚠ Command exited with code 130"));
}

#[test]
fn missing_store_loads_empty() {
    let db = database_or_new(None);
    assert!(db.entries.is_empty());
    assert_eq!(db.next_id, 1);
    let mut other = CommandDatabase::new();
    other.add("a".to_string(), "".to_string(), vec![]);
    assert_eq!(database_or_new(Some(other)).next_id, 2);
}

#[test]
fn key_bindings_by_mode() {
    let press = |key: Key| KeyPress { key, ctrl: false };
    assert_eq!(handle_key_event(Mode::Normal, press(Key::Char('q'))), KeyOutcome::Send(Message::Quit));
    assert_eq!(handle_key_event(Mode::Normal, press(Key::End)), KeyOutcome::Send(Message::MoveToBottom));
    assert_eq!(handle_key_event(Mode::Normal, press(Key::Enter)), KeyOutcome::Send(Message::ExecuteCommand));
    assert_eq!(handle_key_event(Mode::Normal, press(Key::Char('z'))), KeyOutcome::Ignore);
    let tags = Mode::Adding(AddingField::Tags);
    let cmd = Mode::Adding(AddingField::Command);
    assert_eq!(handle_key_event(tags, press(Key::Enter)), KeyOutcome::Send(Message::ConfirmAdd));
    assert_eq!(handle_key_event(cmd, press(Key::Enter)), KeyOutcome::Send(Message::NextField));
    assert_eq!(
        handle_key_event(cmd, KeyPress { key: Key::Char('s'), ctrl: true }),
        KeyOutcome::Send(Message::ConfirmAdd)
    );
    assert_eq!(handle_key_event(cmd, press(Key::Char('s'))), KeyOutcome::Forward);
    assert_eq!(handle_key_event(cmd, press(Key::BackTab)), KeyOutcome::Send(Message::PrevField));
    assert_eq!(handle_key_event(Mode::ConfirmDelete, press(Key::Char('Y'))), KeyOutcome::Send(Message::ConfirmDelete));
    assert_eq!(handle_key_event(Mode::ConfirmDelete, press(Key::Esc)), KeyOutcome::Send(Message::CancelDelete));
    assert_eq!(handle_key_event(Mode::ConfirmDelete, press(Key::Char('q'))), KeyOutcome::Ignore);
}

#[test]
fn storage_paths() {
    let s = Storage::with_path("/tmp/x/commands.json".to_string());
    assert_eq!(s.db_path(), "/tmp/x/commands.json");
}

#[test]
fn reload_clamps_selection() {
    let mut app = fresh_app();
    add_via_form(&mut app, "a", "", "");
    add_via_form(&mut app, "b", "", "");
    assert_eq!(app.selected_index, 1);
    let mut smaller = CommandDatabase::new();
    smaller.add("only".to_string(), "".to_string(), vec![]);
    app.reload(smaller);
    assert_eq!(app.selected_index, 0);
    assert_eq!(app.db.entries[0].command, "only");
    app.reload(CommandDatabase::new());
    assert_eq!(app.selected_index, 0);
}

#[test]
fn tags_trim_unicode_whitespace() {
    assert_eq!(
        parse_tags("\u{3000}x\u{a0},\ty \n"),
        vec!["x".to_string(), "y".to_string()]
    );
}
