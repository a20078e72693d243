use cmd_keeper::models::CommandDatabase;

#[test]
fn test_add_and_find() {
    let mut db = CommandDatabase::new();
    let id = db.add(
        "git status".to_string(),
        "Show git status".to_string(),
        vec!["git".to_string()],
    );

    assert_eq!(id, 1);
    let entry = db.find_by_id(1).unwrap();
    assert_eq!(entry.command, "git status");
}

#[test]
fn test_search() {
    let mut db = CommandDatabase::new();
    db.add("git status".to_string(), "Show status".to_string(), vec![]);
    db.add("git log".to_string(), "Show log".to_string(), vec![]);
    db.add(
        "docker ps".to_string(),
        "List containers".to_string(),
        vec![],
    );

    let results = db.search("git");
    assert_eq!(results.len(), 2);
}

#[test]
fn test_remove() {
    let mut db = CommandDatabase::new();
    db.add("test".to_string(), "test desc".to_string(), vec![]);

    assert!(db.remove_by_id(1));
    assert!(!db.remove_by_id(1));
    assert!(db.entries.is_empty());
}

#[test]
fn store_scenario_add_remove_search() {
    let mut db = CommandDatabase::new();
    let a = db.add(
        "git status".to_string(),
        "show status".to_string(),
        vec!["git".to_string()],
    );
    assert_eq!(a, 1);
    let b = db.add("ls -la".to_string(), "list files".to_string(), vec![]);
    assert_eq!(b, 2);
    assert!(db.remove_by_id(1));
    assert!(db.find_by_id(1).is_none());
    assert!(db.search("git").is_empty());
    let found = db.search("ls");
    assert_eq!(found.len(), 1);
    assert_eq!(found[0].id, 2);
}

#[test]
fn ids_keep_increasing_after_removal() {
    let mut db = CommandDatabase::new();
    let a = db.add("a".to_string(), "".to_string(), vec![]);
    let b = db.add("b".to_string(), "".to_string(), vec![]);
    assert!(db.remove_by_id(b));
    let c = db.add("c".to_string(), "".to_string(), vec![]);
    assert!(a < b && b < c);
    assert_eq!(c, 3);
    assert_eq!(db.next_id, 4);
}

#[test]
fn remove_missing_id_changes_nothing() {
    let mut db = CommandDatabase::new();
    db.add("a".to_string(), "x".to_string(), vec![]);
    db.add("b".to_string(), "y".to_string(), vec![]);
    assert!(!db.remove_by_id(7));
    assert_eq!(db.entries.len(), 2);
    assert_eq!(db.entries[0].command, "a");
    assert_eq!(db.entries[1].command, "b");
    assert_eq!(db.next_id, 3);
}

#[test]
fn search_ignores_case_and_keeps_order() {
    let mut db = CommandDatabase::new();
    db.add("Docker PS".to_string(), "List".to_string(), vec![]);
    db.add("ls".to_string(), "nothing".to_string(), vec!["DOCKER".to_string()]);
    db.add("cat".to_string(), "Show Docker logs".to_string(), vec![]);
    db.add("pwd".to_string(), "where".to_string(), vec![]);
    let found = db.search("dOcKeR");
    let ids: Vec<u64> = found.iter().map(|e| e.id).collect();
    assert_eq!(ids, vec![1, 2, 3]);
}

#[test]
fn search_empty_keyword_returns_all() {
    let mut db = CommandDatabase::new();
    db.add("a".to_string(), "x".to_string(), vec![]);
    db.add("b".to_string(), "y".to_string(), vec![]);
    assert_eq!(db.search("").len(), 2);
    assert!(CommandDatabase::new().search("").is_empty());
}

#[test]
fn update_replaces_given_fields_only() {
    let mut db = CommandDatabase::new();
    db.add("a".to_string(), "x".to_string(), vec!["t".to_string()]);
    assert!(db.update(1, None, Some("new".to_string()), None));
    let e = db.find_by_id(1).unwrap();
    assert_eq!(e.command, "a");
    assert_eq!(e.description, "new");
    assert_eq!(e.tags, vec!["t".to_string()]);
    assert!(!db.update(9, Some("z".to_string()), None, None));
}

#[test]
fn tags_display_joins_or_dashes() {
    let mut db = CommandDatabase::new();
    db.add("a".to_string(), "".to_string(), vec![]);
    db.add("b".to_string(), "".to_string(), vec!["x".to_string(), "y".to_string()]);
    assert_eq!(db.entries[0].tags_display(), "-");
    assert_eq!(db.entries[1].tags_display(), "x, y");
}

#[test]
fn from_parts_checks_ids() {
    let mut db = CommandDatabase::new();
    db.add("a".to_string(), "".to_string(), vec![]);
    let entries = db.entries.clone();
    assert!(CommandDatabase::from_parts(2, entries.clone()).is_some());
    assert!(CommandDatabase::from_parts(1, entries.clone()).is_none());
    assert!(CommandDatabase::from_parts(0, Vec::new()).is_none());
}

#[test]
fn new_entry_records_creation_time() {
    let mut db = CommandDatabase::new();
    db.add("a".to_string(), "".to_string(), vec![]);
    assert!(db.entries[0].created_at.secs > 1_600_000_000);
    assert!(db.entries[0].created_at.nanos < 1_000_000_000);
}
