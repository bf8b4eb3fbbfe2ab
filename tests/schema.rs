use focuslist::{
    migrations, priority_in_range, MigrationKind, NewTask, TaskStatus, CREATE_TASKS_SQL,
    DATABASE_URL, INITIAL_MIGRATION_DESCRIPTION,
};

fn row(status: &str, priority_ai: i64, priority_user: Option<i64>) -> NewTask {
    NewTask {
        id: "t1".to_string(),
        title_raw: "buy milk".to_string(),
        title_rewrite: "Buy milk".to_string(),
        due: None,
        created_at: "2024-01-01T00:00:00Z".to_string(),
        status: status.to_string(),
        priority_ai,
        priority_user,
        tags: "[]".to_string(),
        pinned: false,
    }
}

#[test]
fn single_initial_migration() {
    let m = migrations();
    assert_eq!(m.len(), 1);
    assert_eq!(m[0].version, 1);
    assert_eq!(m[0].description, "create_initial_tables");
    assert_eq!(m[0].description, INITIAL_MIGRATION_DESCRIPTION);
    assert_eq!(m[0].sql, CREATE_TASKS_SQL);
    assert_eq!(m[0].kind, MigrationKind::Up);
    assert!(CREATE_TASKS_SQL.contains("CREATE TABLE IF NOT EXISTS tasks"));
    assert!(CREATE_TASKS_SQL.contains("CHECK (status IN ('todo', 'done'))"));
}

#[test]
fn database_url_is_local_file() {
    assert_eq!(DATABASE_URL, "sqlite:focuslist.db");
}

#[test]
fn status_text_round_trip() {
    assert_eq!(TaskStatus::Todo.as_text(), "todo");
    assert_eq!(TaskStatus::Done.as_text(), "done");
    assert_eq!(TaskStatus::from_text("todo"), Some(TaskStatus::Todo));
    assert_eq!(TaskStatus::from_text("done"), Some(TaskStatus::Done));
    assert_eq!(TaskStatus::from_text("Done"), None);
    assert_eq!(TaskStatus::from_text(""), None);
}

#[test]
fn priority_bounds() {
    assert!(priority_in_range(0));
    assert!(priority_in_range(3));
    assert!(!priority_in_range(-1));
    assert!(!priority_in_range(4));
    assert!(!priority_in_range(i64::MIN));
    assert!(!priority_in_range(i64::MAX));
}

#[test]
fn valid_rows_admitted() {
    assert!(row("todo", 0, None).schema_admits());
    assert!(row("done", 3, Some(0)).schema_admits());
    assert!(row("todo", 2, Some(3)).schema_admits());
}

#[test]
fn unknown_status_rejected() {
    assert!(!row("doing", 1, None).schema_admits());
    assert!(!row("", 1, None).schema_admits());
    assert!(!row("TODO", 1, None).schema_admits());
}

#[test]
fn ai_priority_out_of_range_rejected() {
    assert!(!row("todo", 4, None).schema_admits());
    assert!(!row("todo", -1, None).schema_admits());
}

#[test]
fn user_priority_out_of_range_rejected() {
    assert!(!row("done", 1, Some(4)).schema_admits());
    assert!(!row("done", 1, Some(-1)).schema_admits());
}
