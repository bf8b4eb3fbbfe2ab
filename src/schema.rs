//! The local task store: where it lives, the migration that creates its one
//! table, and which rows that table's constraints let in.

use vstd::prelude::*;

verus! {

/// The local database the store is bound to.
pub const DATABASE_URL: &'static str = "sqlite:focuslist.db";

/// What the first migration is called.
pub const INITIAL_MIGRATION_DESCRIPTION: &'static str = "create_initial_tables";

/// The statement of the first migration: the `tasks` table, created if absent.
pub const CREATE_TASKS_SQL: &'static str = "
        CREATE TABLE IF NOT EXISTS tasks (
          id TEXT PRIMARY KEY,
          title_raw TEXT NOT NULL,
          title_rewrite TEXT NOT NULL,
          due TEXT,
          created_at TEXT NOT NULL,
          status TEXT NOT NULL CHECK (status IN ('todo', 'done')),
          priority_ai INTEGER NOT NULL CHECK (priority_ai >= 0 AND priority_ai <= 3),
          priority_user INTEGER CHECK (priority_user >= 0 AND priority_user <= 3),
          score REAL NOT NULL DEFAULT 0,
          tags TEXT NOT NULL DEFAULT '[]',
          pinned INTEGER NOT NULL DEFAULT 0
        )
      ";

/// Whether a migration applies its statement or reverts it.
#[derive(PartialEq, Eq, Structural, Clone, Copy, Debug)]
pub enum MigrationKind {
    Up,
    Down,
}

/// One versioned change of the store's schema.
pub struct SchemaMigration {
    pub version: i64,
    pub description: &'static str,
    pub sql: &'static str,
    pub kind: MigrationKind,
}

/// The store's migrations, in order: only version 1, which creates the
/// `tasks` table.
pub fn migrations() -> (r: Vec<SchemaMigration>)
    ensures
        r@.len() == 1,
        r@[0].version == 1,
        r@[0].description@ == INITIAL_MIGRATION_DESCRIPTION@,
        r@[0].sql@ == CREATE_TASKS_SQL@,
        r@[0].kind == MigrationKind::Up,
{
    let mut r: Vec<SchemaMigration> = Vec::new();
    r.push(
        SchemaMigration {
            version: 1,
            description: INITIAL_MIGRATION_DESCRIPTION,
            sql: CREATE_TASKS_SQL,
            kind: MigrationKind::Up,
        },
    );
    r
}

/// The states a task can be in.
#[derive(PartialEq, Eq, Structural, Clone, Copy, Debug)]
pub enum TaskStatus {
    Todo,
    Done,
}

/// The text the store keeps for each status.
pub open spec fn status_text(s: TaskStatus) -> Seq<char> {
    match s {
        TaskStatus::Todo => "todo"@,
        TaskStatus::Done => "done"@,
    }
}

/// Whether the `status` column takes `text`.
pub open spec fn status_admitted(text: Seq<char>) -> bool {
    text == "todo"@ || text == "done"@
}

/// Whether a priority column takes the value `p`.
pub open spec fn priority_admitted(p: int) -> bool {
    0 <= p <= 3
}

impl TaskStatus {
    /// The text the store keeps for this status.
    pub fn as_text(&self) -> (r: &'static str)
        ensures
            r@ == status_text(*self),
    {
        match self {
            TaskStatus::Todo => "todo",
            TaskStatus::Done => "done",
        }
    }

    /// The status whose stored text is `text`, if there is one.
    pub fn from_text(text: &str) -> (r: Option<TaskStatus>)
        ensures
            r is Some <==> status_admitted(text@),
            r matches Some(s) ==> status_text(s) == text@,
    {
        let t = text.to_owned();
        if t == String::from_str("todo") {
            Some(TaskStatus::Todo)
        } else if t == String::from_str("done") {
            Some(TaskStatus::Done)
        } else {
            None
        }
    }
}

/// Whether a priority column takes `p`.
pub fn priority_in_range(p: i64) -> (r: bool)
    ensures
        r == priority_admitted(p as int),
{
    0 <= p && p <= 3
}

/// A row to insert into the `tasks` table. The `score` column is left to
/// its default.
pub struct NewTask {
    pub id: String,
    pub title_raw: String,
    pub title_rewrite: String,
    pub due: Option<String>,
    pub created_at: String,
    pub status: String,
    pub priority_ai: i64,
    pub priority_user: Option<i64>,
    pub tags: String,
    pub pinned: bool,
}

/// Whether the `tasks` table's check constraints let `t` in: a known status,
/// an AI priority in [0, 3], and a user priority that is absent or in [0, 3].
pub open spec fn row_admitted(t: NewTask) -> bool {
    &&& status_admitted(t.status@)
    &&& priority_admitted(t.priority_ai as int)
    &&& match t.priority_user {
        Some(p) => priority_admitted(p as int),
        None => true,
    }
}

impl NewTask {
    /// Whether the migrated `tasks` table accepts this row; an insert of a
    /// row for which this is false is rejected.
    pub fn schema_admits(&self) -> (r: bool)
        ensures
            r == row_admitted(*self),
    {
        let status_ok = match TaskStatus::from_text(self.status.as_str()) {
            Some(_) => true,
            None => false,
        };
        let user_ok = match self.priority_user {
            Some(p) => priority_in_range(p),
            None => true,
        };
        status_ok && priority_in_range(self.priority_ai) && user_ok
    }
}

} // verus!
