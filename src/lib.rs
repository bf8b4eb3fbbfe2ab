//! Core of the focus-list desktop shell: the model of parsed command-line
//! matches, the dispatcher that turns them into console lines, and the
//! local task store's schema.

mod cli;
mod dispatch;
mod schema;

pub use cli::{ArgMap, Matches, SubcommandMatches};
pub use dispatch::{cli_error_message, dispatch, handle_task_command};
pub use schema::{
    migrations, priority_in_range, MigrationKind, NewTask, SchemaMigration, TaskStatus,
    CREATE_TASKS_SQL, DATABASE_URL, INITIAL_MIGRATION_DESCRIPTION,
};
