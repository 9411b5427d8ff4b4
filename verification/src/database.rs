//! The history database's schema: which version a database is at, and
//! which migrations bring it up to date. Running them is the caller's.

use crate::numfmt::{decimal, push_decimal};
use crate::buffers::extend_copy;
use crate::text::{copy_str, from_chars, to_chars};
use vstd::prelude::*;

verus! {

/// The schema version that the application works with.
pub const CURRENT_SCHEMA_VERSION: u32 = 5;

/// One step of the schema.
#[derive(Clone, Debug, PartialEq, Eq)]
pub struct Migration {
    pub version: u32,
    pub description: String,
    pub sql: String,
}

/// What the migration to `version` is called.
pub open spec fn migration_description(version: u32) -> Seq<char> {
    match version {
        1 => "create_transcription_history_table"@,
        2 => "add_post_processed_text_column"@,
        3 => "add_post_process_prompt_column"@,
        4 => "create_input_entries_table"@,
        _ => "add_app_pid_column"@,
    }
}

/// The statements of the migration to `version`.
pub open spec fn migration_sql(version: u32) -> Seq<char> {
    match version {
        1 => "CREATE TABLE transcription_history (\n            id INTEGER PRIMARY KEY AUTOINCREMENT,\n            file_name TEXT NOT NULL,\n            timestamp INTEGER NOT NULL,\n            saved INTEGER NOT NULL DEFAULT 0,\n            title TEXT NOT NULL,\n            transcription_text TEXT NOT NULL\n        )"@,
        2 => "ALTER TABLE transcription_history ADD COLUMN post_processed_text TEXT"@,
        3 => "ALTER TABLE transcription_history ADD COLUMN post_process_prompt TEXT"@,
        4 => "CREATE TABLE input_entries (\n            id INTEGER PRIMARY KEY AUTOINCREMENT,\n            app_name TEXT NOT NULL,\n            app_bundle_id TEXT,\n            window_title TEXT,\n            content TEXT NOT NULL,\n            timestamp INTEGER NOT NULL,\n            duration_ms INTEGER DEFAULT 0\n        );\n        CREATE INDEX IF NOT EXISTS idx_input_entries_timestamp ON input_entries(timestamp);\n        CREATE INDEX IF NOT EXISTS idx_input_entries_app ON input_entries(app_bundle_id)"@,
        _ => "ALTER TABLE input_entries ADD COLUMN app_pid INTEGER"@,
    }
}

/// The migration that brings a database from `version - 1` to `version`;
/// `None` for a version that the application does not know.
pub fn migration(version: u32) -> (r: Option<Migration>)
    ensures
        match r {
            Some(m) => 1 <= version <= CURRENT_SCHEMA_VERSION && m.version == version
                && m.description@ == migration_description(version) && m.sql@ == migration_sql(
                version,
            ),
            None => !(1 <= version <= CURRENT_SCHEMA_VERSION),
        },
{
    if version < 1 || version > CURRENT_SCHEMA_VERSION {
        return None;
    }
    Some(migration_of(version))
}

fn migration_of(version: u32) -> (r: Migration)
    requires
        1 <= version <= CURRENT_SCHEMA_VERSION,
    ensures
        r.version == version,
        r.description@ == migration_description(version),
        r.sql@ == migration_sql(version),
{
    match version {
        1 => Migration {
            version,
            description: copy_str("create_transcription_history_table"),
            sql: copy_str(
                "CREATE TABLE transcription_history (\n            id INTEGER PRIMARY KEY AUTOINCREMENT,\n            file_name TEXT NOT NULL,\n            timestamp INTEGER NOT NULL,\n            saved INTEGER NOT NULL DEFAULT 0,\n            title TEXT NOT NULL,\n            transcription_text TEXT NOT NULL\n        )",
            ),
        },
        2 => Migration {
            version,
            description: copy_str("add_post_processed_text_column"),
            sql: copy_str(
                "ALTER TABLE transcription_history ADD COLUMN post_processed_text TEXT",
            ),
        },
        3 => Migration {
            version,
            description: copy_str("add_post_process_prompt_column"),
            sql: copy_str(
                "ALTER TABLE transcription_history ADD COLUMN post_process_prompt TEXT",
            ),
        },
        4 => Migration {
            version,
            description: copy_str("create_input_entries_table"),
            sql: copy_str(
                "CREATE TABLE input_entries (\n            id INTEGER PRIMARY KEY AUTOINCREMENT,\n            app_name TEXT NOT NULL,\n            app_bundle_id TEXT,\n            window_title TEXT,\n            content TEXT NOT NULL,\n            timestamp INTEGER NOT NULL,\n            duration_ms INTEGER DEFAULT 0\n        );\n        CREATE INDEX IF NOT EXISTS idx_input_entries_timestamp ON input_entries(timestamp);\n        CREATE INDEX IF NOT EXISTS idx_input_entries_app ON input_entries(app_bundle_id)",
            ),
        },
        _ => Migration {
            version,
            description: copy_str("add_app_pid_column"),
            sql: copy_str("ALTER TABLE input_entries ADD COLUMN app_pid INTEGER"),
        },
    }
}

/// How the schema version of a database is come by before migrating.
#[derive(Clone, Copy, Debug, PartialEq, Eq, Structural)]
pub enum SchemaTracking {
    /// The version is tracked already.
    Versioned,
    /// An earlier plugin managed the database: create the version table and
    /// set it to the version that the tables show.
    MigrateFromSqlx,
    /// Create the version table, at 0; with `detect`, then set it to the
    /// version that the tables show.
    CreateVersionTable { detect: bool },
}

/// Decides how the schema version is come by, from the tables that exist.
pub fn schema_tracking(
    has_sqlx_migrations: bool,
    has_schema_version: bool,
    has_history_table: bool,
) -> (r: SchemaTracking)
    ensures
        r == if has_schema_version {
            SchemaTracking::Versioned
        } else if has_sqlx_migrations {
            SchemaTracking::MigrateFromSqlx
        } else {
            SchemaTracking::CreateVersionTable { detect: has_history_table }
        },
{
    if has_sqlx_migrations && !has_schema_version {
        SchemaTracking::MigrateFromSqlx
    } else if !has_schema_version {
        SchemaTracking::CreateVersionTable { detect: has_history_table }
    } else {
        SchemaTracking::Versioned
    }
}

/// What is found in a database whose version is not tracked.
#[derive(Clone, Copy, Debug, PartialEq, Eq, Structural)]
pub struct SchemaShape {
    pub has_history_table: bool,
    pub has_input_entries: bool,
    pub has_app_pid: bool,
    pub has_post_process_prompt: bool,
    pub has_post_processed_text: bool,
}

/// The schema version that the tables and columns of a database show.
pub fn detect_schema_version(shape: SchemaShape) -> (r: u32)
    ensures
        r == if !shape.has_history_table {
            0u32
        } else if shape.has_input_entries && shape.has_app_pid {
            5u32
        } else if shape.has_input_entries {
            4u32
        } else if shape.has_post_process_prompt {
            3u32
        } else if shape.has_post_processed_text {
            2u32
        } else {
            1u32
        },
        r <= CURRENT_SCHEMA_VERSION,
{
    if !shape.has_history_table {
        0
    } else if shape.has_input_entries && shape.has_app_pid {
        5
    } else if shape.has_input_entries {
        4
    } else if shape.has_post_process_prompt {
        3
    } else if shape.has_post_processed_text {
        2
    } else {
        1
    }
}

/// The text that turns down a database of a newer schema.
pub open spec fn newer_schema_text(version: u32) -> Seq<char> {
    "Database schema version ("@ + decimal(version as nat)
        + ") is newer than application expects ("@ + decimal(CURRENT_SCHEMA_VERSION as nat)
        + "). This may indicate the database was used with a newer version of the application."@
}

/// The versions of the migrations that a database at `current_version`
/// still needs, in the order in which they run: every version above the
/// current one, up to the application's. A database of a newer schema is
/// turned down.
pub fn pending_migrations(current_version: u32) -> (r: Result<Vec<u32>, String>)
    ensures
        match r {
            Ok(versions) => current_version <= CURRENT_SCHEMA_VERSION && versions@.len()
                == CURRENT_SCHEMA_VERSION - current_version && forall|i: int|
                0 <= i < versions@.len() ==> versions@[i] == current_version + 1 + i,
            Err(e) => current_version > CURRENT_SCHEMA_VERSION && e@ == newer_schema_text(
                current_version,
            ),
        },
{
    if current_version > CURRENT_SCHEMA_VERSION {
        let mut text = to_chars("Database schema version (");
        push_decimal(&mut text, current_version as u64);
        let mid = to_chars(") is newer than application expects (");
        extend_copy(&mut text, &mid);
        push_decimal(&mut text, CURRENT_SCHEMA_VERSION as u64);
        let tail = to_chars(
            "). This may indicate the database was used with a newer version of the application.",
        );
        extend_copy(&mut text, &tail);
        return Err(from_chars(&text));
    }
    let mut versions: Vec<u32> = Vec::new();
    let mut v: u32 = current_version;
    while v < CURRENT_SCHEMA_VERSION
        invariant
            current_version <= v <= CURRENT_SCHEMA_VERSION,
            versions@.len() == v - current_version,
            forall|i: int| 0 <= i < versions@.len() ==> versions@[i] == current_version + 1 + i,
        decreases CURRENT_SCHEMA_VERSION - v,
    {
        v = v + 1;
        versions.push(v);
    }
    Ok(versions)
}

/// The batch of statements that applies a migration: its statements between
/// a savepoint and the release of it.
pub open spec fn migration_batch_text(version: u32, sql: Seq<char>) -> Seq<char> {
    "SAVEPOINT migration_"@ + decimal(version as nat) + ";\n             "@ + sql
        + ";\n             RELEASE migration_"@ + decimal(version as nat) + ";"@
}

/// The batch of statements that applies a migration.
pub fn migration_batch(migration: &Migration) -> (r: String)
    ensures
        r@ == migration_batch_text(migration.version, migration.sql@),
{
    let mut text = to_chars("SAVEPOINT migration_");
    push_decimal(&mut text, migration.version as u64);
    let a = to_chars(";\n             ");
    extend_copy(&mut text, &a);
    let sql = to_chars(migration.sql.as_str());
    extend_copy(&mut text, &sql);
    let b = to_chars(";\n             RELEASE migration_");
    extend_copy(&mut text, &b);
    push_decimal(&mut text, migration.version as u64);
    let c = to_chars(";");
    extend_copy(&mut text, &c);
    from_chars(&text)
}

} // verus!
