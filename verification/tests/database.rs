use echo_voice::database::{
    detect_schema_version, migration, migration_batch, pending_migrations, schema_tracking,
    SchemaShape, SchemaTracking, CURRENT_SCHEMA_VERSION,
};

fn shape(history: bool, entries: bool, pid: bool, prompt: bool, text: bool) -> SchemaShape {
    SchemaShape {
        has_history_table: history,
        has_input_entries: entries,
        has_app_pid: pid,
        has_post_process_prompt: prompt,
        has_post_processed_text: text,
    }
}

#[test]
fn schema_version_is_read_off_the_tables() {
    assert_eq!(detect_schema_version(shape(false, true, true, true, true)), 0);
    assert_eq!(detect_schema_version(shape(true, false, false, false, false)), 1);
    assert_eq!(detect_schema_version(shape(true, false, false, false, true)), 2);
    assert_eq!(detect_schema_version(shape(true, false, false, true, true)), 3);
    assert_eq!(detect_schema_version(shape(true, false, false, true, false)), 3);
    assert_eq!(detect_schema_version(shape(true, true, false, true, true)), 4);
    assert_eq!(detect_schema_version(shape(true, true, true, true, true)), 5);
    assert_eq!(detect_schema_version(shape(true, false, true, false, false)), 1);
}

#[test]
fn pending_migrations_follow_the_current_version() {
    assert_eq!(CURRENT_SCHEMA_VERSION, 5);
    assert_eq!(pending_migrations(0), Ok(vec![1, 2, 3, 4, 5]));
    assert_eq!(pending_migrations(3), Ok(vec![4, 5]));
    assert_eq!(pending_migrations(5), Ok(vec![]));
}

#[test]
fn newer_database_is_turned_down() {
    assert_eq!(
        pending_migrations(6),
        Err("Database schema version (6) is newer than application expects (5). This may indicate the database was used with a newer version of the application.".to_string())
    );
}

#[test]
fn tracking_of_the_version() {
    assert_eq!(schema_tracking(false, true, true), SchemaTracking::Versioned);
    assert_eq!(schema_tracking(true, true, true), SchemaTracking::Versioned);
    assert_eq!(schema_tracking(true, false, true), SchemaTracking::MigrateFromSqlx);
    assert_eq!(schema_tracking(true, false, false), SchemaTracking::MigrateFromSqlx);
    assert_eq!(schema_tracking(false, false, true), SchemaTracking::CreateVersionTable { detect: true });
    assert_eq!(schema_tracking(false, false, false), SchemaTracking::CreateVersionTable { detect: false });
}

#[test]
fn migrations_by_version() {
    assert_eq!(migration(0), None);
    assert_eq!(migration(6), None);
    let first = migration(1).expect("migration");
    assert_eq!(first.version, 1);
    assert_eq!(first.description, "create_transcription_history_table");
    assert!(first.sql.starts_with("CREATE TABLE transcription_history ("));
    assert!(first.sql.contains("transcription_text TEXT NOT NULL"));
    let second = migration(2).expect("migration");
    assert_eq!(second.description, "add_post_processed_text_column");
    assert_eq!(second.sql, "ALTER TABLE transcription_history ADD COLUMN post_processed_text TEXT");
    let third = migration(3).expect("migration");
    assert_eq!(third.sql, "ALTER TABLE transcription_history ADD COLUMN post_process_prompt TEXT");
    let fourth = migration(4).expect("migration");
    assert_eq!(fourth.description, "create_input_entries_table");
    assert!(fourth.sql.contains("CREATE INDEX IF NOT EXISTS idx_input_entries_app ON input_entries(app_bundle_id)"));
    let fifth = migration(5).expect("migration");
    assert_eq!(fifth.description, "add_app_pid_column");
    assert_eq!(fifth.sql, "ALTER TABLE input_entries ADD COLUMN app_pid INTEGER");
}

#[test]
fn migration_runs_between_savepoint_and_release() {
    let fifth = migration(5).expect("migration");
    assert_eq!(
        migration_batch(&fifth),
        "SAVEPOINT migration_5;\n             ALTER TABLE input_entries ADD COLUMN app_pid INTEGER;\n             RELEASE migration_5;"
    );
}
