use std::cell::RefCell;
use std::collections::BTreeSet;

use lineage_core::infra::migrations::{
    automation_runs_added_columns, automation_runs_legacy_columns, column_shape_matches,
    local_mutations_added_columns, local_mutations_legacy_columns, migrate_connection,
    missing_column_statements, validate_unversioned_schema, validate_versioned_schema,
    ColumnShape, MigrationError, SchemaShape, SchemaStore, TableShape, LATEST_SCHEMA_VERSION,
};

fn column(name: &str, declared_type: &str, not_null: bool, default_value: Option<&str>, pk: i64) -> (String, ColumnShape) {
    (
        name.to_string(),
        ColumnShape {
            declared_type: declared_type.into(),
            not_null,
            default_value: default_value.map(str::to_string),
            primary_key_position: pk,
        },
    )
}

fn text(name: &str) -> (String, ColumnShape) {
    column(name, "TEXT", false, None, 0)
}

fn automation_runs(with_added: bool) -> TableShape {
    let mut columns: TableShape = automation_runs_legacy_columns()
        .into_iter()
        .map(|name| if name == "id" { column(name, "TEXT", false, None, 1) } else { text(name) })
        .collect();
    if with_added {
        for (name, _) in automation_runs_added_columns() {
            if name == "forced" {
                columns.push(column(name, "INTEGER", true, Some("0"), 0));
            } else {
                columns.push(text(name));
            }
        }
    }
    columns.sort_by(|a, b| a.0.cmp(&b.0));
    columns
}

fn local_mutations(with_added: bool, actor_default: Option<&str>) -> TableShape {
    let mut columns: TableShape = local_mutations_legacy_columns()
        .into_iter()
        .map(|name| if name == "operation_id" { column(name, "TEXT", false, None, 1) } else { text(name) })
        .collect();
    if with_added {
        columns.push(column("actor", "TEXT", true, actor_default, 0));
        columns.push(column("status", "TEXT", true, None, 0));
    }
    columns.sort_by(|a, b| a.0.cmp(&b.0));
    columns
}

fn workspaces() -> TableShape {
    vec![column("id", "TEXT", false, None, 1), column("name", "TEXT", true, None, 0)]
}

fn expected() -> SchemaShape {
    vec![
        ("automation_runs".into(), automation_runs(true)),
        ("local_mutations".into(), local_mutations(true, None)),
        ("workspaces".into(), workspaces()),
    ]
}

/// A database as the migration sees it; writes are recorded.
struct FakeDb {
    version: RefCell<i64>,
    shape: RefCell<SchemaShape>,
    objects: Vec<(String, String)>,
    writes: RefCell<Vec<&'static str>>,
}

impl FakeDb {
    fn new(version: i64, shape: SchemaShape) -> Self {
        FakeDb {
            version: RefCell::new(version),
            shape: RefCell::new(shape),
            objects: Vec::new(),
            writes: RefCell::new(Vec::new()),
        }
    }
}

impl SchemaStore for FakeDb {
    fn user_version(&self) -> Result<i64, String> {
        Ok(*self.version.borrow())
    }

    fn schema_shape(&self) -> Result<SchemaShape, String> {
        Ok(self.shape.borrow().clone())
    }

    fn views_and_triggers(&self) -> Result<Vec<(String, String)>, String> {
        Ok(self.objects.clone())
    }

    fn expected_schema_shape(&self) -> Result<SchemaShape, String> {
        Ok(expected())
    }

    fn create_backup(&self, from_version: i64, to_version: i64) -> Result<String, String> {
        self.writes.borrow_mut().push("backup");
        Ok(format!("lineage.db.pre-migration-v{from_version}-to-v{to_version}.bak"))
    }

    fn adopt_unversioned_schema(&self) -> Result<(), String> {
        self.writes.borrow_mut().push("adopt");
        *self.shape.borrow_mut() = expected();
        *self.version.borrow_mut() = 1;
        Ok(())
    }

    fn apply_migrations(&self) -> Result<(), String> {
        self.writes.borrow_mut().push("migrate");
        *self.shape.borrow_mut() = expected();
        *self.version.borrow_mut() = LATEST_SCHEMA_VERSION;
        Ok(())
    }
}

#[test]
fn legacy_column_sets_are_complete_and_disjoint_from_added_sets() {
    let automation_legacy = automation_runs_legacy_columns()
        .into_iter()
        .collect::<BTreeSet<_>>();
    let automation_added = automation_runs_added_columns()
        .into_iter()
        .map(|(name, _)| name)
        .collect::<BTreeSet<_>>();
    assert!(automation_legacy.is_disjoint(&automation_added));

    let mutation_legacy = local_mutations_legacy_columns()
        .into_iter()
        .collect::<BTreeSet<_>>();
    let mutation_added = local_mutations_added_columns()
        .into_iter()
        .map(|(name, _)| name)
        .collect::<BTreeSet<_>>();
    assert!(mutation_legacy.is_disjoint(&mutation_added));
}

#[test]
fn empty_database_reaches_latest_version() {
    let db = FakeDb::new(0, Vec::new());
    let report = migrate_connection(&db, false).unwrap();
    assert_eq!(report.from_version, 0);
    assert_eq!(report.to_version, LATEST_SCHEMA_VERSION);
    assert!(report.backup_path.is_none());
    assert_eq!(*db.writes.borrow(), vec!["migrate"]);
}

#[test]
fn an_existing_file_is_backed_up_before_it_is_migrated() {
    let db = FakeDb::new(0, Vec::new());
    let report = migrate_connection(&db, true).unwrap();
    assert_eq!(
        report.backup_path.as_deref(),
        Some("lineage.db.pre-migration-v0-to-v1.bak")
    );
    assert_eq!(*db.writes.borrow(), vec!["backup", "migrate"]);
}

#[test]
fn legacy_tables_are_adopted_before_migrating() {
    let db = FakeDb::new(
        0,
        vec![
            ("automation_runs".into(), automation_runs(false)),
            ("local_mutations".into(), local_mutations(false, None)),
        ],
    );
    let report = migrate_connection(&db, false).unwrap();
    assert_eq!(report.applied_migrations, 1);
    assert_eq!(*db.writes.borrow(), vec!["adopt", "migrate"]);
}

#[test]
fn reopening_current_database_is_a_no_op() {
    let db = FakeDb::new(LATEST_SCHEMA_VERSION, expected());
    let report = migrate_connection(&db, true).unwrap();
    assert_eq!(report.applied_migrations, 0);
    assert!(report.backup_path.is_none());
    assert!(db.writes.borrow().is_empty());
}

#[test]
fn database_repaired_by_the_transitional_receipt_upgrade_is_supported() {
    let mut repaired = expected();
    repaired[1].1 = local_mutations(true, Some("'local'"));
    let db = FakeDb::new(LATEST_SCHEMA_VERSION, repaired);
    let report = migrate_connection(&db, false).unwrap();
    assert_eq!(report.applied_migrations, 0);
}

#[test]
fn unknown_schema_shape_is_rejected_without_mutation() {
    let db = FakeDb::new(0, vec![("surprise".into(), vec![text("id")])]);
    let result = migrate_connection(&db, true);
    assert_eq!(
        result.unwrap_err(),
        MigrationError::UnknownTable {
            table: "surprise".into()
        }
    );
    assert!(db.writes.borrow().is_empty());
    assert_eq!(*db.version.borrow(), 0);
}

#[test]
fn current_version_with_an_unknown_shape_is_rejected_without_mutation() {
    let mut shape = expected();
    shape.push(("surprise".into(), vec![text("id")]));
    let db = FakeDb::new(1, shape);
    assert_eq!(
        migrate_connection(&db, true).unwrap_err(),
        MigrationError::TableSetMismatch
    );
    assert!(db.writes.borrow().is_empty());
}

#[test]
fn future_version_is_rejected_without_downgrade() {
    let db = FakeDb::new(99, Vec::new());
    let error = migrate_connection(&db, true).unwrap_err();
    assert_eq!(error, MigrationError::NewerVersion { found: 99 });
    assert!(error.message().contains("99"));
    assert!(db.writes.borrow().is_empty());
    assert_eq!(*db.version.borrow(), 99);
}

#[test]
fn known_table_with_wrong_column_shape_is_rejected() {
    let db = FakeDb::new(
        0,
        vec![(
            "workspaces".into(),
            vec![column("id", "INTEGER", false, None, 1)],
        )],
    );
    assert_eq!(
        migrate_connection(&db, false).unwrap_err(),
        MigrationError::UnknownTableShape {
            table: "workspaces".into()
        }
    );
    assert!(db.writes.borrow().is_empty());
}

#[test]
fn views_and_triggers_are_refused() {
    let mut db = FakeDb::new(0, Vec::new());
    db.objects = vec![("view".into(), "v_recent".into())];
    assert!(matches!(
        migrate_connection(&db, false),
        Err(MigrationError::UnexpectedObjects(_))
    ));
}

#[test]
fn an_older_table_missing_a_legacy_column_or_with_an_unknown_one_is_refused() {
    let mut short = automation_runs(false);
    short.retain(|(name, _)| name != "status");
    assert_eq!(
        validate_unversioned_schema(&vec![("automation_runs".into(), short)], &expected()).unwrap_err(),
        MigrationError::MissingLegacyColumn {
            table: "automation_runs".into(),
            column: "status"
        }
    );
    let mut extra = automation_runs(false);
    extra.push(text("zzz"));
    assert_eq!(
        validate_unversioned_schema(&vec![("automation_runs".into(), extra)], &expected()).unwrap_err(),
        MigrationError::UnknownColumn {
            table: "automation_runs".into(),
            column: "zzz".into()
        }
    );
}

#[test]
fn a_versioned_schema_must_match_column_by_column() {
    let mut shape = expected();
    shape[2].1 = vec![column("id", "TEXT", false, None, 1), column("name", "TEXT", false, None, 0)];
    assert_eq!(
        validate_versioned_schema(&shape, &expected()).unwrap_err(),
        MigrationError::ColumnMismatch {
            table: "workspaces".into(),
            column: "name".into()
        }
    );
    assert!(validate_versioned_schema(&expected(), &expected()).is_ok());
}

#[test]
fn only_the_released_defaults_are_tolerated() {
    let (_, declared) = column("actor", "TEXT", true, None, 0);
    let (_, with_default) = column("actor", "TEXT", true, Some("'local'"), 0);
    assert!(column_shape_matches("local_mutations", "actor", &with_default, &declared));
    assert!(!column_shape_matches("automation_runs", "actor", &with_default, &declared));
    let (_, other_default) = column("actor", "TEXT", true, Some("'remote'"), 0);
    assert!(!column_shape_matches("local_mutations", "actor", &other_default, &declared));
}

#[test]
fn partially_added_columns_are_completed() {
    let existing = vec!["id".to_string(), "TAG_ID".to_string(), "forced".to_string()];
    let statements = missing_column_statements(&existing, &automation_runs_added_columns());
    assert_eq!(statements.len(), 6);
    assert!(statements.iter().all(|s| !s.contains(" tag_id ") && !s.contains(" forced ")));
    assert_eq!(
        statements[0],
        "ALTER TABLE automation_runs ADD COLUMN recipe_name TEXT"
    );
}
