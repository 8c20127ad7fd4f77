//! Versioned migration of the local SQLite database.
//!
//! The database owns its migration chain. An older, unversioned database is
//! adopted only when every table and column is one this application knows
//! (older tables may lack the columns added later); anything else is refused
//! without being touched. After migrating, the schema must match exactly.

use vstd::prelude::*;

use crate::text::{copy_str, i64_to_text, signed_decimal, str_eq};

verus! {

/// The version that an adopted unversioned database is stamped with.
pub const BASELINE_SCHEMA_VERSION: i64 = 1;

/// The newest schema version this application knows.
pub const LATEST_SCHEMA_VERSION: i64 = 1;

/// How one column is declared, as `pragma_table_info` reports it (the type
/// upper-cased).
#[derive(Debug, Clone, PartialEq, Eq)]
pub struct ColumnShape {
    pub declared_type: String,
    pub not_null: bool,
    pub default_value: Option<String>,
    pub primary_key_position: i64,
}

/// Outcome of opening a database.
#[derive(Debug, Clone, PartialEq, Eq)]
pub struct MigrationReport {
    pub from_version: i64,
    pub to_version: i64,
    pub applied_migrations: i64,
    pub backup_path: Option<String>,
}

/// Why a database was not opened.
#[derive(Debug, Clone, PartialEq, Eq)]
pub enum MigrationError {
    /// The database is newer than this application.
    NewerVersion { found: i64 },
    /// The database claims a negative version, which no release writes.
    InvalidVersion { found: i64 },
    /// The database holds views or triggers this application does not know.
    UnexpectedObjects(Vec<(String, String)>),
    /// An unversioned database holds a table this application does not know.
    UnknownTable { table: String },
    /// An unversioned database holds a known table in an unknown shape.
    UnknownTableShape { table: String },
    /// An older table lacks one of the columns it always had.
    MissingLegacyColumn { table: String, column: &'static str },
    /// An older table has a column this application does not know.
    UnknownColumn { table: String, column: String },
    /// An older table declares a known column differently.
    LegacyColumnMismatch { table: String, column: String },
    /// A versioned database does not have the known set of tables.
    TableSetMismatch,
    MissingTable { table: String },
    ColumnSetMismatch { table: String },
    MissingColumn { table: String, column: String },
    ColumnMismatch { table: String, column: String },
    /// Migration ended at another version than the latest.
    WrongVersionAfterMigration { found: i64 },
    /// The migrated schema is not the expected one (with what is wrong).
    MigratedSchemaInvalid(String),
    /// Reading or writing the database failed.
    Store(String),
}

/// The columns of `table`: name and shape, in the store's order.
pub type TableShape = Vec<(String, ColumnShape)>;

/// The tables of a database: name and columns, by name.
pub type SchemaShape = Vec<(String, TableShape)>;

/// Position of the first entry named `name` at or after `i`, or -1.
pub open spec fn position_from<V>(entries: Seq<(String, V)>, name: Seq<char>, i: int) -> int
    decreases entries.len() - i,
{
    if i < 0 || i >= entries.len() {
        -1
    } else if entries[i].0@ == name {
        i
    } else {
        position_from(entries, name, i + 1)
    }
}

/// Position of the first entry named `name`, or -1.
pub open spec fn position<V>(entries: Seq<(String, V)>, name: Seq<char>) -> int {
    position_from(entries, name, 0)
}

pub proof fn lemma_position_bounds<V>(entries: Seq<(String, V)>, name: Seq<char>, i: int)
    requires
        0 <= i,
    ensures
        position_from(entries, name, i) == -1 || (i <= position_from(entries, name, i) < entries.len()
            && entries[position_from(entries, name, i)].0@ == name),
    decreases entries.len() - i,
{
    if i < entries.len() && entries[i].0@ != name {
        lemma_position_bounds(entries, name, i + 1);
    }
}

/// Finds the entry named `name`.
pub fn find_entry<V>(entries: &Vec<(String, V)>, name: &str) -> (r: Option<usize>)
    ensures
        match r {
            Some(i) => i < entries.len() && i as int == position(entries@, name@),
            None => position(entries@, name@) == -1,
        },
{
    let mut i: usize = 0;
    while i < entries.len()
        invariant
            i <= entries.len(),
            position(entries@, name@) == position_from(entries@, name@, i as int),
        decreases entries.len() - i,
    {
        if str_eq(entries[i].0.as_str(), name) {
            return Some(i);
        }
        i = i + 1;
    }
    None
}

/// The same declaration, field by field.
pub open spec fn same_shape(a: ColumnShape, b: ColumnShape) -> bool {
    &&& a.declared_type@ == b.declared_type@
    &&& a.not_null == b.not_null
    &&& a.primary_key_position == b.primary_key_position
    &&& match (a.default_value, b.default_value) {
        (Some(x), Some(y)) => x@ == y@,
        (None, None) => true,
        _ => false,
    }
}

/// A column matches its known shape: exactly, or as one of the two released
/// variants whose `local_mutations` columns carry a default that the
/// declaration itself omits.
pub open spec fn shape_matches(table: Seq<char>, column: Seq<char>, actual: ColumnShape, expected: ColumnShape) -> bool {
    ||| same_shape(actual, expected)
    ||| {
        &&& actual.declared_type@ == expected.declared_type@
        &&& actual.not_null == expected.not_null
        &&& actual.primary_key_position == expected.primary_key_position
        &&& expected.default_value is None
        &&& table == "local_mutations"@
        &&& actual.default_value is Some
        &&& ((column == "actor"@ && actual.default_value->0@ == "'local'"@) || (column == "status"@
            && actual.default_value->0@ == "'applied'"@))
    }
}

fn same_text(a: &Option<String>, b: &Option<String>) -> (r: bool)
    ensures
        r == match (*a, *b) {
            (Some(x), Some(y)) => x@ == y@,
            (None, None) => true,
            _ => false,
        },
{
    match (a, b) {
        (Some(x), Some(y)) => str_eq(x.as_str(), y.as_str()),
        (None, None) => true,
        _ => false,
    }
}

/// Whether a column matches its known shape.
pub fn column_shape_matches(table: &str, column: &str, actual: &ColumnShape, expected: &ColumnShape) -> (r:
    bool)
    ensures
        r == shape_matches(table@, column@, *actual, *expected),
{
    let same_except_default = str_eq(actual.declared_type.as_str(), expected.declared_type.as_str())
        && actual.not_null == expected.not_null && actual.primary_key_position
        == expected.primary_key_position;
    if same_except_default && same_text(&actual.default_value, &expected.default_value) {
        return true;
    }
    if !same_except_default || expected.default_value.is_some() {
        return false;
    }
    if !str_eq(table, "local_mutations") {
        return false;
    }
    match &actual.default_value {
        Some(d) => (str_eq(column, "actor") && str_eq(d.as_str(), "'local'")) || (str_eq(
            column,
            "status",
        ) && str_eq(d.as_str(), "'applied'")),
        None => false,
    }
}

/// The columns `automation_runs` always had.
pub open spec fn automation_runs_legacy() -> Seq<&'static str> {
    seq![
        "id",
        "workspace_id",
        "rule_id",
        "source_document_id",
        "result_document_id",
        "status",
        "backend_kind",
        "error",
        "started_at",
        "finished_at",
    ]
}

/// The columns `local_mutations` always had.
pub open spec fn local_mutations_legacy() -> Seq<&'static str> {
    seq![
        "operation_id",
        "workspace_id",
        "entity_kind",
        "entity_id",
        "operation_kind",
        "payload_json",
        "base_revision",
        "resulting_revision",
        "created_at",
    ]
}

pub fn automation_runs_legacy_columns() -> (v: Vec<&'static str>)
    ensures
        v@ == automation_runs_legacy(),
{
    let v: Vec<&'static str> = vec![
        "id",
        "workspace_id",
        "rule_id",
        "source_document_id",
        "result_document_id",
        "status",
        "backend_kind",
        "error",
        "started_at",
        "finished_at",
    ];
    assert(v@ =~= automation_runs_legacy());
    v
}

pub fn local_mutations_legacy_columns() -> (v: Vec<&'static str>)
    ensures
        v@ == local_mutations_legacy(),
{
    let v: Vec<&'static str> = vec![
        "operation_id",
        "workspace_id",
        "entity_kind",
        "entity_id",
        "operation_kind",
        "payload_json",
        "base_revision",
        "resulting_revision",
        "created_at",
    ];
    assert(v@ =~= local_mutations_legacy());
    v
}

/// The columns added to `automation_runs` later, with the statement that adds each.
pub fn automation_runs_added_columns() -> (v: Vec<(&'static str, &'static str)>)
    ensures
        v.len() == 8,
{
    vec![
        ("tag_id", "ALTER TABLE automation_runs ADD COLUMN tag_id TEXT"),
        ("recipe_name", "ALTER TABLE automation_runs ADD COLUMN recipe_name TEXT"),
        ("recipe_ownership", "ALTER TABLE automation_runs ADD COLUMN recipe_ownership TEXT"),
        ("processing_fingerprint", "ALTER TABLE automation_runs ADD COLUMN processing_fingerprint TEXT"),
        ("input_fingerprint", "ALTER TABLE automation_runs ADD COLUMN input_fingerprint TEXT"),
        ("execution_key", "ALTER TABLE automation_runs ADD COLUMN execution_key TEXT"),
        ("output_fingerprint", "ALTER TABLE automation_runs ADD COLUMN output_fingerprint TEXT"),
        ("forced", "ALTER TABLE automation_runs ADD COLUMN forced INTEGER NOT NULL DEFAULT 0"),
    ]
}

/// The columns added to `local_mutations` later, with the statement that adds each.
pub fn local_mutations_added_columns() -> (v: Vec<(&'static str, &'static str)>)
    ensures
        v.len() == 2,
{
    vec![
        ("actor", "ALTER TABLE local_mutations ADD COLUMN actor TEXT NOT NULL DEFAULT 'local'"),
        (
            "status",
            "ALTER TABLE local_mutations ADD COLUMN status TEXT NOT NULL DEFAULT 'applied' CHECK (status IN ('applied', 'conflict'))",
        ),
    ]
}

/// The first required column that the table lacks, from position `i` on.
pub open spec fn missing_required_from(required: Seq<&'static str>, actual: Seq<(String, ColumnShape)>, i: int) -> Option<
    &'static str,
>
    decreases required.len() - i,
{
    if i < 0 || i >= required.len() {
        None
    } else if position(actual, required[i]@) < 0 {
        Some(required[i])
    } else {
        missing_required_from(required, actual, i + 1)
    }
}

/// The first column, from position `i` on, that is unknown or declared
/// differently, with whether it is unknown.
pub open spec fn bad_column_from(
    table: Seq<char>,
    actual: Seq<(String, ColumnShape)>,
    expected: Seq<(String, ColumnShape)>,
    i: int,
) -> Option<(String, bool)>
    decreases actual.len() - i,
{
    if i < 0 || i >= actual.len() {
        None
    } else if position(expected, actual[i].0@) < 0 {
        Some((actual[i].0, true))
    } else if !shape_matches(
        table,
        actual[i].0@,
        actual[i].1,
        expected[position(expected, actual[i].0@)].1,
    ) {
        Some((actual[i].0, false))
    } else {
        bad_column_from(table, actual, expected, i + 1)
    }
}

/// Why an older table cannot be adopted, if it cannot.
pub open spec fn legacy_table_fault(
    table: String,
    actual: Seq<(String, ColumnShape)>,
    expected: Seq<(String, ColumnShape)>,
    required: Seq<&'static str>,
) -> Option<MigrationError> {
    match missing_required_from(required, actual, 0) {
        Some(column) => Some(MigrationError::MissingLegacyColumn { table, column }),
        None => match bad_column_from(table@, actual, expected, 0) {
            Some((column, true)) => Some(MigrationError::UnknownColumn { table, column }),
            Some((column, false)) => Some(MigrationError::LegacyColumnMismatch { table, column }),
            None => None,
        },
    }
}

/// Checks that an older table holds every column it always had, and only
/// known columns in their known shape.
pub fn validate_legacy_compatible_table(
    table: &String,
    actual: &TableShape,
    expected: &TableShape,
    required: &Vec<&'static str>,
) -> (r: Result<(), MigrationError>)
    ensures
        match legacy_table_fault(*table, actual@, expected@, required@) {
            Some(e) => r == Err::<(), MigrationError>(e),
            None => r is Ok,
        },
{
    let mut i: usize = 0;
    while i < required.len()
        invariant
            i <= required.len(),
            missing_required_from(required@, actual@, 0) == missing_required_from(required@, actual@, i as int),
        decreases required.len() - i,
    {
        if find_entry(actual, required[i]).is_none() {
            return Err(MigrationError::MissingLegacyColumn { table: table.clone(), column: required[i] });
        }
        i = i + 1;
    }
    let mut j: usize = 0;
    while j < actual.len()
        invariant
            j <= actual.len(),
            missing_required_from(required@, actual@, 0) is None,
            bad_column_from(table@, actual@, expected@, 0) == bad_column_from(table@, actual@, expected@, j as int),
        decreases actual.len() - j,
    {
        let (name, shape) = &actual[j];
        match find_entry(expected, name.as_str()) {
            None => return Err(MigrationError::UnknownColumn { table: table.clone(), column: name.clone() }),
            Some(k) => {
                if !column_shape_matches(table.as_str(), name.as_str(), shape, &expected[k].1) {
                    return Err(MigrationError::LegacyColumnMismatch { table: table.clone(), column: name.clone() });
                }
            },
        }
        j = j + 1;
    }
    Ok(())
}

/// Two tables list the same columns, in the same order and the same shape.
pub open spec fn same_table(a: Seq<(String, ColumnShape)>, b: Seq<(String, ColumnShape)>) -> bool {
    &&& a.len() == b.len()
    &&& forall|i: int| 0 <= i < a.len() ==> same_column(#[trigger] a[i], b[i])
}

/// The same column name with the same declaration.
pub open spec fn same_column(x: (String, ColumnShape), y: (String, ColumnShape)) -> bool {
    x.0@ == y.0@ && same_shape(x.1, y.1)
}

fn tables_equal(a: &TableShape, b: &TableShape) -> (r: bool)
    ensures
        r == same_table(a@, b@),
{
    if a.len() != b.len() {
        return false;
    }
    let mut i: usize = 0;
    while i < a.len()
        invariant
            i <= a.len() == b.len(),
            forall|k: int| 0 <= k < i ==> same_column(#[trigger] a@[k], b@[k]),
        decreases a.len() - i,
    {
        let (an, ashape) = &a[i];
        let (bn, bshape) = &b[i];
        let same = str_eq(an.as_str(), bn.as_str()) && str_eq(
            ashape.declared_type.as_str(),
            bshape.declared_type.as_str(),
        ) && ashape.not_null == bshape.not_null && ashape.primary_key_position
            == bshape.primary_key_position && same_text(&ashape.default_value, &bshape.default_value);
        assert(same == same_column(a@[i as int], b@[i as int]));
        if !same {
            return false;
        }
        i = i + 1;
    }
    true
}

/// What is wrong with the unversioned tables from position `i` on.
pub open spec fn unversioned_fault_from(
    actual: Seq<(String, TableShape)>,
    expected: Seq<(String, TableShape)>,
    i: int,
) -> Option<MigrationError>
    decreases actual.len() - i,
{
    if i < 0 || i >= actual.len() {
        None
    } else {
        let table = actual[i].0;
        let k = position(expected, table@);
        if k < 0 {
            Some(MigrationError::UnknownTable { table })
        } else {
            let fault = if table@ == "automation_runs"@ {
                legacy_table_fault(table, actual[i].1@, expected[k].1@, automation_runs_legacy())
            } else if table@ == "local_mutations"@ {
                legacy_table_fault(table, actual[i].1@, expected[k].1@, local_mutations_legacy())
            } else if same_table(actual[i].1@, expected[k].1@) {
                None
            } else {
                Some(MigrationError::UnknownTableShape { table })
            };
            match fault {
                Some(e) => Some(e),
                None => unversioned_fault_from(actual, expected, i + 1),
            }
        }
    }
}

/// Checks an unversioned database before adopting it: only known tables;
/// the two tables that grew columns may be in their older shape; every other
/// table exactly as known.
pub fn validate_unversioned_schema(actual: &SchemaShape, expected: &SchemaShape) -> (r: Result<
    (),
    MigrationError,
>)
    ensures
        match unversioned_fault_from(actual@, expected@, 0) {
            Some(e) => r == Err::<(), MigrationError>(e),
            None => r is Ok,
        },
{
    let automation_legacy = automation_runs_legacy_columns();
    let mutation_legacy = local_mutations_legacy_columns();
    let mut i: usize = 0;
    while i < actual.len()
        invariant
            i <= actual.len(),
            automation_legacy@ == automation_runs_legacy(),
            mutation_legacy@ == local_mutations_legacy(),
            unversioned_fault_from(actual@, expected@, 0) == unversioned_fault_from(actual@, expected@, i as int),
        decreases actual.len() - i,
    {
        let (table, columns) = &actual[i];
        let k = match find_entry(expected, table.as_str()) {
            None => return Err(MigrationError::UnknownTable { table: table.clone() }),
            Some(k) => k,
        };
        let known = &expected[k].1;
        if str_eq(table.as_str(), "automation_runs") {
            if let Err(e) = validate_legacy_compatible_table(table, columns, known, &automation_legacy) {
                return Err(e);
            }
        } else if str_eq(table.as_str(), "local_mutations") {
            if let Err(e) = validate_legacy_compatible_table(table, columns, known, &mutation_legacy) {
                return Err(e);
            }
        } else if !tables_equal(columns, known) {
            return Err(MigrationError::UnknownTableShape { table: table.clone() });
        }
        i = i + 1;
    }
    Ok(())
}

/// What is wrong with the columns of a versioned table, from position `j` of
/// the expected columns on.
pub open spec fn versioned_column_fault_from(
    table: String,
    actual: Seq<(String, ColumnShape)>,
    expected: Seq<(String, ColumnShape)>,
    j: int,
) -> Option<MigrationError>
    decreases expected.len() - j,
{
    if j < 0 || j >= expected.len() {
        None
    } else {
        let name = expected[j].0;
        let k = position(actual, name@);
        if k < 0 {
            Some(MigrationError::MissingColumn { table, column: name })
        } else if !shape_matches(table@, name@, actual[k].1, expected[j].1) {
            Some(MigrationError::ColumnMismatch { table, column: name })
        } else {
            versioned_column_fault_from(table, actual, expected, j + 1)
        }
    }
}

/// What is wrong with a versioned schema, from position `i` of the expected
/// tables on.
pub open spec fn versioned_fault_from(
    actual: Seq<(String, TableShape)>,
    expected: Seq<(String, TableShape)>,
    i: int,
) -> Option<MigrationError>
    decreases expected.len() - i,
{
    if i < 0 || i >= expected.len() {
        None
    } else {
        let table = expected[i].0;
        let k = position(actual, table@);
        if k < 0 {
            Some(MigrationError::MissingTable { table })
        } else if actual[k].1.len() != expected[i].1.len() {
            Some(MigrationError::ColumnSetMismatch { table })
        } else {
            match versioned_column_fault_from(table, actual[k].1@, expected[i].1@, 0) {
                Some(e) => Some(e),
                None => versioned_fault_from(actual, expected, i + 1),
            }
        }
    }
}

/// What is wrong with a schema that claims the latest version.
pub open spec fn versioned_fault(actual: Seq<(String, TableShape)>, expected: Seq<(String, TableShape)>) -> Option<
    MigrationError,
> {
    if actual.len() != expected.len() {
        Some(MigrationError::TableSetMismatch)
    } else {
        versioned_fault_from(actual, expected, 0)
    }
}

fn validate_versioned_columns(table: &String, actual: &TableShape, expected: &TableShape) -> (r: Result<
    (),
    MigrationError,
>)
    ensures
        match versioned_column_fault_from(*table, actual@, expected@, 0) {
            Some(e) => r == Err::<(), MigrationError>(e),
            None => r is Ok,
        },
{
    let mut j: usize = 0;
    while j < expected.len()
        invariant
            j <= expected.len(),
            versioned_column_fault_from(*table, actual@, expected@, 0) == versioned_column_fault_from(
                *table,
                actual@,
                expected@,
                j as int,
            ),
        decreases expected.len() - j,
    {
        let (name, shape) = &expected[j];
        match find_entry(actual, name.as_str()) {
            None => return Err(MigrationError::MissingColumn { table: table.clone(), column: name.clone() }),
            Some(k) => {
                if !column_shape_matches(table.as_str(), name.as_str(), &actual[k].1, shape) {
                    return Err(MigrationError::ColumnMismatch { table: table.clone(), column: name.clone() });
                }
            },
        }
        j = j + 1;
    }
    Ok(())
}

/// Checks a schema that claims the latest version against the known one:
/// the same tables, each with the same columns in their known shape.
pub fn validate_versioned_schema(actual: &SchemaShape, expected: &SchemaShape) -> (r: Result<
    (),
    MigrationError,
>)
    ensures
        match versioned_fault(actual@, expected@) {
            Some(e) => r == Err::<(), MigrationError>(e),
            None => r is Ok,
        },
{
    if actual.len() != expected.len() {
        return Err(MigrationError::TableSetMismatch);
    }
    let mut i: usize = 0;
    while i < expected.len()
        invariant
            i <= expected.len(),
            actual.len() == expected.len(),
            versioned_fault(actual@, expected@) == versioned_fault_from(actual@, expected@, i as int),
        decreases expected.len() - i,
    {
        let (table, columns) = &expected[i];
        let k = match find_entry(actual, table.as_str()) {
            None => return Err(MigrationError::MissingTable { table: table.clone() }),
            Some(k) => k,
        };
        if actual[k].1.len() != columns.len() {
            return Err(MigrationError::ColumnSetMismatch { table: table.clone() });
        }
        if let Err(e) = validate_versioned_columns(table, &actual[k].1, columns) {
            return Err(e);
        }
        i = i + 1;
    }
    Ok(())
}

/// A refusal for the shape of the tables (not for versions or the store).
pub open spec fn is_shape_fault(e: MigrationError) -> bool {
    ||| e is UnknownTable
    ||| e is UnknownTableShape
    ||| e is MissingLegacyColumn
    ||| e is UnknownColumn
    ||| e is LegacyColumnMismatch
    ||| e is TableSetMismatch
    ||| e is MissingTable
    ||| e is ColumnSetMismatch
    ||| e is MissingColumn
    ||| e is ColumnMismatch
}

proof fn lemma_unversioned_faults_are_shape_faults(
    actual: Seq<(String, TableShape)>,
    expected: Seq<(String, TableShape)>,
    i: int,
)
    ensures
        unversioned_fault_from(actual, expected, i) matches Some(e) ==> is_shape_fault(e),
    decreases actual.len() - i,
{
    if 0 <= i < actual.len() {
        lemma_unversioned_faults_are_shape_faults(actual, expected, i + 1);
    }
}

proof fn lemma_versioned_column_faults_are_shape_faults(
    table: String,
    actual: Seq<(String, ColumnShape)>,
    expected: Seq<(String, ColumnShape)>,
    j: int,
)
    ensures
        versioned_column_fault_from(table, actual, expected, j) matches Some(e) ==> is_shape_fault(e),
    decreases expected.len() - j,
{
    if 0 <= j < expected.len() {
        lemma_versioned_column_faults_are_shape_faults(table, actual, expected, j + 1);
    }
}

proof fn lemma_versioned_faults_are_shape_faults(
    actual: Seq<(String, TableShape)>,
    expected: Seq<(String, TableShape)>,
    i: int,
)
    ensures
        versioned_fault_from(actual, expected, i) matches Some(e) ==> is_shape_fault(e),
    decreases expected.len() - i,
{
    if 0 <= i < expected.len() {
        let k = position(actual, expected[i].0@);
        if k >= 0 && actual[k].1.len() == expected[i].1.len() {
            lemma_versioned_column_faults_are_shape_faults(expected[i].0, actual[k].1@, expected[i].1@, 0);
        }
        lemma_versioned_faults_are_shape_faults(actual, expected, i + 1);
    }
}

/// The listing of unexpected objects: each as a space, its kind, a space
/// and its name.
pub open spec fn objects_listing(objects: Seq<(String, String)>) -> Seq<char>
    decreases objects.len(),
{
    if objects.len() == 0 {
        Seq::empty()
    } else {
        objects_listing(objects.drop_last()) + " "@ + objects.last().0@ + " "@ + objects.last().1@
    }
}

/// The message of a migration error.
pub open spec fn migration_message(e: MigrationError) -> Seq<char> {
    let latest = signed_decimal(LATEST_SCHEMA_VERSION as int);
    match e {
        MigrationError::NewerVersion { found } => "DB スキーマのバージョン "@ + signed_decimal(found as int) + " は、このアプリが対応する最新バージョン "@ + latest + " より新しいため開けません"@,
        MigrationError::InvalidVersion { found } => "DB スキーマのバージョン "@ + signed_decimal(found as int) + " を解釈できません"@,
        MigrationError::UnexpectedObjects(objects) => "未対応の view/trigger を含む DB は変更せず拒否します:"@ + objects_listing(objects@),
        MigrationError::UnknownTable { table } => "未対応のテーブル `"@ + table@ + "` を含む user_version=0 の DB は変更せず拒否します"@,
        MigrationError::UnknownTableShape { table } => "未対応の schema shape を持つテーブル `"@ + table@ + "` を含む user_version=0 の DB は変更せず拒否します"@,
        MigrationError::MissingLegacyColumn { table, column } => "テーブル `"@ + table@ + "` に必須の旧 schema 列 `"@ + column@ + "` がありません"@,
        MigrationError::UnknownColumn { table, column } => "テーブル `"@ + table@ + "` に未対応の列 `"@ + column@ + "` があります"@,
        MigrationError::LegacyColumnMismatch { table, column } => "テーブル `"@ + table@ + "` の列 `"@ + column@ + "` が既知の schema shape と一致しません"@,
        MigrationError::TableSetMismatch => "DB は schema version "@ + latest + " を名乗っていますが、テーブル集合が既知の schema shape と一致しません"@,
        MigrationError::MissingTable { table } => "schema version "@ + latest + " の DB に必須テーブル `"@ + table@ + "` がありません"@,
        MigrationError::ColumnSetMismatch { table } => "schema version "@ + latest + " のテーブル `"@ + table@ + "` の列集合が既知の schema shape と一致しません"@,
        MigrationError::MissingColumn { table, column } => "schema version "@ + latest + " のテーブル `"@ + table@ + "` に必須列 `"@ + column@ + "` がありません"@,
        MigrationError::ColumnMismatch { table, column } => "schema version "@ + latest + " のテーブル `"@ + table@ + "` の列 `"@ + column@ + "` が既知の schema shape と一致しません"@,
        MigrationError::WrongVersionAfterMigration { found } => "migration 後の DB バージョンが不正です: expected="@ + latest + ", actual="@ + signed_decimal(found as int),
        MigrationError::MigratedSchemaInvalid(reason) => "migration 後のローカル schema 検証に失敗しました: "@ + reason@,
        MigrationError::Store(e) => e@,
    }
}

impl MigrationError {
    /// A message for people.
    pub fn message(&self) -> (m: String)
        ensures
            m@ == migration_message(*self),
    {
        let latest = i64_to_text(LATEST_SCHEMA_VERSION);
        match self {
            MigrationError::NewerVersion { found } => {
                let mut m = copy_str("DB スキーマのバージョン ");
                let v = i64_to_text(*found);
                m.append(v.as_str());
                m.append(" は、このアプリが対応する最新バージョン ");
                m.append(latest.as_str());
                m.append(" より新しいため開けません");
                m
            },
            MigrationError::InvalidVersion { found } => {
                let mut m = copy_str("DB スキーマのバージョン ");
                let v = i64_to_text(*found);
                m.append(v.as_str());
                m.append(" を解釈できません");
                m
            },
            MigrationError::UnexpectedObjects(objects) => {
                let mut m = copy_str("未対応の view/trigger を含む DB は変更せず拒否します:");
                let ghost head = m@;
                let mut i: usize = 0;
                while i < objects.len()
                    invariant
                        i <= objects.len(),
                        m@ == head + objects_listing(objects@.take(i as int)),
                    decreases objects.len() - i,
                {
                    m.append(" ");
                    m.append(objects[i].0.as_str());
                    m.append(" ");
                    m.append(objects[i].1.as_str());
                    proof {
                        assert(objects@.take(i + 1).drop_last() =~= objects@.take(i as int));
                    }
                    i = i + 1;
                }
                assert(objects@.take(objects.len() as int) =~= objects@);
                m
            },
            MigrationError::UnknownTable { table } => {
                let mut m = copy_str("未対応のテーブル `");
                m.append(table.as_str());
                m.append("` を含む user_version=0 の DB は変更せず拒否します");
                m
            },
            MigrationError::UnknownTableShape { table } => {
                let mut m = copy_str("未対応の schema shape を持つテーブル `");
                m.append(table.as_str());
                m.append("` を含む user_version=0 の DB は変更せず拒否します");
                m
            },
            MigrationError::MissingLegacyColumn { table, column } => {
                let mut m = copy_str("テーブル `");
                m.append(table.as_str());
                m.append("` に必須の旧 schema 列 `");
                m.append(column);
                m.append("` がありません");
                m
            },
            MigrationError::UnknownColumn { table, column } => {
                let mut m = copy_str("テーブル `");
                m.append(table.as_str());
                m.append("` に未対応の列 `");
                m.append(column.as_str());
                m.append("` があります");
                m
            },
            MigrationError::LegacyColumnMismatch { table, column } => {
                let mut m = copy_str("テーブル `");
                m.append(table.as_str());
                m.append("` の列 `");
                m.append(column.as_str());
                m.append("` が既知の schema shape と一致しません");
                m
            },
            MigrationError::TableSetMismatch => {
                let mut m = copy_str("DB は schema version ");
                m.append(latest.as_str());
                m.append(" を名乗っていますが、テーブル集合が既知の schema shape と一致しません");
                m
            },
            MigrationError::MissingTable { table } => {
                let mut m = copy_str("schema version ");
                m.append(latest.as_str());
                m.append(" の DB に必須テーブル `");
                m.append(table.as_str());
                m.append("` がありません");
                m
            },
            MigrationError::ColumnSetMismatch { table } => {
                let mut m = copy_str("schema version ");
                m.append(latest.as_str());
                m.append(" のテーブル `");
                m.append(table.as_str());
                m.append("` の列集合が既知の schema shape と一致しません");
                m
            },
            MigrationError::MissingColumn { table, column } => {
                let mut m = copy_str("schema version ");
                m.append(latest.as_str());
                m.append(" のテーブル `");
                m.append(table.as_str());
                m.append("` に必須列 `");
                m.append(column.as_str());
                m.append("` がありません");
                m
            },
            MigrationError::ColumnMismatch { table, column } => {
                let mut m = copy_str("schema version ");
                m.append(latest.as_str());
                m.append(" のテーブル `");
                m.append(table.as_str());
                m.append("` の列 `");
                m.append(column.as_str());
                m.append("` が既知の schema shape と一致しません");
                m
            },
            MigrationError::WrongVersionAfterMigration { found } => {
                let mut m = copy_str("migration 後の DB バージョンが不正です: expected=");
                m.append(latest.as_str());
                m.append(", actual=");
                let v = i64_to_text(*found);
                m.append(v.as_str());
                m
            },
            MigrationError::MigratedSchemaInvalid(reason) => {
                let mut m = copy_str("migration 後のローカル schema 検証に失敗しました: ");
                m.append(reason.as_str());
                m
            },
            MigrationError::Store(e) => {
                let mut m = copy_str(e.as_str());
                m
            },
        }
    }
}

/// The database being opened, as the migration sees it.
pub trait SchemaStore {
    fn user_version(&self) -> Result<i64, String>;

    /// The tables that are not SQLite's own, by name, with their columns.
    fn schema_shape(&self) -> Result<SchemaShape, String>;

    /// The views and triggers (type, name) that are not SQLite's own.
    fn views_and_triggers(&self) -> Result<Vec<(String, String)>, String>;

    /// The shape the migration chain gives an empty database.
    fn expected_schema_shape(&self) -> Result<SchemaShape, String>;

    /// Copies the database aside before it is changed; gives the copy's path.
    fn create_backup(&self, from_version: i64, to_version: i64) -> Result<String, String>;

    /// In one transaction: adds the later columns that older tables lack,
    /// applies the baseline schema and stamps the baseline version.
    fn adopt_unversioned_schema(&self) -> Result<(), String>;

    /// Runs the migration chain up to the latest version.
    fn apply_migrations(&self) -> Result<(), String>;
}

/// What opening a database comes to, once it has been looked at.
#[derive(Debug, Clone, PartialEq, Eq)]
pub enum OpeningPlan {
    /// It is at the latest version and in the latest shape: only checked.
    Current,
    /// It is older: back it up and migrate it, adopting the schema of a
    /// database that predates versioning when `adopt` holds.
    Upgrade { adopt: bool },
}

/// A database that predates versioning but holds tables.
pub open spec fn is_unversioned_with_tables(version: i64, actual: Seq<(String, TableShape)>) -> bool {
    version == 0 && actual.len() > 0
}

/// Whether deciding about the database looks at the shape the migration
/// chain gives: for a database that predates versioning but holds tables,
/// and for one at the latest version (when nothing refused it before).
pub open spec fn spec_needs_expected(version: i64, actual: Seq<(String, TableShape)>, objects: Seq<(String, String)>) -> bool {
    &&& version <= LATEST_SCHEMA_VERSION
    &&& objects.len() == 0
    &&& (is_unversioned_with_tables(version, actual) || version == LATEST_SCHEMA_VERSION)
}

/// The decision on a database from its version, its tables, its views and
/// triggers, and (where needed) the shape the migration chain gives. A
/// newer database, one holding views or triggers, or one whose tables are
/// not a known shape is refused; one at the latest version in the latest
/// shape is current; any other is upgraded.
pub open spec fn spec_plan_opening(
    version: i64,
    actual: Seq<(String, TableShape)>,
    objects: Vec<(String, String)>,
    expected: Seq<(String, TableShape)>,
) -> Result<OpeningPlan, MigrationError> {
    if version > LATEST_SCHEMA_VERSION {
        Err(MigrationError::NewerVersion { found: version })
    } else if objects.len() > 0 {
        Err(MigrationError::UnexpectedObjects(objects))
    } else if is_unversioned_with_tables(version, actual) && unversioned_fault_from(actual, expected, 0) is Some {
        Err(unversioned_fault_from(actual, expected, 0)->0)
    } else if version == LATEST_SCHEMA_VERSION {
        match versioned_fault(actual, expected) {
            Some(e) => Err(e),
            None => Ok(OpeningPlan::Current),
        }
    } else {
        Ok(OpeningPlan::Upgrade { adopt: is_unversioned_with_tables(version, actual) })
    }
}

/// Whether [`plan_opening`] looks at the expected shape.
pub fn needs_expected(version: i64, actual: &SchemaShape, objects: &Vec<(String, String)>) -> (r: bool)
    ensures
        r == spec_needs_expected(version, actual@, objects@),
{
    version <= LATEST_SCHEMA_VERSION && objects.len() == 0 && ((version == 0 && actual.len() > 0) || version
        == LATEST_SCHEMA_VERSION)
}

/// Decides about a database from what was read of it.
pub fn plan_opening(version: i64, actual: &SchemaShape, objects: Vec<(String, String)>, expected: &SchemaShape) -> (r:
    Result<OpeningPlan, MigrationError>)
    ensures
        r == spec_plan_opening(version, actual@, objects, expected@),
{
    if version > LATEST_SCHEMA_VERSION {
        return Err(MigrationError::NewerVersion { found: version });
    }
    if objects.len() > 0 {
        return Err(MigrationError::UnexpectedObjects(objects));
    }
    let unversioned = version == 0 && actual.len() > 0;
    if unversioned {
        if let Err(e) = validate_unversioned_schema(actual, expected) {
            return Err(e);
        }
    }
    if version == LATEST_SCHEMA_VERSION {
        return match validate_versioned_schema(actual, expected) {
            Err(e) => Err(e),
            Ok(()) => Ok(OpeningPlan::Current),
        };
    }
    Ok(OpeningPlan::Upgrade { adopt: unversioned })
}

/// Brings a database to the latest schema, or refuses it untouched.
///
/// A newer database, or one holding unknown views, triggers, tables or
/// columns, is refused before anything is written ([`plan_opening`] decides
/// on what was read). A database at the latest version is only checked.
/// Otherwise it is backed up (when it existed on disk before it was opened),
/// refused if its version is negative, adopted if it predates versioning,
/// migrated, and checked again.
pub fn migrate_connection<S: SchemaStore + ?Sized>(store: &S, existed_before_open: bool) -> (r: Result<
    MigrationReport,
    MigrationError,
>)
    ensures
        r matches Ok(report) ==> {
            &&& 0 <= report.from_version <= LATEST_SCHEMA_VERSION
            &&& report.to_version == LATEST_SCHEMA_VERSION
            &&& report.applied_migrations == report.to_version - report.from_version
            &&& (report.backup_path is Some ==> existed_before_open && report.from_version < LATEST_SCHEMA_VERSION)
            &&& (report.from_version < LATEST_SCHEMA_VERSION && existed_before_open ==> report.backup_path is Some)
        },
        r matches Err(MigrationError::NewerVersion { found }) ==> found > LATEST_SCHEMA_VERSION,
        r matches Err(MigrationError::InvalidVersion { found }) ==> found < 0,
        r matches Err(MigrationError::WrongVersionAfterMigration { found }) ==> found != LATEST_SCHEMA_VERSION,
{
    let from_version = match store.user_version() {
        Ok(v) => v,
        Err(e) => return Err(MigrationError::Store(e)),
    };
    if from_version > LATEST_SCHEMA_VERSION {
        return Err(MigrationError::NewerVersion { found: from_version });
    }
    let actual = match store.schema_shape() {
        Ok(shape) => shape,
        Err(e) => return Err(MigrationError::Store(e)),
    };
    let objects = match store.views_and_triggers() {
        Ok(objects) => objects,
        Err(e) => return Err(MigrationError::Store(e)),
    };
    let expected = if needs_expected(from_version, &actual, &objects) {
        match store.expected_schema_shape() {
            Ok(shape) => shape,
            Err(e) => return Err(MigrationError::Store(e)),
        }
    } else {
        Vec::new()
    };
    let plan = plan_opening(from_version, &actual, objects, &expected);
    proof {
        lemma_unversioned_faults_are_shape_faults(actual@, expected@, 0);
        lemma_versioned_faults_are_shape_faults(actual@, expected@, 0);
    }
    let adopt = match plan {
        Err(e) => return Err(e),
        Ok(OpeningPlan::Current) => {
            return Ok(
                MigrationReport {
                    from_version,
                    to_version: from_version,
                    applied_migrations: 0,
                    backup_path: None,
                },
            );
        },
        Ok(OpeningPlan::Upgrade { adopt }) => adopt,
    };
    let backup_path = if existed_before_open {
        match store.create_backup(from_version, LATEST_SCHEMA_VERSION) {
            Ok(path) => Some(path),
            Err(e) => return Err(MigrationError::Store(e)),
        }
    } else {
        None
    };
    if from_version < 0 {
        return Err(MigrationError::InvalidVersion { found: from_version });
    }
    if adopt {
        if let Err(e) = store.adopt_unversioned_schema() {
            return Err(MigrationError::Store(e));
        }
    }
    if let Err(e) = store.apply_migrations() {
        return Err(MigrationError::Store(e));
    }
    let to_version = match store.user_version() {
        Ok(v) => v,
        Err(e) => return Err(MigrationError::Store(e)),
    };
    if to_version != LATEST_SCHEMA_VERSION {
        return Err(MigrationError::WrongVersionAfterMigration { found: to_version });
    }
    let migrated = match store.schema_shape() {
        Ok(shape) => shape,
        Err(e) => return Err(MigrationError::Store(e)),
    };
    let expected = match store.expected_schema_shape() {
        Ok(shape) => shape,
        Err(e) => return Err(MigrationError::Store(e)),
    };
    if let Err(e) = validate_versioned_schema(&migrated, &expected) {
        return Err(MigrationError::MigratedSchemaInvalid(e.message()));
    }
    Ok(
        MigrationReport {
            from_version,
            to_version,
            applied_migrations: to_version - from_version,
            backup_path,
        },
    )
}

/// ASCII upper-case letters folded to lower case; other characters kept.
pub open spec fn ascii_fold(c: char) -> char {
    if 'A' <= c && c <= 'Z' {
        ((c as u32) + 32) as char
    } else {
        c
    }
}

/// Equal when ASCII letters are compared without case, as `eq_ignore_ascii_case` does.
pub open spec fn eq_ignore_ascii_case(a: Seq<char>, b: Seq<char>) -> bool {
    &&& a.len() == b.len()
    &&& forall|i: int| 0 <= i < a.len() ==> ascii_fold(#[trigger] a[i]) == ascii_fold(b[i])
}

fn fold_char(c: char) -> (r: char)
    ensures
        r == ascii_fold(c),
{
    if 'A' <= c && c <= 'Z' {
        let b: u8 = c as u8;
        assert(b == c as u32);
        (b + 32) as char
    } else {
        c
    }
}

/// Whether two names are equal ignoring ASCII case.
pub fn same_name_ignoring_case(a: &str, b: &str) -> (r: bool)
    ensures
        r == eq_ignore_ascii_case(a@, b@),
{
    let x = crate::text::chars_of(a);
    let y = crate::text::chars_of(b);
    if x.len() != y.len() {
        return false;
    }
    let mut i: usize = 0;
    while i < x.len()
        invariant
            i <= x.len() == y.len(),
            x@ == a@,
            y@ == b@,
            forall|k: int| 0 <= k < i ==> ascii_fold(#[trigger] x@[k]) == ascii_fold(y@[k]),
        decreases x.len() - i,
    {
        if fold_char(x[i]) != fold_char(y[i]) {
            return false;
        }
        i = i + 1;
    }
    true
}

/// Some existing name equals `name` ignoring ASCII case.
pub open spec fn has_column(existing: Seq<String>, name: Seq<char>) -> bool {
    exists|i: int| 0 <= i < existing.len() && eq_ignore_ascii_case(#[trigger] existing[i]@, name)
}

/// The statements of the later columns that the table lacks, in order.
pub open spec fn missing_statements(existing: Seq<String>, added: Seq<(&'static str, &'static str)>) -> Seq<&'static str>
    decreases added.len(),
{
    if added.len() == 0 {
        Seq::empty()
    } else {
        let rest = missing_statements(existing, added.drop_last());
        if has_column(existing, added.last().0@) {
            rest
        } else {
            rest.push(added.last().1)
        }
    }
}

/// Upgrading is safe to run again: a table that already has every later
/// column (names compared without ASCII case) needs no statement, and any
/// statement that is needed adds a column the table lacks.
pub proof fn lemma_upgrade_reruns_to_nothing(existing: Seq<String>, added: Seq<(&'static str, &'static str)>)
    ensures
        (forall|i: int| 0 <= i < added.len() ==> has_column(existing, #[trigger] added[i].0@))
            ==> missing_statements(existing, added).len() == 0,
        forall|j: int| 0 <= j < missing_statements(existing, added).len() ==> exists|i: int|
            0 <= i < added.len() && !has_column(existing, added[i].0@) && #[trigger] missing_statements(
                existing,
                added,
            )[j] == added[i].1,
    decreases added.len(),
{
    if added.len() > 0 {
        lemma_upgrade_reruns_to_nothing(existing, added.drop_last());
        let rest = missing_statements(existing, added.drop_last());
        let all = missing_statements(existing, added);
        if forall|i: int| 0 <= i < added.len() ==> has_column(existing, #[trigger] added[i].0@) {
            assert forall|i: int| 0 <= i < added.drop_last().len() implies has_column(
                existing,
                #[trigger] added.drop_last()[i].0@,
            ) by {
                assert(added.drop_last()[i] == added[i]);
            }
            assert(has_column(existing, added[added.len() - 1].0@));
        }
        assert forall|j: int| 0 <= j < all.len() implies exists|i: int|
            0 <= i < added.len() && !has_column(existing, added[i].0@) && #[trigger] all[j] == added[i].1 by {
            if j < rest.len() {
                assert(all[j] == rest[j]);
                let i = choose|i: int|
                    0 <= i < added.drop_last().len() && !has_column(existing, added.drop_last()[i].0@)
                        && #[trigger] rest[j] == added.drop_last()[i].1;
                assert(added.drop_last()[i] == added[i]);
            } else {
                assert(all[j] == added[added.len() - 1].1);
            }
        }
    }
}

fn contains_column(existing: &Vec<String>, name: &str) -> (r: bool)
    ensures
        r == has_column(existing@, name@),
{
    let mut i: usize = 0;
    while i < existing.len()
        invariant
            i <= existing.len(),
            forall|k: int| 0 <= k < i ==> !eq_ignore_ascii_case(#[trigger] existing@[k]@, name@),
        decreases existing.len() - i,
    {
        if same_name_ignoring_case(existing[i].as_str(), name) {
            return true;
        }
        i = i + 1;
    }
    false
}

/// The statements that add the later columns a table lacks (names compared
/// without ASCII case), so that upgrading is safe to run again.
pub fn missing_column_statements(existing: &Vec<String>, added: &Vec<(&'static str, &'static str)>) -> (r: Vec<
    &'static str,
>)
    ensures
        r@ == missing_statements(existing@, added@),
{
    let mut r: Vec<&'static str> = Vec::new();
    let mut i: usize = 0;
    while i < added.len()
        invariant
            i <= added.len(),
            r@ == missing_statements(existing@, added@.take(i as int)),
        decreases added.len() - i,
    {
        proof {
            assert(added@.take(i + 1).drop_last() =~= added@.take(i as int));
        }
        if !contains_column(existing, added[i].0) {
            r.push(added[i].1);
        }
        i = i + 1;
    }
    assert(added@.take(added.len() as int) =~= added@);
    r
}

} // verus!
