use liftlog_store::error::MigrationCause;
use liftlog_store::schema::ColType;
use liftlog_store::script::{parse_script, Stmt};

#[test]
fn parse_create_table() {
    let v = parse_script(
        "CREATE TABLE t ( id INTEGER NOT NULL PRIMARY KEY , note TEXT , done SMALLINT NOT NULL ) ;",
    )
    .unwrap();
    assert_eq!(v.len(), 1);
    match &v[0] {
        Stmt::CreateTable { table } => {
            assert_eq!(table.name, "t");
            assert_eq!(table.cols.len(), 3);
            assert_eq!(table.cols[0].name, "id");
            assert_eq!(table.cols[0].ty, ColType::Integer);
            assert!(!table.cols[0].nullable);
            assert!(table.cols[0].primary);
            assert_eq!(table.cols[1].name, "note");
            assert_eq!(table.cols[1].ty, ColType::Text);
            assert!(table.cols[1].nullable);
            assert!(!table.cols[1].primary);
            assert_eq!(table.cols[2].ty, ColType::SmallInt);
            assert!(!table.cols[2].nullable);
        },
        other => panic!("expected a CREATE TABLE, got {:?}", other),
    }
}

#[test]
fn parse_alter_and_drop() {
    let v = parse_script(
        "ALTER TABLE t ADD COLUMN pace FLOAT ; DROP TABLE old_t ;",
    )
    .unwrap();
    assert_eq!(v.len(), 2);
    match &v[0] {
        Stmt::AddColumn { table, col } => {
            assert_eq!(table, "t");
            assert_eq!(col.name, "pace");
            assert_eq!(col.ty, ColType::Float);
            assert!(col.nullable);
        },
        other => panic!("expected an ALTER TABLE, got {:?}", other),
    }
    match &v[1] {
        Stmt::DropTable { table } => assert_eq!(table, "old_t"),
        other => panic!("expected a DROP TABLE, got {:?}", other),
    }
}

#[test]
fn parse_empty_script() {
    assert_eq!(parse_script("").unwrap().len(), 0);
    assert_eq!(parse_script("  \n\t ").unwrap().len(), 0);
}

#[test]
fn parse_rejects_bad_scripts() {
    // missing terminator
    assert_eq!(
        parse_script("DROP TABLE t"),
        Err(MigrationCause::InvalidScript)
    );
    // punctuation must be space-separated
    assert_eq!(
        parse_script("CREATE TABLE t (id INTEGER);"),
        Err(MigrationCause::InvalidScript)
    );
    // a table name cannot start with a digit
    assert_eq!(
        parse_script("DROP TABLE 9lives ;"),
        Err(MigrationCause::InvalidScript)
    );
    // unknown column type
    assert_eq!(
        parse_script("CREATE TABLE t ( id BLOB ) ;"),
        Err(MigrationCause::InvalidScript)
    );
    // empty column list
    assert_eq!(
        parse_script("CREATE TABLE t ( ) ;"),
        Err(MigrationCause::InvalidScript)
    );
    // stray tokens after a statement
    assert_eq!(
        parse_script("DROP TABLE t ; whatever"),
        Err(MigrationCause::InvalidScript)
    );
}

#[test]
fn parse_rename_column() {
    let v = parse_script("ALTER TABLE routines RENAME COLUMN is_schedule_weekly TO schedule_type ;")
        .unwrap();
    assert_eq!(v.len(), 1);
    match &v[0] {
        Stmt::RenameColumn { table, from, to } => {
            assert_eq!(table, "routines");
            assert_eq!(from, "is_schedule_weekly");
            assert_eq!(to, "schedule_type");
        },
        other => panic!("expected a RENAME COLUMN, got {:?}", other),
    }
    // the renamed-to name must be an identifier, and TO is required
    assert_eq!(
        parse_script("ALTER TABLE t RENAME COLUMN a b ;"),
        Err(MigrationCause::InvalidScript)
    );
    assert_eq!(
        parse_script("ALTER TABLE t RENAME COLUMN a TO 9b ;"),
        Err(MigrationCause::InvalidScript)
    );
}

#[test]
fn parse_default_clause() {
    let v = parse_script("ALTER TABLE t ADD COLUMN level FLOAT NOT NULL DEFAULT 0 ;").unwrap();
    assert_eq!(v.len(), 1);
    match &v[0] {
        Stmt::AddColumn { table, col } => {
            assert_eq!(table, "t");
            assert_eq!(col.name, "level");
            assert_eq!(col.ty, ColType::Float);
            assert!(!col.nullable);
        },
        other => panic!("expected an ADD COLUMN, got {:?}", other),
    }
    // a DEFAULT clause needs its value token
    assert_eq!(
        parse_script("ALTER TABLE t ADD COLUMN x TEXT DEFAULT"),
        Err(MigrationCause::InvalidScript)
    );
}

#[test]
fn cause_labels() {
    assert_eq!(MigrationCause::InvalidScript.label(), "invalid script");
    assert_eq!(MigrationCause::TableAlreadyExists.label(), "table already exists");
    assert_eq!(MigrationCause::NoSuchTable.label(), "no such table");
    assert_eq!(MigrationCause::ColumnAlreadyExists.label(), "column already exists");
    assert_eq!(MigrationCause::NoSuchColumn.label(), "no such column");
    assert_eq!(MigrationCause::DuplicateColumn.label(), "duplicate column");
    assert_eq!(MigrationCause::StorageUnavailable.label(), "storage unavailable");
}
