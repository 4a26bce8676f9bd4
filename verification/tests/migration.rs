use liftlog_store::catalog::{builtin_catalog, Catalog, MigrationStep};
use liftlog_store::error::{MigrationCause, StoreError};
use liftlog_store::models::{Exercise, Workout};
use liftlog_store::schema::ColType;
use liftlog_store::store::Store;
use liftlog_store::CURRENT_VERSION;

fn step(version: u32, description: &str, script: &str) -> MigrationStep {
    MigrationStep {
        version,
        description: description.to_string(),
        script: script.to_string(),
    }
}

fn sample_exercise() -> Exercise {
    Exercise {
        id: 0,
        name: "Bench Press".to_string(),
        exercise_group_set_string_primary: "chest".to_string(),
        exercise_group_map_string_secondary: Some("triceps:0.5".to_string()),
        note: None,
        is_favorite: 1,
        calculation_string: String::new(),
        chart_load_exercise_options: String::new(),
        chart_load_exercise_options_categories: String::new(),
    }
}

fn sample_workout() -> Workout {
    Workout {
        id: 0,
        workout_template_id: 0,
        date: "2024-05-01".to_string(),
        exercise_order: String::new(),
        note: None,
        rating_general: 0,
        rating_energy: 0,
        rating_injury: 0,
        rating_sleep: 0,
        rating_calories: 0,
        rating_fasting: 0,
        rating_time: 0,
        rating_stress: 0,
        routine_id: 0,
    }
}

#[test]
fn fresh_migrate_applies_all_steps() {
    let mut store = Store::fresh();
    let cat = builtin_catalog();
    assert!(cat.check_wf());
    let r = store.migrate(&cat, 1_700_000_000);
    assert_eq!(r, Ok(CURRENT_VERSION));
    assert_eq!(store.version(), CURRENT_VERSION);
    assert_eq!(store.ledger.entries.len() as u32, CURRENT_VERSION);
    for (i, e) in store.ledger.entries.iter().enumerate() {
        assert_eq!(e.version as usize, i + 1);
        assert_eq!(e.description, cat.steps[i].description);
        assert_eq!(e.applied_at, 1_700_000_000);
    }
}

#[test]
fn migrate_twice_is_idempotent() {
    let mut store = Store::fresh();
    let cat = builtin_catalog();
    assert_eq!(store.migrate(&cat, 1_700_000_000), Ok(CURRENT_VERSION));
    let ledger_before = store.ledger.clone();
    let schema_before = store.schema.clone();
    // a later clock reading must not change anything: no step is pending
    let r2 = store.migrate(&cat, 1_800_000_000);
    assert_eq!(r2, Ok(CURRENT_VERSION));
    assert_eq!(store.ledger, ledger_before);
    assert_eq!(store.schema, schema_before);
}

#[test]
fn migrate_resumes_from_partial_version() {
    // an old file that was last written at version 3 migrates forward
    let cat = builtin_catalog();
    let mut store = Store::fresh();
    let half = Catalog {
        steps: cat.steps[..3].to_vec(),
    };
    assert!(half.check_wf());
    assert_eq!(store.migrate(&half, 10), Ok(3));
    assert_eq!(store.version(), 3);
    assert_eq!(store.migrate(&cat, 20), Ok(CURRENT_VERSION));
    assert_eq!(store.version(), CURRENT_VERSION);
    // the first three records keep their original timestamp
    assert_eq!(store.ledger.entries[2].applied_at, 10);
    assert_eq!(store.ledger.entries[3].applied_at, 20);
}

#[test]
fn migrated_schema_has_canonical_shape() {
    let mut store = Store::fresh();
    let cat = builtin_catalog();
    assert_eq!(store.migrate(&cat, 0), Ok(CURRENT_VERSION));
    let tables = [
        "routines",
        "user_settings",
        "exercises",
        "workout_templates",
        "workout_routine_schedules",
        "workouts",
        "sets",
        "multisets",
        "user_weights",
        "equipment_weights",
        "distances",
        "measurements",
        "user_measurements",
        "plate_collections",
        "time_periods",
        "diet_logs",
    ];
    for t in tables.iter() {
        assert!(store.schema.contains_table(t), "missing table {}", t);
    }
    assert_eq!(store.schema.tables.len(), 16);
    // canonical conventions: id INTEGER primary key, flags SMALLINT,
    // numeric values FLOAT, optional text nullable
    assert_eq!(
        store.schema.column_info("routines", "id"),
        Some((ColType::Integer, false, true))
    );
    assert_eq!(
        store.schema.column_info("routines", "schedule_type"),
        Some((ColType::SmallInt, false, false))
    );
    assert_eq!(
        store.schema.column_info("routines", "note"),
        Some((ColType::Text, true, false))
    );
    assert_eq!(
        store.schema.column_info("sets", "user_weight"),
        Some((ColType::Float, false, false))
    );
    assert_eq!(
        store.schema.column_info("workouts", "rating_stress"),
        Some((ColType::SmallInt, false, false))
    );
    assert_eq!(
        store.schema.column_info("exercises", "exercise_group_map_string_secondary"),
        Some((ColType::Text, true, false))
    );
    assert_eq!(
        store.schema.column_info("user_weights", "body_fat_percentage"),
        Some((ColType::Float, true, false))
    );
    assert_eq!(
        store.schema.column_info("exercises", "calculation_string"),
        Some((ColType::Text, false, false))
    );
    assert_eq!(
        store.schema.column_info("sets", "is_tracking_user_weight"),
        Some((ColType::SmallInt, false, false))
    );
    // superseded shapes are gone
    assert_eq!(store.schema.column_info("routines", "is_schedule_weekly"), None);
    assert_eq!(
        store.schema.column_info("exercises", "exercise_group_set_string_secondary"),
        None
    );
}

#[test]
fn failing_step_pins_version() {
    let cat = Catalog {
        steps: vec![
            step(1, "one", "CREATE TABLE a ( id INTEGER NOT NULL PRIMARY KEY ) ;"),
            step(2, "two", "CREATE TABLE a ( id INTEGER NOT NULL PRIMARY KEY ) ;"),
            step(3, "three", "CREATE TABLE b ( id INTEGER NOT NULL PRIMARY KEY ) ;"),
        ],
    };
    assert!(cat.check_wf());
    let mut store = Store::fresh();
    let failure = Err(StoreError::MigrationError {
        version: 2,
        cause: MigrationCause::TableAlreadyExists,
    });
    assert_eq!(store.migrate(&cat, 7), failure);
    assert_eq!(store.version(), 1);
    // later steps were not attempted
    assert!(!store.schema.contains_table("b"));
    // a retry under the same conditions fails the same way and appends nothing
    assert_eq!(store.migrate(&cat, 8), failure);
    assert_eq!(store.version(), 1);
    // the ledger reaches 2 only once step 2 itself succeeds
    let fixed = Catalog {
        steps: vec![
            cat.steps[0].clone(),
            step(2, "two", "CREATE TABLE a_extra ( id INTEGER NOT NULL PRIMARY KEY ) ;"),
            cat.steps[2].clone(),
        ],
    };
    assert!(fixed.check_wf());
    assert_eq!(store.migrate(&fixed, 9), Ok(3));
    assert_eq!(store.version(), 3);
    assert!(store.schema.contains_table("b"));
}

#[test]
fn failed_step_applies_nothing_of_its_script() {
    let cat = Catalog {
        steps: vec![
            step(1, "one", "CREATE TABLE a ( id INTEGER NOT NULL PRIMARY KEY ) ;"),
            step(
                2,
                "two",
                "CREATE TABLE b ( id INTEGER NOT NULL PRIMARY KEY ) ; \
                 CREATE TABLE a ( id INTEGER NOT NULL PRIMARY KEY ) ;",
            ),
        ],
    };
    let mut store = Store::fresh();
    assert_eq!(
        store.migrate(&cat, 0),
        Err(StoreError::MigrationError {
            version: 2,
            cause: MigrationCause::TableAlreadyExists,
        })
    );
    // the step is one atomic unit: its first statement must not stick
    assert!(!store.schema.contains_table("b"));
    assert_eq!(store.version(), 1);
}

#[test]
fn invalid_script_fails_its_step() {
    let cat = Catalog {
        steps: vec![step(1, "bad", "CREATE TABLE ( id INTEGER ) ;")],
    };
    let mut store = Store::fresh();
    assert_eq!(
        store.migrate(&cat, 0),
        Err(StoreError::MigrationError {
            version: 1,
            cause: MigrationCause::InvalidScript,
        })
    );
    assert_eq!(store.version(), 0);
}

#[test]
fn alter_missing_table_fails() {
    let cat = Catalog {
        steps: vec![step(1, "bad", "ALTER TABLE ghosts ADD COLUMN note TEXT ;")],
    };
    let mut store = Store::fresh();
    assert_eq!(
        store.migrate(&cat, 0),
        Err(StoreError::MigrationError {
            version: 1,
            cause: MigrationCause::NoSuchTable,
        })
    );
}

#[test]
fn drop_missing_table_fails() {
    let cat = Catalog {
        steps: vec![step(1, "bad", "DROP TABLE ghosts ;")],
    };
    let mut store = Store::fresh();
    assert_eq!(
        store.migrate(&cat, 0),
        Err(StoreError::MigrationError {
            version: 1,
            cause: MigrationCause::NoSuchTable,
        })
    );
}

#[test]
fn duplicate_column_fails() {
    let cat = Catalog {
        steps: vec![step(
            1,
            "bad",
            "CREATE TABLE t ( a INTEGER NOT NULL , a TEXT ) ;",
        )],
    };
    let mut store = Store::fresh();
    assert_eq!(
        store.migrate(&cat, 0),
        Err(StoreError::MigrationError {
            version: 1,
            cause: MigrationCause::DuplicateColumn,
        })
    );
}

#[test]
fn steps_reshaping_populated_tables_preserve_rows() {
    // versions 6 and 7 run against tables that may hold data on disk:
    // they reshape only through RENAME COLUMN and ADD COLUMN with a
    // DEFAULT, never by dropping and recreating a table, so a storage
    // engine replaying them keeps every stored row.
    let cat = builtin_catalog();
    for step in &cat.steps[5..] {
        assert!(!step.script.contains("DROP"), "version {}", step.version);
        assert!(!step.script.contains("CREATE"), "version {}", step.version);
    }
}

#[test]
fn rename_missing_column_fails() {
    let cat = Catalog {
        steps: vec![
            step(1, "one", "CREATE TABLE t ( a INTEGER NOT NULL ) ;"),
            step(2, "two", "ALTER TABLE t RENAME COLUMN b TO c ;"),
        ],
    };
    let mut store = Store::fresh();
    assert_eq!(
        store.migrate(&cat, 0),
        Err(StoreError::MigrationError {
            version: 2,
            cause: MigrationCause::NoSuchColumn,
        })
    );
    assert_eq!(store.version(), 1);
}

#[test]
fn rename_to_taken_column_fails() {
    let cat = Catalog {
        steps: vec![
            step(1, "one", "CREATE TABLE t ( a INTEGER NOT NULL , b TEXT ) ;"),
            step(2, "two", "ALTER TABLE t RENAME COLUMN a TO b ;"),
        ],
    };
    let mut store = Store::fresh();
    assert_eq!(
        store.migrate(&cat, 0),
        Err(StoreError::MigrationError {
            version: 2,
            cause: MigrationCause::ColumnAlreadyExists,
        })
    );
}

#[test]
fn rename_keeps_column_shape() {
    let cat = Catalog {
        steps: vec![
            step(
                1,
                "one",
                "CREATE TABLE t ( id INTEGER NOT NULL PRIMARY KEY , old_flag SMALLINT NOT NULL ) ;",
            ),
            step(2, "two", "ALTER TABLE t RENAME COLUMN old_flag TO new_flag ;"),
        ],
    };
    let mut store = Store::fresh();
    assert_eq!(store.migrate(&cat, 0), Ok(2));
    assert_eq!(store.schema.column_info("t", "old_flag"), None);
    assert_eq!(
        store.schema.column_info("t", "new_flag"),
        Some((ColType::SmallInt, false, false))
    );
}

#[test]
fn existing_column_fails() {
    let cat = Catalog {
        steps: vec![
            step(1, "one", "CREATE TABLE t ( a INTEGER NOT NULL ) ;"),
            step(2, "two", "ALTER TABLE t ADD COLUMN a TEXT ;"),
        ],
    };
    let mut store = Store::fresh();
    assert_eq!(
        store.migrate(&cat, 0),
        Err(StoreError::MigrationError {
            version: 2,
            cause: MigrationCause::ColumnAlreadyExists,
        })
    );
    assert_eq!(store.version(), 1);
}

#[test]
fn next_pending_walks_the_catalog_in_order() {
    let cat = builtin_catalog();
    let mut v: u32 = 0;
    let mut seen = Vec::new();
    while let Some(s) = cat.next_pending(v) {
        seen.push(s.version);
        v = s.version;
    }
    assert_eq!(v, CURRENT_VERSION);
    let expected: Vec<u32> = (1..=CURRENT_VERSION).collect();
    assert_eq!(seen, expected);
    assert!(cat.next_pending(CURRENT_VERSION).is_none());
}

#[test]
fn catalog_with_version_gap_is_rejected() {
    let cat = Catalog {
        steps: vec![
            step(1, "one", "CREATE TABLE a ( id INTEGER NOT NULL PRIMARY KEY ) ;"),
            step(3, "three", "CREATE TABLE b ( id INTEGER NOT NULL PRIMARY KEY ) ;"),
        ],
    };
    assert!(!cat.check_wf());
}

#[test]
fn bootstrap_scenario_three_step_catalog() {
    let cat = Catalog {
        steps: vec![
            step(
                1,
                "exercises",
                "CREATE TABLE exercises ( id INTEGER NOT NULL PRIMARY KEY , name TEXT NOT NULL ) ;",
            ),
            step(
                2,
                "favorites",
                "ALTER TABLE exercises ADD COLUMN is_favorite SMALLINT NOT NULL ;",
            ),
            step(
                3,
                "workouts",
                "CREATE TABLE workouts ( id INTEGER NOT NULL PRIMARY KEY , exercise_order TEXT NOT NULL ) ;",
            ),
        ],
    };
    assert!(cat.check_wf());
    // bootstrap: a fresh, empty file
    let mut store = Store::fresh();
    assert_eq!(store.migrate(&cat, 42), Ok(3));
    assert!(store.schema.contains_table("exercises"));
    assert_eq!(
        store.schema.column_info("exercises", "is_favorite"),
        Some((ColType::SmallInt, false, false))
    );
    assert!(store.schema.contains_table("workouts"));
    let eid = store.exercises.insert(sample_exercise());
    let mut w = sample_workout();
    w.exercise_order = format!("{}", eid);
    let wid = store.workouts.insert(w);
    assert!(store.workouts.get(wid).is_some());
    assert_eq!(store.workouts.get(wid).unwrap().exercise_order, format!("{}", eid));
    let listed = store.exercises.list();
    assert_eq!(listed.len(), 1);
    assert_eq!(listed[0].id, eid);
    assert_eq!(listed[0].name, "Bench Press");
}
