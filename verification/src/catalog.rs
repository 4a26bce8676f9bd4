//! The migration catalog: the ordered, append-only list of schema
//! migration steps compiled into the application.
use vstd::prelude::*;

use crate::engine::{lemma_run_depends_on_scripts, spec_migrate};
use crate::schema::TableModel;

verus! {

/// One migration step: a version number, a human description and a
/// forward DDL script (see `script` for the accepted grammar).
#[derive(Debug, Clone, PartialEq)]
pub struct MigrationStep {
    pub version: u32,
    pub description: String,
    pub script: String,
}

/// The ordered catalog of migration steps.  A well-formed catalog
/// defines versions 1 through its length, in order, with no gaps.
#[derive(Debug, Clone, PartialEq)]
pub struct Catalog {
    pub steps: Vec<MigrationStep>,
}

/// The step at index `i` carries version `i + 1`: versions are
/// contiguous and ascending from 1.
pub open spec fn steps_wf(steps: Seq<MigrationStep>) -> bool {
    &&& steps.len() <= u32::MAX
    &&& forall|i: int| 0 <= i < steps.len() ==> #[trigger] steps[i].version == i + 1
}

impl Catalog {
    /// The step at index `i` carries version `i + 1`.
    pub open spec fn wf(self) -> bool {
        steps_wf(self.steps@)
    }

    /// The highest version the catalog defines; 0 when it is empty.
    pub open spec fn spec_max_version(self) -> int {
        self.steps@.len() as int
    }

    /// Decides whether the catalog is well-formed: versions contiguous
    /// and ascending from 1.
    pub fn check_wf(&self) -> (b: bool)
        ensures
            b == self.wf(),
    {
        if self.steps.len() > u32::MAX as usize {
            return false;
        }
        let mut i: usize = 0;
        while i < self.steps.len()
            invariant
                i <= self.steps@.len(),
                forall|j: int| 0 <= j < i ==> #[trigger] self.steps@[j].version == j + 1,
            decreases self.steps@.len() - i,
        {
            if self.steps[i].version as usize != i + 1 {
                return false;
            }
            i += 1;
        }
        true
    }

    /// The step a migration run applies next, given the highest
    /// version applied so far: the catalog's step directly above it,
    /// or nothing when the store is up to date.  Drives the loop that
    /// executes steps against a store, wherever that store lives.
    pub fn next_pending(&self, current: u32) -> (r: Option<&MigrationStep>)
        requires
            self.wf(),
        ensures
            match r {
                Some(s) => {
                    &&& (current as int) < self.steps@.len()
                    &&& *s == self.steps@[current as int]
                    &&& s.version == current + 1
                },
                None => current >= self.steps@.len(),
            },
    {
        if (current as usize) < self.steps.len() {
            Some(&self.steps[current as usize])
        } else {
            None
        }
    }

    /// The highest version the catalog defines.
    pub fn max_version(&self) -> (v: u32)
        requires
            self.wf(),
        ensures
            v == self.spec_max_version(),
    {
        self.steps.len() as u32
    }
}

/// The text of each built-in migration step, one spec function per
/// version, so that `builtin_catalog`'s contract can pin the exact
/// script every step carries.
pub open spec fn script_v1() -> Seq<char> {
    "
                CREATE TABLE routines (
                    id INTEGER NOT NULL PRIMARY KEY ,
                    name TEXT NOT NULL ,
                    note TEXT ,
                    is_schedule_weekly SMALLINT NOT NULL ,
                    num_days_in_schedule INTEGER NOT NULL ,
                    start_day INTEGER NOT NULL ,
                    workout_template_order TEXT
                ) ;
                CREATE TABLE exercises (
                    id INTEGER NOT NULL PRIMARY KEY ,
                    name TEXT NOT NULL ,
                    exercise_group_set_string_primary TEXT NOT NULL ,
                    exercise_group_set_string_secondary TEXT ,
                    note TEXT ,
                    is_favorite SMALLINT NOT NULL
                ) ;
                CREATE TABLE workout_templates (
                    id INTEGER NOT NULL PRIMARY KEY ,
                    name TEXT NOT NULL ,
                    exercise_order TEXT NOT NULL ,
                    note TEXT
                ) ;
                CREATE TABLE user_settings (
                    id INTEGER NOT NULL PRIMARY KEY ,
                    show_timestamp_on_completed_set SMALLINT NOT NULL ,
                    active_routine_id INTEGER NOT NULL ,
                    default_unit_weight TEXT NOT NULL ,
                    default_unit_distance TEXT NOT NULL ,
                    default_time_input TEXT NOT NULL
                ) ;
                "@
}

pub open spec fn script_v2() -> Seq<char> {
    "
                CREATE TABLE workout_routine_schedules (
                    id INTEGER NOT NULL PRIMARY KEY ,
                    day INTEGER NOT NULL ,
                    workout_template_id INTEGER NOT NULL ,
                    routine_id INTEGER NOT NULL
                ) ;
                CREATE TABLE workouts (
                    id INTEGER NOT NULL PRIMARY KEY ,
                    workout_template_id INTEGER NOT NULL ,
                    date TEXT NOT NULL ,
                    exercise_order TEXT NOT NULL ,
                    note TEXT ,
                    routine_id INTEGER NOT NULL
                ) ;
                CREATE TABLE sets (
                    id INTEGER NOT NULL PRIMARY KEY ,
                    workout_id INTEGER NOT NULL ,
                    exercise_id INTEGER NOT NULL ,
                    is_template SMALLINT NOT NULL ,
                    workout_template_id INTEGER NOT NULL ,
                    note TEXT ,
                    comment TEXT ,
                    is_completed SMALLINT NOT NULL ,
                    time_completed TEXT ,
                    is_warmup SMALLINT NOT NULL ,
                    weight FLOAT NOT NULL ,
                    reps INTEGER NOT NULL ,
                    rir INTEGER NOT NULL ,
                    rpe INTEGER NOT NULL ,
                    time_in_seconds INTEGER NOT NULL ,
                    distance FLOAT NOT NULL ,
                    resistance_level FLOAT NOT NULL ,
                    partial_reps INTEGER NOT NULL ,
                    is_tracking_weight SMALLINT NOT NULL ,
                    is_tracking_reps SMALLINT NOT NULL ,
                    is_tracking_rir SMALLINT NOT NULL ,
                    is_tracking_rpe SMALLINT NOT NULL ,
                    is_tracking_time SMALLINT NOT NULL ,
                    is_tracking_distance SMALLINT NOT NULL ,
                    is_tracking_resistance_level SMALLINT NOT NULL ,
                    is_tracking_partial_reps SMALLINT NOT NULL ,
                    weight_unit TEXT NOT NULL ,
                    distance_unit TEXT NOT NULL ,
                    multiset_id INTEGER NOT NULL
                ) ;
                "@
}

pub open spec fn script_v3() -> Seq<char> {
    "
                CREATE TABLE user_weights (
                    id INTEGER NOT NULL PRIMARY KEY ,
                    weight FLOAT NOT NULL ,
                    weight_unit TEXT NOT NULL ,
                    date TEXT NOT NULL ,
                    comment TEXT ,
                    body_fat_percentage FLOAT
                ) ;
                CREATE TABLE equipment_weights (
                    id INTEGER NOT NULL PRIMARY KEY ,
                    name TEXT NOT NULL ,
                    weight FLOAT NOT NULL ,
                    weight_unit TEXT NOT NULL ,
                    is_favorite SMALLINT NOT NULL
                ) ;
                CREATE TABLE distances (
                    id INTEGER NOT NULL PRIMARY KEY ,
                    name TEXT NOT NULL ,
                    distance FLOAT NOT NULL ,
                    distance_unit TEXT NOT NULL ,
                    is_favorite SMALLINT NOT NULL
                ) ;
                CREATE TABLE measurements (
                    id INTEGER NOT NULL PRIMARY KEY ,
                    name TEXT NOT NULL ,
                    default_unit TEXT NOT NULL ,
                    measurement_type TEXT NOT NULL ,
                    is_favorite SMALLINT NOT NULL
                ) ;
                CREATE TABLE user_measurements (
                    id INTEGER NOT NULL PRIMARY KEY ,
                    date TEXT NOT NULL ,
                    comment TEXT ,
                    measurement_values TEXT NOT NULL
                ) ;
                "@
}

pub open spec fn script_v4() -> Seq<char> {
    "
                CREATE TABLE multisets (
                    id INTEGER NOT NULL PRIMARY KEY ,
                    multiset_type SMALLINT NOT NULL ,
                    set_order TEXT NOT NULL ,
                    is_template SMALLINT NOT NULL ,
                    note TEXT
                ) ;
                CREATE TABLE plate_collections (
                    id INTEGER NOT NULL PRIMARY KEY ,
                    name TEXT NOT NULL ,
                    handle_id INTEGER NOT NULL ,
                    available_plates_string TEXT NOT NULL ,
                    num_handles INTEGER NOT NULL ,
                    weight_unit TEXT NOT NULL
                ) ;
                "@
}

pub open spec fn script_v5() -> Seq<char> {
    "
                CREATE TABLE time_periods (
                    id INTEGER NOT NULL PRIMARY KEY ,
                    name TEXT NOT NULL ,
                    start_date TEXT ,
                    end_date TEXT ,
                    note TEXT ,
                    diet_phase TEXT ,
                    injury TEXT
                ) ;
                CREATE TABLE diet_logs (
                    id INTEGER NOT NULL PRIMARY KEY ,
                    date TEXT NOT NULL ,
                    calories INTEGER NOT NULL ,
                    fat INTEGER ,
                    carbs INTEGER ,
                    protein INTEGER ,
                    comment TEXT
                ) ;
                "@
}

pub open spec fn script_v6() -> Seq<char> {
    "
                ALTER TABLE routines RENAME COLUMN is_schedule_weekly TO schedule_type ;
                ALTER TABLE exercises RENAME COLUMN exercise_group_set_string_secondary TO exercise_group_map_string_secondary ;
                ALTER TABLE exercises ADD COLUMN calculation_string TEXT NOT NULL DEFAULT '' ;
                ALTER TABLE exercises ADD COLUMN chart_load_exercise_options TEXT NOT NULL DEFAULT '' ;
                ALTER TABLE exercises ADD COLUMN chart_load_exercise_options_categories TEXT NOT NULL DEFAULT '' ;
                "@
}

pub open spec fn script_v7() -> Seq<char> {
    "
                ALTER TABLE user_settings ADD COLUMN default_unit_measurement TEXT NOT NULL DEFAULT '' ;
                ALTER TABLE user_settings ADD COLUMN active_tracking_measurements TEXT NOT NULL DEFAULT '' ;
                ALTER TABLE user_settings ADD COLUMN locale TEXT NOT NULL DEFAULT '' ;
                ALTER TABLE user_settings ADD COLUMN clock_style TEXT NOT NULL DEFAULT '' ;
                ALTER TABLE user_settings ADD COLUMN time_input_behavior_hhmmss TEXT NOT NULL DEFAULT '' ;
                ALTER TABLE user_settings ADD COLUMN time_input_behavior_mmss TEXT NOT NULL DEFAULT '' ;
                ALTER TABLE user_settings ADD COLUMN default_increment_weight FLOAT NOT NULL DEFAULT 0 ;
                ALTER TABLE user_settings ADD COLUMN default_increment_distance FLOAT NOT NULL DEFAULT 0 ;
                ALTER TABLE user_settings ADD COLUMN default_increment_time INTEGER NOT NULL DEFAULT 0 ;
                ALTER TABLE user_settings ADD COLUMN default_increment_resistance_level FLOAT NOT NULL DEFAULT 0 ;
                ALTER TABLE user_settings ADD COLUMN save_calculation_string SMALLINT NOT NULL DEFAULT 0 ;
                ALTER TABLE user_settings ADD COLUMN show_calculation_buttons SMALLINT NOT NULL DEFAULT 0 ;
                ALTER TABLE user_settings ADD COLUMN default_increment_calculation_multiplier FLOAT NOT NULL DEFAULT 0 ;
                ALTER TABLE user_settings ADD COLUMN default_calculation_tab TEXT NOT NULL DEFAULT '' ;
                ALTER TABLE user_settings ADD COLUMN shown_workout_properties TEXT NOT NULL DEFAULT '' ;
                ALTER TABLE user_settings ADD COLUMN default_plate_collection_id INTEGER NOT NULL DEFAULT 0 ;
                ALTER TABLE user_settings ADD COLUMN show_secondary_exercise_groups SMALLINT NOT NULL DEFAULT 0 ;
                ALTER TABLE user_settings ADD COLUMN automatically_update_active_measurements SMALLINT NOT NULL DEFAULT 0 ;
                ALTER TABLE user_settings ADD COLUMN default_num_new_sets TEXT NOT NULL DEFAULT '' ;
                ALTER TABLE user_settings ADD COLUMN shown_time_period_properties TEXT NOT NULL DEFAULT '' ;
                ALTER TABLE user_settings ADD COLUMN default_diet_log_day_is_yesterday SMALLINT NOT NULL DEFAULT 0 ;
                ALTER TABLE user_settings ADD COLUMN show_warmups_in_exercise_details SMALLINT NOT NULL DEFAULT 0 ;
                ALTER TABLE user_settings ADD COLUMN show_multisets_in_exercise_details SMALLINT NOT NULL DEFAULT 0 ;
                ALTER TABLE user_settings ADD COLUMN show_pace_in_exercise_details SMALLINT NOT NULL DEFAULT 0 ;
                ALTER TABLE sets ADD COLUMN is_tracking_user_weight SMALLINT NOT NULL DEFAULT 0 ;
                ALTER TABLE sets ADD COLUMN user_weight FLOAT NOT NULL DEFAULT 0 ;
                ALTER TABLE sets ADD COLUMN user_weight_unit TEXT NOT NULL DEFAULT '' ;
                ALTER TABLE workouts ADD COLUMN rating_general SMALLINT NOT NULL DEFAULT 0 ;
                ALTER TABLE workouts ADD COLUMN rating_energy SMALLINT NOT NULL DEFAULT 0 ;
                ALTER TABLE workouts ADD COLUMN rating_injury SMALLINT NOT NULL DEFAULT 0 ;
                ALTER TABLE workouts ADD COLUMN rating_sleep SMALLINT NOT NULL DEFAULT 0 ;
                ALTER TABLE workouts ADD COLUMN rating_calories SMALLINT NOT NULL DEFAULT 0 ;
                ALTER TABLE workouts ADD COLUMN rating_fasting SMALLINT NOT NULL DEFAULT 0 ;
                ALTER TABLE workouts ADD COLUMN rating_time SMALLINT NOT NULL DEFAULT 0 ;
                ALTER TABLE workouts ADD COLUMN rating_stress SMALLINT NOT NULL DEFAULT 0 ;
                "@
}

/// Pins the full content of the built-in catalog: seven steps,
/// versions 1 through 7, each with its exact script text and its
/// description.  Everything a run over the catalog does — which
/// statements each step holds, which schema a fresh store converges
/// to, where an older file resumes — follows from these texts through
/// `spec_parse_script` and `spec_migrate`
/// (`lemma_builtin_schema_determined`).
pub open spec fn builtin_pinned(c: Catalog) -> bool {
    &&& c.wf()
    &&& c.steps@.len() == crate::CURRENT_VERSION
    &&& c.steps@[0].script@ == script_v1()
    &&& c.steps@[1].script@ == script_v2()
    &&& c.steps@[2].script@ == script_v3()
    &&& c.steps@[3].script@ == script_v4()
    &&& c.steps@[4].script@ == script_v5()
    &&& c.steps@[5].script@ == script_v6()
    &&& c.steps@[6].script@ == script_v7()
    &&& c.steps@[0].description@ == "initial routine and exercise tables"@
    &&& c.steps@[1].description@ == "workouts, sets and schedule placements"@
    &&& c.steps@[2].description@ == "body measurements and reference data"@
    &&& c.steps@[3].description@ == "multisets and plate collections"@
    &&& c.steps@[4].description@ == "time periods and diet logs"@
    &&& c.steps@[5].description@ == "canonical routine and exercise shapes"@
    &&& c.steps@[6].description@ == "full user settings, bodyweight tracking in sets, workout ratings"@
}

/// The pinned step texts determine the outcome: any two catalogs that
/// satisfy `builtin_pinned` take a fresh store through the same schema
/// shapes to the same final schema and the same result, whatever clock
/// readings the runs record.  The canonical Schema Catalog shape is
/// therefore a single well-defined consequence of `builtin_catalog`'s
/// contract; the crate's tests exercise it concretely, table by table.
pub proof fn lemma_builtin_schema_determined(c1: Catalog, c2: Catalog, at1: i64, at2: i64)
    requires
        builtin_pinned(c1),
        builtin_pinned(c2),
    ensures
        ({
            let m1 = spec_migrate(Seq::empty(), Seq::empty(), c1.steps@, at1);
            let m2 = spec_migrate(Seq::empty(), Seq::empty(), c2.steps@, at2);
            m1.schema == m2.schema && m1.result == m2.result
        }),
{
    let s1 = c1.steps@;
    let s2 = c2.steps@;
    assert(s1.skip(0) =~= s1);
    assert(s2.skip(0) =~= s2);
    assert forall|k: int| 0 <= k < s1.len() implies #[trigger] s1[k].script@
        == s2[k].script@ by {
        if k == 0 {
        } else if k == 1 {
        } else if k == 2 {
        } else if k == 3 {
        } else if k == 4 {
        } else if k == 5 {
        } else {
            assert(k == 6);
        }
    }
    lemma_run_depends_on_scripts(Seq::empty(), s1, s2);
}

/// The application's own migration catalog: the schema history of the
/// fitness-tracking store, normalized into one append-only sequence.
/// Versions 1 through 5 create the tables, two of them in shapes that
/// were later superseded (a weekly flag instead of a schedule kind, a
/// set-string where a map-string now stands); versions 6 and 7 bring
/// those tables to the canonical shape through `RENAME COLUMN` and
/// `ADD COLUMN ... DEFAULT` alone, so a storage engine replaying them
/// keeps every row already on disk.  Released steps are never edited:
/// corrections are new steps with higher versions.
pub fn builtin_catalog() -> (r: Catalog)
    ensures
        builtin_pinned(r),
{
    let mut steps: Vec<MigrationStep> = Vec::new();
    steps.push(
        MigrationStep {
            version: 1,
            description: String::from_str("initial routine and exercise tables"),
            script: String::from_str(
                "
                CREATE TABLE routines (
                    id INTEGER NOT NULL PRIMARY KEY ,
                    name TEXT NOT NULL ,
                    note TEXT ,
                    is_schedule_weekly SMALLINT NOT NULL ,
                    num_days_in_schedule INTEGER NOT NULL ,
                    start_day INTEGER NOT NULL ,
                    workout_template_order TEXT
                ) ;
                CREATE TABLE exercises (
                    id INTEGER NOT NULL PRIMARY KEY ,
                    name TEXT NOT NULL ,
                    exercise_group_set_string_primary TEXT NOT NULL ,
                    exercise_group_set_string_secondary TEXT ,
                    note TEXT ,
                    is_favorite SMALLINT NOT NULL
                ) ;
                CREATE TABLE workout_templates (
                    id INTEGER NOT NULL PRIMARY KEY ,
                    name TEXT NOT NULL ,
                    exercise_order TEXT NOT NULL ,
                    note TEXT
                ) ;
                CREATE TABLE user_settings (
                    id INTEGER NOT NULL PRIMARY KEY ,
                    show_timestamp_on_completed_set SMALLINT NOT NULL ,
                    active_routine_id INTEGER NOT NULL ,
                    default_unit_weight TEXT NOT NULL ,
                    default_unit_distance TEXT NOT NULL ,
                    default_time_input TEXT NOT NULL
                ) ;
                ",
            ),
        },
    );
    steps.push(
        MigrationStep {
            version: 2,
            description: String::from_str("workouts, sets and schedule placements"),
            script: String::from_str(
                "
                CREATE TABLE workout_routine_schedules (
                    id INTEGER NOT NULL PRIMARY KEY ,
                    day INTEGER NOT NULL ,
                    workout_template_id INTEGER NOT NULL ,
                    routine_id INTEGER NOT NULL
                ) ;
                CREATE TABLE workouts (
                    id INTEGER NOT NULL PRIMARY KEY ,
                    workout_template_id INTEGER NOT NULL ,
                    date TEXT NOT NULL ,
                    exercise_order TEXT NOT NULL ,
                    note TEXT ,
                    routine_id INTEGER NOT NULL
                ) ;
                CREATE TABLE sets (
                    id INTEGER NOT NULL PRIMARY KEY ,
                    workout_id INTEGER NOT NULL ,
                    exercise_id INTEGER NOT NULL ,
                    is_template SMALLINT NOT NULL ,
                    workout_template_id INTEGER NOT NULL ,
                    note TEXT ,
                    comment TEXT ,
                    is_completed SMALLINT NOT NULL ,
                    time_completed TEXT ,
                    is_warmup SMALLINT NOT NULL ,
                    weight FLOAT NOT NULL ,
                    reps INTEGER NOT NULL ,
                    rir INTEGER NOT NULL ,
                    rpe INTEGER NOT NULL ,
                    time_in_seconds INTEGER NOT NULL ,
                    distance FLOAT NOT NULL ,
                    resistance_level FLOAT NOT NULL ,
                    partial_reps INTEGER NOT NULL ,
                    is_tracking_weight SMALLINT NOT NULL ,
                    is_tracking_reps SMALLINT NOT NULL ,
                    is_tracking_rir SMALLINT NOT NULL ,
                    is_tracking_rpe SMALLINT NOT NULL ,
                    is_tracking_time SMALLINT NOT NULL ,
                    is_tracking_distance SMALLINT NOT NULL ,
                    is_tracking_resistance_level SMALLINT NOT NULL ,
                    is_tracking_partial_reps SMALLINT NOT NULL ,
                    weight_unit TEXT NOT NULL ,
                    distance_unit TEXT NOT NULL ,
                    multiset_id INTEGER NOT NULL
                ) ;
                ",
            ),
        },
    );
    steps.push(
        MigrationStep {
            version: 3,
            description: String::from_str("body measurements and reference data"),
            script: String::from_str(
                "
                CREATE TABLE user_weights (
                    id INTEGER NOT NULL PRIMARY KEY ,
                    weight FLOAT NOT NULL ,
                    weight_unit TEXT NOT NULL ,
                    date TEXT NOT NULL ,
                    comment TEXT ,
                    body_fat_percentage FLOAT
                ) ;
                CREATE TABLE equipment_weights (
                    id INTEGER NOT NULL PRIMARY KEY ,
                    name TEXT NOT NULL ,
                    weight FLOAT NOT NULL ,
                    weight_unit TEXT NOT NULL ,
                    is_favorite SMALLINT NOT NULL
                ) ;
                CREATE TABLE distances (
                    id INTEGER NOT NULL PRIMARY KEY ,
                    name TEXT NOT NULL ,
                    distance FLOAT NOT NULL ,
                    distance_unit TEXT NOT NULL ,
                    is_favorite SMALLINT NOT NULL
                ) ;
                CREATE TABLE measurements (
                    id INTEGER NOT NULL PRIMARY KEY ,
                    name TEXT NOT NULL ,
                    default_unit TEXT NOT NULL ,
                    measurement_type TEXT NOT NULL ,
                    is_favorite SMALLINT NOT NULL
                ) ;
                CREATE TABLE user_measurements (
                    id INTEGER NOT NULL PRIMARY KEY ,
                    date TEXT NOT NULL ,
                    comment TEXT ,
                    measurement_values TEXT NOT NULL
                ) ;
                ",
            ),
        },
    );
    steps.push(
        MigrationStep {
            version: 4,
            description: String::from_str("multisets and plate collections"),
            script: String::from_str(
                "
                CREATE TABLE multisets (
                    id INTEGER NOT NULL PRIMARY KEY ,
                    multiset_type SMALLINT NOT NULL ,
                    set_order TEXT NOT NULL ,
                    is_template SMALLINT NOT NULL ,
                    note TEXT
                ) ;
                CREATE TABLE plate_collections (
                    id INTEGER NOT NULL PRIMARY KEY ,
                    name TEXT NOT NULL ,
                    handle_id INTEGER NOT NULL ,
                    available_plates_string TEXT NOT NULL ,
                    num_handles INTEGER NOT NULL ,
                    weight_unit TEXT NOT NULL
                ) ;
                ",
            ),
        },
    );
    steps.push(
        MigrationStep {
            version: 5,
            description: String::from_str("time periods and diet logs"),
            script: String::from_str(
                "
                CREATE TABLE time_periods (
                    id INTEGER NOT NULL PRIMARY KEY ,
                    name TEXT NOT NULL ,
                    start_date TEXT ,
                    end_date TEXT ,
                    note TEXT ,
                    diet_phase TEXT ,
                    injury TEXT
                ) ;
                CREATE TABLE diet_logs (
                    id INTEGER NOT NULL PRIMARY KEY ,
                    date TEXT NOT NULL ,
                    calories INTEGER NOT NULL ,
                    fat INTEGER ,
                    carbs INTEGER ,
                    protein INTEGER ,
                    comment TEXT
                ) ;
                ",
            ),
        },
    );
    steps.push(
        MigrationStep {
            version: 6,
            description: String::from_str("canonical routine and exercise shapes"),
            script: String::from_str(
                "
                ALTER TABLE routines RENAME COLUMN is_schedule_weekly TO schedule_type ;
                ALTER TABLE exercises RENAME COLUMN exercise_group_set_string_secondary TO exercise_group_map_string_secondary ;
                ALTER TABLE exercises ADD COLUMN calculation_string TEXT NOT NULL DEFAULT '' ;
                ALTER TABLE exercises ADD COLUMN chart_load_exercise_options TEXT NOT NULL DEFAULT '' ;
                ALTER TABLE exercises ADD COLUMN chart_load_exercise_options_categories TEXT NOT NULL DEFAULT '' ;
                ",
            ),
        },
    );
    steps.push(
        MigrationStep {
            version: 7,
            description: String::from_str("full user settings, bodyweight tracking in sets, workout ratings"),
            script: String::from_str(
                "
                ALTER TABLE user_settings ADD COLUMN default_unit_measurement TEXT NOT NULL DEFAULT '' ;
                ALTER TABLE user_settings ADD COLUMN active_tracking_measurements TEXT NOT NULL DEFAULT '' ;
                ALTER TABLE user_settings ADD COLUMN locale TEXT NOT NULL DEFAULT '' ;
                ALTER TABLE user_settings ADD COLUMN clock_style TEXT NOT NULL DEFAULT '' ;
                ALTER TABLE user_settings ADD COLUMN time_input_behavior_hhmmss TEXT NOT NULL DEFAULT '' ;
                ALTER TABLE user_settings ADD COLUMN time_input_behavior_mmss TEXT NOT NULL DEFAULT '' ;
                ALTER TABLE user_settings ADD COLUMN default_increment_weight FLOAT NOT NULL DEFAULT 0 ;
                ALTER TABLE user_settings ADD COLUMN default_increment_distance FLOAT NOT NULL DEFAULT 0 ;
                ALTER TABLE user_settings ADD COLUMN default_increment_time INTEGER NOT NULL DEFAULT 0 ;
                ALTER TABLE user_settings ADD COLUMN default_increment_resistance_level FLOAT NOT NULL DEFAULT 0 ;
                ALTER TABLE user_settings ADD COLUMN save_calculation_string SMALLINT NOT NULL DEFAULT 0 ;
                ALTER TABLE user_settings ADD COLUMN show_calculation_buttons SMALLINT NOT NULL DEFAULT 0 ;
                ALTER TABLE user_settings ADD COLUMN default_increment_calculation_multiplier FLOAT NOT NULL DEFAULT 0 ;
                ALTER TABLE user_settings ADD COLUMN default_calculation_tab TEXT NOT NULL DEFAULT '' ;
                ALTER TABLE user_settings ADD COLUMN shown_workout_properties TEXT NOT NULL DEFAULT '' ;
                ALTER TABLE user_settings ADD COLUMN default_plate_collection_id INTEGER NOT NULL DEFAULT 0 ;
                ALTER TABLE user_settings ADD COLUMN show_secondary_exercise_groups SMALLINT NOT NULL DEFAULT 0 ;
                ALTER TABLE user_settings ADD COLUMN automatically_update_active_measurements SMALLINT NOT NULL DEFAULT 0 ;
                ALTER TABLE user_settings ADD COLUMN default_num_new_sets TEXT NOT NULL DEFAULT '' ;
                ALTER TABLE user_settings ADD COLUMN shown_time_period_properties TEXT NOT NULL DEFAULT '' ;
                ALTER TABLE user_settings ADD COLUMN default_diet_log_day_is_yesterday SMALLINT NOT NULL DEFAULT 0 ;
                ALTER TABLE user_settings ADD COLUMN show_warmups_in_exercise_details SMALLINT NOT NULL DEFAULT 0 ;
                ALTER TABLE user_settings ADD COLUMN show_multisets_in_exercise_details SMALLINT NOT NULL DEFAULT 0 ;
                ALTER TABLE user_settings ADD COLUMN show_pace_in_exercise_details SMALLINT NOT NULL DEFAULT 0 ;
                ALTER TABLE sets ADD COLUMN is_tracking_user_weight SMALLINT NOT NULL DEFAULT 0 ;
                ALTER TABLE sets ADD COLUMN user_weight FLOAT NOT NULL DEFAULT 0 ;
                ALTER TABLE sets ADD COLUMN user_weight_unit TEXT NOT NULL DEFAULT '' ;
                ALTER TABLE workouts ADD COLUMN rating_general SMALLINT NOT NULL DEFAULT 0 ;
                ALTER TABLE workouts ADD COLUMN rating_energy SMALLINT NOT NULL DEFAULT 0 ;
                ALTER TABLE workouts ADD COLUMN rating_injury SMALLINT NOT NULL DEFAULT 0 ;
                ALTER TABLE workouts ADD COLUMN rating_sleep SMALLINT NOT NULL DEFAULT 0 ;
                ALTER TABLE workouts ADD COLUMN rating_calories SMALLINT NOT NULL DEFAULT 0 ;
                ALTER TABLE workouts ADD COLUMN rating_fasting SMALLINT NOT NULL DEFAULT 0 ;
                ALTER TABLE workouts ADD COLUMN rating_time SMALLINT NOT NULL DEFAULT 0 ;
                ALTER TABLE workouts ADD COLUMN rating_stress SMALLINT NOT NULL DEFAULT 0 ;
                ",
            ),
        },
    );
    let c = Catalog { steps };
    proof {
        let s = c.steps@;
        assert(s.len() == 7);
        assert(s[0].version == 1);
        assert(s[1].version == 2);
        assert(s[2].version == 3);
        assert(s[3].version == 4);
        assert(s[4].version == 5);
        assert(s[5].version == 6);
        assert(s[6].version == 7);
        assert forall|i: int| 0 <= i < s.len() implies #[trigger] s[i].version == i + 1 by {
            if i == 0 {
            } else if i == 1 {
            } else if i == 2 {
            } else if i == 3 {
            } else if i == 4 {
            } else if i == 5 {
            } else {
                assert(i == 6);
            }
        }
    }
    c
}

} // verus!
