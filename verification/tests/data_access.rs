use liftlog_store::catalog::builtin_catalog;
use liftlog_store::error::StoreError;
use liftlog_store::models::{
    DietLog, Distance, EquipmentWeight, Exercise, Measurement, MultisetGroup, PlateCollection,
    Routine, TimePeriod, UserMeasurement, UserSetting, UserWeight, WorkoutRoutineSchedule,
    WorkoutSet, WorkoutTemplate,
};
use liftlog_store::store::Store;
use liftlog_store::CURRENT_VERSION;

fn migrated() -> Store {
    let mut store = Store::fresh();
    let cat = builtin_catalog();
    assert_eq!(store.migrate(&cat, 1_700_000_000), Ok(CURRENT_VERSION));
    store
}

fn sample_setting() -> UserSetting {
    UserSetting {
        id: 0,
        show_timestamp_on_completed_set: 1,
        active_routine_id: 0,
        default_unit_weight: "kg".to_string(),
        default_unit_distance: "km".to_string(),
        default_time_input: "hhmmss".to_string(),
        default_unit_measurement: "cm".to_string(),
        active_tracking_measurements: String::new(),
        locale: "en-GB".to_string(),
        clock_style: "24h".to_string(),
        time_input_behavior_hhmmss: "first".to_string(),
        time_input_behavior_mmss: "second".to_string(),
        default_increment_weight: 2_500,
        default_increment_distance: 1_000,
        default_increment_time: 60,
        default_increment_resistance_level: 1_000,
        save_calculation_string: 1,
        show_calculation_buttons: 0,
        default_increment_calculation_multiplier: 1_000,
        default_calculation_tab: "plate".to_string(),
        shown_workout_properties: "template,routine".to_string(),
        default_plate_collection_id: 0,
        show_secondary_exercise_groups: 1,
        automatically_update_active_measurements: 0,
        default_num_new_sets: "3".to_string(),
        shown_time_period_properties: "diet-phase".to_string(),
        default_diet_log_day_is_yesterday: 0,
        show_warmups_in_exercise_details: 1,
        show_multisets_in_exercise_details: 1,
        show_pace_in_exercise_details: 0,
    }
}

fn sample_routine() -> Routine {
    Routine {
        id: 0,
        name: "Push Pull Legs".to_string(),
        note: None,
        schedule_type: 1,
        num_days_in_schedule: 7,
        start_day: 0,
        workout_template_order: None,
    }
}

fn sample_template() -> WorkoutTemplate {
    WorkoutTemplate {
        id: 0,
        name: "Push Day".to_string(),
        exercise_order: "1,2".to_string(),
        note: None,
    }
}

fn sample_set() -> WorkoutSet {
    WorkoutSet {
        id: 0,
        workout_id: 1,
        exercise_id: 1,
        is_template: 0,
        workout_template_id: 0,
        note: None,
        comment: None,
        is_completed: 0,
        time_completed: None,
        is_warmup: 0,
        weight: 42_500,
        reps: 8,
        rir: 2,
        rpe: 7,
        time_in_seconds: 0,
        distance: 0,
        resistance_level: 0,
        partial_reps: 0,
        is_tracking_weight: 0,
        is_tracking_reps: 1,
        is_tracking_rir: 1,
        is_tracking_rpe: 0,
        is_tracking_time: 0,
        is_tracking_distance: 0,
        is_tracking_resistance_level: 0,
        is_tracking_partial_reps: 0,
        is_tracking_user_weight: 0,
        weight_unit: "kg".to_string(),
        distance_unit: "km".to_string(),
        multiset_id: 0,
        user_weight: 80_000,
        user_weight_unit: "kg".to_string(),
    }
}

fn sample_exercise_row() -> Exercise {
    Exercise {
        id: 0,
        name: "Squat".to_string(),
        exercise_group_set_string_primary: "quads".to_string(),
        exercise_group_map_string_secondary: None,
        note: Some("low bar".to_string()),
        is_favorite: 0,
        calculation_string: String::new(),
        chart_load_exercise_options: String::new(),
        chart_load_exercise_options_categories: String::new(),
    }
}

#[test]
fn user_setting_singleton() {
    let mut store = migrated();
    assert!(store.get_user_setting().is_none());
    let s = sample_setting();
    let id = store.insert_user_setting(s.clone()).unwrap();
    assert_eq!(id, 1);
    let mut expected = s.clone();
    expected.id = id;
    assert_eq!(store.get_user_setting().unwrap(), &expected);
    // a second insertion violates the singleton invariant
    assert_eq!(
        store.insert_user_setting(sample_setting()),
        Err(StoreError::ConstraintViolation)
    );
    // and the stored row is untouched by the failed insert
    assert_eq!(store.get_user_setting().unwrap(), &expected);
}

#[test]
fn user_setting_update_and_delete() {
    let mut store = migrated();
    assert_eq!(
        store.update_user_setting(sample_setting()),
        Err(StoreError::NotFound)
    );
    assert_eq!(store.delete_user_setting(), Err(StoreError::NotFound));
    let id = store.insert_user_setting(sample_setting()).unwrap();
    let mut patch = sample_setting();
    patch.locale = "de-DE".to_string();
    store.update_user_setting(patch.clone()).unwrap();
    let got = store.get_user_setting().unwrap();
    assert_eq!(got.locale, "de-DE");
    assert_eq!(got.id, id);
    store.delete_user_setting().unwrap();
    assert!(store.get_user_setting().is_none());
}

#[test]
fn untracked_weight_round_trips() {
    let mut store = migrated();
    let mut s = sample_set();
    s.is_tracking_weight = 0;
    s.weight = 42_500;
    let id = store.sets.insert(s.clone());
    let got = store.sets.get(id).unwrap();
    // the untracked weight value is kept, not nulled out
    assert_eq!(got.weight, 42_500);
    assert_eq!(got.is_tracking_weight, 0);
    // and it survives an update/get round trip unchanged too
    let mut patch = s.clone();
    patch.weight = 37_250;
    patch.comment = Some("drop set".to_string());
    store.sets.update(id, patch.clone()).unwrap();
    let mut expected = patch;
    expected.id = id;
    assert_eq!(store.sets.get(id).unwrap(), &expected);
    assert_eq!(store.sets.get(id).unwrap().weight, 37_250);
}

#[test]
fn deleting_routine_keeps_schedule_row() {
    let mut store = migrated();
    let rid = store.insert_routine(sample_routine()).unwrap();
    let tid = store.workout_templates.insert(sample_template());
    let sid = store
        .insert_workout_routine_schedule(WorkoutRoutineSchedule {
            id: 0,
            day: 2,
            workout_template_id: tid,
            routine_id: rid,
        })
        .unwrap();
    store.delete_routine(rid).unwrap();
    assert!(store.routines.get(rid).is_none());
    // no cascade: the schedule row survives with its stale reference
    let sched = store.workout_routine_schedules.get(sid).unwrap();
    assert_eq!(sched.routine_id, rid);
    assert_eq!(sched.day, 2);
}

#[test]
fn invalid_routine_rejected() {
    let mut store = migrated();
    let mut bad = sample_routine();
    bad.schedule_type = 0;
    bad.num_days_in_schedule = 0;
    assert_eq!(
        store.insert_routine(bad.clone()),
        Err(StoreError::ConstraintViolation)
    );
    bad.schedule_type = 5;
    assert_eq!(store.insert_routine(bad), Err(StoreError::ConstraintViolation));
    // a valid custom cycle goes through
    let mut good = sample_routine();
    good.schedule_type = 0;
    good.num_days_in_schedule = 10;
    assert!(store.insert_routine(good).is_ok());
}

#[test]
fn routine_update_errors() {
    let mut store = migrated();
    let rid = store.insert_routine(sample_routine()).unwrap();
    let mut bad = sample_routine();
    bad.schedule_type = 0;
    bad.num_days_in_schedule = -3;
    // validity is checked before the id lookup
    assert_eq!(
        store.update_routine(999, bad),
        Err(StoreError::ConstraintViolation)
    );
    assert_eq!(
        store.update_routine(999, sample_routine()),
        Err(StoreError::NotFound)
    );
    let mut renamed = sample_routine();
    renamed.name = "Upper Lower".to_string();
    store.update_routine(rid, renamed).unwrap();
    assert_eq!(store.routines.get(rid).unwrap().name, "Upper Lower");
    assert_eq!(store.delete_routine(999), Err(StoreError::NotFound));
}

#[test]
fn schedule_day_must_fit_cycle() {
    let mut store = migrated();
    let rid = store.insert_routine(sample_routine()).unwrap();
    let tid = store.workout_templates.insert(sample_template());
    let mk = |day: i32, routine_id: i32| WorkoutRoutineSchedule {
        id: 0,
        day,
        workout_template_id: tid,
        routine_id,
    };
    // the sample routine has a 7-day cycle
    assert_eq!(
        store.insert_workout_routine_schedule(mk(7, rid)),
        Err(StoreError::ConstraintViolation)
    );
    assert_eq!(
        store.insert_workout_routine_schedule(mk(-1, rid)),
        Err(StoreError::ConstraintViolation)
    );
    assert_eq!(
        store.insert_workout_routine_schedule(mk(0, 999)),
        Err(StoreError::ConstraintViolation)
    );
    let sid = store.insert_workout_routine_schedule(mk(6, rid)).unwrap();
    assert_eq!(
        store.update_workout_routine_schedule(sid, mk(7, rid)),
        Err(StoreError::ConstraintViolation)
    );
    store.update_workout_routine_schedule(sid, mk(3, rid)).unwrap();
    assert_eq!(store.workout_routine_schedules.get(sid).unwrap().day, 3);
}

#[test]
fn table_crud_round_trip() {
    let mut store = migrated();
    let e1 = store.exercises.insert(sample_exercise_row());
    let mut other = sample_exercise_row();
    other.name = "Deadlift".to_string();
    let e2 = store.exercises.insert(other);
    assert_eq!((e1, e2), (1, 2));
    assert_eq!(store.exercises.list().len(), 2);
    assert_eq!(store.exercises.get(e1).unwrap().name, "Squat");
    assert_eq!(store.exercises.get(e2).unwrap().name, "Deadlift");
    assert!(store.exercises.get(3).is_none());
    let mut patch = sample_exercise_row();
    patch.is_favorite = 1;
    store.exercises.update(e1, patch).unwrap();
    assert_eq!(store.exercises.get(e1).unwrap().is_favorite, 1);
    assert_eq!(
        store.exercises.update(99, sample_exercise_row()),
        Err(StoreError::NotFound)
    );
    store.exercises.delete(e1).unwrap();
    assert!(store.exercises.get(e1).is_none());
    assert_eq!(store.exercises.delete(e1), Err(StoreError::NotFound));
    // ids are never reused after a delete
    let e3 = store.exercises.insert(sample_exercise_row());
    assert_eq!(e3, 3);
}

#[test]
fn reference_tables_store_fixed_point_values() {
    let mut store = migrated();
    let ew = store.equipment_weights.insert(EquipmentWeight {
        id: 0,
        name: "Dip Belt".to_string(),
        weight: 1_750,
        weight_unit: "kg".to_string(),
        is_favorite: 0,
    });
    assert_eq!(store.equipment_weights.get(ew).unwrap().weight, 1_750);
    let d = store.distances.insert(Distance {
        id: 0,
        name: "Park Loop".to_string(),
        distance: 5_300,
        distance_unit: "km".to_string(),
        is_favorite: 1,
    });
    assert_eq!(store.distances.get(d).unwrap().distance, 5_300);
    let m = store.measurements.insert(Measurement {
        id: 0,
        name: "Waist".to_string(),
        default_unit: "cm".to_string(),
        measurement_type: "circumference".to_string(),
        is_favorite: 0,
    });
    assert_eq!(store.measurements.get(m).unwrap().name, "Waist");
    let g = store.multisets.insert(MultisetGroup {
        id: 0,
        multiset_type: 1,
        set_order: "1,2,3".to_string(),
        is_template: 0,
        note: None,
    });
    assert_eq!(store.multisets.get(g).unwrap().set_order, "1,2,3");
    let dl = store.diet_logs.insert(DietLog {
        id: 0,
        date: "2024-05-01".to_string(),
        calories: 2600,
        fat: Some(80),
        carbs: None,
        protein: Some(180),
        comment: None,
    });
    let got = store.diet_logs.get(dl).unwrap();
    assert_eq!(got.calories, 2600);
    assert_eq!(got.carbs, None);
    assert_eq!(got.protein, Some(180));
}

#[test]
fn history_tables_round_trip() {
    let mut store = migrated();
    let uw = store.user_weights.insert(UserWeight {
        id: 0,
        weight: 81_250,
        weight_unit: "kg".to_string(),
        date: "2024-05-02".to_string(),
        comment: None,
        body_fat_percentage: Some(15_500),
    });
    let got = store.user_weights.get(uw).unwrap();
    assert_eq!(got.weight, 81_250);
    assert_eq!(got.body_fat_percentage, Some(15_500));
    let um = store.user_measurements.insert(UserMeasurement {
        id: 0,
        date: "2024-05-02".to_string(),
        comment: Some("morning".to_string()),
        measurement_values: "1:84.5,2:39.0".to_string(),
    });
    assert_eq!(
        store.user_measurements.get(um).unwrap().measurement_values,
        "1:84.5,2:39.0"
    );
    let tp = store.time_periods.insert(TimePeriod {
        id: 0,
        name: "Spring Cut".to_string(),
        start_date: Some("2024-03-01".to_string()),
        end_date: None,
        note: None,
        diet_phase: Some("cut".to_string()),
        injury: None,
    });
    let got = store.time_periods.get(tp).unwrap();
    assert_eq!(got.end_date, None);
    assert_eq!(got.diet_phase, Some("cut".to_string()));
    let pc = store.plate_collections.insert(PlateCollection {
        id: 0,
        name: "Home Gym".to_string(),
        handle_id: 1,
        available_plates_string: "25x4,20x2,10x2".to_string(),
        num_handles: 1,
        weight_unit: "kg".to_string(),
    });
    assert_eq!(store.plate_collections.get(pc).unwrap().name, "Home Gym");
    store.plate_collections.delete(pc).unwrap();
    assert!(store.plate_collections.get(pc).is_none());
}
