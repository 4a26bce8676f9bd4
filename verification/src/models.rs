//! Typed rows mirroring each entity table of the store.
//!
//! Conventions, chosen once for every entity:
//! - boolean flags and small enumerations are `i32` fields holding 0
//!   or 1 (or a small code), matching the `SmallInt` column type;
//! - columns of semantic type `Float` (weights, distances, increments)
//!   are fixed-point `i64` fields counting thousandths of a unit, so
//!   the store itself never computes with floating point;
//! - serialized orderings and group memberships are kept as the text
//!   the caller supplied, never reinterpreted by the store.
use vstd::prelude::*;

use crate::table::Keyed;

verus! {

/// A training schedule assigning workout templates to cycle days.
/// `schedule_type` is 1 for a weekly schedule (the code the
/// historical `is_schedule_weekly` flag carried, which migration
/// keeps) and 0 for a custom cycle, in which case
/// `num_days_in_schedule` must be positive.
#[derive(Debug, Clone, PartialEq)]
pub struct Routine {
    pub id: i32,
    pub name: String,
    pub note: Option<String>,
    pub schedule_type: i32,
    pub num_days_in_schedule: i32,
    pub start_day: i32,
    pub workout_template_order: Option<String>,
}

impl Keyed for Routine {
    open spec fn key(&self) -> i32 {
        self.id
    }

    open spec fn spec_with_key(&self, k: i32) -> Routine {
        Routine { id: k, ..*self }
    }

    proof fn lemma_with_key(&self, k: i32) {
    }

    fn get_key(&self) -> i32 {
        self.id
    }

    fn set_key(&mut self, k: i32) {
        self.id = k;
    }
}

/// The single row of user preferences; at most one ever exists.
#[derive(Debug, Clone, PartialEq)]
pub struct UserSetting {
    pub id: i32,
    pub show_timestamp_on_completed_set: i32,
    pub active_routine_id: i32,
    pub default_unit_weight: String,
    pub default_unit_distance: String,
    pub default_time_input: String,
    pub default_unit_measurement: String,
    pub active_tracking_measurements: String,
    pub locale: String,
    pub clock_style: String,
    pub time_input_behavior_hhmmss: String,
    pub time_input_behavior_mmss: String,
    pub default_increment_weight: i64,
    pub default_increment_distance: i64,
    pub default_increment_time: i32,
    pub default_increment_resistance_level: i64,
    pub save_calculation_string: i32,
    pub show_calculation_buttons: i32,
    pub default_increment_calculation_multiplier: i64,
    pub default_calculation_tab: String,
    pub shown_workout_properties: String,
    pub default_plate_collection_id: i32,
    pub show_secondary_exercise_groups: i32,
    pub automatically_update_active_measurements: i32,
    pub default_num_new_sets: String,
    pub shown_time_period_properties: String,
    pub default_diet_log_day_is_yesterday: i32,
    pub show_warmups_in_exercise_details: i32,
    pub show_multisets_in_exercise_details: i32,
    pub show_pace_in_exercise_details: i32,
}

impl Keyed for UserSetting {
    open spec fn key(&self) -> i32 {
        self.id
    }

    open spec fn spec_with_key(&self, k: i32) -> UserSetting {
        UserSetting { id: k, ..*self }
    }

    proof fn lemma_with_key(&self, k: i32) {
    }

    fn get_key(&self) -> i32 {
        self.id
    }

    fn set_key(&mut self, k: i32) {
        self.id = k;
    }
}

/// An exercise definition with muscle-group memberships and display
/// options.
#[derive(Debug, Clone, PartialEq)]
pub struct Exercise {
    pub id: i32,
    pub name: String,
    pub exercise_group_set_string_primary: String,
    pub exercise_group_map_string_secondary: Option<String>,
    pub note: Option<String>,
    pub is_favorite: i32,
    pub calculation_string: String,
    pub chart_load_exercise_options: String,
    pub chart_load_exercise_options_categories: String,
}

impl Keyed for Exercise {
    open spec fn key(&self) -> i32 {
        self.id
    }

    open spec fn spec_with_key(&self, k: i32) -> Exercise {
        Exercise { id: k, ..*self }
    }

    proof fn lemma_with_key(&self, k: i32) {
    }

    fn get_key(&self) -> i32 {
        self.id
    }

    fn set_key(&mut self, k: i32) {
        self.id = k;
    }
}

/// A reusable planned workout: an ordered list of exercises.
#[derive(Debug, Clone, PartialEq)]
pub struct WorkoutTemplate {
    pub id: i32,
    pub name: String,
    pub exercise_order: String,
    pub note: Option<String>,
}

impl Keyed for WorkoutTemplate {
    open spec fn key(&self) -> i32 {
        self.id
    }

    open spec fn spec_with_key(&self, k: i32) -> WorkoutTemplate {
        WorkoutTemplate { id: k, ..*self }
    }

    proof fn lemma_with_key(&self, k: i32) {
    }

    fn get_key(&self) -> i32 {
        self.id
    }

    fn set_key(&mut self, k: i32) {
        self.id = k;
    }
}

/// Places a workout template on one day of a routine's cycle.  On
/// insertion the day index must lie in `[0, cycle length)` of the
/// routine it references; the reference may go stale later, since the
/// store never cascades deletes.
#[derive(Debug, Clone, PartialEq)]
pub struct WorkoutRoutineSchedule {
    pub id: i32,
    pub day: i32,
    pub workout_template_id: i32,
    pub routine_id: i32,
}

impl Keyed for WorkoutRoutineSchedule {
    open spec fn key(&self) -> i32 {
        self.id
    }

    open spec fn spec_with_key(&self, k: i32) -> WorkoutRoutineSchedule {
        WorkoutRoutineSchedule { id: k, ..*self }
    }

    proof fn lemma_with_key(&self, k: i32) {
    }

    fn get_key(&self) -> i32 {
        self.id
    }

    fn set_key(&mut self, k: i32) {
        self.id = k;
    }
}

/// One logged unit of exercise work.  Every trackable dimension is
/// paired with an `is_tracking_*` flag; a dimension's value is kept
/// verbatim whether or not its flag is set — unset dimensions are
/// display-suppressed, never nulled out.
#[derive(Debug, Clone, PartialEq)]
pub struct WorkoutSet {
    pub id: i32,
    pub workout_id: i32,
    pub exercise_id: i32,
    pub is_template: i32,
    pub workout_template_id: i32,
    pub note: Option<String>,
    pub comment: Option<String>,
    pub is_completed: i32,
    pub time_completed: Option<String>,
    pub is_warmup: i32,
    pub weight: i64,
    pub reps: i32,
    pub rir: i32,
    pub rpe: i32,
    pub time_in_seconds: i32,
    pub distance: i64,
    pub resistance_level: i64,
    pub partial_reps: i32,
    pub is_tracking_weight: i32,
    pub is_tracking_reps: i32,
    pub is_tracking_rir: i32,
    pub is_tracking_rpe: i32,
    pub is_tracking_time: i32,
    pub is_tracking_distance: i32,
    pub is_tracking_resistance_level: i32,
    pub is_tracking_partial_reps: i32,
    pub is_tracking_user_weight: i32,
    pub weight_unit: String,
    pub distance_unit: String,
    pub multiset_id: i32,
    pub user_weight: i64,
    pub user_weight_unit: String,
}

impl Keyed for WorkoutSet {
    open spec fn key(&self) -> i32 {
        self.id
    }

    open spec fn spec_with_key(&self, k: i32) -> WorkoutSet {
        WorkoutSet { id: k, ..*self }
    }

    proof fn lemma_with_key(&self, k: i32) {
    }

    fn get_key(&self) -> i32 {
        self.id
    }

    fn set_key(&mut self, k: i32) {
        self.id = k;
    }
}

/// Storing a set keeps every dimension verbatim.  `Table::insert` and
/// `Table::update` store exactly `s.spec_with_key(id)` and `get` hands
/// that row back, so this says: whatever the tracking flags hold, each
/// dimension's value, its flag and its unit survive a store/read round
/// trip unchanged — a weight with `is_tracking_weight == 0` is kept,
/// never nulled out.
pub proof fn lemma_set_dimensions_kept(s: WorkoutSet, id: i32)
    ensures
        ({
            let stored = s.spec_with_key(id);
            &&& stored.id == id
            &&& stored.weight == s.weight
            &&& stored.reps == s.reps
            &&& stored.rir == s.rir
            &&& stored.rpe == s.rpe
            &&& stored.time_in_seconds == s.time_in_seconds
            &&& stored.distance == s.distance
            &&& stored.resistance_level == s.resistance_level
            &&& stored.partial_reps == s.partial_reps
            &&& stored.user_weight == s.user_weight
            &&& stored.is_tracking_weight == s.is_tracking_weight
            &&& stored.is_tracking_reps == s.is_tracking_reps
            &&& stored.is_tracking_rir == s.is_tracking_rir
            &&& stored.is_tracking_rpe == s.is_tracking_rpe
            &&& stored.is_tracking_time == s.is_tracking_time
            &&& stored.is_tracking_distance == s.is_tracking_distance
            &&& stored.is_tracking_resistance_level == s.is_tracking_resistance_level
            &&& stored.is_tracking_partial_reps == s.is_tracking_partial_reps
            &&& stored.is_tracking_user_weight == s.is_tracking_user_weight
            &&& stored.weight_unit == s.weight_unit
            &&& stored.distance_unit == s.distance_unit
            &&& stored.user_weight_unit == s.user_weight_unit
        }),
{
}

/// One concrete, dated training session, with its subjective
/// per-dimension ratings (small integers).
#[derive(Debug, Clone, PartialEq)]
pub struct Workout {
    pub id: i32,
    pub workout_template_id: i32,
    pub date: String,
    pub exercise_order: String,
    pub note: Option<String>,
    pub rating_general: i32,
    pub rating_energy: i32,
    pub rating_injury: i32,
    pub rating_sleep: i32,
    pub rating_calories: i32,
    pub rating_fasting: i32,
    pub rating_time: i32,
    pub rating_stress: i32,
    pub routine_id: i32,
}

impl Keyed for Workout {
    open spec fn key(&self) -> i32 {
        self.id
    }

    open spec fn spec_with_key(&self, k: i32) -> Workout {
        Workout { id: k, ..*self }
    }

    proof fn lemma_with_key(&self, k: i32) {
    }

    fn get_key(&self) -> i32 {
        self.id
    }

    fn set_key(&mut self, k: i32) {
        self.id = k;
    }
}

/// One bodyweight history entry.
#[derive(Debug, Clone, PartialEq)]
pub struct UserWeight {
    pub id: i32,
    pub weight: i64,
    pub weight_unit: String,
    pub date: String,
    pub comment: Option<String>,
    pub body_fat_percentage: Option<i64>,
}

impl Keyed for UserWeight {
    open spec fn key(&self) -> i32 {
        self.id
    }

    open spec fn spec_with_key(&self, k: i32) -> UserWeight {
        UserWeight { id: k, ..*self }
    }

    proof fn lemma_with_key(&self, k: i32) {
    }

    fn get_key(&self) -> i32 {
        self.id
    }

    fn set_key(&mut self, k: i32) {
        self.id = k;
    }
}

/// A named piece of equipment and its weight.
#[derive(Debug, Clone, PartialEq)]
pub struct EquipmentWeight {
    pub id: i32,
    pub name: String,
    pub weight: i64,
    pub weight_unit: String,
    pub is_favorite: i32,
}

impl Keyed for EquipmentWeight {
    open spec fn key(&self) -> i32 {
        self.id
    }

    open spec fn spec_with_key(&self, k: i32) -> EquipmentWeight {
        EquipmentWeight { id: k, ..*self }
    }

    proof fn lemma_with_key(&self, k: i32) {
    }

    fn get_key(&self) -> i32 {
        self.id
    }

    fn set_key(&mut self, k: i32) {
        self.id = k;
    }
}

/// A named distance (a course, a route) in the reference catalog.
#[derive(Debug, Clone, PartialEq)]
pub struct Distance {
    pub id: i32,
    pub name: String,
    pub distance: i64,
    pub distance_unit: String,
    pub is_favorite: i32,
}

impl Keyed for Distance {
    open spec fn key(&self) -> i32 {
        self.id
    }

    open spec fn spec_with_key(&self, k: i32) -> Distance {
        Distance { id: k, ..*self }
    }

    proof fn lemma_with_key(&self, k: i32) {
    }

    fn get_key(&self) -> i32 {
        self.id
    }

    fn set_key(&mut self, k: i32) {
        self.id = k;
    }
}

/// A named body-measurement definition.
#[derive(Debug, Clone, PartialEq)]
pub struct Measurement {
    pub id: i32,
    pub name: String,
    pub default_unit: String,
    pub measurement_type: String,
    pub is_favorite: i32,
}

impl Keyed for Measurement {
    open spec fn key(&self) -> i32 {
        self.id
    }

    open spec fn spec_with_key(&self, k: i32) -> Measurement {
        Measurement { id: k, ..*self }
    }

    proof fn lemma_with_key(&self, k: i32) {
    }

    fn get_key(&self) -> i32 {
        self.id
    }

    fn set_key(&mut self, k: i32) {
        self.id = k;
    }
}

/// A dated entry of serialized values per defined measurement.
#[derive(Debug, Clone, PartialEq)]
pub struct UserMeasurement {
    pub id: i32,
    pub date: String,
    pub comment: Option<String>,
    pub measurement_values: String,
}

impl Keyed for UserMeasurement {
    open spec fn key(&self) -> i32 {
        self.id
    }

    open spec fn spec_with_key(&self, k: i32) -> UserMeasurement {
        UserMeasurement { id: k, ..*self }
    }

    proof fn lemma_with_key(&self, k: i32) {
    }

    fn get_key(&self) -> i32 {
        self.id
    }

    fn set_key(&mut self, k: i32) {
        self.id = k;
    }
}

/// Groups several sets performed back-to-back (superset, dropset).
#[derive(Debug, Clone, PartialEq)]
pub struct MultisetGroup {
    pub id: i32,
    pub multiset_type: i32,
    pub set_order: String,
    pub is_template: i32,
    pub note: Option<String>,
}

impl Keyed for MultisetGroup {
    open spec fn key(&self) -> i32 {
        self.id
    }

    open spec fn spec_with_key(&self, k: i32) -> MultisetGroup {
        MultisetGroup { id: k, ..*self }
    }

    proof fn lemma_with_key(&self, k: i32) {
    }

    fn get_key(&self) -> i32 {
        self.id
    }

    fn set_key(&mut self, k: i32) {
        self.id = k;
    }
}

/// A named set of available plates plus handle, for plate math.
#[derive(Debug, Clone, PartialEq)]
pub struct PlateCollection {
    pub id: i32,
    pub name: String,
    pub handle_id: i32,
    pub available_plates_string: String,
    pub num_handles: i32,
    pub weight_unit: String,
}

impl Keyed for PlateCollection {
    open spec fn key(&self) -> i32 {
        self.id
    }

    open spec fn spec_with_key(&self, k: i32) -> PlateCollection {
        PlateCollection { id: k, ..*self }
    }

    proof fn lemma_with_key(&self, k: i32) {
    }

    fn get_key(&self) -> i32 {
        self.id
    }

    fn set_key(&mut self, k: i32) {
        self.id = k;
    }
}

/// A named date range for diet/phase tracking.
#[derive(Debug, Clone, PartialEq)]
pub struct TimePeriod {
    pub id: i32,
    pub name: String,
    pub start_date: Option<String>,
    pub end_date: Option<String>,
    pub note: Option<String>,
    pub diet_phase: Option<String>,
    pub injury: Option<String>,
}

impl Keyed for TimePeriod {
    open spec fn key(&self) -> i32 {
        self.id
    }

    open spec fn spec_with_key(&self, k: i32) -> TimePeriod {
        TimePeriod { id: k, ..*self }
    }

    proof fn lemma_with_key(&self, k: i32) {
    }

    fn get_key(&self) -> i32 {
        self.id
    }

    fn set_key(&mut self, k: i32) {
        self.id = k;
    }
}

/// One day's calorie and macro entry.
#[derive(Debug, Clone, PartialEq)]
pub struct DietLog {
    pub id: i32,
    pub date: String,
    pub calories: i32,
    pub fat: Option<i32>,
    pub carbs: Option<i32>,
    pub protein: Option<i32>,
    pub comment: Option<String>,
}

impl Keyed for DietLog {
    open spec fn key(&self) -> i32 {
        self.id
    }

    open spec fn spec_with_key(&self, k: i32) -> DietLog {
        DietLog { id: k, ..*self }
    }

    proof fn lemma_with_key(&self, k: i32) {
    }

    fn get_key(&self) -> i32 {
        self.id
    }

    fn set_key(&mut self, k: i32) {
        self.id = k;
    }
}

} // verus!
