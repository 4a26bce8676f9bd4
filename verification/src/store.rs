//! The store: one value holding the migration ledger, the evolving
//! schema, and every entity table.  A fresh store models a newly
//! created, empty database file at version 0; `migrate` brings it to
//! the catalog's maximum version.  Entity invariants (the singleton
//! settings row, routine cycle lengths, schedule day ranges) are
//! enforced here, before any write; plain per-table access goes
//! through the public table fields.
use vstd::prelude::*;

use crate::catalog::Catalog;
use crate::engine::{migrate_core, spec_migrate};
use crate::error::StoreError;
use crate::ledger::Ledger;
use crate::models::{
    DietLog, Distance, EquipmentWeight, Exercise, Measurement, MultisetGroup, PlateCollection,
    Routine, TimePeriod, UserMeasurement, UserSetting, UserWeight, Workout,
    WorkoutRoutineSchedule, WorkoutSet, WorkoutTemplate,
};
use crate::schema::{Schema, schema_wf};
use crate::table::{Keyed, Table};

verus! {

/// A routine is valid when its schedule kind is a known code and a
/// custom cycle has a positive length.  The codes: 1 is a weekly
/// schedule (the value the historical `is_schedule_weekly` flag
/// carried, which migration keeps), 0 is a custom cycle.
pub open spec fn routine_valid(r: Routine) -> bool {
    &&& r.schedule_type == 0 || r.schedule_type == 1
    &&& r.schedule_type == 0 ==> r.num_days_in_schedule > 0
}

/// The whole store.
pub struct Store {
    pub ledger: Ledger,
    pub schema: Schema,
    pub routines: Table<Routine>,
    pub user_settings: Table<UserSetting>,
    pub exercises: Table<Exercise>,
    pub workout_templates: Table<WorkoutTemplate>,
    pub workout_routine_schedules: Table<WorkoutRoutineSchedule>,
    pub workouts: Table<Workout>,
    pub sets: Table<WorkoutSet>,
    pub multisets: Table<MultisetGroup>,
    pub user_weights: Table<UserWeight>,
    pub equipment_weights: Table<EquipmentWeight>,
    pub distances: Table<Distance>,
    pub measurements: Table<Measurement>,
    pub user_measurements: Table<UserMeasurement>,
    pub plate_collections: Table<PlateCollection>,
    pub time_periods: Table<TimePeriod>,
    pub diet_logs: Table<DietLog>,
}

/// A schedule's day index lies within the cycle of the routine it
/// references, as stored right now.
pub open spec fn schedule_day_ok(st: Store, s: WorkoutRoutineSchedule) -> bool {
    match st.routines.spec_get(s.routine_id) {
        Some(r) => 0 <= s.day && s.day < r.num_days_in_schedule,
        None => false,
    }
}

impl Store {
    /// The store's invariant: ledger and schema well-formed, every
    /// table well-formed, at most one settings row, every stored
    /// routine valid.
    pub open spec fn wf(self) -> bool {
        &&& self.ledger.wf()
        &&& schema_wf(self.schema@)
        &&& self.routines.wf()
        &&& self.user_settings.wf()
        &&& self.exercises.wf()
        &&& self.workout_templates.wf()
        &&& self.workout_routine_schedules.wf()
        &&& self.workouts.wf()
        &&& self.sets.wf()
        &&& self.multisets.wf()
        &&& self.user_weights.wf()
        &&& self.equipment_weights.wf()
        &&& self.distances.wf()
        &&& self.measurements.wf()
        &&& self.user_measurements.wf()
        &&& self.plate_collections.wf()
        &&& self.time_periods.wf()
        &&& self.diet_logs.wf()
        &&& self.user_settings.rows@.len() <= 1
        &&& forall|i: int|
            0 <= i < self.routines.rows@.len() ==> routine_valid(#[trigger] self.routines.rows@[i])
    }

    /// A store as a newly created, empty file has it: version 0, no
    /// tables defined, no rows anywhere.
    pub open spec fn is_fresh(self) -> bool {
        &&& self.ledger.entries@.len() == 0
        &&& self.schema@.len() == 0
        &&& self.routines.next_id == 1
        &&& self.user_settings.next_id == 1
        &&& self.exercises.next_id == 1
        &&& self.workout_templates.next_id == 1
        &&& self.workout_routine_schedules.next_id == 1
        &&& self.workouts.next_id == 1
        &&& self.sets.next_id == 1
        &&& self.multisets.next_id == 1
        &&& self.user_weights.next_id == 1
        &&& self.equipment_weights.next_id == 1
        &&& self.distances.next_id == 1
        &&& self.measurements.next_id == 1
        &&& self.user_measurements.next_id == 1
        &&& self.plate_collections.next_id == 1
        &&& self.time_periods.next_id == 1
        &&& self.diet_logs.next_id == 1
        &&& self.routines.rows@.len() == 0
        &&& self.user_settings.rows@.len() == 0
        &&& self.exercises.rows@.len() == 0
        &&& self.workout_templates.rows@.len() == 0
        &&& self.workout_routine_schedules.rows@.len() == 0
        &&& self.workouts.rows@.len() == 0
        &&& self.sets.rows@.len() == 0
        &&& self.multisets.rows@.len() == 0
        &&& self.user_weights.rows@.len() == 0
        &&& self.equipment_weights.rows@.len() == 0
        &&& self.distances.rows@.len() == 0
        &&& self.measurements.rows@.len() == 0
        &&& self.user_measurements.rows@.len() == 0
        &&& self.plate_collections.rows@.len() == 0
        &&& self.time_periods.rows@.len() == 0
        &&& self.diet_logs.rows@.len() == 0
    }

    /// An empty store, as the bootstrapper leaves a first-run file.
    pub fn fresh() -> (r: Store)
        ensures
            r.wf(),
            r.is_fresh(),
    {
        Store {
            ledger: Ledger::new(),
            schema: Schema::new(),
            routines: Table::new(),
            user_settings: Table::new(),
            exercises: Table::new(),
            workout_templates: Table::new(),
            workout_routine_schedules: Table::new(),
            workouts: Table::new(),
            sets: Table::new(),
            multisets: Table::new(),
            user_weights: Table::new(),
            equipment_weights: Table::new(),
            distances: Table::new(),
            measurements: Table::new(),
            user_measurements: Table::new(),
            plate_collections: Table::new(),
            time_periods: Table::new(),
            diet_logs: Table::new(),
        }
    }

    /// The highest applied migration version.
    pub fn version(&self) -> (v: u32)
        requires
            self.wf(),
        ensures
            v == self.ledger.spec_version(),
    {
        self.ledger.version()
    }

    /// Applies every catalog step above the ledger's highest version,
    /// in ascending order, recording each success; stops at the first
    /// failing step.  Touches nothing but the ledger and the schema.
    pub fn migrate(&mut self, catalog: &Catalog, now: i64) -> (r: Result<u32, StoreError>)
        requires
            old(self).wf(),
            catalog.wf(),
            old(self).ledger.entries@.len() <= catalog.steps@.len(),
        ensures
            final(self).wf(),
            (*final(self) == (Store {
                ledger: final(self).ledger,
                schema: final(self).schema,
                ..*old(self)
            })),
            final(self).ledger.entries@.len() <= catalog.steps@.len(),
            ({
                let m = spec_migrate(
                    old(self).ledger.entries@,
                    old(self).schema@,
                    catalog.steps@,
                    now,
                );
                &&& final(self).ledger.entries@ == m.ledger
                &&& final(self).schema@ == m.schema
                &&& r == m.result
            }),
    {
        migrate_core(&mut self.ledger, &mut self.schema, catalog, now)
    }

    /// The singleton settings row, if present.
    pub fn get_user_setting(&self) -> (r: Option<&UserSetting>)
        requires
            self.wf(),
        ensures
            match r {
                Some(s) => self.user_settings.rows@.len() == 1 && *s == self.user_settings.rows@[0],
                None => self.user_settings.rows@.len() == 0,
            },
    {
        if self.user_settings.len() == 0 {
            None
        } else {
            Some(&self.user_settings.rows[0])
        }
    }

    /// Stores the singleton settings row.  Succeeds exactly when no
    /// settings row exists yet; a second insertion is a
    /// `ConstraintViolation`.  No other table is touched.
    pub fn insert_user_setting(&mut self, s: UserSetting) -> (r: Result<i32, StoreError>)
        requires
            old(self).wf(),
            old(self).user_settings.rows@.len() == 0 ==> old(self).user_settings.next_id
                < i32::MAX,
        ensures
            final(self).wf(),
            (*final(self) == (Store { user_settings: final(self).user_settings, ..*old(self) })),
            match r {
                Ok(id) => {
                    &&& old(self).user_settings.rows@.len() == 0
                    &&& id == old(self).user_settings.next_id
                    &&& final(self).user_settings.rows@ == old(self).user_settings.rows@.push(
                        s.spec_with_key(id),
                    )
                    &&& final(self).user_settings.spec_get(id) == Some(s.spec_with_key(id))
                },
                Err(e) => {
                    &&& e == StoreError::ConstraintViolation
                    &&& old(self).user_settings.rows@.len() >= 1
                    &&& *final(self) == *old(self)
                },
            },
    {
        if self.user_settings.len() > 0 {
            return Err(StoreError::ConstraintViolation);
        }
        Ok(self.user_settings.insert(s))
    }

    /// Replaces the singleton settings row, keeping its id.  Fails
    /// with `NotFound` when none exists.
    pub fn update_user_setting(&mut self, s: UserSetting) -> (r: Result<(), StoreError>)
        requires
            old(self).wf(),
        ensures
            final(self).wf(),
            (*final(self) == (Store { user_settings: final(self).user_settings, ..*old(self) })),
            match r {
                Ok(()) => {
                    &&& old(self).user_settings.rows@.len() == 1
                    &&& final(self).user_settings.rows@ == old(self).user_settings.rows@.update(
                        0,
                        s.spec_with_key(old(self).user_settings.rows@[0].key()),
                    )
                },
                Err(e) => {
                    &&& e == StoreError::NotFound
                    &&& old(self).user_settings.rows@.len() == 0
                    &&& *final(self) == *old(self)
                },
            },
    {
        if self.user_settings.len() == 0 {
            return Err(StoreError::NotFound);
        }
        let id = self.user_settings.rows[0].get_key();
        proof {
            assert(self.user_settings.contains_key(id));
            let ci = self.user_settings.key_index(id);
            assert(0 <= ci < self.user_settings.rows@.len()
                && self.user_settings.rows@[ci].key() == id);
            assert(ci == 0);
        }
        let r = self.user_settings.update(id, s);
        proof {
            assert(r is Ok);
        }
        r
    }

    /// Removes the singleton settings row.  Fails with `NotFound`
    /// when none exists.
    pub fn delete_user_setting(&mut self) -> (r: Result<(), StoreError>)
        requires
            old(self).wf(),
        ensures
            final(self).wf(),
            (*final(self) == (Store { user_settings: final(self).user_settings, ..*old(self) })),
            match r {
                Ok(()) => {
                    &&& old(self).user_settings.rows@.len() == 1
                    &&& final(self).user_settings.rows@.len() == 0
                },
                Err(e) => {
                    &&& e == StoreError::NotFound
                    &&& old(self).user_settings.rows@.len() == 0
                    &&& *final(self) == *old(self)
                },
            },
    {
        if self.user_settings.len() == 0 {
            return Err(StoreError::NotFound);
        }
        let id = self.user_settings.rows[0].get_key();
        proof {
            assert(self.user_settings.contains_key(id));
            let ci = self.user_settings.key_index(id);
            assert(0 <= ci < self.user_settings.rows@.len()
                && self.user_settings.rows@[ci].key() == id);
            assert(ci == 0);
        }
        let r = self.user_settings.delete(id);
        proof {
            assert(r is Ok);
        }
        r
    }

    /// Stores a routine.  Succeeds exactly when the routine is valid
    /// (known schedule kind; positive cycle length for a custom
    /// cycle); an invalid routine is a `ConstraintViolation`, rejected
    /// before any write.
    pub fn insert_routine(&mut self, rt: Routine) -> (r: Result<i32, StoreError>)
        requires
            old(self).wf(),
            routine_valid(rt) ==> old(self).routines.next_id < i32::MAX,
        ensures
            final(self).wf(),
            (*final(self) == (Store { routines: final(self).routines, ..*old(self) })),
            match r {
                Ok(id) => {
                    &&& routine_valid(rt)
                    &&& id == old(self).routines.next_id
                    &&& final(self).routines.rows@ == old(self).routines.rows@.push(
                        rt.spec_with_key(id),
                    )
                    &&& final(self).routines.spec_get(id) == Some(rt.spec_with_key(id))
                },
                Err(e) => {
                    &&& e == StoreError::ConstraintViolation
                    &&& !routine_valid(rt)
                    &&& *final(self) == *old(self)
                },
            },
    {
        if !(rt.schedule_type == 0 || rt.schedule_type == 1) {
            return Err(StoreError::ConstraintViolation);
        }
        if rt.schedule_type == 0 && rt.num_days_in_schedule <= 0 {
            return Err(StoreError::ConstraintViolation);
        }
        let id = self.routines.insert(rt);
        proof {
            let rs = self.routines.rows@;
            assert forall|i: int| 0 <= i < rs.len() implies routine_valid(#[trigger] rs[i]) by {
                if i < rs.len() - 1 {
                    assert(rs[i] == old(self).routines.rows@[i]);
                }
            }
        }
        Ok(id)
    }

    /// Replaces the routine with this id.  An invalid routine is a
    /// `ConstraintViolation` (checked first, before any write); an
    /// absent id is `NotFound`.
    pub fn update_routine(&mut self, id: i32, rt: Routine) -> (r: Result<(), StoreError>)
        requires
            old(self).wf(),
        ensures
            final(self).wf(),
            (*final(self) == (Store { routines: final(self).routines, ..*old(self) })),
            match r {
                Ok(()) => {
                    &&& routine_valid(rt)
                    &&& old(self).routines.contains_key(id)
                    &&& final(self).routines.rows@ == old(self).routines.rows@.update(
                        old(self).routines.key_index(id),
                        rt.spec_with_key(id),
                    )
                    &&& final(self).routines.spec_get(id) == Some(rt.spec_with_key(id))
                },
                Err(e) => {
                    &&& *final(self) == *old(self)
                    &&& (e == StoreError::ConstraintViolation <==> !routine_valid(rt))
                    &&& (e == StoreError::NotFound <==> routine_valid(rt) && !old(
                        self,
                    ).routines.contains_key(id))
                },
            },
    {
        if !(rt.schedule_type == 0 || rt.schedule_type == 1) {
            return Err(StoreError::ConstraintViolation);
        }
        if rt.schedule_type == 0 && rt.num_days_in_schedule <= 0 {
            return Err(StoreError::ConstraintViolation);
        }
        let r = self.routines.update(id, rt);
        if let Err(e) = r {
            return Err(e);
        }
        proof {
            let rs = self.routines.rows@;
            assert forall|i: int| 0 <= i < rs.len() implies routine_valid(#[trigger] rs[i]) by {
                if i != old(self).routines.key_index(id) {
                    assert(rs[i] == old(self).routines.rows@[i]);
                }
            }
        }
        Ok(())
    }

    /// Removes the routine with this id.  No cascade: schedules that
    /// reference the routine stay untouched, stale reference and all.
    pub fn delete_routine(&mut self, id: i32) -> (r: Result<(), StoreError>)
        requires
            old(self).wf(),
        ensures
            final(self).wf(),
            (*final(self) == (Store { routines: final(self).routines, ..*old(self) })),
            final(self).workout_routine_schedules == old(self).workout_routine_schedules,
            match r {
                Ok(()) => {
                    &&& old(self).routines.contains_key(id)
                    &&& final(self).routines.rows@ == old(self).routines.rows@.remove(
                        old(self).routines.key_index(id),
                    )
                    &&& !final(self).routines.contains_key(id)
                },
                Err(e) => {
                    &&& e == StoreError::NotFound
                    &&& !old(self).routines.contains_key(id)
                    &&& *final(self) == *old(self)
                },
            },
    {
        let r = self.routines.delete(id);
        if let Err(e) = r {
            return Err(e);
        }
        proof {
            let rs = self.routines.rows@;
            let or = old(self).routines.rows@;
            let oi = old(self).routines.key_index(id);
            assert forall|i: int| 0 <= i < rs.len() implies routine_valid(#[trigger] rs[i]) by {
                if i < oi {
                    assert(rs[i] == or[i]);
                } else {
                    assert(rs[i] == or[i + 1]);
                }
            }
        }
        Ok(())
    }

    /// Stores a schedule row.  Succeeds exactly when the referenced
    /// routine exists and the day index lies within its cycle;
    /// otherwise a `ConstraintViolation`, rejected before any write.
    pub fn insert_workout_routine_schedule(&mut self, s: WorkoutRoutineSchedule) -> (r: Result<
        i32,
        StoreError,
    >)
        requires
            old(self).wf(),
            schedule_day_ok(*old(self), s) ==> old(self).workout_routine_schedules.next_id
                < i32::MAX,
        ensures
            final(self).wf(),
            (*final(self) == (Store {
                workout_routine_schedules: final(self).workout_routine_schedules,
                ..*old(self)
            })),
            match r {
                Ok(id) => {
                    &&& schedule_day_ok(*old(self), s)
                    &&& id == old(self).workout_routine_schedules.next_id
                    &&& final(self).workout_routine_schedules.rows@ == old(
                        self,
                    ).workout_routine_schedules.rows@.push(s.spec_with_key(id))
                    &&& final(self).workout_routine_schedules.spec_get(id) == Some(
                        s.spec_with_key(id),
                    )
                },
                Err(e) => {
                    &&& e == StoreError::ConstraintViolation
                    &&& !schedule_day_ok(*old(self), s)
                    &&& *final(self) == *old(self)
                },
            },
    {
        let nd = match self.routines.get(s.routine_id) {
            None => {
                return Err(StoreError::ConstraintViolation);
            },
            Some(rt) => rt.num_days_in_schedule,
        };
        if s.day < 0 || s.day >= nd {
            return Err(StoreError::ConstraintViolation);
        }
        Ok(self.workout_routine_schedules.insert(s))
    }

    /// Replaces the schedule row with this id, revalidating the day
    /// index against the routine it references.
    pub fn update_workout_routine_schedule(&mut self, id: i32, s: WorkoutRoutineSchedule) -> (r:
        Result<(), StoreError>)
        requires
            old(self).wf(),
        ensures
            final(self).wf(),
            (*final(self) == (Store {
                workout_routine_schedules: final(self).workout_routine_schedules,
                ..*old(self)
            })),
            match r {
                Ok(()) => {
                    &&& schedule_day_ok(*old(self), s)
                    &&& old(self).workout_routine_schedules.contains_key(id)
                    &&& final(self).workout_routine_schedules.rows@ == old(
                        self,
                    ).workout_routine_schedules.rows@.update(
                        old(self).workout_routine_schedules.key_index(id),
                        s.spec_with_key(id),
                    )
                },
                Err(e) => {
                    &&& *final(self) == *old(self)
                    &&& (e == StoreError::ConstraintViolation <==> !schedule_day_ok(
                        *old(self),
                        s,
                    ))
                    &&& (e == StoreError::NotFound <==> schedule_day_ok(*old(self), s) && !old(
                        self,
                    ).workout_routine_schedules.contains_key(id))
                },
            },
    {
        let nd = match self.routines.get(s.routine_id) {
            None => {
                return Err(StoreError::ConstraintViolation);
            },
            Some(rt) => rt.num_days_in_schedule,
        };
        if s.day < 0 || s.day >= nd {
            return Err(StoreError::ConstraintViolation);
        }
        self.workout_routine_schedules.update(id, s)
    }
}

} // verus!
