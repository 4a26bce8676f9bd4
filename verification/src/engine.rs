//! The migration engine: reads the highest applied version from the
//! ledger, selects every catalog step above it in ascending order, and
//! applies each step atomically — the step's whole script takes effect
//! and its ledger record is appended, or neither happens and the run
//! stops with a `MigrationError` naming the failed version.
use vstd::prelude::*;

use crate::catalog::{Catalog, MigrationStep, steps_wf};
use crate::error::{MigrationCause, StoreError};
use crate::ledger::{Ledger, LedgerEntry};
use crate::schema::{
    Schema, TableModel, schema_wf, spec_add_column, spec_create_table, spec_drop_table,
    spec_rename_column,
};
use crate::script::{Stmt, StmtModel, parse_script, spec_parse_script};

verus! {

/// What one statement does to the schema.
pub open spec fn spec_apply_stmt(s: Seq<TableModel>, st: StmtModel) -> Result<
    Seq<TableModel>,
    MigrationCause,
> {
    match st {
        StmtModel::CreateTable { table } => spec_create_table(s, table),
        StmtModel::AddColumn { table, col } => spec_add_column(s, table, col),
        StmtModel::RenameColumn { table, from, to } => spec_rename_column(s, table, from, to),
        StmtModel::DropTable { table } => spec_drop_table(s, table),
    }
}

/// What a statement sequence does to the schema: statements take
/// effect in order; the first failure stops the sequence.
pub open spec fn spec_apply_stmts(s: Seq<TableModel>, sts: Seq<StmtModel>) -> Result<
    Seq<TableModel>,
    MigrationCause,
>
    decreases sts.len(),
{
    if sts.len() == 0 {
        Ok(s)
    } else {
        match spec_apply_stmt(s, sts[0]) {
            Err(c) => Err(c),
            Ok(s2) => spec_apply_stmts(s2, sts.drop_first()),
        }
    }
}

/// What one step's script does to the schema: the script is validated
/// against the grammar, then its statements are applied.
pub open spec fn spec_apply_step(s: Seq<TableModel>, script: Seq<char>) -> Result<
    Seq<TableModel>,
    MigrationCause,
> {
    match spec_parse_script(script) {
        None => Err(MigrationCause::InvalidScript),
        Some(sts) => spec_apply_stmts(s, sts),
    }
}

/// The outcome of running a sequence of pending steps against a
/// schema: how many leading steps took effect, the schema they
/// produced, and the cause of the first failure, if any.
pub struct RunModel {
    pub applied: int,
    pub schema: Seq<TableModel>,
    pub err: Option<MigrationCause>,
}

/// A run applies between zero and all of its pending steps.
pub proof fn lemma_run_bounds(s: Seq<TableModel>, steps: Seq<MigrationStep>)
    ensures
        0 <= spec_run(s, steps).applied <= steps.len(),
    decreases steps.len(),
{
    if steps.len() > 0 {
        match spec_apply_step(s, steps[0].script@) {
            Err(_) => {},
            Ok(s2) => {
                lemma_run_bounds(s2, steps.drop_first());
            },
        }
    }
}

/// Runs pending steps in order; stops at the first failure.
pub open spec fn spec_run(s: Seq<TableModel>, steps: Seq<MigrationStep>) -> RunModel
    decreases steps.len(),
{
    if steps.len() == 0 {
        RunModel { applied: 0, schema: s, err: None }
    } else {
        match spec_apply_step(s, steps[0].script@) {
            Err(c) => RunModel { applied: 0, schema: s, err: Some(c) },
            Ok(s2) => {
                let r = spec_run(s2, steps.drop_first());
                RunModel { applied: r.applied + 1, schema: r.schema, err: r.err }
            },
        }
    }
}

/// The ledger records that applying these steps at time `at` appends.
pub open spec fn spec_entries(steps: Seq<MigrationStep>, at: i64) -> Seq<LedgerEntry> {
    steps.map_values(
        |s: MigrationStep| LedgerEntry { version: s.version, description: s.description, applied_at: at },
    )
}

/// The full effect of one `migrate` call: the ledger and schema it
/// leaves behind and the result it reports.
pub struct MigrateModel {
    pub ledger: Seq<LedgerEntry>,
    pub schema: Seq<TableModel>,
    pub result: Result<u32, StoreError>,
}

/// What `migrate` does, given the ledger and schema it starts from,
/// the catalog, and the clock reading recorded in new ledger entries.
pub open spec fn spec_migrate(
    led: Seq<LedgerEntry>,
    sch: Seq<TableModel>,
    cat: Seq<MigrationStep>,
    at: i64,
) -> MigrateModel {
    let pend = cat.skip(led.len() as int);
    let run = spec_run(sch, pend);
    MigrateModel {
        ledger: led + spec_entries(pend.take(run.applied), at),
        schema: run.schema,
        result: match run.err {
            None => Ok((led.len() + run.applied) as u32),
            Some(c) => Err(
                StoreError::MigrationError {
                    version: (led.len() + run.applied + 1) as u32,
                    cause: c,
                },
            ),
        },
    }
}

/// Rerunning the leftover steps from the schema a run produced stops
/// at once with the run's own outcome.
pub proof fn lemma_run_split(s: Seq<TableModel>, steps: Seq<MigrationStep>)
    ensures
        ({
            let r = spec_run(s, steps);
            spec_run(r.schema, steps.skip(r.applied)) == (RunModel {
                applied: 0,
                schema: r.schema,
                err: r.err,
            })
        }),
    decreases steps.len(),
{
    lemma_run_bounds(s, steps);
    if steps.len() == 0 {
        assert(steps.skip(0) =~= steps);
    } else {
        match spec_apply_step(s, steps[0].script@) {
            Err(_) => {
                assert(steps.skip(0) =~= steps);
            },
            Ok(s2) => {
                lemma_run_split(s2, steps.drop_first());
                lemma_run_bounds(s2, steps.drop_first());
                let r2 = spec_run(s2, steps.drop_first());
                assert(steps.skip(r2.applied + 1) =~= steps.drop_first().skip(r2.applied));
            },
        }
    }
}

/// A run applies every pending step exactly when it reports no failure.
pub proof fn lemma_run_err_iff(s: Seq<TableModel>, steps: Seq<MigrationStep>)
    ensures
        spec_run(s, steps).err is None <==> spec_run(s, steps).applied == steps.len(),
    decreases steps.len(),
{
    lemma_run_bounds(s, steps);
    if steps.len() > 0 {
        match spec_apply_step(s, steps[0].script@) {
            Err(_) => {},
            Ok(s2) => {
                lemma_run_err_iff(s2, steps.drop_first());
                lemma_run_bounds(s2, steps.drop_first());
            },
        }
    }
}

/// What a run does depends on the steps' script texts alone: against
/// the same starting schema, two step sequences carrying the same
/// texts apply the same number of steps, produce the same schema, and
/// fail (or not) with the same cause.
pub proof fn lemma_run_depends_on_scripts(
    s: Seq<TableModel>,
    c1: Seq<MigrationStep>,
    c2: Seq<MigrationStep>,
)
    requires
        c1.len() == c2.len(),
        forall|k: int| 0 <= k < c1.len() ==> #[trigger] c1[k].script@ == c2[k].script@,
    ensures
        spec_run(s, c1).applied == spec_run(s, c2).applied,
        spec_run(s, c1).schema == spec_run(s, c2).schema,
        spec_run(s, c1).err == spec_run(s, c2).err,
    decreases c1.len(),
{
    if c1.len() > 0 {
        assert(c1[0].script@ == c2[0].script@);
        match spec_apply_step(s, c1[0].script@) {
            Err(_) => {},
            Ok(s2) => {
                assert forall|k: int|
                    0 <= k < c1.drop_first().len() implies #[trigger] c1.drop_first()[k].script@
                    == c2.drop_first()[k].script@ by {
                    assert(c1.drop_first()[k] == c1[k + 1]);
                    assert(c2.drop_first()[k] == c2[k + 1]);
                }
                lemma_run_depends_on_scripts(s2, c1.drop_first(), c2.drop_first());
            },
        }
    }
}

/// Migration is idempotent and deterministic: running `migrate` again
/// on the ledger and schema a run left behind appends no ledger entry,
/// changes no table definition, and reports the same outcome — whether
/// the first run completed or stopped at a failing step.
pub proof fn lemma_migrate_idempotent(
    led: Seq<LedgerEntry>,
    sch: Seq<TableModel>,
    cat: Seq<MigrationStep>,
    t1: i64,
    t2: i64,
)
    requires
        led.len() <= cat.len(),
    ensures
        ({
            let m1 = spec_migrate(led, sch, cat, t1);
            let m2 = spec_migrate(m1.ledger, m1.schema, cat, t2);
            m2.ledger == m1.ledger && m2.schema == m1.schema && m2.result == m1.result
        }),
{
    let pend1 = cat.skip(led.len() as int);
    lemma_run_bounds(sch, pend1);
    lemma_run_split(sch, pend1);
    let r1 = spec_run(sch, pend1);
    let m1 = spec_migrate(led, sch, cat, t1);
    assert(m1.ledger.len() == led.len() + r1.applied);
    let pend2 = cat.skip(m1.ledger.len() as int);
    assert(pend2 =~= pend1.skip(r1.applied));
    let r2 = spec_run(m1.schema, pend2);
    assert(r2 == (RunModel { applied: 0, schema: r1.schema, err: r1.err }));
    let m2 = spec_migrate(m1.ledger, m1.schema, cat, t2);
    assert(pend2.take(0) =~= Seq::<MigrationStep>::empty());
    assert(spec_entries(pend2.take(0), t2) =~= Seq::<LedgerEntry>::empty());
    assert(m2.ledger =~= m1.ledger);
    assert(m2.result == m1.result);
}

/// From a fresh, empty ledger a successful `migrate` applies every
/// step from version 1 through the catalog's maximum, in ascending
/// order, and the ledger afterwards holds exactly those versions, each
/// with its step's description.
pub proof fn lemma_migrate_fresh(sch: Seq<TableModel>, cat: Seq<MigrationStep>, at: i64)
    requires
        steps_wf(cat),
    ensures
        ({
            let m = spec_migrate(Seq::<LedgerEntry>::empty(), sch, cat, at);
            m.result is Ok ==> {
                &&& m.ledger.len() == cat.len()
                &&& forall|i: int|
                    0 <= i < cat.len() ==> #[trigger] m.ledger[i].version == i + 1
                &&& forall|i: int|
                    0 <= i < cat.len() ==> #[trigger] m.ledger[i].description
                        == cat[i].description
                &&& m.result == Ok::<u32, StoreError>(cat.len() as u32)
            }
        }),
{
    let led0 = Seq::<LedgerEntry>::empty();
    let pend = cat.skip(0);
    assert(pend =~= cat);
    lemma_run_bounds(sch, pend);
    lemma_run_err_iff(sch, pend);
    let m = spec_migrate(led0, sch, cat, at);
    let r = spec_run(sch, pend);
    if m.result is Ok {
        assert(r.err is None);
        assert(r.applied == cat.len());
        assert(cat.take(r.applied) =~= cat);
        assert(m.ledger =~= spec_entries(cat, at));
        assert forall|i: int| 0 <= i < cat.len() implies #[trigger] m.ledger[i].version == i
            + 1 by {
            assert(m.ledger[i] == spec_entries(cat, at)[i]);
            assert(cat[i].version == i + 1);
        }
        assert forall|i: int| 0 <= i < cat.len() implies #[trigger] m.ledger[i].description
            == cat[i].description by {
            assert(m.ledger[i] == spec_entries(cat, at)[i]);
        }
    }
}

/// The schema after the first `j` steps of a run in which every one of
/// them took effect.
pub open spec fn spec_prefix_schema(
    s: Seq<TableModel>,
    steps: Seq<MigrationStep>,
    j: int,
) -> Seq<TableModel>
    decreases j,
{
    if j <= 0 || steps.len() == 0 {
        s
    } else {
        match spec_apply_step(s, steps[0].script@) {
            Ok(s2) => spec_prefix_schema(s2, steps.drop_first(), j - 1),
            Err(_) => s,
        }
    }
}

/// Every step a run counts as applied did succeed, each against the
/// schema produced by the steps before it.
pub proof fn lemma_run_applied_steps(s: Seq<TableModel>, steps: Seq<MigrationStep>, j: int)
    requires
        0 <= j < spec_run(s, steps).applied,
    ensures
        spec_apply_step(spec_prefix_schema(s, steps, j), steps[j].script@) is Ok,
    decreases j,
{
    lemma_run_bounds(s, steps);
    match spec_apply_step(s, steps[0].script@) {
        Err(_) => {
            assert(false);
        },
        Ok(s2) => {
            if j > 0 {
                lemma_run_applied_steps(s2, steps.drop_first(), j - 1);
                assert(steps.drop_first()[j - 1] == steps[j]);
            }
        },
    }
}

/// When a step fails, the ledger stops exactly one version short of
/// the failing step, the schema is the one every prior step produced,
/// and the failing step still fails against that schema — so under
/// unchanged conditions a retry reports the same failure and appends
/// nothing (`lemma_migrate_idempotent`).  When no step fails, the run
/// reports the catalog's maximum version.
pub proof fn lemma_migrate_failure(
    led: Seq<LedgerEntry>,
    sch: Seq<TableModel>,
    cat: Seq<MigrationStep>,
    at: i64,
)
    requires
        led.len() <= cat.len(),
        cat.len() <= u32::MAX,
    ensures
        ({
            let m = spec_migrate(led, sch, cat, at);
            match m.result {
                Err(e) => match e {
                    StoreError::MigrationError { version, cause } => {
                        &&& m.ledger.len() == version - 1
                        &&& led.len() < version <= cat.len()
                        &&& spec_apply_step(m.schema, cat[version - 1].script@) == Err::<
                            Seq<TableModel>,
                            MigrationCause,
                        >(cause)
                    },
                    _ => false,
                },
                Ok(v) => v == cat.len(),
            }
        }),
{
    let pend = cat.skip(led.len() as int);
    lemma_run_bounds(sch, pend);
    lemma_run_err_iff(sch, pend);
    lemma_run_split(sch, pend);
    let r = spec_run(sch, pend);
    let m = spec_migrate(led, sch, cat, at);
    if let Some(c) = r.err {
        let a = r.applied;
        let rest = pend.skip(a);
        assert(a < pend.len());
        assert(rest[0] == pend[a]);
        assert(pend[a] == cat[led.len() + a]);
        match spec_apply_step(r.schema, rest[0].script@) {
            Ok(s2) => {
                lemma_run_bounds(s2, rest.drop_first());
                assert(false);
            },
            Err(c0) => {
                assert(c0 == c);
            },
        }
    }
}

/// The ledger reaches a version only by that version's own step
/// succeeding: whenever a run ends at or beyond version `k`, step `k`
/// was applied successfully, against the schema produced by the steps
/// before it.
pub proof fn lemma_version_reached(
    led: Seq<LedgerEntry>,
    sch: Seq<TableModel>,
    cat: Seq<MigrationStep>,
    at: i64,
    k: int,
)
    requires
        led.len() <= cat.len(),
        led.len() < k <= cat.len(),
    ensures
        ({
            let m = spec_migrate(led, sch, cat, at);
            m.ledger.len() >= k ==> spec_apply_step(
                spec_prefix_schema(sch, cat.skip(led.len() as int), k - 1 - led.len()),
                cat[k - 1].script@,
            ) is Ok
        }),
{
    let pend = cat.skip(led.len() as int);
    lemma_run_bounds(sch, pend);
    let m = spec_migrate(led, sch, cat, at);
    if m.ledger.len() >= k {
        let j = k - 1 - led.len();
        assert(0 <= j < spec_run(sch, pend).applied);
        lemma_run_applied_steps(sch, pend, j);
        assert(pend[j] == cat[k - 1]);
    }
}

/// Applies parsed statements to a schema, in order; the schema value
/// is consumed, so a failure discards the partial result.
#[verifier::loop_isolation(false)]
fn apply_stmts(schema0: Schema, stmts0: Vec<Stmt>) -> (r: Result<Schema, MigrationCause>)
    requires
        schema_wf(schema0@),
    ensures
        ({
            let s = spec_apply_stmts(schema0@, stmts0.deep_view());
            match r {
                Ok(sch) => s == Ok::<Seq<TableModel>, MigrationCause>(sch@) && schema_wf(sch@),
                Err(c) => s == Err::<Seq<TableModel>, MigrationCause>(c),
            }
        }),
{
    let ghost sch0 = schema0@;
    let ghost dv0 = stmts0.deep_view();
    let mut schema = schema0;
    let mut stmts = stmts0;
    while stmts.len() > 0
        invariant
            schema_wf(schema@),
            spec_apply_stmts(sch0, dv0) == spec_apply_stmts(schema@, stmts.deep_view()),
        decreases stmts@.len(),
    {
        let ghost dv_before = stmts.deep_view();
        let ghost sch_before = schema@;
        let st = stmts.remove(0);
        proof {
            assert(stmts.deep_view() =~= dv_before.drop_first());
            assert(st.deep_view() == dv_before[0]);
        }
        match st {
            Stmt::CreateTable { table } => {
                if let Err(c) = schema.create_table(table) {
                    return Err(c);
                }
            },
            Stmt::AddColumn { table, col } => {
                if let Err(c) = schema.add_column(table.as_str(), col) {
                    return Err(c);
                }
            },
            Stmt::RenameColumn { table, from, to } => {
                if let Err(c) = schema.rename_column(table.as_str(), from.as_str(), to.as_str()) {
                    return Err(c);
                }
            },
            Stmt::DropTable { table } => {
                if let Err(c) = schema.drop_table(table.as_str()) {
                    return Err(c);
                }
            },
        }
    }
    Ok(schema)
}

/// Applies one step's script to a copy of the schema; the copy becomes
/// the result only when the whole script has taken effect.
fn apply_step(schema: &Schema, script: &str) -> (r: Result<Schema, MigrationCause>)
    requires
        schema_wf(schema@),
    ensures
        ({
            let s = spec_apply_step(schema@, script@);
            match r {
                Ok(sch) => s == Ok::<Seq<TableModel>, MigrationCause>(sch@) && schema_wf(sch@),
                Err(c) => s == Err::<Seq<TableModel>, MigrationCause>(c),
            }
        }),
{
    let stmts = match parse_script(script) {
        Err(c) => {
            return Err(c);
        },
        Ok(v) => v,
    };
    let work = schema.duplicate();
    apply_stmts(work, stmts)
}

/// Brings the ledger and schema from the highest applied version up to
/// the catalog's maximum, one step at a time, recording each success.
/// Stops with `MigrationError` at the first step that fails; steps
/// already applied stay applied.
#[verifier::loop_isolation(false)]
pub fn migrate_core(ledger: &mut Ledger, schema: &mut Schema, catalog: &Catalog, now: i64) -> (r:
    Result<u32, StoreError>)
    requires
        old(ledger).wf(),
        schema_wf(old(schema)@),
        catalog.wf(),
        old(ledger).entries@.len() <= catalog.steps@.len(),
    ensures
        final(ledger).wf(),
        schema_wf(final(schema)@),
        final(ledger).entries@.len() <= catalog.steps@.len(),
        ({
            let m = spec_migrate(old(ledger).entries@, old(schema)@, catalog.steps@, now);
            &&& final(ledger).entries@ == m.ledger
            &&& final(schema)@ == m.schema
            &&& r == m.result
        }),
{
    let ghost led0 = ledger.entries@;
    let ghost sch0 = schema@;
    let ghost cat_v = catalog.steps@;
    let mut k = ledger.version();
    let maxv = catalog.max_version();
    while k < maxv
        invariant
            ledger.wf(),
            schema_wf(schema@),
            k == ledger.entries@.len(),
            k <= maxv,
            maxv == catalog.steps@.len(),
            catalog.wf(),
            cat_v == catalog.steps@,
            spec_migrate(led0, sch0, cat_v, now) == spec_migrate(
                ledger.entries@,
                schema@,
                cat_v,
                now,
            ),
        decreases maxv - k,
    {
        let ghost led_cur = ledger.entries@;
        let ghost sch_cur = schema@;
        let ghost pend = cat_v.skip(k as int);
        proof {
            assert(pend.len() == maxv - k);
            assert(pend[0] == cat_v[k as int]);
        }
        let step = &catalog.steps[k as usize];
        match apply_step(schema, step.script.as_str()) {
            Err(c) => {
                proof {
                    let run = spec_run(sch_cur, pend);
                    assert(run.applied == 0 && run.schema == sch_cur && run.err == Some(c));
                    assert(pend.take(0) =~= Seq::<MigrationStep>::empty());
                    assert(spec_entries(pend.take(0), now) =~= Seq::<LedgerEntry>::empty());
                    assert(led_cur + spec_entries(pend.take(0), now) =~= led_cur);
                    assert(step.version == k + 1);
                }
                return Err(StoreError::MigrationError { version: step.version, cause: c });
            },
            Ok(new_schema) => {
                *schema = new_schema;
                let description = step.description.clone();
                let entry = LedgerEntry { version: step.version, description, applied_at: now };
                ledger.entries.push(entry);
                proof {
                    let pend2 = cat_v.skip(k as int + 1);
                    assert(pend.drop_first() =~= pend2);
                    lemma_run_bounds(schema@, pend2);
                    let run2 = spec_run(schema@, pend2);
                    let run = spec_run(sch_cur, pend);
                    assert(run.applied == run2.applied + 1 && run.schema == run2.schema
                        && run.err == run2.err);
                    assert(ledger.entries@ =~= led_cur.push(entry));
                    assert(entry == LedgerEntry {
                        version: pend[0].version,
                        description: pend[0].description,
                        applied_at: now,
                    });
                    let l1 = led_cur + spec_entries(pend.take(run2.applied + 1), now);
                    let l2 = ledger.entries@ + spec_entries(pend2.take(run2.applied), now);
                    assert(l1.len() == l2.len());
                    assert forall|i: int| 0 <= i < l1.len() implies l1[i] == l2[i] by {
                        if i < led_cur.len() {
                        } else if i == led_cur.len() {
                            assert(pend.take(run2.applied + 1)[0] == pend[0]);
                            assert(l2[i] == entry);
                        } else {
                            let j = i - led_cur.len();
                            assert(pend.take(run2.applied + 1)[j] == pend[j]);
                            assert(pend2.take(run2.applied)[j - 1] == pend2[j - 1]);
                            assert(pend2[j - 1] == pend[j]);
                        }
                    }
                    assert(l1 =~= l2);
                    assert(spec_migrate(led0, sch0, cat_v, now) == spec_migrate(
                        ledger.entries@,
                        schema@,
                        cat_v,
                        now,
                    ));
                }
                k = k + 1;
            },
        }
    }
    proof {
        let pend = cat_v.skip(k as int);
        assert(pend.len() == 0);
        let run = spec_run(schema@, pend);
        assert(run.applied == 0 && run.err is None);
        assert(pend.take(0) =~= Seq::<MigrationStep>::empty());
        assert(spec_entries(pend.take(0), now) =~= Seq::<LedgerEntry>::empty());
        assert(ledger.entries@ + spec_entries(pend.take(0), now) =~= ledger.entries@);
    }
    Ok(k)
}

} // verus!
