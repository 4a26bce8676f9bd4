//! The schema catalog: table definitions (name, ordered columns, each
//! column's semantic type, nullability and primary-key membership) and
//! the three shape-changing operations that migration scripts perform.
//!
//! Conventions: boolean flags are `SmallInt` columns holding 0 or 1;
//! every entity table's primary key is its `id` column.
use vstd::prelude::*;

use crate::error::MigrationCause;
use crate::text::str_eq;

verus! {

/// The semantic type of a column.
#[derive(Clone, Copy, Debug, PartialEq, Eq, Structural)]
pub enum ColType {
    /// A full-width integer (ids, counts).
    Integer,
    /// A small integer used for flags (0 or 1) and small enumerations.
    SmallInt,
    /// A fixed-point numeric value (weights, distances).
    Float,
    /// Text.
    Text,
}

/// One column of a table.
#[derive(Debug, Clone, PartialEq)]
pub struct ColumnDef {
    pub name: String,
    pub ty: ColType,
    pub nullable: bool,
    pub primary: bool,
}

/// The mathematical model of a column.
pub struct ColumnModel {
    pub name: Seq<char>,
    pub ty: ColType,
    pub nullable: bool,
    pub primary: bool,
}

impl View for ColumnDef {
    type V = ColumnModel;

    open spec fn view(&self) -> ColumnModel {
        ColumnModel { name: self.name@, ty: self.ty, nullable: self.nullable, primary: self.primary }
    }
}

impl DeepView for ColumnDef {
    type V = ColumnModel;

    open spec fn deep_view(&self) -> ColumnModel {
        self@
    }
}

/// One table: a name and an ordered, nonempty column list.
#[derive(Debug, Clone, PartialEq)]
pub struct TableDef {
    pub name: String,
    pub cols: Vec<ColumnDef>,
}

/// The mathematical model of a table.
pub struct TableModel {
    pub name: Seq<char>,
    pub cols: Seq<ColumnModel>,
}

impl View for TableDef {
    type V = TableModel;

    open spec fn view(&self) -> TableModel {
        TableModel { name: self.name@, cols: self.cols@.map_values(|c: ColumnDef| c@) }
    }
}

impl DeepView for TableDef {
    type V = TableModel;

    open spec fn deep_view(&self) -> TableModel {
        self@
    }
}

/// The current set of table definitions, evolved only by migration steps.
#[derive(Debug, Clone, PartialEq)]
pub struct Schema {
    pub tables: Vec<TableDef>,
}

impl View for Schema {
    type V = Seq<TableModel>;

    open spec fn view(&self) -> Seq<TableModel> {
        self.tables@.map_values(|t: TableDef| t@)
    }
}

/// No two columns share a name.
pub open spec fn cols_unique(cols: Seq<ColumnModel>) -> bool {
    forall|j: int, k: int| 0 <= j < k < cols.len() ==> cols[j].name != cols[k].name
}

/// A table has at least one column and no repeated column names.
pub open spec fn table_wf(t: TableModel) -> bool {
    t.cols.len() >= 1 && cols_unique(t.cols)
}

/// Table names are unique and every table is well-formed.
pub open spec fn schema_wf(s: Seq<TableModel>) -> bool {
    &&& forall|i: int, j: int| 0 <= i < j < s.len() ==> s[i].name != s[j].name
    &&& forall|i: int| 0 <= i < s.len() ==> table_wf(#[trigger] s[i])
}

/// Whether the schema holds a table of this name.
pub open spec fn has_table(s: Seq<TableModel>, name: Seq<char>) -> bool {
    exists|i: int| 0 <= i < s.len() && s[i].name == name
}

/// The index of the table of this name (meaningful when `has_table`).
pub open spec fn table_index(s: Seq<TableModel>, name: Seq<char>) -> int {
    choose|i: int| 0 <= i < s.len() && s[i].name == name
}

/// Whether the table holds a column of this name.
pub open spec fn has_col(t: TableModel, name: Seq<char>) -> bool {
    exists|j: int| 0 <= j < t.cols.len() && t.cols[j].name == name
}

/// The index of the column of this name (meaningful when `has_col`).
pub open spec fn col_index(t: TableModel, name: Seq<char>) -> int {
    choose|j: int| 0 <= j < t.cols.len() && t.cols[j].name == name
}

/// What creating a table does to the schema: rejected when the name is
/// taken, when the column list is empty, or when column names repeat;
/// otherwise the table is appended.
pub open spec fn spec_create_table(s: Seq<TableModel>, t: TableModel) -> Result<
    Seq<TableModel>,
    MigrationCause,
> {
    if has_table(s, t.name) {
        Err(MigrationCause::TableAlreadyExists)
    } else if t.cols.len() == 0 {
        Err(MigrationCause::InvalidScript)
    } else if !cols_unique(t.cols) {
        Err(MigrationCause::DuplicateColumn)
    } else {
        Ok(s.push(t))
    }
}

/// What adding a column does to the schema: rejected when the table is
/// absent or the column name is taken; otherwise the column is appended
/// to that table.
pub open spec fn spec_add_column(s: Seq<TableModel>, table: Seq<char>, c: ColumnModel) -> Result<
    Seq<TableModel>,
    MigrationCause,
> {
    if !has_table(s, table) {
        Err(MigrationCause::NoSuchTable)
    } else {
        let i = table_index(s, table);
        if has_col(s[i], c.name) {
            Err(MigrationCause::ColumnAlreadyExists)
        } else {
            Ok(s.update(i, TableModel { name: s[i].name, cols: s[i].cols.push(c) }))
        }
    }
}

/// What renaming a column does to the schema: rejected when the table
/// is absent, the old column is absent, or the new name is taken;
/// otherwise only that column's name changes — its type, nullability,
/// primary-key flag and position, and every row of data the storage
/// engine holds under it, stay as they are.
pub open spec fn spec_rename_column(
    s: Seq<TableModel>,
    table: Seq<char>,
    from: Seq<char>,
    to: Seq<char>,
) -> Result<Seq<TableModel>, MigrationCause> {
    if !has_table(s, table) {
        Err(MigrationCause::NoSuchTable)
    } else {
        let i = table_index(s, table);
        if !has_col(s[i], from) {
            Err(MigrationCause::NoSuchColumn)
        } else if has_col(s[i], to) {
            Err(MigrationCause::ColumnAlreadyExists)
        } else {
            let j = col_index(s[i], from);
            let c = s[i].cols[j];
            Ok(
                s.update(
                    i,
                    TableModel {
                        name: s[i].name,
                        cols: s[i].cols.update(
                            j,
                            ColumnModel { name: to, ty: c.ty, nullable: c.nullable, primary: c.primary },
                        ),
                    },
                ),
            )
        }
    }
}

/// What dropping a table does to the schema: rejected when the table is
/// absent; otherwise the table is removed.
pub open spec fn spec_drop_table(s: Seq<TableModel>, table: Seq<char>) -> Result<
    Seq<TableModel>,
    MigrationCause,
> {
    if !has_table(s, table) {
        Err(MigrationCause::NoSuchTable)
    } else {
        Ok(s.remove(table_index(s, table)))
    }
}

impl ColumnDef {
    /// A copy of this column definition.
    pub fn duplicate(&self) -> (r: ColumnDef)
        ensures
            r@ == self@,
    {
        ColumnDef {
            name: self.name.clone(),
            ty: self.ty,
            nullable: self.nullable,
            primary: self.primary,
        }
    }
}

impl TableDef {
    /// A copy of this table definition.
    pub fn duplicate(&self) -> (r: TableDef)
        ensures
            r@ == self@,
    {
        let mut cols: Vec<ColumnDef> = Vec::new();
        let mut j: usize = 0;
        while j < self.cols.len()
            invariant
                j <= self.cols@.len(),
                cols@.len() == j,
                forall|k: int| 0 <= k < j ==> cols@[k]@ == self.cols@[k]@,
            decreases self.cols@.len() - j,
        {
            cols.push(self.cols[j].duplicate());
            j += 1;
        }
        let r = TableDef { name: self.name.clone(), cols };
        proof {
            assert(r@.cols =~= self@.cols);
        }
        r
    }
}

impl Schema {
    /// A copy of this schema, used to apply a migration step atomically:
    /// the copy takes the step's statements and replaces the schema only
    /// when the whole step has succeeded.
    pub fn duplicate(&self) -> (r: Schema)
        ensures
            r@ == self@,
    {
        let mut tables: Vec<TableDef> = Vec::new();
        let mut i: usize = 0;
        while i < self.tables.len()
            invariant
                i <= self.tables@.len(),
                tables@.len() == i,
                forall|k: int| 0 <= k < i ==> tables@[k]@ == self.tables@[k]@,
            decreases self.tables@.len() - i,
        {
            tables.push(self.tables[i].duplicate());
            i += 1;
        }
        let r = Schema { tables };
        proof {
            assert(r@ =~= self@);
        }
        r
    }
}

impl TableDef {
    /// Whether this table holds a column of the given name.
    pub fn has_column(&self, name: &str) -> (b: bool)
        ensures
            b == has_col(self@, name@),
    {
        let mut j: usize = 0;
        while j < self.cols.len()
            invariant
                j <= self.cols@.len(),
                forall|k: int| 0 <= k < j ==> self@.cols[k].name != name@,
            decreases self.cols@.len() - j,
        {
            if str_eq(self.cols[j].name.as_str(), name) {
                assert(self@.cols[j as int].name == name@);
                return true;
            }
            j += 1;
        }
        false
    }

    /// The position of the named column, scanning in order.
    pub fn find_column(&self, name: &str) -> (r: Option<usize>)
        ensures
            match r {
                Some(j) => j < self@.cols.len() && self@.cols[j as int].name == name@,
                None => !has_col(self@, name@),
            },
    {
        let mut j: usize = 0;
        while j < self.cols.len()
            invariant
                j <= self.cols@.len(),
                forall|k: int| 0 <= k < j ==> self@.cols[k].name != name@,
            decreases self.cols@.len() - j,
        {
            if str_eq(self.cols[j].name.as_str(), name) {
                return Some(j);
            }
            j += 1;
        }
        None
    }
}

/// Checks that no two columns of the list share a name.
pub fn check_cols_unique(cols: &Vec<ColumnDef>) -> (b: bool)
    ensures
        b == cols_unique(cols@.map_values(|c: ColumnDef| c@)),
{
    let ghost cv = cols@.map_values(|c: ColumnDef| c@);
    let mut j: usize = 0;
    while j < cols.len()
        invariant
            j <= cols@.len(),
            cv == cols@.map_values(|c: ColumnDef| c@),
            forall|x: int, y: int| 0 <= x < y < cols@.len() && x < j ==> cv[x].name != cv[y].name,
        decreases cols@.len() - j,
    {
        let mut k: usize = j + 1;
        while k < cols.len()
            invariant
                j < cols@.len(),
                j + 1 <= k,
                cv == cols@.map_values(|c: ColumnDef| c@),
                forall|y: int| j < y < k ==> cv[j as int].name != cv[y].name,
            decreases cols@.len() - k,
        {
            if str_eq(cols[j].name.as_str(), cols[k].name.as_str()) {
                assert(cv[j as int].name == cv[k as int].name);
                return false;
            }
            k += 1;
        }
        j += 1;
    }
    true
}

impl Schema {
    /// An empty schema, as a freshly created store has it.
    pub fn new() -> (r: Schema)
        ensures
            r@ =~= Seq::<TableModel>::empty(),
            schema_wf(r@),
    {
        Schema { tables: Vec::new() }
    }

    /// The position of the named table, scanning in order.
    pub fn find_table(&self, name: &str) -> (r: Option<usize>)
        ensures
            match r {
                Some(i) => i < self@.len() && self@[i as int].name == name@,
                None => !has_table(self@, name@),
            },
    {
        let mut i: usize = 0;
        while i < self.tables.len()
            invariant
                i <= self.tables@.len(),
                forall|k: int| 0 <= k < i ==> self@[k].name != name@,
            decreases self.tables@.len() - i,
        {
            if str_eq(self.tables[i].name.as_str(), name) {
                return Some(i);
            }
            i += 1;
        }
        None
    }

    /// Whether the schema holds a table of this name.
    pub fn contains_table(&self, name: &str) -> (b: bool)
        ensures
            b == has_table(self@, name@),
    {
        match self.find_table(name) {
            Some(_) => true,
            None => false,
        }
    }

    /// Creates a table, or reports why it cannot be created.
    pub fn create_table(&mut self, t: TableDef) -> (r: Result<(), MigrationCause>)
        requires
            schema_wf(old(self)@),
        ensures
            schema_wf(final(self)@),
            match spec_create_table(old(self)@, t@) {
                Ok(s2) => r == Ok::<(), MigrationCause>(()) && final(self)@ == s2,
                Err(c) => r == Err::<(), MigrationCause>(c) && final(self)@ == old(self)@,
            },
    {
        if let Some(_) = self.find_table(t.name.as_str()) {
            return Err(MigrationCause::TableAlreadyExists);
        }
        if t.cols.len() == 0 {
            return Err(MigrationCause::InvalidScript);
        }
        if !check_cols_unique(&t.cols) {
            return Err(MigrationCause::DuplicateColumn);
        }
        let ghost s0 = self@;
        let ghost tv = t@;
        self.tables.push(t);
        proof {
            assert(self@ =~= s0.push(tv));
            assert forall|i: int, j: int| 0 <= i < j < self@.len() implies self@[i].name
                != self@[j].name by {
                if j == s0.len() as int {
                    assert(self@[i] == s0[i]);
                }
            }
            assert forall|i: int| 0 <= i < self@.len() implies table_wf(#[trigger] self@[i]) by {
                if i < s0.len() {
                    assert(self@[i] == s0[i]);
                }
            }
        }
        Ok(())
    }

    /// Adds a column to an existing table, or reports why it cannot.
    pub fn add_column(&mut self, table: &str, col: ColumnDef) -> (r: Result<(), MigrationCause>)
        requires
            schema_wf(old(self)@),
        ensures
            schema_wf(final(self)@),
            match spec_add_column(old(self)@, table@, col@) {
                Ok(s2) => r == Ok::<(), MigrationCause>(()) && final(self)@ == s2,
                Err(c) => r == Err::<(), MigrationCause>(c) && final(self)@ == old(self)@,
            },
    {
        let idx = match self.find_table(table) {
            None => {
                return Err(MigrationCause::NoSuchTable);
            },
            Some(i) => i,
        };
        let ghost s0 = self@;
        proof {
            assert(has_table(s0, table@));
            let ci = table_index(s0, table@);
            assert(0 <= ci < s0.len() && s0[ci].name == table@);
            assert(ci == idx as int);
        }
        if self.tables[idx].has_column(col.name.as_str()) {
            return Err(MigrationCause::ColumnAlreadyExists);
        }
        let ghost cm = col@;
        let tref = &mut self.tables[idx];
        tref.cols.push(col);
        proof {
            let t2 = TableModel { name: s0[idx as int].name, cols: s0[idx as int].cols.push(cm) };
            assert(self@[idx as int].cols =~= t2.cols);
            assert(self@[idx as int] == t2);
            assert(self@ =~= s0.update(idx as int, t2));
            assert forall|i: int| 0 <= i < self@.len() implies table_wf(#[trigger] self@[i]) by {
                if i != idx as int {
                    assert(self@[i] == s0[i]);
                } else {
                    assert forall|x: int, y: int|
                        0 <= x < y < t2.cols.len() implies t2.cols[x].name != t2.cols[y].name by {
                        if y == t2.cols.len() - 1 {
                            assert(t2.cols[x] == s0[idx as int].cols[x]);
                        }
                    }
                }
            }
            assert forall|i: int, j: int| 0 <= i < j < self@.len() implies self@[i].name
                != self@[j].name by {
                assert(self@[i].name == s0[i].name);
                assert(self@[j].name == s0[j].name);
            }
        }
        Ok(())
    }

    /// Renames a column of an existing table, or reports why it
    /// cannot; nothing but the column's name changes.
    pub fn rename_column(&mut self, table: &str, from: &str, to: &str) -> (r: Result<
        (),
        MigrationCause,
    >)
        requires
            schema_wf(old(self)@),
        ensures
            schema_wf(final(self)@),
            match spec_rename_column(old(self)@, table@, from@, to@) {
                Ok(s2) => r == Ok::<(), MigrationCause>(()) && final(self)@ == s2,
                Err(c) => r == Err::<(), MigrationCause>(c) && final(self)@ == old(self)@,
            },
    {
        let ti = match self.find_table(table) {
            None => {
                return Err(MigrationCause::NoSuchTable);
            },
            Some(i) => i,
        };
        let ghost s0 = self@;
        proof {
            let ci = table_index(s0, table@);
            assert(0 <= ci < s0.len() && s0[ci].name == table@);
            assert(ci == ti as int);
        }
        let j = match self.tables[ti].find_column(from) {
            None => {
                return Err(MigrationCause::NoSuchColumn);
            },
            Some(j) => j,
        };
        proof {
            assert(has_col(s0[ti as int], from@));
            let cj = col_index(s0[ti as int], from@);
            assert(0 <= cj < s0[ti as int].cols.len() && s0[ti as int].cols[cj].name == from@);
            assert(cols_unique(s0[ti as int].cols));
            assert(cj == j as int);
        }
        if self.tables[ti].has_column(to) {
            return Err(MigrationCause::ColumnAlreadyExists);
        }
        let tref = &mut self.tables[ti];
        let cref = &mut tref.cols[j];
        cref.name = String::from_str(to);
        proof {
            let c0 = s0[ti as int].cols[j as int];
            let c2 = ColumnModel { name: to@, ty: c0.ty, nullable: c0.nullable, primary: c0.primary };
            let t2 = TableModel {
                name: s0[ti as int].name,
                cols: s0[ti as int].cols.update(j as int, c2),
            };
            assert(self@[ti as int].cols =~= t2.cols);
            assert(self@[ti as int] == t2);
            assert(self@ =~= s0.update(ti as int, t2));
            assert forall|i: int| 0 <= i < self@.len() implies table_wf(#[trigger] self@[i]) by {
                if i != ti as int {
                    assert(self@[i] == s0[i]);
                } else {
                    assert forall|x: int, y: int|
                        0 <= x < y < t2.cols.len() implies t2.cols[x].name != t2.cols[y].name by {
                        if x != j as int && y != j as int {
                            assert(t2.cols[x] == s0[ti as int].cols[x]);
                            assert(t2.cols[y] == s0[ti as int].cols[y]);
                        } else if x == j as int {
                            assert(t2.cols[y] == s0[ti as int].cols[y]);
                            assert(!has_col(s0[ti as int], to@));
                        } else {
                            assert(t2.cols[x] == s0[ti as int].cols[x]);
                            assert(!has_col(s0[ti as int], to@));
                        }
                    }
                }
            }
            assert forall|i: int, k: int| 0 <= i < k < self@.len() implies self@[i].name
                != self@[k].name by {
                assert(self@[i].name == s0[i].name);
                assert(self@[k].name == s0[k].name);
            }
        }
        Ok(())
    }

    /// Drops an existing table, or reports why it cannot be dropped.
    pub fn drop_table(&mut self, table: &str) -> (r: Result<(), MigrationCause>)
        requires
            schema_wf(old(self)@),
        ensures
            schema_wf(final(self)@),
            match spec_drop_table(old(self)@, table@) {
                Ok(s2) => r == Ok::<(), MigrationCause>(()) && final(self)@ == s2,
                Err(c) => r == Err::<(), MigrationCause>(c) && final(self)@ == old(self)@,
            },
    {
        let idx = match self.find_table(table) {
            None => {
                return Err(MigrationCause::NoSuchTable);
            },
            Some(i) => i,
        };
        let ghost s0 = self@;
        proof {
            let ci = table_index(s0, table@);
            assert(0 <= ci < s0.len() && s0[ci].name == table@);
            assert(ci == idx as int);
        }
        self.tables.remove(idx);
        proof {
            assert(self@ =~= s0.remove(idx as int));
            assert forall|i: int| 0 <= i < self@.len() implies table_wf(#[trigger] self@[i]) by {
                if i < idx as int {
                    assert(self@[i] == s0[i]);
                } else {
                    assert(self@[i] == s0[i + 1]);
                }
            }
        }
        Ok(())
    }

    /// Looks a column up: its type, nullability and primary-key flag.
    pub fn column_info(&self, table: &str, col: &str) -> (r: Option<(ColType, bool, bool)>)
        requires
            schema_wf(self@),
        ensures
            match r {
                Some(info) => {
                    &&& has_table(self@, table@)
                    &&& has_col(self@[table_index(self@, table@)], col@)
                    &&& {
                        let t = self@[table_index(self@, table@)];
                        let c = t.cols[col_index(t, col@)];
                        info == (c.ty, c.nullable, c.primary)
                    }
                },
                None => !has_table(self@, table@) || !has_col(
                    self@[table_index(self@, table@)],
                    col@,
                ),
            },
    {
        let ti = match self.find_table(table) {
            None => {
                return None;
            },
            Some(i) => i,
        };
        proof {
            let ci = table_index(self@, table@);
            assert(0 <= ci < self@.len() && self@[ci].name == table@);
            assert(ci == ti as int);
        }
        let t = &self.tables[ti];
        match t.find_column(col) {
            None => None,
            Some(j) => {
                proof {
                    let cj = col_index(t@, col@);
                    assert(0 <= cj < t@.cols.len() && t@.cols[cj].name == col@);
                    assert(cols_unique(t@.cols));
                    assert(cj == j as int);
                }
                let c = &t.cols[j];
                Some((c.ty, c.nullable, c.primary))
            },
        }
    }
}

} // verus!
