//! Migration scripts: a small DDL dialect and its verified parser.
//!
//! A script is a sequence of statements, each terminated by `;`.  The
//! lexical rule is simple and documented: tokens are separated by
//! whitespace, so punctuation (`(`, `)`, `,`, `;`) is written with
//! spaces around it.  Statements:
//!
//! ```text
//! CREATE TABLE name ( column type mods , ... ) ;
//! ALTER TABLE name ADD COLUMN column type mods ;
//! ALTER TABLE name RENAME COLUMN old TO new ;
//! DROP TABLE name ;
//! ```
//!
//! where `type` is one of `INTEGER`, `SMALLINT`, `FLOAT`, `TEXT`, and
//! `mods` is any number of `NOT NULL` and `PRIMARY KEY` markers and
//! `DEFAULT value` clauses (the value, one token, is what the storage
//! engine fills existing rows with; the schema shape does not keep
//! it).  Columns are nullable unless `NOT NULL` is given.  Scripts are
//! validated on read: a script that does not match this grammar fails
//! its migration step with `InvalidScript`.
use vstd::prelude::*;

use crate::error::MigrationCause;
use crate::schema::{ColType, ColumnDef, ColumnModel, TableDef, TableModel};
use crate::text::str_eq;

verus! {

/// One parsed DDL statement.
#[derive(Debug, Clone, PartialEq)]
pub enum Stmt {
    CreateTable { table: TableDef },
    AddColumn { table: String, col: ColumnDef },
    RenameColumn { table: String, from: String, to: String },
    DropTable { table: String },
}

/// The mathematical model of a statement.
pub enum StmtModel {
    CreateTable { table: TableModel },
    AddColumn { table: Seq<char>, col: ColumnModel },
    RenameColumn { table: Seq<char>, from: Seq<char>, to: Seq<char> },
    DropTable { table: Seq<char> },
}

impl View for Stmt {
    type V = StmtModel;

    open spec fn view(&self) -> StmtModel {
        match self {
            Stmt::CreateTable { table } => StmtModel::CreateTable { table: table@ },
            Stmt::AddColumn { table, col } => StmtModel::AddColumn { table: table@, col: col@ },
            Stmt::RenameColumn { table, from, to } => StmtModel::RenameColumn {
                table: table@,
                from: from@,
                to: to@,
            },
            Stmt::DropTable { table } => StmtModel::DropTable { table: table@ },
        }
    }
}

impl DeepView for Stmt {
    type V = StmtModel;

    open spec fn deep_view(&self) -> StmtModel {
        self@
    }
}

/// Whitespace separates tokens.
pub open spec fn is_ws(c: char) -> bool {
    c == ' ' || c == '\n' || c == '\t' || c == '\r'
}

/// The tokens of `s` from position `i` on, given the token read so far
/// (`cur`) and the tokens already read (`acc`): maximal runs of
/// non-whitespace characters, in order.
pub open spec fn spec_tokens_acc(
    s: Seq<char>,
    i: int,
    cur: Seq<char>,
    acc: Seq<Seq<char>>,
) -> Seq<Seq<char>>
    decreases s.len() - i,
{
    if i < 0 || i >= s.len() {
        if cur.len() == 0 {
            acc
        } else {
            acc.push(cur)
        }
    } else if is_ws(s[i]) {
        if cur.len() == 0 {
            spec_tokens_acc(s, i + 1, cur, acc)
        } else {
            spec_tokens_acc(s, i + 1, Seq::empty(), acc.push(cur))
        }
    } else {
        spec_tokens_acc(s, i + 1, cur.push(s[i]), acc)
    }
}

/// The token list of a script text.
pub open spec fn spec_tokens(s: Seq<char>) -> Seq<Seq<char>> {
    spec_tokens_acc(s, 0, Seq::empty(), Seq::empty())
}

/// An identifier: nonempty, letters, digits or `_`, not starting with
/// a digit.
pub open spec fn is_ident_char(c: char) -> bool {
    let u = c as u32;
    ||| ('a' as u32) <= u <= ('z' as u32)
    ||| ('A' as u32) <= u <= ('Z' as u32)
    ||| ('0' as u32) <= u <= ('9' as u32)
    ||| u == ('_' as u32)
}

pub open spec fn spec_is_ident(t: Seq<char>) -> bool {
    &&& t.len() > 0
    &&& !(('0' as u32) <= (t[0] as u32) <= ('9' as u32))
    &&& forall|k: int| 0 <= k < t.len() ==> is_ident_char(#[trigger] t[k])
}

/// The column type a token denotes, if any.
pub open spec fn spec_col_type(t: Seq<char>) -> Option<ColType> {
    if t == "INTEGER"@ {
        Some(ColType::Integer)
    } else if t == "SMALLINT"@ {
        Some(ColType::SmallInt)
    } else if t == "FLOAT"@ {
        Some(ColType::Float)
    } else if t == "TEXT"@ {
        Some(ColType::Text)
    } else {
        None
    }
}

/// Reads column modifiers (`NOT NULL`, `PRIMARY KEY`) from token `i`
/// until a separator (`,`, `)`, `;`) or the end of the tokens; yields
/// the final nullability and primary-key flags and the position of the
/// separator.
pub open spec fn spec_parse_mods(ts: Seq<Seq<char>>, i: int, nullable: bool, primary: bool) -> Option<
    (bool, bool, int),
>
    decreases ts.len() - i,
{
    if i < 0 || i >= ts.len() {
        Some((nullable, primary, i))
    } else if ts[i] == ","@ || ts[i] == ")"@ || ts[i] == ";"@ {
        Some((nullable, primary, i))
    } else if ts[i] == "NOT"@ {
        if i + 1 < ts.len() && ts[i + 1] == "NULL"@ {
            spec_parse_mods(ts, i + 2, false, primary)
        } else {
            None
        }
    } else if ts[i] == "PRIMARY"@ {
        if i + 1 < ts.len() && ts[i + 1] == "KEY"@ {
            spec_parse_mods(ts, i + 2, nullable, true)
        } else {
            None
        }
    } else if ts[i] == "DEFAULT"@ {
        if i + 1 < ts.len() {
            spec_parse_mods(ts, i + 2, nullable, primary)
        } else {
            None
        }
    } else {
        None
    }
}

/// Reads one column definition (`name type mods`) starting at token
/// `i`; yields the column and the position of the separator after it.
pub open spec fn spec_parse_coldef(ts: Seq<Seq<char>>, i: int) -> Option<(ColumnModel, int)> {
    if 0 <= i && i + 1 < ts.len() && spec_is_ident(ts[i]) {
        match spec_col_type(ts[i + 1]) {
            None => None,
            Some(ty) => match spec_parse_mods(ts, i + 2, true, false) {
                None => None,
                Some((nullable, primary, j)) => Some(
                    (ColumnModel { name: ts[i], ty, nullable, primary }, j),
                ),
            },
        }
    } else {
        None
    }
}

/// Reads a comma-separated column list terminated by `)`, starting at
/// token `i`; yields the columns and the position after the `)`.
pub open spec fn spec_parse_cols(ts: Seq<Seq<char>>, i: int) -> Option<(Seq<ColumnModel>, int)>
    decreases ts.len() - i,
{
    match spec_parse_coldef(ts, i) {
        None => None,
        Some((c, j)) => if j <= i || j > ts.len() {
            None  // a column parse always advances; kept for well-foundedness
        } else if j < ts.len() && ts[j] == ","@ {
            match spec_parse_cols(ts, j + 1) {
                None => None,
                Some((cs, k)) => Some((seq![c] + cs, k)),
            }
        } else if j < ts.len() && ts[j] == ")"@ {
            Some((seq![c], j + 1))
        } else {
            None
        },
    }
}

/// Reads one statement starting at token `i`; yields the statement and
/// the position after its terminating `;`.
pub open spec fn spec_parse_stmt(ts: Seq<Seq<char>>, i: int) -> Option<(StmtModel, int)> {
    if i < 0 || i >= ts.len() {
        None
    } else if ts[i] == "CREATE"@ {
        if i + 3 < ts.len() && ts[i + 1] == "TABLE"@ && spec_is_ident(ts[i + 2]) && ts[i + 3]
            == "("@ {
            match spec_parse_cols(ts, i + 4) {
                None => None,
                Some((cols, j)) => if j < ts.len() && ts[j] == ";"@ {
                    Some((StmtModel::CreateTable { table: TableModel { name: ts[i + 2], cols } }, j + 1))
                } else {
                    None
                },
            }
        } else {
            None
        }
    } else if ts[i] == "ALTER"@ {
        if i + 4 < ts.len() && ts[i + 1] == "TABLE"@ && spec_is_ident(ts[i + 2]) && ts[i + 3]
            == "ADD"@ && ts[i + 4] == "COLUMN"@ {
            match spec_parse_coldef(ts, i + 5) {
                None => None,
                Some((col, j)) => if j < ts.len() && ts[j] == ";"@ {
                    Some((StmtModel::AddColumn { table: ts[i + 2], col }, j + 1))
                } else {
                    None
                },
            }
        } else if i + 8 < ts.len() && ts[i + 1] == "TABLE"@ && spec_is_ident(ts[i + 2]) && ts[i
            + 3] == "RENAME"@ && ts[i + 4] == "COLUMN"@ && spec_is_ident(ts[i + 5]) && ts[i + 6]
            == "TO"@ && spec_is_ident(ts[i + 7]) && ts[i + 8] == ";"@ {
            Some(
                (
                    StmtModel::RenameColumn { table: ts[i + 2], from: ts[i + 5], to: ts[i + 7] },
                    i + 9,
                ),
            )
        } else {
            None
        }
    } else if ts[i] == "DROP"@ {
        if i + 3 < ts.len() && ts[i + 1] == "TABLE"@ && spec_is_ident(ts[i + 2]) && ts[i + 3]
            == ";"@ {
            Some((StmtModel::DropTable { table: ts[i + 2] }, i + 4))
        } else {
            None
        }
    } else {
        None
    }
}

/// Reads statements from token `i` to the end of the tokens.
pub open spec fn spec_parse_stmts(ts: Seq<Seq<char>>, i: int) -> Option<Seq<StmtModel>>
    decreases ts.len() - i,
{
    if i < 0 {
        None
    } else if i >= ts.len() {
        Some(Seq::empty())
    } else {
        match spec_parse_stmt(ts, i) {
            None => None,
            Some((st, j)) => if j <= i || j > ts.len() {
                None  // a statement parse always advances; kept for well-foundedness
            } else {
                match spec_parse_stmts(ts, j) {
                    None => None,
                    Some(rest) => Some(seq![st] + rest),
                }
            },
        }
    }
}

/// The meaning of a script text: its statements, or nothing when the
/// text does not match the grammar.
pub open spec fn spec_parse_script(s: Seq<char>) -> Option<Seq<StmtModel>> {
    spec_parse_stmts(spec_tokens(s), 0)
}

/// The token `cur` under construction during tokenizing.
pub open spec fn tok_cur(s: Seq<char>, start: int, i: int, in_tok: bool) -> Seq<char> {
    if in_tok {
        s.subrange(start, i)
    } else {
        Seq::empty()
    }
}

/// Splits a script text into whitespace-separated tokens.
pub fn tokenize(s: &str) -> (toks: Vec<String>)
    ensures
        toks.deep_view() == spec_tokens(s@),
{
    let n = s.unicode_len();
    let mut toks: Vec<String> = Vec::new();
    let mut start: usize = 0;
    let mut in_tok: bool = false;
    let mut i: usize = 0;
    proof {
        assert(toks.deep_view() =~= Seq::<Seq<char>>::empty());
    }
    while i < n
        invariant
            n == s@.len(),
            i <= n,
            in_tok ==> start < i,
            spec_tokens(s@) == spec_tokens_acc(
                s@,
                i as int,
                tok_cur(s@, start as int, i as int, in_tok),
                toks.deep_view(),
            ),
        decreases n - i,
    {
        let ghost cur0 = tok_cur(s@, start as int, i as int, in_tok);
        let ghost acc0 = toks.deep_view();
        let c = s.get_char(i);
        if c == ' ' || c == '\n' || c == '\t' || c == '\r' {
            if in_tok {
                let t = String::from_str(s.substring_char(start, i));
                toks.push(t);
                in_tok = false;
                proof {
                    assert(toks.deep_view() =~= acc0.push(cur0));
                }
            }
        } else {
            if !in_tok {
                start = i;
                in_tok = true;
            }
            proof {
                assert(tok_cur(s@, start as int, i as int + 1, true) =~= cur0.push(s@[i as int]));
            }
        }
        i += 1;
    }
    if in_tok {
        let ghost cur0 = tok_cur(s@, start as int, i as int, in_tok);
        let ghost acc0 = toks.deep_view();
        let t = String::from_str(s.substring_char(start, n));
        toks.push(t);
        proof {
            assert(toks.deep_view() =~= acc0.push(cur0));
        }
    }
    toks
}

/// Whether token `i` is exactly the literal `lit`.
fn tok_is(toks: &Vec<String>, i: usize, lit: &str) -> (b: bool)
    requires
        i < toks@.len(),
    ensures
        b == (toks.deep_view()[i as int] == lit@),
{
    str_eq(toks[i].as_str(), lit)
}

/// Whether the token is an identifier.
fn is_ident(t: &String) -> (b: bool)
    ensures
        b == spec_is_ident(t@),
{
    let s = t.as_str();
    let n = s.unicode_len();
    if n == 0 {
        return false;
    }
    let c0 = s.get_char(0);
    if ('0' as u32) <= (c0 as u32) && (c0 as u32) <= ('9' as u32) {
        return false;
    }
    let mut i: usize = 0;
    while i < n
        invariant
            n == t@.len(),
            s@ == t@,
            i <= n,
            forall|k: int| 0 <= k < i ==> is_ident_char(#[trigger] t@[k]),
        decreases n - i,
    {
        let c = s.get_char(i);
        let u = c as u32;
        let ok = (('a' as u32) <= u && u <= ('z' as u32)) || (('A' as u32) <= u && u <= ('Z'
            as u32)) || (('0' as u32) <= u && u <= ('9' as u32)) || u == ('_' as u32);
        if !ok {
            return false;
        }
        i += 1;
    }
    true
}

/// The column type a token denotes.
fn col_type_of(t: &String) -> (r: Option<ColType>)
    ensures
        r == spec_col_type(t@),
{
    if str_eq(t.as_str(), "INTEGER") {
        Some(ColType::Integer)
    } else if str_eq(t.as_str(), "SMALLINT") {
        Some(ColType::SmallInt)
    } else if str_eq(t.as_str(), "FLOAT") {
        Some(ColType::Float)
    } else if str_eq(t.as_str(), "TEXT") {
        Some(ColType::Text)
    } else {
        None
    }
}

/// Reads column modifiers from token `start` on.
fn parse_mods(toks: &Vec<String>, start: usize, nu0: bool, pk0: bool) -> (r: Option<
    (bool, bool, usize),
>)
    requires
        start <= toks@.len(),
    ensures
        ({
            let s = spec_parse_mods(toks.deep_view(), start as int, nu0, pk0);
            match r {
                Some((nu, pk, j)) => s == Some((nu, pk, j as int)) && start <= j <= toks@.len(),
                None => s is None,
            }
        }),
{
    let ghost ts = toks.deep_view();
    let mut nu = nu0;
    let mut pk = pk0;
    let mut i = start;
    loop
        invariant
            start <= i <= toks@.len(),
            ts == toks.deep_view(),
            spec_parse_mods(ts, start as int, nu0, pk0) == spec_parse_mods(ts, i as int, nu, pk),
        decreases toks@.len() - i,
    {
        if i == toks.len() {
            return Some((nu, pk, i));
        }
        if tok_is(toks, i, ",") || tok_is(toks, i, ")") || tok_is(toks, i, ";") {
            return Some((nu, pk, i));
        }
        if tok_is(toks, i, "NOT") {
            if i + 1 < toks.len() && tok_is(toks, i + 1, "NULL") {
                nu = false;
                i = i + 2;
            } else {
                return None;
            }
        } else if tok_is(toks, i, "PRIMARY") {
            if i + 1 < toks.len() && tok_is(toks, i + 1, "KEY") {
                pk = true;
                i = i + 2;
            } else {
                return None;
            }
        } else if tok_is(toks, i, "DEFAULT") {
            if i + 1 < toks.len() {
                i = i + 2;
            } else {
                return None;
            }
        } else {
            return None;
        }
    }
}

/// Reads one column definition from token `i` on.
fn parse_coldef(toks: &Vec<String>, i: usize) -> (r: Option<(ColumnDef, usize)>)
    requires
        i <= toks@.len(),
    ensures
        ({
            let s = spec_parse_coldef(toks.deep_view(), i as int);
            match r {
                Some((c, j)) => s == Some((c@, j as int)) && i + 2 <= j <= toks@.len(),
                None => s is None,
            }
        }),
{
    if i >= toks.len() {
        return None;
    }
    if i + 1 >= toks.len() {
        return None;
    }
    if !is_ident(&toks[i]) {
        return None;
    }
    let ty = match col_type_of(&toks[i + 1]) {
        None => {
            return None;
        },
        Some(t) => t,
    };
    match parse_mods(toks, i + 2, true, false) {
        None => None,
        Some((nullable, primary, j)) => {
            let name = toks[i].clone();
            Some((ColumnDef { name, ty, nullable, primary }, j))
        },
    }
}

/// Reads a column list terminated by `)` from token `start` on.
fn parse_cols(toks: &Vec<String>, start: usize) -> (r: Option<(Vec<ColumnDef>, usize)>)
    requires
        start <= toks@.len(),
    ensures
        ({
            let s = spec_parse_cols(toks.deep_view(), start as int);
            match r {
                Some((cols, j)) => s == Some((cols.deep_view(), j as int)) && start < j
                    <= toks@.len(),
                None => s is None,
            }
        }),
{
    let ghost ts = toks.deep_view();
    let mut cols: Vec<ColumnDef> = Vec::new();
    let mut i = start;
    proof {
        assert(cols.deep_view() =~= Seq::<ColumnModel>::empty());
    }
    loop
        invariant
            start <= i <= toks@.len(),
            ts == toks.deep_view(),
            ({
                let o = spec_parse_cols(ts, start as int);
                match spec_parse_cols(ts, i as int) {
                    Some((cs, k)) => o == Some((cols.deep_view() + cs, k)),
                    None => o is None,
                }
            }),
        decreases toks@.len() - i,
    {
        let ghost dv0 = cols.deep_view();
        match parse_coldef(toks, i) {
            None => {
                return None;
            },
            Some((c, j)) => {
                let ghost cm = c@;
                if j < toks.len() && tok_is(toks, j, ",") {
                    cols.push(c);
                    proof {
                        assert(cols.deep_view() =~= dv0.push(cm));
                        if let Some((cs, k)) = spec_parse_cols(ts, j as int + 1) {
                            assert(dv0 + (seq![cm] + cs) =~= cols.deep_view() + cs);
                        }
                    }
                    i = j + 1;
                } else if j < toks.len() && tok_is(toks, j, ")") {
                    cols.push(c);
                    proof {
                        assert(cols.deep_view() =~= dv0.push(cm));
                        assert(dv0 + seq![cm] =~= cols.deep_view());
                    }
                    return Some((cols, j + 1));
                } else {
                    return None;
                }
            },
        }
    }
}

/// Reads one statement from token `i` on.
fn parse_stmt(toks: &Vec<String>, i: usize) -> (r: Option<(Stmt, usize)>)
    requires
        i <= toks@.len(),
    ensures
        ({
            let s = spec_parse_stmt(toks.deep_view(), i as int);
            match r {
                Some((st, j)) => s == Some((st@, j as int)) && i < j <= toks@.len(),
                None => s is None,
            }
        }),
{
    if i >= toks.len() {
        return None;
    }
    if tok_is(toks, i, "CREATE") {
        if toks.len() - i > 3 && tok_is(toks, i + 1, "TABLE") && is_ident(&toks[i + 2]) && tok_is(
            toks,
            i + 3,
            "(",
        ) {
            match parse_cols(toks, i + 4) {
                None => None,
                Some((cols, j)) => {
                    if j < toks.len() && tok_is(toks, j, ";") {
                        let name = toks[i + 2].clone();
                        let table = TableDef { name, cols };
                        proof {
                            assert(table@.cols =~= table.cols.deep_view());
                        }
                        Some((Stmt::CreateTable { table }, j + 1))
                    } else {
                        None
                    }
                },
            }
        } else {
            None
        }
    } else if tok_is(toks, i, "ALTER") {
        if toks.len() - i > 4 && tok_is(toks, i + 1, "TABLE") && is_ident(&toks[i + 2]) && tok_is(
            toks,
            i + 3,
            "ADD",
        ) && tok_is(toks, i + 4, "COLUMN") {
            match parse_coldef(toks, i + 5) {
                None => None,
                Some((col, j)) => {
                    if j < toks.len() && tok_is(toks, j, ";") {
                        let table = toks[i + 2].clone();
                        Some((Stmt::AddColumn { table, col }, j + 1))
                    } else {
                        None
                    }
                },
            }
        } else if toks.len() - i > 8 && tok_is(toks, i + 1, "TABLE") && is_ident(&toks[i + 2])
            && tok_is(toks, i + 3, "RENAME") && tok_is(toks, i + 4, "COLUMN") && is_ident(
            &toks[i + 5],
        ) && tok_is(toks, i + 6, "TO") && is_ident(&toks[i + 7]) && tok_is(toks, i + 8, ";") {
            let table = toks[i + 2].clone();
            let from = toks[i + 5].clone();
            let to = toks[i + 7].clone();
            Some((Stmt::RenameColumn { table, from, to }, i + 9))
        } else {
            None
        }
    } else if tok_is(toks, i, "DROP") {
        if toks.len() - i > 3 && tok_is(toks, i + 1, "TABLE") && is_ident(&toks[i + 2]) && tok_is(
            toks,
            i + 3,
            ";",
        ) {
            let table = toks[i + 2].clone();
            Some((Stmt::DropTable { table }, i + 4))
        } else {
            None
        }
    } else {
        None
    }
}

/// Parses a whole script, validating it against the grammar.
pub fn parse_script(s: &str) -> (r: Result<Vec<Stmt>, MigrationCause>)
    ensures
        match r {
            Ok(v) => spec_parse_script(s@) == Some(v.deep_view()),
            Err(c) => spec_parse_script(s@) is None && c == MigrationCause::InvalidScript,
        },
{
    let toks = tokenize(s);
    let ghost ts = toks.deep_view();
    let mut stmts: Vec<Stmt> = Vec::new();
    let mut i: usize = 0;
    proof {
        assert(stmts.deep_view() =~= Seq::<StmtModel>::empty());
    }
    while i < toks.len()
        invariant
            i <= toks@.len(),
            ts == toks.deep_view(),
            ts == spec_tokens(s@),
            ({
                let o = spec_parse_stmts(ts, 0);
                match spec_parse_stmts(ts, i as int) {
                    Some(rest) => o == Some((stmts.deep_view() + rest)),
                    None => o is None,
                }
            }),
        decreases toks@.len() - i,
    {
        let ghost dv0 = stmts.deep_view();
        match parse_stmt(&toks, i) {
            None => {
                return Err(MigrationCause::InvalidScript);
            },
            Some((st, j)) => {
                let ghost sm = st@;
                stmts.push(st);
                proof {
                    assert(stmts.deep_view() =~= dv0.push(sm));
                    if let Some(rest) = spec_parse_stmts(ts, j as int) {
                        assert(dv0 + (seq![sm] + rest) =~= stmts.deep_view() + rest);
                    }
                }
                i = j;
            },
        }
    }
    proof {
        assert(stmts.deep_view() + Seq::<StmtModel>::empty() =~= stmts.deep_view());
    }
    Ok(stmts)
}

} // verus!
