//! The store's table lifecycle and write policy: which statements rebuild a
//! table, and how a batch insert proceeds, commits or rolls back. The store
//! itself (an embedded SQLite database) runs the statements.
use vstd::prelude::*;

verus! {

/// Location of the SQLite database, as a connection URL.
pub struct SqliteDb {
    path: String,
}

/// The URL prefix of a SQLite database file.
pub open spec fn url_prefix() -> Seq<char> {
    seq!['s', 'q', 'l', 'i', 't', 'e', ':', '/', '/']
}

impl SqliteDb {
    /// The database at file `path`.
    pub fn new(path: &str) -> (r: SqliteDb)
        ensures
            r.url()@ == url_prefix() + path@,
    {
        let prefix = "sqlite://";
        proof {
            reveal_strlit("sqlite://");
        }
        assert(prefix@ =~= url_prefix());
        SqliteDb { path: String::from_str(prefix).concat(path) }
    }

    /// The connection URL.
    pub closed spec fn url(&self) -> String {
        self.path
    }

    /// The connection URL.
    pub fn connection_url(&self) -> (r: &str)
        ensures
            r@ == self.url()@,
    {
        self.path.as_str()
    }

    /// The file path of the database: the URL without its `sqlite://`
    /// prefix; `None` where the URL lacks that prefix.
    pub fn file_path(&self) -> (r: Option<String>)
        ensures
            r is Some <==> (self.url()@.len() >= 9 && self.url()@.subrange(0, 9) == url_prefix()),
            r matches Some(p) ==> url_prefix() + p@ == self.url()@,
    {
        let url = self.path.as_str();
        let prefix = "sqlite://";
        proof {
            reveal_strlit("sqlite://");
        }
        assert(prefix@ =~= url_prefix());
        let n = url.unicode_len();
        if n < 9 {
            return None;
        }
        let mut i: usize = 0;
        while i < 9
            invariant
                i <= 9,
                n == url@.len(),
                n >= 9,
                url@ == self.url()@,
                prefix@ == url_prefix(),
                forall|k: int| 0 <= k < i ==> url@[k] == url_prefix()[k],
            decreases 9 - i,
        {
            if url.get_char(i) != prefix.get_char(i) {
                assert(url@.subrange(0, 9)[i as int] != url_prefix()[i as int]);
                return None;
            }
            i = i + 1;
        }
        assert(url@.subrange(0, 9) =~= url_prefix());
        let rest = url.substring_char(9, n);
        assert(url_prefix() + rest@ =~= url@);
        Some(String::from_str(rest))
    }
}

/// The vehicle trajectory database.
pub struct EveDb {
    pub db: SqliteDb,
}

impl EveDb {
    /// The trajectory database in file `db_path`.
    pub fn new(db_path: &str) -> (r: EveDb)
        ensures
            r.db.url()@ == url_prefix() + db_path@,
    {
        EveDb { db: SqliteDb::new(db_path) }
    }
}

/// The tables of the database.
#[derive(Clone, Copy, Debug, PartialEq, Eq, Structural)]
pub enum Table {
    Vehicle,
    Signal,
    Trajectory,
    Node,
}

/// A statement on the schema, run by the store.
#[derive(Clone, Copy, Debug, PartialEq, Eq, Structural)]
pub enum Statement {
    /// Drops the table where it exists.
    DropTable(Table),
    /// Creates the table, empty, with its schema, where it does not exist.
    CreateTable(Table),
}

/// The state of one table in the store: absent, or present with its schema
/// and its number of rows.
pub enum TableState {
    Absent,
    Present { schema: Table, rows: nat },
}

/// The effect of a statement on the store's tables.
pub open spec fn apply(s: Map<Table, TableState>, st: Statement) -> Map<Table, TableState> {
    match st {
        Statement::DropTable(t) => s.insert(t, TableState::Absent),
        Statement::CreateTable(t) => if s.contains_key(t) && s[t] is Present {
            s
        } else {
            s.insert(t, TableState::Present { schema: t, rows: 0 })
        },
    }
}

/// The effect of running statements in order.
pub open spec fn apply_all(s: Map<Table, TableState>, sts: Seq<Statement>) -> Map<Table, TableState>
    decreases sts.len(),
{
    if sts.len() == 0 {
        s
    } else {
        apply(apply_all(s, sts.drop_last()), sts.last())
    }
}

/// The statements that rebuild a table from empty: drop it, then create it.
pub fn create_or_replace_table(table: Table) -> (r: Vec<Statement>)
    ensures
        r@ == seq![Statement::DropTable(table), Statement::CreateTable(table)],
{
    let r = vec![Statement::DropTable(table), Statement::CreateTable(table)];
    assert(r@ =~= seq![Statement::DropTable(table), Statement::CreateTable(table)]);
    r
}

/// Rebuilding a table leaves it present, empty and with its own schema,
/// whatever the store held; rebuilding it again leaves it the same.
pub proof fn lemma_rebuild_idempotent(s: Map<Table, TableState>, t: Table)
    ensures
        ({
            let rebuild = seq![Statement::DropTable(t), Statement::CreateTable(t)];
            let once = apply_all(s, rebuild);
            let twice = apply_all(once, rebuild);
            &&& once[t] == TableState::Present { schema: t, rows: 0 }
            &&& twice[t] == once[t]
            &&& twice == once
        }),
{
    let rebuild = seq![Statement::DropTable(t), Statement::CreateTable(t)];
    assert(rebuild.drop_last() =~= seq![Statement::DropTable(t)]);
    assert(rebuild.drop_last().drop_last() =~= Seq::<Statement>::empty());
    let fresh = TableState::Present { schema: t, rows: 0 };
    assert forall|m: Map<Table, TableState>| #[trigger] apply_all(m, rebuild) == m.insert(t, TableState::Absent).insert(t, fresh) by {
        assert(apply_all(m, rebuild.drop_last().drop_last()) == m);
        assert(apply_all(m, rebuild.drop_last()) == m.insert(t, TableState::Absent));
    }
    let once = apply_all(s, rebuild);
    assert(once =~= s.insert(t, fresh));
    let twice = apply_all(once, rebuild);
    assert(twice =~= once);
}

/// The next step of a batch insert run inside one transaction.
#[derive(Clone, Copy, Debug, PartialEq, Eq, Structural)]
pub enum BatchStep {
    /// Insert the row at this index of the batch.
    Insert(usize),
    /// Every row went in: commit.
    Commit,
    /// A row failed: roll the whole batch back.
    Rollback,
}

/// The next step of a batch of `len` rows after `done` rows went in, `failed`
/// telling whether the last insert failed.
pub open spec fn batch_step(len: nat, done: nat, failed: bool) -> BatchStep {
    if failed {
        BatchStep::Rollback
    } else if done < len {
        BatchStep::Insert(done as usize)
    } else {
        BatchStep::Commit
    }
}

/// Decides the next step of a batch of `len` rows after `done` rows went in,
/// `failed` telling whether the last insert failed.
pub fn next_batch_step(len: usize, done: usize, failed: bool) -> (r: BatchStep)
    requires
        done <= len,
    ensures
        r == batch_step(len as nat, done as nat, failed),
        failed ==> r == BatchStep::Rollback,
        !failed && done < len ==> r == BatchStep::Insert(done),
        !failed && done == len ==> r == BatchStep::Commit,
{
    if failed {
        BatchStep::Rollback
    } else if done < len {
        BatchStep::Insert(done)
    } else {
        BatchStep::Commit
    }
}

/// The steps taken by asking `next_batch_step` again after each insert, for a
/// batch of `len` rows whose inserts succeed or fail as `fails` says (one
/// entry per row), starting after `done` rows went in with `failed` telling
/// whether the last insert failed.
pub open spec fn run_batch(len: nat, fails: Seq<bool>, done: nat, failed: bool) -> Seq<BatchStep>
    decreases len - done,
{
    let step = batch_step(len, done, failed);
    if step is Insert && done < len {
        seq![step] + run_batch(len, fails, done + 1, fails[done as int])
    } else {
        seq![step]
    }
}

/// The steps of a batch of `len` rows whose inserts succeed or fail as
/// `fails` says, starting after `done` rows went in: each row is inserted in
/// turn up to the first that fails, which ends in a rollback; a batch whose
/// rows all go in ends in a commit.
pub open spec fn batch_steps(len: nat, fails: Seq<bool>, done: nat) -> Seq<BatchStep>
    decreases len - done,
{
    if done >= len {
        seq![BatchStep::Commit]
    } else if fails[done as int] {
        seq![BatchStep::Insert(done as usize), BatchStep::Rollback]
    } else {
        seq![BatchStep::Insert(done as usize)] + batch_steps(len, fails, done + 1)
    }
}

/// The row count of a table after a transaction of `steps` on a table of
/// `rows` rows: the inserts count only where the transaction commits.
pub open spec fn rows_after(rows: nat, steps: Seq<BatchStep>) -> nat {
    if steps.len() > 0 && steps.last() == BatchStep::Commit {
        rows + (steps.len() - 1) as nat
    } else {
        rows
    }
}

proof fn lemma_failed_batch_rolls_back(len: nat, fails: Seq<bool>, done: nat, k: int)
    requires
        done <= k < len,
        fails.len() == len,
        fails[k],
    ensures
        batch_steps(len, fails, done).len() > 0,
        batch_steps(len, fails, done).last() == BatchStep::Rollback,
    decreases len - done,
{
    if !fails[done as int] {
        lemma_failed_batch_rolls_back(len, fails, done + 1, k);
    }
}

/// Asking `next_batch_step` after each insert, from a fresh batch, takes
/// exactly the steps of `batch_steps`.
pub proof fn lemma_run_batch_is_batch_steps(len: nat, fails: Seq<bool>, done: nat)
    requires
        fails.len() == len,
        done <= len,
    ensures
        run_batch(len, fails, done, false) == batch_steps(len, fails, done),
    decreases len - done,
{
    if done < len {
        if !fails[done as int] {
            lemma_run_batch_is_batch_steps(len, fails, done + 1);
        }
        assert(run_batch(len, fails, done + 1, fails[done as int]) =~= if fails[done as int] {
            seq![BatchStep::Rollback]
        } else {
            batch_steps(len, fails, done + 1)
        });
    }
}

/// A batch with a row that fails is rolled back whole: driven by
/// `next_batch_step`, it ends in a rollback, and the table's row count is the
/// same after the attempt as before it.
pub proof fn lemma_failed_batch_keeps_count(rows: nat, fails: Seq<bool>, k: int)
    requires
        0 <= k < fails.len(),
        fails[k],
    ensures
        run_batch(fails.len(), fails, 0, false).last() == BatchStep::Rollback,
        rows_after(rows, run_batch(fails.len(), fails, 0, false)) == rows,
{
    lemma_run_batch_is_batch_steps(fails.len(), fails, 0);
    lemma_failed_batch_rolls_back(fails.len(), fails, 0, k);
}

} // verus!
