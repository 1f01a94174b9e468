use vstd::prelude::*;

verus! {

/// The version of the migration that creates the `todos` table.
pub const TODOS_SCHEMA_VERSION: u64 = 1;

/// The statement that creates the `todos` table; it leaves an existing one alone.
pub open spec fn create_todos_sql() -> Seq<char> {
    "CREATE TABLE IF NOT EXISTS todos (id INTEGER PRIMARY KEY, text TEXT NOT NULL, completed INTEGER NOT NULL DEFAULT 0);"@
}

/// One versioned schema change.
pub struct Migration {
    pub version: u64,
    pub description: String,
    pub sql: String,
}

/// The versions of `ms`, in order.
pub open spec fn versions_of(ms: Seq<Migration>) -> Seq<u64> {
    ms.map_values(|m: Migration| m.version)
}

/// The migrations of the table store: one, which creates the `todos` table.
pub fn todo_migrations() -> (r: Vec<Migration>)
    ensures
        r@.len() == 1,
        r@[0].version == TODOS_SCHEMA_VERSION,
        r@[0].description@ == "create_todos_table"@,
        r@[0].sql@ == create_todos_sql(),
        versions_of(r@) == seq![TODOS_SCHEMA_VERSION],
{
    let m = Migration {
        version: TODOS_SCHEMA_VERSION,
        description: String::from_str("create_todos_table"),
        sql: String::from_str(
            "CREATE TABLE IF NOT EXISTS todos (id INTEGER PRIMARY KEY, text TEXT NOT NULL, completed INTEGER NOT NULL DEFAULT 0);",
        ),
    };
    let mut r: Vec<Migration> = Vec::new();
    r.push(m);
    assert(versions_of(r@) =~= seq![TODOS_SCHEMA_VERSION]);
    r
}

/// The versions among `versions` that still have to run against a database
/// that has `applied`, each once, in the order of their first occurrence.
pub open spec fn pending(applied: Seq<u64>, versions: Seq<u64>) -> Seq<u64>
    decreases versions.len(),
{
    if versions.len() == 0 {
        Seq::empty()
    } else {
        let before = pending(applied, versions.drop_last());
        let v = versions.last();
        if applied.contains(v) || before.contains(v) {
            before
        } else {
            before.push(v)
        }
    }
}

/// The record of which migration versions a database has applied.
pub struct MigrationLedger {
    pub applied: Vec<u64>,
}

impl MigrationLedger {
    /// Each version is recorded once.
    pub open spec fn wf(&self) -> bool {
        self.applied@.no_duplicates()
    }

    /// The ledger of a database that no migration has touched.
    pub fn new() -> (r: MigrationLedger)
        ensures
            r.wf(),
            r.applied@ == Seq::<u64>::empty(),
    {
        MigrationLedger { applied: Vec::new() }
    }

    /// Whether `version` has been applied.
    pub fn is_applied(&self, version: u64) -> (r: bool)
        ensures
            r == self.applied@.contains(version),
    {
        let mut i: usize = 0;
        while i < self.applied.len()
            invariant
                i <= self.applied@.len(),
                forall|j: int| 0 <= j < i ==> self.applied@[j] != version,
            decreases self.applied@.len() - i,
        {
            if self.applied[i] == version {
                return true;
            }
            i = i + 1;
        }
        false
    }

    /// Whether the `todos` table exists, that is, its migration has been applied.
    pub fn is_ready(&self) -> (r: bool)
        ensures
            r == self.applied@.contains(TODOS_SCHEMA_VERSION),
    {
        self.is_applied(TODOS_SCHEMA_VERSION)
    }

    /// Decides which of `migrations` run and records them as applied.
    /// Returns the indices into `migrations` of those that must be executed,
    /// in order; a version already applied, or met earlier in the list, is skipped.
    pub fn apply(&mut self, migrations: &Vec<Migration>) -> (run: Vec<usize>)
        requires
            old(self).wf(),
        ensures
            final(self).wf(),
            run@.map_values(|i: usize| migrations@[i as int].version)
                == pending(old(self).applied@, versions_of(migrations@)),
            forall|k: int| 0 <= k < run@.len() ==> run@[k] < migrations@.len(),
            final(self).applied@ == old(self).applied@ + pending(
                old(self).applied@,
                versions_of(migrations@),
            ),
    {
        let ghost start = self.applied@;
        let mut run: Vec<usize> = Vec::new();
        let mut i: usize = 0;
        while i < migrations.len()
            invariant
                i <= migrations@.len(),
                self.applied@.no_duplicates(),
                self.applied@ == start + pending(start, versions_of(migrations@).take(i as int)),
                run@.map_values(|j: usize| migrations@[j as int].version)
                    == pending(start, versions_of(migrations@).take(i as int)),
                forall|k: int| 0 <= k < run@.len() ==> run@[k] < i,
            decreases migrations@.len() - i,
        {
            let v = migrations[i].version;
            let ghost vs = versions_of(migrations@);
            let ghost before = pending(start, vs.take(i as int));
            proof {
                assert(vs.take(i as int + 1).drop_last() =~= vs.take(i as int));
                assert(vs.take(i as int + 1).last() == v);
                lemma_contains_split(start, before, v);
            }
            if !self.is_applied(v) {
                proof {
                    lemma_no_dup_push(self.applied@, v);
                }
                self.applied.push(v);
                run.push(i);
                proof {
                    assert(self.applied@ =~= start + before.push(v));
                    assert(run@.map_values(|j: usize| migrations@[j as int].version)
                        =~= before.push(v));
                }
            }
            i = i + 1;
        }
        proof {
            assert(versions_of(migrations@).take(migrations@.len() as int)
                =~= versions_of(migrations@));
        }
        run
    }
}

proof fn lemma_contains_split(a: Seq<u64>, b: Seq<u64>, v: u64)
    ensures
        (a + b).contains(v) <==> (a.contains(v) || b.contains(v)),
{
    if a.contains(v) {
        let k = choose|k: int| 0 <= k < a.len() && a[k] == v;
        assert((a + b)[k] == v);
    }
    if b.contains(v) {
        let k = choose|k: int| 0 <= k < b.len() && b[k] == v;
        assert((a + b)[a.len() + k] == v);
    }
    if (a + b).contains(v) {
        let k = choose|k: int| 0 <= k < (a + b).len() && (a + b)[k] == v;
        if k < a.len() {
            assert(a[k] == v);
        } else {
            assert(b[k - a.len()] == v);
        }
    }
}

proof fn lemma_no_dup_push(s: Seq<u64>, v: u64)
    requires
        s.no_duplicates(),
        !s.contains(v),
    ensures
        s.push(v).no_duplicates(),
{
    assert forall|i: int, j: int|
        0 <= i < s.push(v).len() && 0 <= j < s.push(v).len() && i != j implies s.push(v)[i]
            != s.push(v)[j] by {
        if i < s.len() && j < s.len() {
        } else if i < s.len() {
            assert(s[i] == s.push(v)[i]);
        } else if j < s.len() {
            assert(s[j] == s.push(v)[j]);
        }
    }
}

/// Every version of the list is either applied already or pending.
pub proof fn lemma_pending_covers(applied: Seq<u64>, versions: Seq<u64>)
    ensures
        forall|v: u64|
            versions.contains(v) ==> applied.contains(v) || #[trigger] pending(
                applied,
                versions,
            ).contains(v),
    decreases versions.len(),
{
    if versions.len() > 0 {
        let rest = versions.drop_last();
        lemma_pending_covers(applied, rest);
        let before = pending(applied, rest);
        assert forall|v: u64| versions.contains(v) implies applied.contains(v) || pending(
            applied,
            versions,
        ).contains(v) by {
            let k = choose|k: int| 0 <= k < versions.len() && versions[k] == v;
            if k < versions.len() - 1 {
                assert(rest[k] == v);
                assert(rest.contains(v));
                if before.contains(v) && !applied.contains(versions.last())
                    && !before.contains(versions.last()) {
                    let m = choose|m: int| 0 <= m < before.len() && before[m] == v;
                    assert(before.push(versions.last())[m] == v);
                }
            } else {
                if !applied.contains(v) && !before.contains(v) {
                    assert(before.push(v)[before.len() as int] == v);
                }
            }
        }
    }
}

/// Nothing is pending for versions that are all applied.
pub proof fn lemma_pending_none(applied: Seq<u64>, versions: Seq<u64>)
    requires
        forall|v: u64| versions.contains(v) ==> applied.contains(v),
    ensures
        pending(applied, versions) == Seq::<u64>::empty(),
    decreases versions.len(),
{
    if versions.len() > 0 {
        let rest = versions.drop_last();
        assert forall|v: u64| rest.contains(v) implies applied.contains(v) by {
            let k = choose|k: int| 0 <= k < rest.len() && rest[k] == v;
            assert(versions[k] == v);
        }
        lemma_pending_none(applied, rest);
        assert(versions[versions.len() - 1] == versions.last());
    }
}

/// Applying the same migrations a second time runs none of them and leaves
/// the ledger as the first application left it.
pub proof fn lemma_migration_idempotent(applied: Seq<u64>, versions: Seq<u64>)
    ensures
        pending(applied + pending(applied, versions), versions) == Seq::<u64>::empty(),
        (applied + pending(applied, versions)) + pending(
            applied + pending(applied, versions),
            versions,
        ) == applied + pending(applied, versions),
{
    let once = applied + pending(applied, versions);
    lemma_pending_covers(applied, versions);
    assert forall|v: u64| versions.contains(v) implies once.contains(v) by {
        lemma_contains_split(applied, pending(applied, versions), v);
    }
    lemma_pending_none(once, versions);
    assert(once + Seq::<u64>::empty() =~= once);
}

} // verus!
