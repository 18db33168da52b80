//! The migration runner. A store records its applied version and the
//! schema objects the applied change-sets installed. Each change-set is
//! applied all-or-nothing: if any statement of its script fails, every
//! effect of the script is rolled back, the recorded version is
//! unchanged, and startup aborts. Re-running an already applied
//! change-set is a no-op.

use vstd::prelude::*;
use crate::catalog::IndexDef;
use crate::catalog::IndexId;
use crate::catalog::TableDef;
use crate::catalog::TableId;
use crate::catalog::apartment_rules;
use crate::catalog::bank_account_rules;
use crate::catalog::check_table_def;
use crate::catalog::log_rules;
use crate::catalog::movement_rules;
use crate::catalog::service_type_rules;
use crate::catalog::setting_rules;
use crate::catalog::tenant_rules;
use crate::catalog::transaction_rules;
use crate::catalog::wf_table_def;
use crate::ledger::ChangeSet;
use crate::ledger::Ledger;
use crate::ledger::Statement;
use crate::ledger::creates_index;
use crate::ledger::creates_index_id;
use crate::ledger::creates_table;
use crate::ledger::creates_table_id;
use crate::ledger::ledger_max;
use crate::ledger::standard_ledger;
use crate::ledger::wf_ledger;
use crate::catalog::notice_rules;
use crate::catalog::service_rules;

verus! {

/// The store's schema side: the applied version (0 for a fresh store)
/// and the installed schema objects. The version record survives
/// restarts; the host recreates this value from the store file.
pub struct Store {
    pub version: u64,
    pub tables: Vec<TableDef>,
    pub indexes: Vec<IndexDef>,
}

/// Mathematical model of a store's schema side.
pub ghost struct SchemaState {
    pub version: int,
    pub tables: Seq<TableDef>,
    pub indexes: Seq<IndexDef>,
}

impl View for Store {
    type V = SchemaState;

    open spec fn view(&self) -> SchemaState {
        SchemaState { version: self.version as int, tables: self.tables@, indexes: self.indexes@ }
    }
}

impl Store {
    /// A freshly created store: no version bookkeeping, no objects.
    pub fn new() -> (s: Store)
        ensures
            s@.version == 0,
            s@.tables.len() == 0,
            s@.indexes.len() == 0,
    {
        Store { version: 0, tables: Vec::new(), indexes: Vec::new() }
    }
}

/// A table with this identity is installed.
pub open spec fn table_exists(tables: Seq<TableDef>, id: TableId) -> bool {
    exists|i: int| 0 <= i < tables.len() && tables[i].id == id
}

/// An index with this identity is installed.
pub open spec fn index_exists(indexes: Seq<IndexDef>, id: IndexId) -> bool {
    exists|i: int| 0 <= i < indexes.len() && indexes[i].id == id
}

/// Exactly this table definition is installed.
pub open spec fn table_installed(tables: Seq<TableDef>, d: TableDef) -> bool {
    exists|i: int| 0 <= i < tables.len() && tables[i] == d
}

/// Exactly this index definition is installed.
pub open spec fn index_installed(indexes: Seq<IndexDef>, ix: IndexDef) -> bool {
    exists|i: int| 0 <= i < indexes.len() && indexes[i] == ix
}

/// The index `id` is installed on `table`, covering `col` (and `col2`,
/// for a composite index).
pub open spec fn index_covers(
    indexes: Seq<IndexDef>,
    id: IndexId,
    table: TableId,
    col: usize,
    col2: Option<usize>,
) -> bool {
    exists|i: int|
        0 <= i < indexes.len() && indexes[i].id == id && indexes[i].table == table
            && indexes[i].col == col && indexes[i].col2 == col2
}

/// Effect of one statement: creation no-ops when the object already
/// exists, installs it when absent, and fails on an ill-formed table
/// definition or an index whose table is missing. The recorded version
/// is never touched by a statement.
pub open spec fn apply_statement(s: SchemaState, stmt: Statement) -> Option<SchemaState> {
    match stmt {
        Statement::CreateTable(d) => {
            if table_exists(s.tables, d.id) {
                Some(s)
            } else if wf_table_def(d) {
                Some(SchemaState { tables: s.tables.push(d), ..s })
            } else {
                None
            }
        },
        Statement::CreateIndex(ix) => {
            if index_exists(s.indexes, ix.id) {
                Some(s)
            } else if table_exists(s.tables, ix.table) {
                Some(SchemaState { indexes: s.indexes.push(ix), ..s })
            } else {
                None
            }
        },
    }
}

/// Effect of a whole script, first statement first; `None` as soon as
/// one statement fails.
pub open spec fn apply_statements(s: SchemaState, stmts: Seq<Statement>) -> Option<SchemaState>
    decreases stmts.len(),
{
    if stmts.len() == 0 {
        Some(s)
    } else {
        match apply_statement(s, stmts[0]) {
            Some(s1) => apply_statements(s1, stmts.skip(1)),
            None => None,
        }
    }
}

/// Effect of one change-set: its script, then the version record.
pub open spec fn apply_change_set_spec(s: SchemaState, cs: ChangeSet) -> Option<SchemaState> {
    match apply_statements(s, cs.statements@) {
        Some(s1) => Some(SchemaState { version: cs.version as int, ..s1 }),
        None => None,
    }
}

/// Effect of running the ledger against a store: change-sets at or
/// below the recorded version are skipped, the rest apply in order; a
/// failing change-set leaves the store at the state the previous
/// change-set committed, and the run reports failure.
pub open spec fn run_pending(s: SchemaState, css: Seq<ChangeSet>) -> (SchemaState, bool)
    decreases css.len(),
{
    if css.len() == 0 {
        (s, true)
    } else if css[0].version <= s.version {
        run_pending(s, css.skip(1))
    } else {
        match apply_change_set_spec(s, css[0]) {
            Some(s1) => run_pending(s1, css.skip(1)),
            None => (s, false),
        }
    }
}

/// Why a change-set was rejected.
#[derive(PartialEq, Eq, Structural, Clone, Copy, Debug)]
pub enum MigrationError {
    /// A table creation carried an ill-formed definition.
    IllFormedTable(TableId),
    /// An index creation named a table the store does not have.
    MissingIndexTarget(IndexId),
}

/// Decides `table_exists` over the installed tables.
fn has_table(tables: &Vec<TableDef>, id: TableId) -> (b: bool)
    ensures
        b == table_exists(tables@, id),
{
    let mut i: usize = 0;
    while i < tables.len()
        invariant
            0 <= i <= tables@.len(),
            forall|j: int| 0 <= j < i ==> (#[trigger] tables@[j]).id != id,
        decreases tables@.len() - i,
    {
        if tables[i].id == id {
            return true;
        }
        i = i + 1;
    }
    false
}

/// Decides `index_exists` over the installed indexes.
fn has_index(indexes: &Vec<IndexDef>, id: IndexId) -> (b: bool)
    ensures
        b == index_exists(indexes@, id),
{
    let mut i: usize = 0;
    while i < indexes.len()
        invariant
            0 <= i <= indexes@.len(),
            forall|j: int| 0 <= j < i ==> (#[trigger] indexes@[j]).id != id,
        decreases indexes@.len() - i,
    {
        if indexes[i].id == id {
            return true;
        }
        i = i + 1;
    }
    false
}

/// Applies one change-set as a single all-or-nothing transaction: on
/// success the store holds the script's effects and records the
/// change-set's version; on any statement failure every effect is
/// rolled back and the store is exactly as it was. Succeeds if and only
/// if the script applies.
pub fn apply_change_set(store: &mut Store, cs: ChangeSet) -> (r: Result<(), MigrationError>)
    ensures
        match r {
            Ok(()) => apply_change_set_spec(old(store)@, cs) == Some(final(store)@),
            Err(_) => {
                &&& apply_change_set_spec(old(store)@, cs) is None
                &&& final(store).version == old(store).version
                &&& final(store).tables@ == old(store).tables@
                &&& final(store).indexes@ == old(store).indexes@
            },
        },
{
    let n_tables: usize = store.tables.len();
    let n_indexes: usize = store.indexes.len();
    let mut stmts = cs.statements;
    while stmts.len() > 0
        invariant
            store.version == old(store).version,
            n_tables <= store.tables@.len(),
            n_indexes <= store.indexes@.len(),
            store.tables@.subrange(0, n_tables as int) == old(store).tables@,
            store.indexes@.subrange(0, n_indexes as int) == old(store).indexes@,
            n_tables == old(store).tables@.len(),
            n_indexes == old(store).indexes@.len(),
            apply_statements(old(store)@, cs.statements@) == apply_statements(store@, stmts@),
        decreases stmts@.len(),
    {
        let ghost pre = store@;
        let ghost pre_stmts = stmts@;
        let stmt = stmts.remove(0);
        proof {
            assert(pre_stmts[0] == stmt);
            assert(pre_stmts.skip(1) =~= stmts@);
        }
        let failure: Option<MigrationError> = match stmt {
            Statement::CreateTable(d) => {
                if has_table(&store.tables, d.id) {
                    None
                } else if check_table_def(&d) {
                    store.tables.push(d);
                    None
                } else {
                    Some(MigrationError::IllFormedTable(d.id))
                }
            },
            Statement::CreateIndex(ix) => {
                if has_index(&store.indexes, ix.id) {
                    None
                } else if has_table(&store.tables, ix.table) {
                    store.indexes.push(ix);
                    None
                } else {
                    Some(MigrationError::MissingIndexTarget(ix.id))
                }
            },
        };
        match failure {
            None => {
                proof {
                    assert(apply_statement(pre, pre_stmts[0]) == Some(store@));
                    assert(apply_statements(pre, pre_stmts) == apply_statements(store@, stmts@));
                }
            },
            Some(e) => {
                proof {
                    assert(apply_statement(pre, pre_stmts[0]) is None);
                    assert(apply_statements(pre, pre_stmts) is None);
                }
                store.tables.truncate(n_tables);
                store.indexes.truncate(n_indexes);
                proof {
                    assert(store.tables@ == old(store).tables@);
                    assert(store.indexes@ == old(store).indexes@);
                }
                return Err(e);
            },
        }
    }
    proof {
        assert(stmts@.len() == 0);
        assert(apply_statements(store@, stmts@) == Some(store@));
    }
    store.version = cs.version;
    Ok(())
}

/// Statements never remove schema objects or touch the version record:
/// whatever exists before a script exists after it.
pub proof fn lemma_statements_monotone(s: SchemaState, stmts: Seq<Statement>, s1: SchemaState)
    requires
        apply_statements(s, stmts) == Some(s1),
    ensures
        s1.version == s.version,
        forall|id: TableId| table_exists(s.tables, id) ==> table_exists(s1.tables, id),
        forall|id: IndexId| index_exists(s.indexes, id) ==> index_exists(s1.indexes, id),
        forall|d: TableDef| table_installed(s.tables, d) ==> table_installed(s1.tables, d),
        forall|ix: IndexDef| index_installed(s.indexes, ix) ==> index_installed(s1.indexes, ix),
    decreases stmts.len(),
{
    if stmts.len() == 0 {
    } else {
        let smid = apply_statement(s, stmts[0])->Some_0;
        assert forall|id: TableId| table_exists(s.tables, id) implies table_exists(
            smid.tables,
            id,
        ) by {
            let i = choose|i: int| 0 <= i < s.tables.len() && s.tables[i].id == id;
            assert(smid.tables[i].id == id);
        }
        assert forall|id: IndexId| index_exists(s.indexes, id) implies index_exists(
            smid.indexes,
            id,
        ) by {
            let i = choose|i: int| 0 <= i < s.indexes.len() && s.indexes[i].id == id;
            assert(smid.indexes[i].id == id);
        }
        assert forall|d: TableDef| table_installed(s.tables, d) implies table_installed(
            smid.tables,
            d,
        ) by {
            let i = choose|i: int| 0 <= i < s.tables.len() && s.tables[i] == d;
            assert(smid.tables[i] == d);
        }
        assert forall|ix: IndexDef| index_installed(s.indexes, ix) implies index_installed(
            smid.indexes,
            ix,
        ) by {
            let i = choose|i: int| 0 <= i < s.indexes.len() && s.indexes[i] == ix;
            assert(smid.indexes[i] == ix);
        }
        lemma_statements_monotone(smid, stmts.skip(1), s1);
    }
}

/// Every object a successful script creates exists once the script is
/// done.
pub proof fn lemma_statements_install(s: SchemaState, stmts: Seq<Statement>, s1: SchemaState, k: int)
    requires
        apply_statements(s, stmts) == Some(s1),
        0 <= k < stmts.len(),
    ensures
        stmts[k] matches Statement::CreateTable(d) ==> table_exists(s1.tables, d.id),
        stmts[k] matches Statement::CreateIndex(ix) ==> index_exists(s1.indexes, ix.id),
    decreases stmts.len(),
{
    let smid = apply_statement(s, stmts[0])->Some_0;
    if k == 0 {
        match stmts[0] {
            Statement::CreateTable(d) => {
                if !table_exists(s.tables, d.id) {
                    assert(smid.tables[s.tables.len() as int] == d);
                }
                assert(table_exists(smid.tables, d.id));
            },
            Statement::CreateIndex(ix) => {
                if !index_exists(s.indexes, ix.id) {
                    assert(smid.indexes[s.indexes.len() as int] == ix);
                }
                assert(index_exists(smid.indexes, ix.id));
            },
        }
        lemma_statements_monotone(smid, stmts.skip(1), s1);
    } else {
        lemma_statements_install(smid, stmts.skip(1), s1, k - 1);
    }
}

/// A table created by the first statement that carries its identity is
/// installed with exactly that definition: nothing earlier in the
/// script and nothing already in the store shadows it.
pub proof fn lemma_first_create_installs(
    s: SchemaState,
    stmts: Seq<Statement>,
    s1: SchemaState,
    k: int,
    d: TableDef,
)
    requires
        apply_statements(s, stmts) == Some(s1),
        0 <= k < stmts.len(),
        stmts[k] == Statement::CreateTable(d),
        !table_exists(s.tables, d.id),
        forall|j: int| 0 <= j < k ==> !creates_table_id(#[trigger] stmts[j], d.id),
    ensures
        table_installed(s1.tables, d),
    decreases stmts.len(),
{
    let smid = apply_statement(s, stmts[0])->Some_0;
    if k == 0 {
        assert(smid.tables[s.tables.len() as int] == d);
        assert(table_installed(smid.tables, d));
        lemma_statements_monotone(smid, stmts.skip(1), s1);
    } else {
        match stmts[0] {
            Statement::CreateTable(e) => {
                assert(!creates_table_id(stmts[0], d.id));
                if !table_exists(s.tables, e.id) {
                    assert forall|i: int| 0 <= i < smid.tables.len() implies smid.tables[i].id
                        != d.id by {
                        if i < s.tables.len() {
                            assert(smid.tables[i] == s.tables[i]);
                        } else {
                            assert(smid.tables[i] == e);
                        }
                    }
                }
            },
            Statement::CreateIndex(_) => {},
        }
        assert(!table_exists(smid.tables, d.id));
        lemma_first_create_installs(smid, stmts.skip(1), s1, k - 1, d);
    }
}

/// An index created by the first statement that carries its identity is
/// installed exactly as declared: nothing earlier in the script and
/// nothing already in the store shadows it.
pub proof fn lemma_first_create_index_installs(
    s: SchemaState,
    stmts: Seq<Statement>,
    s1: SchemaState,
    k: int,
    ix: IndexDef,
)
    requires
        apply_statements(s, stmts) == Some(s1),
        0 <= k < stmts.len(),
        stmts[k] == Statement::CreateIndex(ix),
        !index_exists(s.indexes, ix.id),
        forall|j: int| 0 <= j < k ==> !creates_index_id(#[trigger] stmts[j], ix.id),
    ensures
        index_installed(s1.indexes, ix),
    decreases stmts.len(),
{
    let smid = apply_statement(s, stmts[0])->Some_0;
    if k == 0 {
        assert(smid.indexes[s.indexes.len() as int] == ix);
        assert(index_installed(smid.indexes, ix));
        lemma_statements_monotone(smid, stmts.skip(1), s1);
    } else {
        match stmts[0] {
            Statement::CreateIndex(e) => {
                assert(!creates_index_id(stmts[0], ix.id));
                if !index_exists(s.indexes, e.id) {
                    assert forall|i: int| 0 <= i < smid.indexes.len() implies smid.indexes[i].id
                        != ix.id by {
                        if i < s.indexes.len() {
                            assert(smid.indexes[i] == s.indexes[i]);
                        } else {
                            assert(smid.indexes[i] == e);
                        }
                    }
                }
            },
            Statement::CreateTable(_) => {},
        }
        assert(!index_exists(smid.indexes, ix.id));
        lemma_first_create_index_installs(smid, stmts.skip(1), s1, k - 1, ix);
    }
}

/// The statement at position `k` of a script cannot fail from this
/// state: a table creation is well formed, an index creation finds its
/// table already in the store or created earlier in the same script.
pub open spec fn script_stmt_ok(s: SchemaState, stmts: Seq<Statement>, k: int) -> bool {
    match stmts[k] {
        Statement::CreateTable(d) => wf_table_def(d),
        Statement::CreateIndex(ix) => table_exists(s.tables, ix.table) || exists|j: int|
            0 <= j < k && creates_table_id(#[trigger] stmts[j], ix.table),
    }
}

/// A script whose table creations are well formed and whose index
/// creations only name tables that exist or are created earlier in the
/// same script applies without failure, from any store state.
pub proof fn lemma_script_succeeds(s: SchemaState, stmts: Seq<Statement>)
    requires
        forall|k: int| 0 <= k < stmts.len() ==> script_stmt_ok(s, stmts, k),
    ensures
        apply_statements(s, stmts) is Some,
    decreases stmts.len(),
{
    if stmts.len() == 0 {
    } else {
        assert(script_stmt_ok(s, stmts, 0));
        assert(apply_statement(s, stmts[0]) is Some);
        let smid = apply_statement(s, stmts[0])->Some_0;
        assert forall|k: int| 0 <= k < stmts.skip(1).len() implies script_stmt_ok(
            smid,
            stmts.skip(1),
            k,
        ) by {
            assert(stmts.skip(1)[k] == stmts[k + 1]);
            assert(script_stmt_ok(s, stmts, k + 1));
            match stmts[k + 1] {
                Statement::CreateTable(_) => {},
                Statement::CreateIndex(ix) => {
                    if table_exists(s.tables, ix.table) {
                        let i = choose|i: int|
                            0 <= i < s.tables.len() && s.tables[i].id == ix.table;
                        assert(smid.tables[i].id == ix.table);
                    } else {
                        let j = choose|j: int|
                            0 <= j < k + 1 && creates_table_id(#[trigger] stmts[j], ix.table);
                        if j == 0 {
                            match stmts[0] {
                                Statement::CreateTable(e) => {
                                    if !table_exists(s.tables, e.id) {
                                        assert(smid.tables[s.tables.len() as int] == e);
                                    }
                                    assert(table_exists(smid.tables, ix.table));
                                },
                                Statement::CreateIndex(_) => {},
                            }
                        } else {
                            assert(creates_table_id(stmts.skip(1)[j - 1], ix.table));
                        }
                    }
                },
            }
        }
        lemma_script_succeeds(smid, stmts.skip(1));
    }
}

/// After a successful run the recorded version is at or above every
/// published change-set's version (and never below where it started).
pub proof fn lemma_run_pending_versions(s: SchemaState, css: Seq<ChangeSet>)
    requires
        run_pending(s, css).1,
    ensures
        run_pending(s, css).0.version >= s.version,
        forall|k: int| 0 <= k < css.len() ==> (#[trigger] css[k]).version <= run_pending(
            s,
            css,
        ).0.version,
    decreases css.len(),
{
    if css.len() == 0 {
    } else if css[0].version <= s.version {
        lemma_run_pending_versions(s, css.skip(1));
        assert forall|k: int| 0 <= k < css.len() implies (#[trigger] css[k]).version
            <= run_pending(s, css).0.version by {
            if k > 0 {
                assert(css.skip(1)[k - 1] == css[k]);
            }
        }
    } else {
        let s1 = apply_change_set_spec(s, css[0])->Some_0;
        lemma_run_pending_versions(s1, css.skip(1));
        assert forall|k: int| 0 <= k < css.len() implies (#[trigger] css[k]).version
            <= run_pending(s, css).0.version by {
            if k > 0 {
                assert(css.skip(1)[k - 1] == css[k]);
            }
        }
    }
}

/// A store whose recorded version is at or above every published
/// change-set is left untouched by a run, which succeeds.
pub proof fn lemma_run_pending_skip_all(s: SchemaState, css: Seq<ChangeSet>)
    requires
        forall|k: int| 0 <= k < css.len() ==> (#[trigger] css[k]).version <= s.version,
    ensures
        run_pending(s, css) == (s, true),
    decreases css.len(),
{
    if css.len() > 0 {
        assert forall|k: int| 0 <= k < css.skip(1).len() implies (#[trigger] css.skip(
            1,
        )[k]).version <= s.version by {
            assert(css.skip(1)[k] == css[k + 1]);
        }
        lemma_run_pending_skip_all(s, css.skip(1));
    }
}

/// The runner's postcondition: a successful run against a well-formed
/// ledger leaves the recorded version at the ledger's highest version —
/// or where it started, if the store was already past the whole ledger.
pub proof fn lemma_run_final_version(s: SchemaState, css: Seq<ChangeSet>)
    requires
        wf_ledger(css),
        run_pending(s, css).1,
    ensures
        run_pending(s, css).0.version == if css.len() > 0 && ledger_max(css) > s.version {
            ledger_max(css)
        } else {
            s.version
        },
    decreases css.len(),
{
    if css.len() == 0 {
    } else {
        assert forall|i: int, j: int|
            0 <= i < j < css.skip(1).len() implies css.skip(1)[i].version < css.skip(
            1,
        )[j].version by {
            assert(css.skip(1)[i] == css[i + 1]);
            assert(css.skip(1)[j] == css[j + 1]);
        }
        if css.len() > 1 {
            assert(css.skip(1).last() == css.last());
            assert(css[0].version < css.last().version);
        }
        if css[0].version <= s.version {
            lemma_run_final_version(s, css.skip(1));
        } else {
            let s1 = apply_change_set_spec(s, css[0])->Some_0;
            lemma_run_final_version(s1, css.skip(1));
        }
    }
}

/// Idempotence of the migration runner: running the ledger again right
/// after a successful run is a no-op the second time — no error, no
/// version change, no new schema objects.
pub proof fn lemma_runner_idempotent(s: SchemaState, css: Seq<ChangeSet>)
    requires
        run_pending(s, css).1,
    ensures
        run_pending(run_pending(s, css).0, css) == (run_pending(s, css).0, true),
{
    lemma_run_pending_versions(s, css);
    lemma_run_pending_skip_all(run_pending(s, css).0, css);
}

/// The startup sequence: applies every change-set of the ledger whose
/// version is above the store's recorded version, in order, each one
/// atomically. On success the store's state is the ledger's full
/// effect; on failure the store keeps everything committed before the
/// failing change-set and startup must abort. Succeeds if and only if
/// every pending change-set applies.
pub fn ensure_ready(store: &mut Store, ledger: Ledger) -> (r: Result<(), MigrationError>)
    ensures
        final(store)@ == run_pending(old(store)@, ledger.change_sets@).0,
        r.is_ok() == run_pending(old(store)@, ledger.change_sets@).1,
{
    let mut css = ledger.change_sets;
    while css.len() > 0
        invariant
            run_pending(old(store)@, ledger.change_sets@) == run_pending(store@, css@),
        decreases css@.len(),
    {
        let ghost pre = store@;
        let ghost pre_css = css@;
        let cs = css.remove(0);
        proof {
            assert(pre_css[0] == cs);
            assert(pre_css.skip(1) =~= css@);
        }
        if cs.version <= store.version {
            proof {
                assert(run_pending(pre, pre_css) == run_pending(store@, css@));
            }
        } else {
            match apply_change_set(store, cs) {
                Ok(()) => {
                    proof {
                        assert(run_pending(pre, pre_css) == run_pending(store@, css@));
                    }
                },
                Err(e) => {
                    proof {
                        assert(run_pending(pre, pre_css) == (store@, false));
                    }
                    return Err(e);
                },
            }
        }
    }
    Ok(())
}

/// Startup against a fresh store (version 0, no schema objects, the
/// only state a store that never committed a change-set can be in):
/// runs the standard ledger. This always succeeds; afterwards the
/// recorded version equals the ledger's highest version, and every
/// entity table and declared index of the catalog exists, the tables
/// carrying their declared constraints.
pub fn prepare_store(store: &mut Store) -> (r: Result<(), MigrationError>)
    requires
        old(store)@.version == 0,
        old(store)@.tables.len() == 0,
        old(store)@.indexes.len() == 0,
    ensures
        r.is_ok(),
        final(store)@.version == 1,
        forall|id: TableId| #[trigger] table_exists(final(store)@.tables, id),
        forall|id: IndexId| #[trigger] index_exists(final(store)@.indexes, id),
        exists|d: TableDef| table_installed(final(store)@.tables, d) && apartment_rules(d),
        exists|d: TableDef| table_installed(final(store)@.tables, d) && tenant_rules(d),
        exists|d: TableDef| table_installed(final(store)@.tables, d) && bank_account_rules(d),
        exists|d: TableDef| table_installed(final(store)@.tables, d) && service_type_rules(d),
        exists|d: TableDef| table_installed(final(store)@.tables, d) && service_rules(d),
        exists|d: TableDef| table_installed(final(store)@.tables, d) && transaction_rules(d),
        exists|d: TableDef| table_installed(final(store)@.tables, d) && movement_rules(d),
        exists|d: TableDef| table_installed(final(store)@.tables, d) && log_rules(d),
        exists|d: TableDef| table_installed(final(store)@.tables, d) && notice_rules(d),
        exists|d: TableDef| table_installed(final(store)@.tables, d) && setting_rules(d),
        index_covers(final(store)@.indexes, IndexId::TenantApartment, TableId::Tenant, 13, None),
        index_covers(
            final(store)@.indexes,
            IndexId::TransactionApartment,
            TableId::Transaction,
            16,
            None,
        ),
        index_covers(
            final(store)@.indexes,
            IndexId::MovementAccount,
            TableId::BankMovement,
            12,
            None,
        ),
        index_covers(
            final(store)@.indexes,
            IndexId::MovementTransaction,
            TableId::BankMovement,
            13,
            None,
        ),
        index_covers(
            final(store)@.indexes,
            IndexId::MovementService,
            TableId::BankMovement,
            14,
            None,
        ),
        index_covers(
            final(store)@.indexes,
            IndexId::NoticeMonthYear,
            TableId::ReportNotice,
            3,
            Some(4usize),
        ),
{
    let led = standard_ledger();
    let ghost s0 = store@;
    let ghost css = led.change_sets@;
    let ghost cs = css[0];
    let ghost stmts = cs.statements@;
    proof {
        assert forall|k: int| 0 <= k < stmts.len() implies script_stmt_ok(s0, stmts, k) by {
            if k == 10 {
                assert(creates_table_id(stmts[1], TableId::Tenant));
            } else if k == 11 {
                assert(creates_table_id(stmts[5], TableId::Transaction));
            } else if 12 <= k <= 14 {
                assert(creates_table_id(stmts[6], TableId::BankMovement));
            } else if k == 15 {
                assert(creates_table_id(stmts[8], TableId::ReportNotice));
            }
        }
        lemma_script_succeeds(s0, stmts);
    }
    let ghost s1 = apply_statements(s0, stmts)->Some_0;
    let ghost done = SchemaState { version: cs.version as int, ..s1 };
    proof {
        assert(apply_change_set_spec(s0, cs) == Some(done));
        assert(css.skip(1).len() == 0);
        assert(run_pending(done, css.skip(1)) == (done, true));
        assert(run_pending(s0, css) == (done, true));
        assert forall|id: TableId| #[trigger] table_exists(done.tables, id) by {
            let k: int = match id {
                TableId::Apartment => 0,
                TableId::Tenant => 1,
                TableId::BankAccount => 2,
                TableId::ServiceType => 3,
                TableId::Service => 4,
                TableId::Transaction => 5,
                TableId::BankMovement => 6,
                TableId::LogEntry => 7,
                TableId::ReportNotice => 8,
                TableId::ReportSetting => 9,
            };
            lemma_statements_install(s0, stmts, s1, k);
        }
        assert forall|id: IndexId| #[trigger] index_exists(done.indexes, id) by {
            let k: int = match id {
                IndexId::TenantApartment => 10,
                IndexId::TransactionApartment => 11,
                IndexId::MovementAccount => 12,
                IndexId::MovementTransaction => 13,
                IndexId::MovementService => 14,
                IndexId::NoticeMonthYear => 15,
            };
            lemma_statements_install(s0, stmts, s1, k);
        }
        assert forall|j: int, id: TableId|
            0 <= j < 10 && #[trigger] creates_table_id(stmts[j], id) implies id
            == declared_table_id(j) by {
            if j == 0 {
                assert(creates_table(stmts[0], TableId::Apartment));
            } else if j == 1 {
                assert(creates_table(stmts[1], TableId::Tenant));
            } else if j == 2 {
                assert(creates_table(stmts[2], TableId::BankAccount));
            } else if j == 3 {
                assert(creates_table(stmts[3], TableId::ServiceType));
            } else if j == 4 {
                assert(creates_table(stmts[4], TableId::Service));
            } else if j == 5 {
                assert(creates_table(stmts[5], TableId::Transaction));
            } else if j == 6 {
                assert(creates_table(stmts[6], TableId::BankMovement));
            } else if j == 7 {
                assert(creates_table(stmts[7], TableId::LogEntry));
            } else if j == 8 {
                assert(creates_table(stmts[8], TableId::ReportNotice));
            } else {
                assert(creates_table(stmts[9], TableId::ReportSetting));
            }
        }
        assert forall|j: int, id: IndexId|
            0 <= j < 16 && #[trigger] creates_index_id(stmts[j], id) implies 10 <= j && id
            == declared_index_id(j) by {
            if j == 0 {
                assert(creates_table(stmts[0], TableId::Apartment));
            } else if j == 1 {
                assert(creates_table(stmts[1], TableId::Tenant));
            } else if j == 2 {
                assert(creates_table(stmts[2], TableId::BankAccount));
            } else if j == 3 {
                assert(creates_table(stmts[3], TableId::ServiceType));
            } else if j == 4 {
                assert(creates_table(stmts[4], TableId::Service));
            } else if j == 5 {
                assert(creates_table(stmts[5], TableId::Transaction));
            } else if j == 6 {
                assert(creates_table(stmts[6], TableId::BankMovement));
            } else if j == 7 {
                assert(creates_table(stmts[7], TableId::LogEntry));
            } else if j == 8 {
                assert(creates_table(stmts[8], TableId::ReportNotice));
            } else if j == 9 {
                assert(creates_table(stmts[9], TableId::ReportSetting));
            } else if j == 10 {
                assert(creates_index(stmts[10], IndexId::TenantApartment, TableId::Tenant, 13, None));
            } else if j == 11 {
                assert(creates_index(
                    stmts[11],
                    IndexId::TransactionApartment,
                    TableId::Transaction,
                    16,
                    None,
                ));
            } else if j == 12 {
                assert(creates_index(
                    stmts[12],
                    IndexId::MovementAccount,
                    TableId::BankMovement,
                    12,
                    None,
                ));
            } else if j == 13 {
                assert(creates_index(
                    stmts[13],
                    IndexId::MovementTransaction,
                    TableId::BankMovement,
                    13,
                    None,
                ));
            } else if j == 14 {
                assert(creates_index(
                    stmts[14],
                    IndexId::MovementService,
                    TableId::BankMovement,
                    14,
                    None,
                ));
            } else {
                assert(creates_index(
                    stmts[15],
                    IndexId::NoticeMonthYear,
                    TableId::ReportNotice,
                    3,
                    Some(4usize),
                ));
            }
        }
        let ix10 = stmts[10]->CreateIndex_0;
        lemma_first_create_index_installs(s0, stmts, s1, 10, ix10);
        let w10 = choose|i: int| 0 <= i < done.indexes.len() && done.indexes[i] == ix10;
        assert(index_covers(done.indexes, IndexId::TenantApartment, TableId::Tenant, 13, None));
        let ix11 = stmts[11]->CreateIndex_0;
        lemma_first_create_index_installs(s0, stmts, s1, 11, ix11);
        let w11 = choose|i: int| 0 <= i < done.indexes.len() && done.indexes[i] == ix11;
        assert(index_covers(
            done.indexes,
            IndexId::TransactionApartment,
            TableId::Transaction,
            16,
            None,
        ));
        let ix12 = stmts[12]->CreateIndex_0;
        lemma_first_create_index_installs(s0, stmts, s1, 12, ix12);
        let w12 = choose|i: int| 0 <= i < done.indexes.len() && done.indexes[i] == ix12;
        assert(index_covers(done.indexes, IndexId::MovementAccount, TableId::BankMovement, 12, None));
        let ix13 = stmts[13]->CreateIndex_0;
        lemma_first_create_index_installs(s0, stmts, s1, 13, ix13);
        let w13 = choose|i: int| 0 <= i < done.indexes.len() && done.indexes[i] == ix13;
        assert(index_covers(
            done.indexes,
            IndexId::MovementTransaction,
            TableId::BankMovement,
            13,
            None,
        ));
        let ix14 = stmts[14]->CreateIndex_0;
        lemma_first_create_index_installs(s0, stmts, s1, 14, ix14);
        let w14 = choose|i: int| 0 <= i < done.indexes.len() && done.indexes[i] == ix14;
        assert(index_covers(done.indexes, IndexId::MovementService, TableId::BankMovement, 14, None));
        let ix15 = stmts[15]->CreateIndex_0;
        lemma_first_create_index_installs(s0, stmts, s1, 15, ix15);
        let w15 = choose|i: int| 0 <= i < done.indexes.len() && done.indexes[i] == ix15;
        assert(index_covers(
            done.indexes,
            IndexId::NoticeMonthYear,
            TableId::ReportNotice,
            3,
            Some(4usize),
        ));
        let da = stmts[0]->CreateTable_0;
        lemma_first_create_installs(s0, stmts, s1, 0, da);
        assert(table_installed(done.tables, da) && apartment_rules(da));
        let dt = stmts[1]->CreateTable_0;
        lemma_first_create_installs(s0, stmts, s1, 1, dt);
        assert(table_installed(done.tables, dt) && tenant_rules(dt));
        let db = stmts[2]->CreateTable_0;
        lemma_first_create_installs(s0, stmts, s1, 2, db);
        assert(table_installed(done.tables, db) && bank_account_rules(db));
        let dy = stmts[3]->CreateTable_0;
        lemma_first_create_installs(s0, stmts, s1, 3, dy);
        assert(table_installed(done.tables, dy) && service_type_rules(dy));
        let dv = stmts[4]->CreateTable_0;
        lemma_first_create_installs(s0, stmts, s1, 4, dv);
        assert(table_installed(done.tables, dv) && service_rules(dv));
        let dx = stmts[5]->CreateTable_0;
        lemma_first_create_installs(s0, stmts, s1, 5, dx);
        assert(table_installed(done.tables, dx) && transaction_rules(dx));
        let dm = stmts[6]->CreateTable_0;
        lemma_first_create_installs(s0, stmts, s1, 6, dm);
        assert(table_installed(done.tables, dm) && movement_rules(dm));
        let dl = stmts[7]->CreateTable_0;
        lemma_first_create_installs(s0, stmts, s1, 7, dl);
        assert(table_installed(done.tables, dl) && log_rules(dl));
        let dn = stmts[8]->CreateTable_0;
        lemma_first_create_installs(s0, stmts, s1, 8, dn);
        assert(table_installed(done.tables, dn) && notice_rules(dn));
        let ds = stmts[9]->CreateTable_0;
        lemma_first_create_installs(s0, stmts, s1, 9, ds);
        assert(table_installed(done.tables, ds) && setting_rules(ds));
    }
    ensure_ready(store, led)
}

/// Identity of the index the statement at position `j` of the initial
/// change-set creates (positions ten to fifteen).
pub open spec fn declared_index_id(j: int) -> IndexId {
    if j == 10 {
        IndexId::TenantApartment
    } else if j == 11 {
        IndexId::TransactionApartment
    } else if j == 12 {
        IndexId::MovementAccount
    } else if j == 13 {
        IndexId::MovementTransaction
    } else if j == 14 {
        IndexId::MovementService
    } else {
        IndexId::NoticeMonthYear
    }
}

/// Identity of the table the statement at position `j` of the initial
/// change-set creates.
pub open spec fn declared_table_id(j: int) -> TableId {
    if j == 0 {
        TableId::Apartment
    } else if j == 1 {
        TableId::Tenant
    } else if j == 2 {
        TableId::BankAccount
    } else if j == 3 {
        TableId::ServiceType
    } else if j == 4 {
        TableId::Service
    } else if j == 5 {
        TableId::Transaction
    } else if j == 6 {
        TableId::BankMovement
    } else if j == 7 {
        TableId::LogEntry
    } else if j == 8 {
        TableId::ReportNotice
    } else {
        TableId::ReportSetting
    }
}

} // verus!
