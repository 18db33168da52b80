//! The migration ledger: an ordered, append-only list of immutable
//! change-sets, each with a strictly higher version number and a
//! forward script of idempotent-safe schema statements. The standard
//! ledger materializes the whole catalog in its first change-set.

use vstd::prelude::*;
use crate::catalog::IndexDef;
use crate::catalog::IndexId;
use crate::catalog::TableDef;
use crate::catalog::TableId;
use crate::catalog::apartment_rules;
use crate::catalog::apartment_table;
use crate::catalog::bank_account_rules;
use crate::catalog::bank_account_table;
use crate::catalog::catalog_indexes;
use crate::catalog::log_rules;
use crate::catalog::log_table;
use crate::catalog::movement_rules;
use crate::catalog::movement_table;
use crate::catalog::notice_rules;
use crate::catalog::notice_table;
use crate::catalog::service_rules;
use crate::catalog::service_table;
use crate::catalog::service_type_rules;
use crate::catalog::service_type_table;
use crate::catalog::setting_rules;
use crate::catalog::setting_table;
use crate::catalog::tenant_rules;
use crate::catalog::tenant_table;
use crate::catalog::transaction_rules;
use crate::catalog::transaction_table;
use crate::catalog::wf_table_def;

verus! {

/// One schema statement of a change-set. Both forms carry
/// create-if-not-exists semantics, so re-issuing an interrupted
/// change-set does not fail outright.
pub enum Statement {
    CreateTable(TableDef),
    CreateIndex(IndexDef),
}

/// One forward-only migration step: a fixed version, a human-readable
/// description, and the script that takes the store from the previous
/// version to this one. No rollback script exists; evolution is
/// forward-only.
pub struct ChangeSet {
    pub version: u64,
    pub description: &'static str,
    pub statements: Vec<Statement>,
}

/// The ordered list of published change-sets.
pub struct Ledger {
    pub change_sets: Vec<ChangeSet>,
}

/// Versions strictly increase along the ledger: a published version is
/// immutable and never reused, new work is always a higher version.
pub open spec fn wf_ledger(css: Seq<ChangeSet>) -> bool {
    forall|i: int, j: int| 0 <= i < j < css.len() ==> css[i].version < css[j].version
}

/// The ledger's highest version: the last one, since a well-formed
/// ledger is strictly ascending; 0 for an empty ledger.
pub open spec fn ledger_max(css: Seq<ChangeSet>) -> int {
    if css.len() == 0 {
        0
    } else {
        css.last().version as int
    }
}

/// The statement installs the table `id` with a well-formed definition.
pub open spec fn creates_table(s: Statement, id: TableId) -> bool {
    s matches Statement::CreateTable(d) && d.id == id && wf_table_def(d)
}

/// The statement is a table creation for `id`, well formed or not.
pub open spec fn creates_table_id(s: Statement, id: TableId) -> bool {
    s matches Statement::CreateTable(d) && d.id == id
}

/// The statement installs the index `id` on `table`, covering `col`
/// (and `col2`, for a composite index).
pub open spec fn creates_index(
    s: Statement,
    id: IndexId,
    table: TableId,
    col: usize,
    col2: Option<usize>,
) -> bool {
    s matches Statement::CreateIndex(ix) && ix.id == id && ix.table == table && ix.col == col
        && ix.col2 == col2
}

/// The statement is an index creation for `id`, whatever it covers.
pub open spec fn creates_index_id(s: Statement, id: IndexId) -> bool {
    s matches Statement::CreateIndex(ix) && ix.id == id
}

/// The first (and so far only) change-set: creates every entity table
/// of the catalog and every declared index, in an order that creates
/// each table before any index on it.
pub fn initial_change_set() -> (cs: ChangeSet)
    ensures
        initial_shape(cs),
{
    let mut stmts: Vec<Statement> = Vec::new();
    stmts.push(Statement::CreateTable(apartment_table()));
    stmts.push(Statement::CreateTable(tenant_table()));
    stmts.push(Statement::CreateTable(bank_account_table()));
    stmts.push(Statement::CreateTable(service_type_table()));
    stmts.push(Statement::CreateTable(service_table()));
    stmts.push(Statement::CreateTable(transaction_table()));
    stmts.push(Statement::CreateTable(movement_table()));
    stmts.push(Statement::CreateTable(log_table()));
    stmts.push(Statement::CreateTable(notice_table()));
    stmts.push(Statement::CreateTable(setting_table()));
    let indexes = catalog_indexes();
    stmts.push(Statement::CreateIndex(indexes[0]));
    stmts.push(Statement::CreateIndex(indexes[1]));
    stmts.push(Statement::CreateIndex(indexes[2]));
    stmts.push(Statement::CreateIndex(indexes[3]));
    stmts.push(Statement::CreateIndex(indexes[4]));
    stmts.push(Statement::CreateIndex(indexes[5]));
    ChangeSet { version: 1, description: "create_initial_tables", statements: stmts }
}

/// The standard migration ledger of this store: one published
/// change-set that installs the whole catalog.
pub fn standard_ledger() -> (led: Ledger)
    ensures
        wf_ledger(led.change_sets@),
        led.change_sets@.len() == 1,
        ledger_max(led.change_sets@) == 1,
        initial_shape(led.change_sets@[0]),
{
    let cs = initial_change_set();
    let mut css: Vec<ChangeSet> = Vec::new();
    css.push(cs);
    Ledger { change_sets: css }
}

/// Shape of the initial change-set, as `initial_change_set` promises
/// it; the runner's startup law is proved from exactly these facts.
pub open spec fn initial_shape(cs: ChangeSet) -> bool {
    &&& cs.version == 1
    &&& cs.statements@.len() == 16
    &&& creates_table(cs.statements@[0], TableId::Apartment)
    &&& creates_table(cs.statements@[1], TableId::Tenant)
    &&& creates_table(cs.statements@[2], TableId::BankAccount)
    &&& creates_table(cs.statements@[3], TableId::ServiceType)
    &&& creates_table(cs.statements@[4], TableId::Service)
    &&& creates_table(cs.statements@[5], TableId::Transaction)
    &&& creates_table(cs.statements@[6], TableId::BankMovement)
    &&& creates_table(cs.statements@[7], TableId::LogEntry)
    &&& creates_table(cs.statements@[8], TableId::ReportNotice)
    &&& creates_table(cs.statements@[9], TableId::ReportSetting)
    &&& cs.statements@[0] matches Statement::CreateTable(d) && apartment_rules(d)
    &&& cs.statements@[1] matches Statement::CreateTable(d) && tenant_rules(d)
    &&& cs.statements@[2] matches Statement::CreateTable(d) && bank_account_rules(d)
    &&& cs.statements@[3] matches Statement::CreateTable(d) && service_type_rules(d)
    &&& cs.statements@[4] matches Statement::CreateTable(d) && service_rules(d)
    &&& cs.statements@[5] matches Statement::CreateTable(d) && transaction_rules(d)
    &&& cs.statements@[6] matches Statement::CreateTable(d) && movement_rules(d)
    &&& cs.statements@[7] matches Statement::CreateTable(d) && log_rules(d)
    &&& cs.statements@[8] matches Statement::CreateTable(d) && notice_rules(d)
    &&& cs.statements@[9] matches Statement::CreateTable(d) && setting_rules(d)
    &&& creates_index(cs.statements@[10], IndexId::TenantApartment, TableId::Tenant, 13, None)
    &&& creates_index(
        cs.statements@[11],
        IndexId::TransactionApartment,
        TableId::Transaction,
        16,
        None,
    )
    &&& creates_index(cs.statements@[12], IndexId::MovementAccount, TableId::BankMovement, 12, None)
    &&& creates_index(
        cs.statements@[13],
        IndexId::MovementTransaction,
        TableId::BankMovement,
        13,
        None,
    )
    &&& creates_index(cs.statements@[14], IndexId::MovementService, TableId::BankMovement, 14, None)
    &&& creates_index(
        cs.statements@[15],
        IndexId::NoticeMonthYear,
        TableId::ReportNotice,
        3,
        Some(4usize),
    )
}

} // verus!
