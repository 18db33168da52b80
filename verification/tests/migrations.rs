use condo_store::catalog::apartment_table;
use condo_store::catalog::ColumnDefault;
use condo_store::catalog::ColumnType;
use condo_store::catalog::IndexDef;
use condo_store::catalog::IndexId;
use condo_store::catalog::TableDef;
use condo_store::catalog::TableId;
use condo_store::ledger::standard_ledger;
use condo_store::ledger::ChangeSet;
use condo_store::ledger::Ledger;
use condo_store::ledger::Statement;
use condo_store::runner::apply_change_set;
use condo_store::runner::ensure_ready;
use condo_store::runner::prepare_store;
use condo_store::runner::Store;

fn table_ids(s: &Store) -> Vec<TableId> {
    s.tables.iter().map(|t| t.id).collect()
}

#[test]
fn fresh_store_reaches_highest_version() {
    let mut s = Store::new();
    let r = prepare_store(&mut s);
    assert!(r.is_ok());
    assert_eq!(s.version, 1);
    assert_eq!(s.tables.len(), 10);
    assert_eq!(s.indexes.len(), 6);
    let ids = table_ids(&s);
    for id in [
        TableId::Apartment,
        TableId::Tenant,
        TableId::BankAccount,
        TableId::ServiceType,
        TableId::Service,
        TableId::Transaction,
        TableId::BankMovement,
        TableId::LogEntry,
        TableId::ReportNotice,
        TableId::ReportSetting,
    ] {
        assert!(ids.contains(&id));
    }
}

#[test]
fn migrated_store_keeps_declared_constraints() {
    let mut s = Store::new();
    assert!(prepare_store(&mut s).is_ok());
    let apt = s.tables.iter().find(|t| t.id == TableId::Apartment).unwrap();
    assert_eq!(apt.columns.len(), 14);
    assert_eq!(apt.composite_uniques.len(), 1);
    assert_eq!(apt.composite_uniques[0].first, 1);
    assert_eq!(apt.composite_uniques[0].second, 6);
    assert_eq!(apt.columns[1].name, "numero");
    assert_eq!(apt.columns[6].name, "tipoOcupacion");
    let mov = s.tables.iter().find(|t| t.id == TableId::BankMovement).unwrap();
    assert_eq!(mov.foreign_keys.len(), 3);
    assert!(mov.columns[13].unique);
    let ten = s.tables.iter().find(|t| t.id == TableId::Tenant).unwrap();
    assert!(ten.columns[3].unique);
    assert_eq!(ten.foreign_keys.len(), 1);
    let svc = s.tables.iter().find(|t| t.id == TableId::Service).unwrap();
    assert_eq!(svc.columns.len(), 11);
    assert_eq!(svc.columns[1].name, "tipo");
    assert!(!svc.columns[1].nullable);
    assert_eq!(svc.columns[6].name, "numeroCuenta");
    assert!(svc.columns[6].nullable);
    assert_eq!(svc.columns[8].name, "activo");
    assert!(matches!(svc.columns[8].default, ColumnDefault::IntValue(1)));
    let notice = s.tables.iter().find(|t| t.id == TableId::ReportNotice).unwrap();
    assert_eq!(notice.columns.len(), 8);
    assert_eq!(notice.columns[3].name, "mes");
    assert_eq!(notice.columns[4].name, "anio");
    assert!(!notice.columns[3].nullable);
    assert!(!notice.columns[4].nullable);
    assert!(matches!(notice.columns[3].ty, ColumnType::Integer));
    assert!(matches!(notice.columns[4].ty, ColumnType::Integer));
}

#[test]
fn migrated_store_keeps_declared_defaults_and_index_columns() {
    let mut s = Store::new();
    assert!(prepare_store(&mut s).is_ok());
    let apt = s.tables.iter().find(|t| t.id == TableId::Apartment).unwrap();
    assert!(matches!(apt.columns[3].default, ColumnDefault::AmountValue(0)));
    assert!(matches!(apt.columns[6].default, ColumnDefault::TextValue("PROPIETARIO")));
    assert!(matches!(apt.columns[12].default, ColumnDefault::Now));
    let acc = s.tables.iter().find(|t| t.id == TableId::BankAccount).unwrap();
    assert!(matches!(acc.columns[7].default, ColumnDefault::IntValue(0)));
    let txn = s.tables.iter().find(|t| t.id == TableId::Transaction).unwrap();
    assert!(matches!(txn.columns[7].default, ColumnDefault::TextValue("EFECTIVO")));
    assert!(matches!(txn.columns[10].default, ColumnDefault::AmountValue(0)));
    let log = s.tables.iter().find(|t| t.id == TableId::LogEntry).unwrap();
    assert!(matches!(log.columns[5].default, ColumnDefault::TextValue("PENDIENTE")));
    let my = s.indexes.iter().find(|x| x.id == IndexId::NoticeMonthYear).unwrap();
    assert_eq!(my.table, TableId::ReportNotice);
    assert_eq!(my.col, 3);
    assert_eq!(my.col2, Some(4));
    let ta = s.indexes.iter().find(|x| x.id == IndexId::TenantApartment).unwrap();
    assert_eq!(ta.table, TableId::Tenant);
    assert_eq!(ta.col, 13);
    assert_eq!(ta.col2, None);
    let mt = s.indexes.iter().find(|x| x.id == IndexId::MovementTransaction).unwrap();
    assert_eq!((mt.table, mt.col, mt.col2), (TableId::BankMovement, 13, None));
}

#[test]
fn second_run_is_a_no_op() {
    let mut s = Store::new();
    assert!(ensure_ready(&mut s, standard_ledger()).is_ok());
    let v = s.version;
    let nt = s.tables.len();
    let ni = s.indexes.len();
    let r = ensure_ready(&mut s, standard_ledger());
    assert!(r.is_ok());
    assert_eq!(s.version, v);
    assert_eq!(s.tables.len(), nt);
    assert_eq!(s.indexes.len(), ni);
}

#[test]
fn failing_change_set_rolls_back_entirely() {
    let mut s = Store::new();
    let mut stmts: Vec<Statement> = Vec::new();
    stmts.push(Statement::CreateTable(apartment_table()));
    stmts.push(Statement::CreateIndex(IndexDef {
        id: IndexId::MovementAccount,
        name: "idx_movimiento_cuenta",
        table: TableId::BankMovement,
        col: 12,
        col2: None,
    }));
    let cs = ChangeSet { version: 1, description: "broken", statements: stmts };
    let r = apply_change_set(&mut s, cs);
    assert!(r.is_err());
    assert_eq!(s.version, 0);
    assert_eq!(s.tables.len(), 0);
    assert_eq!(s.indexes.len(), 0);
}

#[test]
fn ill_formed_table_definition_is_rejected() {
    let mut s = Store::new();
    let bad = TableDef {
        id: TableId::Apartment,
        name: "Apartamento",
        columns: Vec::new(),
        pk: 0,
        composite_uniques: Vec::new(),
        foreign_keys: Vec::new(),
    };
    let cs = ChangeSet {
        version: 1,
        description: "empty_table",
        statements: vec![Statement::CreateTable(bad)],
    };
    assert!(apply_change_set(&mut s, cs).is_err());
    assert_eq!(s.version, 0);
    assert_eq!(s.tables.len(), 0);
}

#[test]
fn failure_after_committed_change_set_keeps_prior_version() {
    let mut s = Store::new();
    let good = ChangeSet {
        version: 1,
        description: "apartments_only",
        statements: vec![Statement::CreateTable(apartment_table())],
    };
    let bad = ChangeSet {
        version: 2,
        description: "index_on_missing_table",
        statements: vec![Statement::CreateIndex(IndexDef {
            id: IndexId::MovementAccount,
            name: "idx_movimiento_cuenta",
            table: TableId::BankMovement,
            col: 12,
            col2: None,
        })],
    };
    let led = Ledger { change_sets: vec![good, bad] };
    let r = ensure_ready(&mut s, led);
    assert!(r.is_err());
    assert_eq!(s.version, 1);
    assert_eq!(s.tables.len(), 1);
    assert_eq!(s.indexes.len(), 0);
}

#[test]
fn ledger_skips_change_sets_at_or_below_recorded_version() {
    let mut s = Store::new();
    s.version = 1;
    let r = ensure_ready(&mut s, standard_ledger());
    assert!(r.is_ok());
    assert_eq!(s.version, 1);
    assert_eq!(s.tables.len(), 0);
}
