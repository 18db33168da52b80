use condo_store::domain::Category;
use condo_store::domain::CreditState;
use condo_store::domain::MovementKind;
use condo_store::domain::OccupancyKind;
use condo_store::domain::PaymentClass;
use condo_store::domain::PaymentMethod;
use condo_store::domain::TransactionKind;
use condo_store::records::ApartmentRow;
use condo_store::records::BankAccountRow;
use condo_store::records::DataStore;
use condo_store::records::MovementRow;
use condo_store::records::RuleId;
use condo_store::records::ServiceRow;
use condo_store::records::ServiceTypeRow;
use condo_store::records::SettingRow;
use condo_store::records::TenantRow;
use condo_store::records::TransactionRow;
use condo_store::records::WriteError;
use condo_store::records::MAX_AMOUNT;

fn apt(id: &str, numero: &str, kind: OccupancyKind) -> ApartmentRow {
    ApartmentRow {
        id: id.to_string(),
        numero: numero.to_string(),
        piso: None,
        alicuota: 0,
        gastos_comunes: 0,
        fondo_reserva: 0,
        tipo_ocupacion: kind,
        contacto_nombre: None,
        contacto_apellido: None,
        contacto_celular: None,
        contacto_email: None,
        notas: None,
        created_at: 0,
        updated_at: 0,
    }
}

fn tenant(id: &str, cedula: Option<&str>, apartamento: Option<&str>) -> TenantRow {
    TenantRow {
        id: id.to_string(),
        nombre: "Ana".to_string(),
        apellido: "Gomez".to_string(),
        cedula: cedula.map(|c| c.to_string()),
        email: None,
        telefono: None,
        tipo: OccupancyKind::Tenant,
        activo: true,
        fecha_ingreso: 0,
        fecha_salida: None,
        notas: None,
        created_at: 0,
        updated_at: 0,
        apartamento_id: apartamento.map(|a| a.to_string()),
    }
}

fn account(id: &str, default: bool) -> BankAccountRow {
    BankAccountRow {
        id: id.to_string(),
        banco: "Banco Uno".to_string(),
        tipo_cuenta: "corriente".to_string(),
        numero_cuenta: "001".to_string(),
        titular: None,
        saldo_inicial: 0,
        activa: true,
        por_defecto: default,
        created_at: 0,
        updated_at: 0,
    }
}

fn txn(id: &str, kind: TransactionKind, monto: i64) -> TransactionRow {
    TransactionRow {
        id: id.to_string(),
        tipo: kind,
        monto,
        fecha: 0,
        categoria: Some(Category::Other),
        descripcion: None,
        referencia: None,
        metodo_pago: PaymentMethod::Cash,
        notas: None,
        estado_credito: None,
        monto_pagado: 0,
        clasificacion_pago: None,
        monto_gasto_comun: None,
        monto_fondo_reserva: None,
        created_at: 0,
        updated_at: 0,
        apartamento_id: None,
    }
}

fn mixed_txn(id: &str, monto: i64, gc: i64, fr: i64) -> TransactionRow {
    let mut t = txn(id, TransactionKind::Income, monto);
    t.clasificacion_pago = Some(PaymentClass::Mixed);
    t.monto_gasto_comun = Some(gc);
    t.monto_fondo_reserva = Some(fr);
    t
}

fn movement(id: &str, cuenta: &str, transaccion: Option<&str>, servicio: Option<&str>) -> MovementRow {
    MovementRow {
        id: id.to_string(),
        tipo: MovementKind::Income,
        monto: 1000,
        fecha: 0,
        descripcion: "linea".to_string(),
        referencia: None,
        numero_documento: None,
        archivo_url: None,
        clasificacion: None,
        conciliado: false,
        created_at: 0,
        updated_at: 0,
        cuenta_bancaria_id: cuenta.to_string(),
        transaccion_id: transaccion.map(|t| t.to_string()),
        servicio_id: servicio.map(|v| v.to_string()),
    }
}

fn service(id: &str) -> ServiceRow {
    ServiceRow {
        id: id.to_string(),
        tipo: "LIMPIEZA".to_string(),
        nombre: "Proveedor".to_string(),
        celular: None,
        email: None,
        banco: None,
        numero_cuenta: None,
        observaciones: None,
        activo: true,
        created_at: 0,
        updated_at: 0,
    }
}

#[test]
fn duplicate_apartment_pair_is_rejected() {
    let mut d = DataStore::new();
    assert!(d.insert_apartment(apt("a1", "101", OccupancyKind::Owner), 1).is_ok());
    let r = d.insert_apartment(apt("a2", "101", OccupancyKind::Owner), 2);
    assert_eq!(r, Err(WriteError::ConstraintViolation(RuleId::ApartmentNumberKind)));
    assert_eq!(d.apartments.len(), 1);
    assert!(d.insert_apartment(apt("a3", "101", OccupancyKind::Tenant), 3).is_ok());
}

#[test]
fn duplicate_tenant_national_id_is_rejected() {
    let mut d = DataStore::new();
    assert!(d.insert_tenant(tenant("t1", Some("V-123"), None), 1).is_ok());
    let r = d.insert_tenant(tenant("t2", Some("V-123"), None), 2);
    assert_eq!(r, Err(WriteError::ConstraintViolation(RuleId::TenantNationalId)));
    assert!(d.insert_tenant(tenant("t3", None, None), 3).is_ok());
    assert!(d.insert_tenant(tenant("t4", None, None), 4).is_ok());
}

#[test]
fn duplicate_identifier_is_rejected() {
    let mut d = DataStore::new();
    assert!(d.insert_apartment(apt("a1", "101", OccupancyKind::Owner), 1).is_ok());
    let r = d.insert_apartment(apt("a1", "102", OccupancyKind::Owner), 2);
    assert_eq!(r, Err(WriteError::ConstraintViolation(RuleId::DuplicateId)));
}

#[test]
fn deleting_account_cascades_to_its_movements() {
    let mut d = DataStore::new();
    assert!(d.insert_bank_account(account("b1", false), 1).is_ok());
    assert!(d.insert_bank_account(account("b2", false), 2).is_ok());
    assert!(d.insert_movement(movement("m1", "b1", None, None), 3).is_ok());
    assert!(d.insert_movement(movement("m2", "b2", None, None), 4).is_ok());
    assert!(d.insert_movement(movement("m3", "b1", None, None), 5).is_ok());
    assert!(d.delete_bank_account(&"b1".to_string()));
    assert_eq!(d.accounts.len(), 1);
    assert_eq!(d.movements.len(), 1);
    assert_eq!(d.movements[0].id, "m2");
}

#[test]
fn deleting_transaction_nulls_movement_reference() {
    let mut d = DataStore::new();
    assert!(d.insert_bank_account(account("b1", false), 1).is_ok());
    assert!(d.insert_transaction(txn("x1", TransactionKind::Income, 5000), 2).is_ok());
    assert!(d.insert_movement(movement("m1", "b1", Some("x1"), None), 3).is_ok());
    assert!(d.delete_transaction(&"x1".to_string()));
    assert_eq!(d.transactions.len(), 0);
    assert_eq!(d.movements.len(), 1);
    assert_eq!(d.movements[0].transaccion_id, None);
}

#[test]
fn deleting_apartment_nulls_weak_references() {
    let mut d = DataStore::new();
    assert!(d.insert_apartment(apt("a1", "101", OccupancyKind::Owner), 1).is_ok());
    assert!(d.insert_tenant(tenant("t1", None, Some("a1")), 2).is_ok());
    let mut t = txn("x1", TransactionKind::Income, 100);
    t.apartamento_id = Some("a1".to_string());
    assert!(d.insert_transaction(t, 3).is_ok());
    assert!(d.delete_apartment(&"a1".to_string()));
    assert_eq!(d.apartments.len(), 0);
    assert_eq!(d.tenants.len(), 1);
    assert_eq!(d.tenants[0].apartamento_id, None);
    assert_eq!(d.transactions.len(), 1);
    assert_eq!(d.transactions[0].apartamento_id, None);
}

#[test]
fn deleting_service_nulls_movement_reference() {
    let mut d = DataStore::new();
    assert!(d.insert_bank_account(account("b1", false), 1).is_ok());
    assert!(d.insert_service(service("s1"), 2).is_ok());
    assert!(d.insert_movement(movement("m1", "b1", None, Some("s1")), 3).is_ok());
    assert!(d.delete_service(&"s1".to_string()));
    assert_eq!(d.movements.len(), 1);
    assert_eq!(d.movements[0].servicio_id, None);
}

#[test]
fn credit_sale_state_is_derived_from_paid_amount() {
    let mut d = DataStore::new();
    assert!(d.insert_transaction(txn("c1", TransactionKind::CreditSale, 10000), 1).is_ok());
    assert_eq!(d.transactions[0].estado_credito, Some(CreditState::Pending));
    assert_eq!(d.transactions[0].monto_pagado, 0);

    assert!(d.update_credit_payment(&"c1".to_string(), 4000, 2).is_ok());
    assert_eq!(d.transactions[0].estado_credito, Some(CreditState::Partial));
    assert_eq!(d.transactions[0].monto_pagado, 4000);

    assert!(d.update_credit_payment(&"c1".to_string(), 10000, 3).is_ok());
    assert_eq!(d.transactions[0].estado_credito, Some(CreditState::Paid));

    // an overpayment is capped at the total and still reads as paid
    assert!(d.update_credit_payment(&"c1".to_string(), 15000, 4).is_ok());
    assert_eq!(d.transactions[0].monto_pagado, 10000);
    assert_eq!(d.transactions[0].estado_credito, Some(CreditState::Paid));
}

#[test]
fn credit_bookkeeping_cannot_be_set_by_hand() {
    let mut d = DataStore::new();
    let mut t = txn("c1", TransactionKind::CreditSale, 10000);
    t.estado_credito = Some(CreditState::Paid);
    let r = d.insert_transaction(t, 1);
    assert_eq!(r, Err(WriteError::ValidationError(RuleId::CreditStateConsistency)));

    assert!(d.insert_transaction(txn("x1", TransactionKind::Income, 100), 2).is_ok());
    let r2 = d.update_credit_payment(&"x1".to_string(), 50, 3);
    assert_eq!(r2, Err(WriteError::ValidationError(RuleId::CreditStateConsistency)));
    let r3 = d.update_credit_payment(&"nope".to_string(), 50, 4);
    assert_eq!(r3, Err(WriteError::ConstraintViolation(RuleId::UnknownTransaction)));
}

#[test]
fn mixed_split_must_sum_to_total() {
    let mut d = DataStore::new();
    let r = d.insert_transaction(mixed_txn("x1", 10000, 6000, 3999), 1);
    assert_eq!(r, Err(WriteError::ValidationError(RuleId::SplitSum)));
    assert_eq!(d.transactions.len(), 0);
    assert!(d.insert_transaction(mixed_txn("x2", 10000, 6000, 4000), 2).is_ok());
    assert_eq!(d.transactions.len(), 1);
}

#[test]
fn split_fields_stay_unset_outside_mixed() {
    let mut d = DataStore::new();
    let mut t = txn("x1", TransactionKind::Income, 10000);
    t.clasificacion_pago = Some(PaymentClass::CommonExpense);
    t.monto_gasto_comun = Some(10000);
    let r = d.insert_transaction(t, 1);
    assert_eq!(r, Err(WriteError::ValidationError(RuleId::SplitFieldsUnset)));
}

#[test]
fn amounts_out_of_range_are_rejected() {
    let mut d = DataStore::new();
    let r = d.insert_transaction(txn("x1", TransactionKind::Income, -1), 1);
    assert_eq!(r, Err(WriteError::ValidationError(RuleId::AmountRange)));
    let r2 = d.insert_transaction(txn("x2", TransactionKind::Income, MAX_AMOUNT + 1), 2);
    assert_eq!(r2, Err(WriteError::ValidationError(RuleId::AmountRange)));
}

#[test]
fn marking_new_default_clears_previous_one() {
    let mut d = DataStore::new();
    assert!(d.insert_bank_account(account("a", true), 1).is_ok());
    assert!(d.insert_bank_account(account("b", false), 2).is_ok());
    assert!(d.set_default_account(&"b".to_string(), 3).is_ok());
    let defaults: Vec<&str> = d
        .accounts
        .iter()
        .filter(|a| a.por_defecto)
        .map(|a| a.id.as_str())
        .collect();
    assert_eq!(defaults, vec!["b"]);
}

#[test]
fn second_default_account_is_rejected_at_insert() {
    let mut d = DataStore::new();
    assert!(d.insert_bank_account(account("a", true), 1).is_ok());
    let r = d.insert_bank_account(account("b", true), 2);
    assert_eq!(r, Err(WriteError::ConstraintViolation(RuleId::SingleDefaultAccount)));
    let r2 = d.set_default_account(&"missing".to_string(), 3);
    assert_eq!(r2, Err(WriteError::ConstraintViolation(RuleId::UnknownAccount)));
}

#[test]
fn dangling_references_are_rejected() {
    let mut d = DataStore::new();
    let r = d.insert_tenant(tenant("t1", None, Some("missing")), 1);
    assert_eq!(r, Err(WriteError::ConstraintViolation(RuleId::UnknownApartment)));
    let r2 = d.insert_movement(movement("m1", "missing", None, None), 2);
    assert_eq!(r2, Err(WriteError::ConstraintViolation(RuleId::UnknownAccount)));
    assert!(d.insert_bank_account(account("b1", false), 3).is_ok());
    let r3 = d.insert_movement(movement("m2", "b1", Some("missing"), None), 4);
    assert_eq!(r3, Err(WriteError::ConstraintViolation(RuleId::UnknownTransaction)));
    let r4 = d.insert_movement(movement("m3", "b1", None, Some("missing")), 5);
    assert_eq!(r4, Err(WriteError::ConstraintViolation(RuleId::UnknownService)));
}

#[test]
fn one_movement_per_transaction() {
    let mut d = DataStore::new();
    assert!(d.insert_bank_account(account("b1", false), 1).is_ok());
    assert!(d.insert_transaction(txn("x1", TransactionKind::Income, 100), 2).is_ok());
    assert!(d.insert_movement(movement("m1", "b1", Some("x1"), None), 3).is_ok());
    let r = d.insert_movement(movement("m2", "b1", Some("x1"), None), 4);
    assert_eq!(r, Err(WriteError::ConstraintViolation(RuleId::OneMovementPerTransaction)));
}

#[test]
fn lookup_code_and_setting_key_are_unique() {
    let mut d = DataStore::new();
    let st = ServiceTypeRow {
        id: "st1".to_string(),
        codigo: "LUZ".to_string(),
        nombre: "Electricidad".to_string(),
        color: "default".to_string(),
        orden: 0,
        activo: true,
        created_at: 0,
        updated_at: 0,
    };
    let st2 = ServiceTypeRow {
        id: "st2".to_string(),
        codigo: "LUZ".to_string(),
        nombre: "Electricidad del edificio".to_string(),
        color: "default".to_string(),
        orden: 1,
        activo: true,
        created_at: 0,
        updated_at: 0,
    };
    assert!(d.insert_service_type(st, 1).is_ok());
    let r = d.insert_service_type(st2, 2);
    assert_eq!(r, Err(WriteError::ConstraintViolation(RuleId::ServiceTypeCode)));

    let cfg = SettingRow {
        id: "k1".to_string(),
        clave: "titulo".to_string(),
        valor: "Informe".to_string(),
        created_at: 0,
        updated_at: 0,
    };
    let cfg2 = SettingRow {
        id: "k2".to_string(),
        clave: "titulo".to_string(),
        valor: "Otro".to_string(),
        created_at: 0,
        updated_at: 0,
    };
    assert!(d.insert_setting(cfg, 3).is_ok());
    let r2 = d.insert_setting(cfg2, 4);
    assert_eq!(r2, Err(WriteError::ConstraintViolation(RuleId::SettingKey)));
}

#[test]
fn log_entries_and_notices_take_unique_identifiers() {
    let mut d = DataStore::new();
    let entry = condo_store::records::LogRow {
        id: "r1".to_string(),
        fecha: 10,
        tipo: condo_store::domain::LogKind::Maintenance,
        detalle: "revision del ascensor".to_string(),
        observaciones: None,
        situacion: condo_store::domain::LogStatus::Pending,
        created_at: 0,
        updated_at: 0,
    };
    assert!(d.insert_log(entry, 10).is_ok());
    let dup = condo_store::records::LogRow {
        id: "r1".to_string(),
        fecha: 11,
        tipo: condo_store::domain::LogKind::News,
        detalle: "otra".to_string(),
        observaciones: None,
        situacion: condo_store::domain::LogStatus::Done,
        created_at: 0,
        updated_at: 0,
    };
    assert_eq!(
        d.insert_log(dup, 11),
        Err(WriteError::ConstraintViolation(RuleId::DuplicateId))
    );
    let notice = condo_store::records::NoticeRow {
        id: "n1".to_string(),
        texto: "corte de agua".to_string(),
        orden: 0,
        mes: 5,
        anio: 2024,
        activo: true,
        created_at: 0,
        updated_at: 0,
    };
    assert!(d.insert_notice(notice, 12).is_ok());
    assert_eq!(d.logs.len(), 1);
    assert_eq!(d.notices.len(), 1);
    assert_eq!(d.logs[0].created_at, 10);
}

#[test]
fn writes_stamp_creation_and_update_instants() {
    let mut d = DataStore::new();
    assert!(d.insert_transaction(txn("c1", TransactionKind::CreditSale, 10000), 42).is_ok());
    assert_eq!(d.transactions[0].created_at, 42);
    assert_eq!(d.transactions[0].updated_at, 42);
    assert!(d.update_credit_payment(&"c1".to_string(), 1, 43).is_ok());
    assert_eq!(d.transactions[0].created_at, 42);
    assert_eq!(d.transactions[0].updated_at, 43);
}
