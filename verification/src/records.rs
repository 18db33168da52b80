//! The data side of the store: one row type per entity and the
//! well-formedness predicate the invariant layer keeps true — unique
//! identifiers, the declared uniqueness rules, referential integrity
//! with the declared delete actions, the credit-payment consistency
//! rule, the split-allocation rule, and the single-default-account
//! rule. Monetary values are fixed-point amounts in hundredths of the
//! currency unit.

use vstd::prelude::*;
use crate::domain::Category;
use crate::domain::CreditState;
use crate::domain::LogKind;
use crate::domain::LogStatus;
use crate::domain::MovementClass;
use crate::domain::MovementKind;
use crate::domain::OccupancyKind;
use crate::domain::PaymentClass;
use crate::domain::PaymentMethod;
use crate::domain::TransactionKind;

verus! {

/// Largest amount the store accepts, in hundredths: the sum of two
/// accepted amounts always fits the machine word.
pub const MAX_AMOUNT: i64 = 1_000_000_000_000_000;

/// A rule of the invariant layer; a rejected write names the rule it
/// would break.
#[derive(PartialEq, Eq, Structural, Clone, Copy, Debug)]
pub enum RuleId {
    /// Primary identifiers are unique within a table.
    DuplicateId,
    /// The (unit number, occupancy kind) pair of an apartment is unique.
    ApartmentNumberKind,
    /// A tenant's national id, when present, is globally unique.
    TenantNationalId,
    /// A service type's code is globally unique.
    ServiceTypeCode,
    /// A report setting's key is globally unique.
    SettingKey,
    /// A transaction has at most one bank movement.
    OneMovementPerTransaction,
    /// A referenced apartment must exist.
    UnknownApartment,
    /// A referenced bank account must exist.
    UnknownAccount,
    /// A referenced transaction must exist.
    UnknownTransaction,
    /// A referenced service must exist.
    UnknownService,
    /// At most one bank account carries the default marker.
    SingleDefaultAccount,
    /// The credit state is derived from the paid amount, never set
    /// independently.
    CreditStateConsistency,
    /// A mixed transaction's two split amounts must sum to its total.
    SplitSum,
    /// A transaction that is not mixed leaves the split amounts unset.
    SplitFieldsUnset,
    /// An amount must lie between 0 and `MAX_AMOUNT`.
    AmountRange,
}

/// A rejected write: either a declared constraint of the catalog or a
/// pre-write validation of the invariant layer.
#[derive(PartialEq, Eq, Structural, Clone, Copy, Debug)]
pub enum WriteError {
    ConstraintViolation(RuleId),
    ValidationError(RuleId),
}

pub struct ApartmentRow {
    pub id: String,
    pub numero: String,
    pub piso: Option<i64>,
    pub alicuota: i64,
    pub gastos_comunes: i64,
    pub fondo_reserva: i64,
    pub tipo_ocupacion: OccupancyKind,
    pub contacto_nombre: Option<String>,
    pub contacto_apellido: Option<String>,
    pub contacto_celular: Option<String>,
    pub contacto_email: Option<String>,
    pub notas: Option<String>,
    pub created_at: u64,
    pub updated_at: u64,
}

pub struct TenantRow {
    pub id: String,
    pub nombre: String,
    pub apellido: String,
    pub cedula: Option<String>,
    pub email: Option<String>,
    pub telefono: Option<String>,
    pub tipo: OccupancyKind,
    pub activo: bool,
    pub fecha_ingreso: u64,
    pub fecha_salida: Option<u64>,
    pub notas: Option<String>,
    pub created_at: u64,
    pub updated_at: u64,
    pub apartamento_id: Option<String>,
}

pub struct BankAccountRow {
    pub id: String,
    pub banco: String,
    pub tipo_cuenta: String,
    pub numero_cuenta: String,
    pub titular: Option<String>,
    pub saldo_inicial: i64,
    pub activa: bool,
    pub por_defecto: bool,
    pub created_at: u64,
    pub updated_at: u64,
}

pub struct ServiceTypeRow {
    pub id: String,
    pub codigo: String,
    pub nombre: String,
    pub color: String,
    pub orden: i64,
    pub activo: bool,
    pub created_at: u64,
    pub updated_at: u64,
}

pub struct ServiceRow {
    pub id: String,
    pub tipo: String,
    pub nombre: String,
    pub celular: Option<String>,
    pub email: Option<String>,
    pub banco: Option<String>,
    pub numero_cuenta: Option<String>,
    pub observaciones: Option<String>,
    pub activo: bool,
    pub created_at: u64,
    pub updated_at: u64,
}

pub struct TransactionRow {
    pub id: String,
    pub tipo: TransactionKind,
    pub monto: i64,
    pub fecha: u64,
    pub categoria: Option<Category>,
    pub descripcion: Option<String>,
    pub referencia: Option<String>,
    pub metodo_pago: PaymentMethod,
    pub notas: Option<String>,
    pub estado_credito: Option<CreditState>,
    pub monto_pagado: i64,
    pub clasificacion_pago: Option<PaymentClass>,
    pub monto_gasto_comun: Option<i64>,
    pub monto_fondo_reserva: Option<i64>,
    pub created_at: u64,
    pub updated_at: u64,
    pub apartamento_id: Option<String>,
}

pub struct MovementRow {
    pub id: String,
    pub tipo: MovementKind,
    pub monto: i64,
    pub fecha: u64,
    pub descripcion: String,
    pub referencia: Option<String>,
    pub numero_documento: Option<String>,
    pub archivo_url: Option<String>,
    pub clasificacion: Option<MovementClass>,
    pub conciliado: bool,
    pub created_at: u64,
    pub updated_at: u64,
    pub cuenta_bancaria_id: String,
    pub transaccion_id: Option<String>,
    pub servicio_id: Option<String>,
}

pub struct LogRow {
    pub id: String,
    pub fecha: u64,
    pub tipo: LogKind,
    pub detalle: String,
    pub observaciones: Option<String>,
    pub situacion: LogStatus,
    pub created_at: u64,
    pub updated_at: u64,
}

pub struct NoticeRow {
    pub id: String,
    pub texto: String,
    pub orden: i64,
    pub mes: i64,
    pub anio: i64,
    pub activo: bool,
    pub created_at: u64,
    pub updated_at: u64,
}

pub struct SettingRow {
    pub id: String,
    pub clave: String,
    pub valor: String,
    pub created_at: u64,
    pub updated_at: u64,
}

/// The data store: one row list per entity table.
pub struct DataStore {
    pub apartments: Vec<ApartmentRow>,
    pub tenants: Vec<TenantRow>,
    pub accounts: Vec<BankAccountRow>,
    pub service_types: Vec<ServiceTypeRow>,
    pub services: Vec<ServiceRow>,
    pub transactions: Vec<TransactionRow>,
    pub movements: Vec<MovementRow>,
    pub logs: Vec<LogRow>,
    pub notices: Vec<NoticeRow>,
    pub settings: Vec<SettingRow>,
}

pub open spec fn amount_ok(a: int) -> bool {
    0 <= a <= MAX_AMOUNT
}

/// The repayment state a credit sale must carry, derived from its paid
/// amount: nothing paid is pending, a part is partial, the full amount
/// (or more) is paid.
pub open spec fn derived_credit_state(monto: int, pagado: int) -> CreditState {
    if pagado <= 0 {
        CreditState::Pending
    } else if pagado < monto {
        CreditState::Partial
    } else {
        CreditState::Paid
    }
}

/// Credit-payment consistency: only a credit sale carries repayment
/// bookkeeping; its paid amount never exceeds its total and its state
/// is exactly the derived one.
pub open spec fn txn_credit_ok(t: TransactionRow) -> bool {
    if t.tipo == TransactionKind::CreditSale {
        &&& 0 <= t.monto_pagado <= t.monto
        &&& t.estado_credito == Some(derived_credit_state(t.monto as int, t.monto_pagado as int))
    } else {
        t.estado_credito is None && t.monto_pagado == 0
    }
}

/// Split allocation: a mixed transaction's two split amounts are set,
/// non-negative, and sum exactly to its total; any other transaction
/// leaves them unset.
pub open spec fn txn_split_ok(t: TransactionRow) -> bool {
    if t.clasificacion_pago == Some(PaymentClass::Mixed) {
        &&& t.monto_gasto_comun matches Some(g) && g >= 0
        &&& t.monto_fondo_reserva matches Some(f) && f >= 0
        &&& t.monto_gasto_comun matches Some(g) && t.monto_fondo_reserva matches Some(f) && g + f
            == t.monto
    } else {
        t.monto_gasto_comun is None && t.monto_fondo_reserva is None
    }
}

pub open spec fn apt_id_taken(apts: Seq<ApartmentRow>, id: Seq<char>) -> bool {
    exists|i: int| 0 <= i < apts.len() && apts[i].id@ == id
}

pub open spec fn apt_pair_taken(apts: Seq<ApartmentRow>, numero: Seq<char>, k: OccupancyKind) -> bool {
    exists|i: int| 0 <= i < apts.len() && apts[i].numero@ == numero && apts[i].tipo_ocupacion == k
}

pub open spec fn tenant_id_taken(ts: Seq<TenantRow>, id: Seq<char>) -> bool {
    exists|i: int| 0 <= i < ts.len() && ts[i].id@ == id
}

pub open spec fn cedula_taken(ts: Seq<TenantRow>, c: Seq<char>) -> bool {
    exists|i: int| 0 <= i < ts.len() && ((#[trigger] ts[i]).cedula matches Some(x) && x@ == c)
}

pub open spec fn account_id_taken(accs: Seq<BankAccountRow>, id: Seq<char>) -> bool {
    exists|i: int| 0 <= i < accs.len() && accs[i].id@ == id
}

pub open spec fn any_default(accs: Seq<BankAccountRow>) -> bool {
    exists|i: int| 0 <= i < accs.len() && accs[i].por_defecto
}

pub open spec fn service_type_id_taken(sts: Seq<ServiceTypeRow>, id: Seq<char>) -> bool {
    exists|i: int| 0 <= i < sts.len() && sts[i].id@ == id
}

pub open spec fn codigo_taken(sts: Seq<ServiceTypeRow>, c: Seq<char>) -> bool {
    exists|i: int| 0 <= i < sts.len() && sts[i].codigo@ == c
}

pub open spec fn service_id_taken(svcs: Seq<ServiceRow>, id: Seq<char>) -> bool {
    exists|i: int| 0 <= i < svcs.len() && svcs[i].id@ == id
}

pub open spec fn txn_id_taken(ts: Seq<TransactionRow>, id: Seq<char>) -> bool {
    exists|i: int| 0 <= i < ts.len() && ts[i].id@ == id
}

pub open spec fn movement_id_taken(ms: Seq<MovementRow>, id: Seq<char>) -> bool {
    exists|i: int| 0 <= i < ms.len() && ms[i].id@ == id
}

pub open spec fn movement_for_txn(ms: Seq<MovementRow>, tid: Seq<char>) -> bool {
    exists|i: int|
        0 <= i < ms.len() && ((#[trigger] ms[i]).transaccion_id matches Some(x) && x@ == tid)
}

pub open spec fn log_id_taken(ls: Seq<LogRow>, id: Seq<char>) -> bool {
    exists|i: int| 0 <= i < ls.len() && ls[i].id@ == id
}

pub open spec fn notice_id_taken(ns: Seq<NoticeRow>, id: Seq<char>) -> bool {
    exists|i: int| 0 <= i < ns.len() && ns[i].id@ == id
}

pub open spec fn setting_id_taken(ss: Seq<SettingRow>, id: Seq<char>) -> bool {
    exists|i: int| 0 <= i < ss.len() && ss[i].id@ == id
}

pub open spec fn clave_taken(ss: Seq<SettingRow>, c: Seq<char>) -> bool {
    exists|i: int| 0 <= i < ss.len() && ss[i].clave@ == c
}

pub open spec fn apartments_ok(apts: Seq<ApartmentRow>) -> bool {
    forall|i: int, j: int|
        0 <= i < j < apts.len() ==> (#[trigger] apts[i]).id@ != (#[trigger] apts[j]).id@ && !(
        apts[i].numero@ == apts[j].numero@ && apts[i].tipo_ocupacion == apts[j].tipo_ocupacion)
}

pub open spec fn tenants_ok(ts: Seq<TenantRow>, apts: Seq<ApartmentRow>) -> bool {
    &&& forall|i: int, j: int|
        0 <= i < j < ts.len() ==> (#[trigger] ts[i]).id@ != (#[trigger] ts[j]).id@ && !(
        ts[i].cedula matches Some(a) && ts[j].cedula matches Some(b) && a@ == b@)
    &&& forall|i: int|
        0 <= i < ts.len() ==> ((#[trigger] ts[i]).apartamento_id matches Some(a) ==> apt_id_taken(
            apts,
            a@,
        ))
}

pub open spec fn accounts_ok(accs: Seq<BankAccountRow>) -> bool {
    &&& forall|i: int, j: int|
        0 <= i < j < accs.len() ==> (#[trigger] accs[i]).id@ != (#[trigger] accs[j]).id@
    &&& forall|i: int, j: int|
        0 <= i < j < accs.len() ==> !((#[trigger] accs[i]).por_defecto && (
        #[trigger] accs[j]).por_defecto)
}

pub open spec fn service_types_ok(sts: Seq<ServiceTypeRow>) -> bool {
    forall|i: int, j: int|
        0 <= i < j < sts.len() ==> (#[trigger] sts[i]).id@ != (#[trigger] sts[j]).id@ && sts[i].codigo@
            != sts[j].codigo@
}

pub open spec fn services_ok(svcs: Seq<ServiceRow>) -> bool {
    forall|i: int, j: int|
        0 <= i < j < svcs.len() ==> (#[trigger] svcs[i]).id@ != (#[trigger] svcs[j]).id@
}

/// Validity of one transaction row: amounts in range, credit
/// bookkeeping consistent, split allocation consistent.
pub open spec fn txn_row_ok(t: TransactionRow) -> bool {
    &&& amount_ok(t.monto as int)
    &&& amount_ok(t.monto_pagado as int)
    &&& (t.monto_gasto_comun matches Some(g) ==> amount_ok(g as int))
    &&& (t.monto_fondo_reserva matches Some(f) ==> amount_ok(f as int))
    &&& txn_credit_ok(t)
    &&& txn_split_ok(t)
}

pub open spec fn transactions_ok(ts: Seq<TransactionRow>, apts: Seq<ApartmentRow>) -> bool {
    &&& forall|i: int, j: int|
        0 <= i < j < ts.len() ==> (#[trigger] ts[i]).id@ != (#[trigger] ts[j]).id@
    &&& forall|i: int| 0 <= i < ts.len() ==> txn_row_ok(#[trigger] ts[i])
    &&& forall|i: int|
        0 <= i < ts.len() ==> ((#[trigger] ts[i]).apartamento_id matches Some(a) ==> apt_id_taken(
            apts,
            a@,
        ))
}

pub open spec fn movements_ok(
    ms: Seq<MovementRow>,
    accs: Seq<BankAccountRow>,
    ts: Seq<TransactionRow>,
    svcs: Seq<ServiceRow>,
) -> bool {
    &&& forall|i: int, j: int|
        0 <= i < j < ms.len() ==> (#[trigger] ms[i]).id@ != (#[trigger] ms[j]).id@ && !(
        ms[i].transaccion_id matches Some(a) && ms[j].transaccion_id matches Some(b) && a@ == b@)
    &&& forall|i: int|
        0 <= i < ms.len() ==> amount_ok((#[trigger] ms[i]).monto as int) && account_id_taken(
            accs,
            ms[i].cuenta_bancaria_id@,
        )
    &&& forall|i: int|
        0 <= i < ms.len() ==> ((#[trigger] ms[i]).transaccion_id matches Some(t) ==> txn_id_taken(
            ts,
            t@,
        ))
    &&& forall|i: int|
        0 <= i < ms.len() ==> ((#[trigger] ms[i]).servicio_id matches Some(v) ==> service_id_taken(
            svcs,
            v@,
        ))
}

pub open spec fn logs_ok(ls: Seq<LogRow>) -> bool {
    forall|i: int, j: int| 0 <= i < j < ls.len() ==> (#[trigger] ls[i]).id@ != (#[trigger] ls[j]).id@
}

pub open spec fn notices_ok(ns: Seq<NoticeRow>) -> bool {
    forall|i: int, j: int| 0 <= i < j < ns.len() ==> (#[trigger] ns[i]).id@ != (#[trigger] ns[j]).id@
}

pub open spec fn settings_ok(ss: Seq<SettingRow>) -> bool {
    forall|i: int, j: int|
        0 <= i < j < ss.len() ==> (#[trigger] ss[i]).id@ != (#[trigger] ss[j]).id@ && ss[i].clave@
            != ss[j].clave@
}

/// Every declared rule of the invariant layer, over the whole store.
/// `DataStore::new` establishes it and every write operation preserves
/// it.
pub open spec fn wf_data(d: DataStore) -> bool {
    &&& apartments_ok(d.apartments@)
    &&& tenants_ok(d.tenants@, d.apartments@)
    &&& accounts_ok(d.accounts@)
    &&& service_types_ok(d.service_types@)
    &&& services_ok(d.services@)
    &&& transactions_ok(d.transactions@, d.apartments@)
    &&& movements_ok(d.movements@, d.accounts@, d.transactions@, d.services@)
    &&& logs_ok(d.logs@)
    &&& notices_ok(d.notices@)
    &&& settings_ok(d.settings@)
}

impl DataStore {
    /// An empty store, as the migration runner leaves a fresh one.
    pub fn new() -> (d: DataStore)
        ensures
            wf_data(d),
            d.apartments@.len() == 0,
            d.tenants@.len() == 0,
            d.accounts@.len() == 0,
            d.service_types@.len() == 0,
            d.services@.len() == 0,
            d.transactions@.len() == 0,
            d.movements@.len() == 0,
            d.logs@.len() == 0,
            d.notices@.len() == 0,
            d.settings@.len() == 0,
    {
        DataStore {
            apartments: Vec::new(),
            tenants: Vec::new(),
            accounts: Vec::new(),
            service_types: Vec::new(),
            services: Vec::new(),
            transactions: Vec::new(),
            movements: Vec::new(),
            logs: Vec::new(),
            notices: Vec::new(),
            settings: Vec::new(),
        }
    }
}

} // verus!
