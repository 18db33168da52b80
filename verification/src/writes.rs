//! Write operations of the invariant layer. Every operation decides,
//! before touching the store, whether the write would break a declared
//! rule; the spec functions named `*_check` say exactly which error a
//! write earns, and each operation either performs the whole write or
//! leaves the store untouched. All operations preserve `wf_data`.

use vstd::prelude::*;
use crate::domain::CreditState;
use crate::domain::OccupancyKind;
use crate::domain::PaymentClass;
use crate::domain::TransactionKind;
use crate::records::ApartmentRow;
use crate::records::BankAccountRow;
use crate::records::DataStore;
use crate::records::LogRow;
use crate::records::MovementRow;
use crate::records::NoticeRow;
use crate::records::RuleId;
use crate::records::ServiceRow;
use crate::records::ServiceTypeRow;
use crate::records::SettingRow;
use crate::records::TenantRow;
use crate::records::TransactionRow;
use crate::records::WriteError;
use crate::records::MAX_AMOUNT;
use crate::records::account_id_taken;
use crate::records::amount_ok;
use crate::records::any_default;
use crate::records::apt_id_taken;
use crate::records::apt_pair_taken;
use crate::records::cedula_taken;
use crate::records::clave_taken;
use crate::records::codigo_taken;
use crate::records::derived_credit_state;
use crate::records::log_id_taken;
use crate::records::movement_for_txn;
use crate::records::movement_id_taken;
use crate::records::notice_id_taken;
use crate::records::service_id_taken;
use crate::records::service_type_id_taken;
use crate::records::setting_id_taken;
use crate::records::tenant_id_taken;
use crate::records::txn_id_taken;
use crate::records::txn_row_ok;
use crate::records::wf_data;

verus! {

/// Every table but the apartments is untouched.
pub open spec fn same_but_apartments(a: DataStore, b: DataStore) -> bool {
    &&& a.tenants@ == b.tenants@
    &&& a.accounts@ == b.accounts@
    &&& a.service_types@ == b.service_types@
    &&& a.services@ == b.services@
    &&& a.transactions@ == b.transactions@
    &&& a.movements@ == b.movements@
    &&& a.logs@ == b.logs@
    &&& a.notices@ == b.notices@
    &&& a.settings@ == b.settings@
}

/// Every table but the tenants is untouched.
pub open spec fn same_but_tenants(a: DataStore, b: DataStore) -> bool {
    &&& a.apartments@ == b.apartments@
    &&& a.accounts@ == b.accounts@
    &&& a.service_types@ == b.service_types@
    &&& a.services@ == b.services@
    &&& a.transactions@ == b.transactions@
    &&& a.movements@ == b.movements@
    &&& a.logs@ == b.logs@
    &&& a.notices@ == b.notices@
    &&& a.settings@ == b.settings@
}

/// Every table but the bank accounts is untouched.
pub open spec fn same_but_accounts(a: DataStore, b: DataStore) -> bool {
    &&& a.apartments@ == b.apartments@
    &&& a.tenants@ == b.tenants@
    &&& a.service_types@ == b.service_types@
    &&& a.services@ == b.services@
    &&& a.transactions@ == b.transactions@
    &&& a.movements@ == b.movements@
    &&& a.logs@ == b.logs@
    &&& a.notices@ == b.notices@
    &&& a.settings@ == b.settings@
}

/// Every table but the service types is untouched.
pub open spec fn same_but_service_types(a: DataStore, b: DataStore) -> bool {
    &&& a.apartments@ == b.apartments@
    &&& a.tenants@ == b.tenants@
    &&& a.accounts@ == b.accounts@
    &&& a.services@ == b.services@
    &&& a.transactions@ == b.transactions@
    &&& a.movements@ == b.movements@
    &&& a.logs@ == b.logs@
    &&& a.notices@ == b.notices@
    &&& a.settings@ == b.settings@
}

/// Every table but the services is untouched.
pub open spec fn same_but_services(a: DataStore, b: DataStore) -> bool {
    &&& a.apartments@ == b.apartments@
    &&& a.tenants@ == b.tenants@
    &&& a.accounts@ == b.accounts@
    &&& a.service_types@ == b.service_types@
    &&& a.transactions@ == b.transactions@
    &&& a.movements@ == b.movements@
    &&& a.logs@ == b.logs@
    &&& a.notices@ == b.notices@
    &&& a.settings@ == b.settings@
}

/// Every table but the transactions is untouched.
pub open spec fn same_but_transactions(a: DataStore, b: DataStore) -> bool {
    &&& a.apartments@ == b.apartments@
    &&& a.tenants@ == b.tenants@
    &&& a.accounts@ == b.accounts@
    &&& a.service_types@ == b.service_types@
    &&& a.services@ == b.services@
    &&& a.movements@ == b.movements@
    &&& a.logs@ == b.logs@
    &&& a.notices@ == b.notices@
    &&& a.settings@ == b.settings@
}

/// Every table but the bank movements is untouched.
pub open spec fn same_but_movements(a: DataStore, b: DataStore) -> bool {
    &&& a.apartments@ == b.apartments@
    &&& a.tenants@ == b.tenants@
    &&& a.accounts@ == b.accounts@
    &&& a.service_types@ == b.service_types@
    &&& a.services@ == b.services@
    &&& a.transactions@ == b.transactions@
    &&& a.logs@ == b.logs@
    &&& a.notices@ == b.notices@
    &&& a.settings@ == b.settings@
}

/// Every table but the operational log is untouched.
pub open spec fn same_but_logs(a: DataStore, b: DataStore) -> bool {
    &&& a.apartments@ == b.apartments@
    &&& a.tenants@ == b.tenants@
    &&& a.accounts@ == b.accounts@
    &&& a.service_types@ == b.service_types@
    &&& a.services@ == b.services@
    &&& a.transactions@ == b.transactions@
    &&& a.movements@ == b.movements@
    &&& a.notices@ == b.notices@
    &&& a.settings@ == b.settings@
}

/// Every table but the report notices is untouched.
pub open spec fn same_but_notices(a: DataStore, b: DataStore) -> bool {
    &&& a.apartments@ == b.apartments@
    &&& a.tenants@ == b.tenants@
    &&& a.accounts@ == b.accounts@
    &&& a.service_types@ == b.service_types@
    &&& a.services@ == b.services@
    &&& a.transactions@ == b.transactions@
    &&& a.movements@ == b.movements@
    &&& a.logs@ == b.logs@
    &&& a.settings@ == b.settings@
}

/// Every table but the report settings is untouched.
pub open spec fn same_but_settings(a: DataStore, b: DataStore) -> bool {
    &&& a.apartments@ == b.apartments@
    &&& a.tenants@ == b.tenants@
    &&& a.accounts@ == b.accounts@
    &&& a.service_types@ == b.service_types@
    &&& a.services@ == b.services@
    &&& a.transactions@ == b.transactions@
    &&& a.movements@ == b.movements@
    &&& a.logs@ == b.logs@
    &&& a.notices@ == b.notices@
}

fn apt_has_id(apts: &Vec<ApartmentRow>, id: &String) -> (b: bool)
    ensures
        b == apt_id_taken(apts@, id@),
{
    let mut i: usize = 0;
    while i < apts.len()
        invariant
            0 <= i <= apts@.len(),
            forall|j: int| 0 <= j < i ==> (#[trigger] apts@[j]).id@ != id@,
        decreases apts@.len() - i,
    {
        if apts[i].id == *id {
            return true;
        }
        i = i + 1;
    }
    false
}

fn apt_has_pair(apts: &Vec<ApartmentRow>, numero: &String, k: OccupancyKind) -> (b: bool)
    ensures
        b == apt_pair_taken(apts@, numero@, k),
{
    let mut i: usize = 0;
    while i < apts.len()
        invariant
            0 <= i <= apts@.len(),
            forall|j: int|
                0 <= j < i ==> !((#[trigger] apts@[j]).numero@ == numero@ && apts@[j].tipo_ocupacion
                    == k),
        decreases apts@.len() - i,
    {
        if apts[i].numero == *numero && apts[i].tipo_ocupacion == k {
            return true;
        }
        i = i + 1;
    }
    false
}

fn tenant_has_id(ts: &Vec<TenantRow>, id: &String) -> (b: bool)
    ensures
        b == tenant_id_taken(ts@, id@),
{
    let mut i: usize = 0;
    while i < ts.len()
        invariant
            0 <= i <= ts@.len(),
            forall|j: int| 0 <= j < i ==> (#[trigger] ts@[j]).id@ != id@,
        decreases ts@.len() - i,
    {
        if ts[i].id == *id {
            return true;
        }
        i = i + 1;
    }
    false
}

fn tenant_has_cedula(ts: &Vec<TenantRow>, c: &String) -> (b: bool)
    ensures
        b == cedula_taken(ts@, c@),
{
    let mut i: usize = 0;
    while i < ts.len()
        invariant
            0 <= i <= ts@.len(),
            forall|j: int|
                0 <= j < i ==> !((#[trigger] ts@[j]).cedula matches Some(x) && x@ == c@),
        decreases ts@.len() - i,
    {
        match &ts[i].cedula {
            Some(x) => {
                if *x == *c {
                    return true;
                }
            },
            None => {},
        }
        i = i + 1;
    }
    false
}

fn account_has_id(accs: &Vec<BankAccountRow>, id: &String) -> (b: bool)
    ensures
        b == account_id_taken(accs@, id@),
{
    let mut i: usize = 0;
    while i < accs.len()
        invariant
            0 <= i <= accs@.len(),
            forall|j: int| 0 <= j < i ==> (#[trigger] accs@[j]).id@ != id@,
        decreases accs@.len() - i,
    {
        if accs[i].id == *id {
            return true;
        }
        i = i + 1;
    }
    false
}

fn accounts_have_default(accs: &Vec<BankAccountRow>) -> (b: bool)
    ensures
        b == any_default(accs@),
{
    let mut i: usize = 0;
    while i < accs.len()
        invariant
            0 <= i <= accs@.len(),
            forall|j: int| 0 <= j < i ==> !(#[trigger] accs@[j]).por_defecto,
        decreases accs@.len() - i,
    {
        if accs[i].por_defecto {
            return true;
        }
        i = i + 1;
    }
    false
}

fn service_type_has_id(sts: &Vec<ServiceTypeRow>, id: &String) -> (b: bool)
    ensures
        b == service_type_id_taken(sts@, id@),
{
    let mut i: usize = 0;
    while i < sts.len()
        invariant
            0 <= i <= sts@.len(),
            forall|j: int| 0 <= j < i ==> (#[trigger] sts@[j]).id@ != id@,
        decreases sts@.len() - i,
    {
        if sts[i].id == *id {
            return true;
        }
        i = i + 1;
    }
    false
}

fn service_type_has_codigo(sts: &Vec<ServiceTypeRow>, c: &String) -> (b: bool)
    ensures
        b == codigo_taken(sts@, c@),
{
    let mut i: usize = 0;
    while i < sts.len()
        invariant
            0 <= i <= sts@.len(),
            forall|j: int| 0 <= j < i ==> (#[trigger] sts@[j]).codigo@ != c@,
        decreases sts@.len() - i,
    {
        if sts[i].codigo == *c {
            return true;
        }
        i = i + 1;
    }
    false
}

fn service_has_id(svcs: &Vec<ServiceRow>, id: &String) -> (b: bool)
    ensures
        b == service_id_taken(svcs@, id@),
{
    let mut i: usize = 0;
    while i < svcs.len()
        invariant
            0 <= i <= svcs@.len(),
            forall|j: int| 0 <= j < i ==> (#[trigger] svcs@[j]).id@ != id@,
        decreases svcs@.len() - i,
    {
        if svcs[i].id == *id {
            return true;
        }
        i = i + 1;
    }
    false
}

fn txn_has_id(ts: &Vec<TransactionRow>, id: &String) -> (b: bool)
    ensures
        b == txn_id_taken(ts@, id@),
{
    let mut i: usize = 0;
    while i < ts.len()
        invariant
            0 <= i <= ts@.len(),
            forall|j: int| 0 <= j < i ==> (#[trigger] ts@[j]).id@ != id@,
        decreases ts@.len() - i,
    {
        if ts[i].id == *id {
            return true;
        }
        i = i + 1;
    }
    false
}

fn movement_has_id(ms: &Vec<MovementRow>, id: &String) -> (b: bool)
    ensures
        b == movement_id_taken(ms@, id@),
{
    let mut i: usize = 0;
    while i < ms.len()
        invariant
            0 <= i <= ms@.len(),
            forall|j: int| 0 <= j < i ==> (#[trigger] ms@[j]).id@ != id@,
        decreases ms@.len() - i,
    {
        if ms[i].id == *id {
            return true;
        }
        i = i + 1;
    }
    false
}

fn movement_exists_for_txn(ms: &Vec<MovementRow>, tid: &String) -> (b: bool)
    ensures
        b == movement_for_txn(ms@, tid@),
{
    let mut i: usize = 0;
    while i < ms.len()
        invariant
            0 <= i <= ms@.len(),
            forall|j: int|
                0 <= j < i ==> !((#[trigger] ms@[j]).transaccion_id matches Some(x) && x@ == tid@),
        decreases ms@.len() - i,
    {
        match &ms[i].transaccion_id {
            Some(x) => {
                if *x == *tid {
                    return true;
                }
            },
            None => {},
        }
        i = i + 1;
    }
    false
}

fn log_has_id(ls: &Vec<LogRow>, id: &String) -> (b: bool)
    ensures
        b == log_id_taken(ls@, id@),
{
    let mut i: usize = 0;
    while i < ls.len()
        invariant
            0 <= i <= ls@.len(),
            forall|j: int| 0 <= j < i ==> (#[trigger] ls@[j]).id@ != id@,
        decreases ls@.len() - i,
    {
        if ls[i].id == *id {
            return true;
        }
        i = i + 1;
    }
    false
}

fn notice_has_id(ns: &Vec<NoticeRow>, id: &String) -> (b: bool)
    ensures
        b == notice_id_taken(ns@, id@),
{
    let mut i: usize = 0;
    while i < ns.len()
        invariant
            0 <= i <= ns@.len(),
            forall|j: int| 0 <= j < i ==> (#[trigger] ns@[j]).id@ != id@,
        decreases ns@.len() - i,
    {
        if ns[i].id == *id {
            return true;
        }
        i = i + 1;
    }
    false
}

fn setting_has_id(ss: &Vec<SettingRow>, id: &String) -> (b: bool)
    ensures
        b == setting_id_taken(ss@, id@),
{
    let mut i: usize = 0;
    while i < ss.len()
        invariant
            0 <= i <= ss@.len(),
            forall|j: int| 0 <= j < i ==> (#[trigger] ss@[j]).id@ != id@,
        decreases ss@.len() - i,
    {
        if ss[i].id == *id {
            return true;
        }
        i = i + 1;
    }
    false
}

fn setting_has_clave(ss: &Vec<SettingRow>, c: &String) -> (b: bool)
    ensures
        b == clave_taken(ss@, c@),
{
    let mut i: usize = 0;
    while i < ss.len()
        invariant
            0 <= i <= ss@.len(),
            forall|j: int| 0 <= j < i ==> (#[trigger] ss@[j]).clave@ != c@,
        decreases ss@.len() - i,
    {
        if ss[i].clave == *c {
            return true;
        }
        i = i + 1;
    }
    false
}

fn txn_index_of(ts: &Vec<TransactionRow>, id: &String) -> (r: Option<usize>)
    ensures
        match r {
            Some(i) => 0 <= i < ts@.len() && ts@[i as int].id@ == id@,
            None => !txn_id_taken(ts@, id@),
        },
{
    let mut i: usize = 0;
    while i < ts.len()
        invariant
            0 <= i <= ts@.len(),
            forall|j: int| 0 <= j < i ==> (#[trigger] ts@[j]).id@ != id@,
        decreases ts@.len() - i,
    {
        if ts[i].id == *id {
            return Some(i);
        }
        i = i + 1;
    }
    None
}

/// The split-allocation rule on one transaction: a mixed transaction
/// carries both split amounts, in range, summing exactly to its total;
/// any other transaction leaves both unset.
pub open spec fn split_check(row: TransactionRow) -> Option<WriteError> {
    if row.clasificacion_pago == Some(PaymentClass::Mixed) {
        match (row.monto_gasto_comun, row.monto_fondo_reserva) {
            (Some(g), Some(f)) => if amount_ok(g as int) && amount_ok(f as int) && g + f
                == row.monto {
                None
            } else {
                Some(WriteError::ValidationError(RuleId::SplitSum))
            },
            _ => Some(WriteError::ValidationError(RuleId::SplitSum)),
        }
    } else {
        if row.monto_gasto_comun is None && row.monto_fondo_reserva is None {
            None
        } else {
            Some(WriteError::ValidationError(RuleId::SplitFieldsUnset))
        }
    }
}

/// The outcome of inserting a transaction: a taken identifier, an
/// out-of-range amount, repayment bookkeeping supplied by hand, a
/// broken split rule, or a dangling apartment reference is rejected.
pub open spec fn transaction_insert_check(d: DataStore, row: TransactionRow) -> Option<
    WriteError,
> {
    if txn_id_taken(d.transactions@, row.id@) {
        Some(WriteError::ConstraintViolation(RuleId::DuplicateId))
    } else if !amount_ok(row.monto as int) {
        Some(WriteError::ValidationError(RuleId::AmountRange))
    } else if !(row.estado_credito is None && row.monto_pagado == 0) {
        Some(WriteError::ValidationError(RuleId::CreditStateConsistency))
    } else if split_check(row) is Some {
        split_check(row)
    } else if row.apartamento_id matches Some(a) && !apt_id_taken(d.apartments@, a@) {
        Some(WriteError::ConstraintViolation(RuleId::UnknownApartment))
    } else {
        None
    }
}

/// The transaction as stored: instants stamped; a credit sale starts
/// its repayment bookkeeping pending with nothing paid, any other kind
/// carries none.
pub open spec fn stamped_transaction(row: TransactionRow, now: u64) -> TransactionRow {
    TransactionRow {
        estado_credito: if row.tipo == TransactionKind::CreditSale {
            Some(CreditState::Pending)
        } else {
            None
        },
        monto_pagado: 0,
        created_at: now,
        updated_at: now,
        ..row
    }
}

/// A credit sale after a payment update: the paid amount is capped at
/// the transaction's total, and the credit state is the one derived
/// from the capped amount.
pub open spec fn credit_paid(t: TransactionRow, pagado: i64, now: u64) -> TransactionRow {
    let capped: i64 = if pagado > t.monto {
        t.monto
    } else {
        pagado
    };
    TransactionRow {
        monto_pagado: capped,
        estado_credito: Some(derived_credit_state(t.monto as int, capped as int)),
        updated_at: now,
        ..t
    }
}

/// The outcome of inserting a bank movement: a taken identifier, an
/// out-of-range amount, a dangling account, transaction or service
/// reference, or a second movement for one transaction is rejected.
pub open spec fn movement_insert_check(d: DataStore, row: MovementRow) -> Option<WriteError> {
    if movement_id_taken(d.movements@, row.id@) {
        Some(WriteError::ConstraintViolation(RuleId::DuplicateId))
    } else if !amount_ok(row.monto as int) {
        Some(WriteError::ValidationError(RuleId::AmountRange))
    } else if !account_id_taken(d.accounts@, row.cuenta_bancaria_id@) {
        Some(WriteError::ConstraintViolation(RuleId::UnknownAccount))
    } else if row.transaccion_id matches Some(t) && !txn_id_taken(d.transactions@, t@) {
        Some(WriteError::ConstraintViolation(RuleId::UnknownTransaction))
    } else if row.transaccion_id matches Some(t) && movement_for_txn(d.movements@, t@) {
        Some(WriteError::ConstraintViolation(RuleId::OneMovementPerTransaction))
    } else if row.servicio_id matches Some(v) && !service_id_taken(d.services@, v@) {
        Some(WriteError::ConstraintViolation(RuleId::UnknownService))
    } else {
        None
    }
}

pub open spec fn stamped_movement(row: MovementRow, now: u64) -> MovementRow {
    MovementRow { created_at: now, updated_at: now, ..row }
}

/// A bank account after a default-marker update: the named account
/// carries the marker, an account that carried it loses it, everything
/// else is untouched.
pub open spec fn defaulted_account(a: BankAccountRow, id: Seq<char>, now: u64) -> BankAccountRow {
    if a.id@ == id {
        BankAccountRow { por_defecto: true, updated_at: now, ..a }
    } else if a.por_defecto {
        BankAccountRow { por_defecto: false, updated_at: now, ..a }
    } else {
        a
    }
}

fn set_default_flags(accs: &mut Vec<BankAccountRow>, id: &String, now: u64)
    ensures
        final(accs)@.len() == old(accs)@.len(),
        forall|i: int|
            0 <= i < old(accs)@.len() ==> final(accs)@[i] == defaulted_account(
                #[trigger] old(accs)@[i],
                id@,
                now,
            ),
{
    let mut out: Vec<BankAccountRow> = Vec::new();
    while accs.len() > 0
        invariant
            out@.len() + accs@.len() == old(accs)@.len(),
            accs@ == old(accs)@.skip(out@.len() as int),
            forall|i: int|
                0 <= i < out@.len() ==> out@[i] == defaulted_account(
                    #[trigger] old(accs)@[i],
                    id@,
                    now,
                ),
        decreases accs@.len(),
    {
        let ghost k = out@.len() as int;
        let a = accs.remove(0);
        proof {
            assert(a == old(accs)@[k]);
            assert(accs@ =~= old(accs)@.skip(k + 1));
        }
        if a.id == *id {
            out.push(BankAccountRow { por_defecto: true, updated_at: now, ..a });
        } else if a.por_defecto {
            out.push(BankAccountRow { por_defecto: false, updated_at: now, ..a });
        } else {
            out.push(a);
        }
    }
    *accs = out;
}

fn apt_index_of(apts: &Vec<ApartmentRow>, id: &String) -> (r: Option<usize>)
    ensures
        match r {
            Some(i) => 0 <= i < apts@.len() && apts@[i as int].id@ == id@,
            None => !apt_id_taken(apts@, id@),
        },
{
    let mut i: usize = 0;
    while i < apts.len()
        invariant
            0 <= i <= apts@.len(),
            forall|j: int| 0 <= j < i ==> (#[trigger] apts@[j]).id@ != id@,
        decreases apts@.len() - i,
    {
        if apts[i].id == *id {
            return Some(i);
        }
        i = i + 1;
    }
    None
}

fn account_index_of(accs: &Vec<BankAccountRow>, id: &String) -> (r: Option<usize>)
    ensures
        match r {
            Some(i) => 0 <= i < accs@.len() && accs@[i as int].id@ == id@,
            None => !account_id_taken(accs@, id@),
        },
{
    let mut i: usize = 0;
    while i < accs.len()
        invariant
            0 <= i <= accs@.len(),
            forall|j: int| 0 <= j < i ==> (#[trigger] accs@[j]).id@ != id@,
        decreases accs@.len() - i,
    {
        if accs[i].id == *id {
            return Some(i);
        }
        i = i + 1;
    }
    None
}

fn svc_index_of(svcs: &Vec<ServiceRow>, id: &String) -> (r: Option<usize>)
    ensures
        match r {
            Some(i) => 0 <= i < svcs@.len() && svcs@[i as int].id@ == id@,
            None => !service_id_taken(svcs@, id@),
        },
{
    let mut i: usize = 0;
    while i < svcs.len()
        invariant
            0 <= i <= svcs@.len(),
            forall|j: int| 0 <= j < i ==> (#[trigger] svcs@[j]).id@ != id@,
        decreases svcs@.len() - i,
    {
        if svcs[i].id == *id {
            return Some(i);
        }
        i = i + 1;
    }
    None
}

/// A tenant after an apartment deletion: a reference to the deleted
/// apartment is nulled, everything else is untouched.
pub open spec fn cleared_tenant_apt(t: TenantRow, id: Seq<char>) -> TenantRow {
    if t.apartamento_id matches Some(a) && a@ == id {
        TenantRow { apartamento_id: None, ..t }
    } else {
        t
    }
}

/// A transaction after an apartment deletion: a reference to the
/// deleted apartment is nulled, everything else is untouched.
pub open spec fn cleared_txn_apt(t: TransactionRow, id: Seq<char>) -> TransactionRow {
    if t.apartamento_id matches Some(a) && a@ == id {
        TransactionRow { apartamento_id: None, ..t }
    } else {
        t
    }
}

/// A movement after a transaction deletion: a reference to the deleted
/// transaction is nulled — the movement itself is never deleted.
pub open spec fn cleared_movement_txn(m: MovementRow, id: Seq<char>) -> MovementRow {
    if m.transaccion_id matches Some(t) && t@ == id {
        MovementRow { transaccion_id: None, ..m }
    } else {
        m
    }
}

/// A movement after a service deletion: a reference to the deleted
/// service is nulled.
pub open spec fn cleared_movement_svc(m: MovementRow, id: Seq<char>) -> MovementRow {
    if m.servicio_id matches Some(v) && v@ == id {
        MovementRow { servicio_id: None, ..m }
    } else {
        m
    }
}

/// The movements that survive deleting the account `id`: an account
/// owns its movements, so exactly the lines against other accounts
/// remain, in their original order.
pub open spec fn kept_movements(ms: Seq<MovementRow>, id: Seq<char>) -> Seq<MovementRow>
    decreases ms.len(),
{
    if ms.len() == 0 {
        Seq::empty()
    } else if ms[0].cuenta_bancaria_id@ != id {
        seq![ms[0]] + kept_movements(ms.skip(1), id)
    } else {
        kept_movements(ms.skip(1), id)
    }
}

/// Every surviving movement is one of the original movements.
pub proof fn lemma_kept_movements_element(ms: Seq<MovementRow>, id: Seq<char>, j: int)
    requires
        0 <= j < kept_movements(ms, id).len(),
    ensures
        exists|k: int| 0 <= k < ms.len() && ms[k] == kept_movements(ms, id)[j],
    decreases ms.len(),
{
    let kept = kept_movements(ms, id);
    if ms[0].cuenta_bancaria_id@ != id {
        if j == 0 {
            assert(kept[0] == ms[0]);
        } else {
            lemma_kept_movements_element(ms.skip(1), id, j - 1);
            let k = choose|k: int|
                0 <= k < ms.skip(1).len() && ms.skip(1)[k] == kept_movements(ms.skip(1), id)[j
                    - 1];
            assert(ms[k + 1] == kept[j]);
        }
    } else {
        lemma_kept_movements_element(ms.skip(1), id, j);
        let k = choose|k: int|
            0 <= k < ms.skip(1).len() && ms.skip(1)[k] == kept_movements(ms.skip(1), id)[j];
        assert(ms[k + 1] == kept[j]);
    }
}

/// The cascade keeps the movement rules intact: the surviving lines
/// still satisfy every declared rule, and none of them belongs to the
/// deleted account.
pub proof fn lemma_kept_movements_wf(
    ms: Seq<MovementRow>,
    id: Seq<char>,
    accs: Seq<BankAccountRow>,
    ts: Seq<TransactionRow>,
    svcs: Seq<ServiceRow>,
)
    requires
        crate::records::movements_ok(ms, accs, ts, svcs),
    ensures
        crate::records::movements_ok(kept_movements(ms, id), accs, ts, svcs),
        forall|j: int|
            0 <= j < kept_movements(ms, id).len() ==> (#[trigger] kept_movements(
                ms,
                id,
            )[j]).cuenta_bancaria_id@ != id,
    decreases ms.len(),
{
    if ms.len() == 0 {
    } else {
        let tail = ms.skip(1);
        assert forall|i: int, j: int| 0 <= i < j < tail.len() implies (#[trigger] tail[i]).id@ != (
        #[trigger] tail[j]).id@ && !(tail[i].transaccion_id matches Some(a)
            && tail[j].transaccion_id matches Some(b) && a@ == b@) by {
            assert(tail[i] == ms[i + 1]);
            assert(tail[j] == ms[j + 1]);
        }
        assert forall|i: int|
            0 <= i < tail.len() implies amount_ok((#[trigger] tail[i]).monto as int)
            && account_id_taken(accs, tail[i].cuenta_bancaria_id@) by {
            assert(tail[i] == ms[i + 1]);
        }
        assert forall|i: int|
            0 <= i < tail.len() implies ((#[trigger] tail[i]).transaccion_id matches Some(t)
            ==> txn_id_taken(ts, t@)) by {
            assert(tail[i] == ms[i + 1]);
        }
        assert forall|i: int|
            0 <= i < tail.len() implies ((#[trigger] tail[i]).servicio_id matches Some(v)
            ==> service_id_taken(svcs, v@)) by {
            assert(tail[i] == ms[i + 1]);
        }
        lemma_kept_movements_wf(tail, id, accs, ts, svcs);
        let kt = kept_movements(tail, id);
        let kept = kept_movements(ms, id);
        if ms[0].cuenta_bancaria_id@ != id {
            assert(kept == seq![ms[0]] + kt);
            assert forall|i: int, j: int| 0 <= i < j < kept.len() implies (
            #[trigger] kept[i]).id@ != (#[trigger] kept[j]).id@ && !(
            kept[i].transaccion_id matches Some(a) && kept[j].transaccion_id matches Some(b) && a@
                == b@) by {
                if i == 0 {
                    assert(kept[0] == ms[0]);
                    assert(kept[j] == kt[j - 1]);
                    lemma_kept_movements_element(tail, id, j - 1);
                    let k = choose|k: int| 0 <= k < tail.len() && tail[k] == kt[j - 1];
                    assert(tail[k] == ms[k + 1]);
                } else {
                    assert(kept[i] == kt[i - 1]);
                    assert(kept[j] == kt[j - 1]);
                }
            }
            assert forall|j: int|
                0 <= j < kept.len() implies amount_ok((#[trigger] kept[j]).monto as int)
                && account_id_taken(accs, kept[j].cuenta_bancaria_id@) && (
            kept[j].transaccion_id matches Some(t) ==> txn_id_taken(ts, t@)) && (
            kept[j].servicio_id matches Some(v) ==> service_id_taken(svcs, v@))
                && kept[j].cuenta_bancaria_id@ != id by {
                if j == 0 {
                    assert(kept[0] == ms[0]);
                } else {
                    assert(kept[j] == kt[j - 1]);
                }
            }
        } else {
            assert(kept == kt);
        }
    }
}

fn clear_tenant_apt_refs(ts: &mut Vec<TenantRow>, id: &String)
    ensures
        final(ts)@.len() == old(ts)@.len(),
        forall|i: int|
            0 <= i < old(ts)@.len() ==> final(ts)@[i] == cleared_tenant_apt(
                #[trigger] old(ts)@[i],
                id@,
            ),
{
    let mut out: Vec<TenantRow> = Vec::new();
    while ts.len() > 0
        invariant
            out@.len() + ts@.len() == old(ts)@.len(),
            ts@ == old(ts)@.skip(out@.len() as int),
            forall|i: int|
                0 <= i < out@.len() ==> out@[i] == cleared_tenant_apt(
                    #[trigger] old(ts)@[i],
                    id@,
                ),
        decreases ts@.len(),
    {
        let ghost k = out@.len() as int;
        let t = ts.remove(0);
        proof {
            assert(t == old(ts)@[k]);
            assert(ts@ =~= old(ts)@.skip(k + 1));
        }
        let hit = match &t.apartamento_id {
            Some(a) => *a == *id,
            None => false,
        };
        if hit {
            out.push(TenantRow { apartamento_id: None, ..t });
        } else {
            out.push(t);
        }
    }
    *ts = out;
}

fn clear_txn_apt_refs(ts: &mut Vec<TransactionRow>, id: &String)
    ensures
        final(ts)@.len() == old(ts)@.len(),
        forall|i: int|
            0 <= i < old(ts)@.len() ==> final(ts)@[i] == cleared_txn_apt(
                #[trigger] old(ts)@[i],
                id@,
            ),
{
    let mut out: Vec<TransactionRow> = Vec::new();
    while ts.len() > 0
        invariant
            out@.len() + ts@.len() == old(ts)@.len(),
            ts@ == old(ts)@.skip(out@.len() as int),
            forall|i: int|
                0 <= i < out@.len() ==> out@[i] == cleared_txn_apt(#[trigger] old(ts)@[i], id@),
        decreases ts@.len(),
    {
        let ghost k = out@.len() as int;
        let t = ts.remove(0);
        proof {
            assert(t == old(ts)@[k]);
            assert(ts@ =~= old(ts)@.skip(k + 1));
        }
        let hit = match &t.apartamento_id {
            Some(a) => *a == *id,
            None => false,
        };
        if hit {
            out.push(TransactionRow { apartamento_id: None, ..t });
        } else {
            out.push(t);
        }
    }
    *ts = out;
}

fn clear_movement_txn_refs(ms: &mut Vec<MovementRow>, id: &String)
    ensures
        final(ms)@.len() == old(ms)@.len(),
        forall|i: int|
            0 <= i < old(ms)@.len() ==> final(ms)@[i] == cleared_movement_txn(
                #[trigger] old(ms)@[i],
                id@,
            ),
{
    let mut out: Vec<MovementRow> = Vec::new();
    while ms.len() > 0
        invariant
            out@.len() + ms@.len() == old(ms)@.len(),
            ms@ == old(ms)@.skip(out@.len() as int),
            forall|i: int|
                0 <= i < out@.len() ==> out@[i] == cleared_movement_txn(
                    #[trigger] old(ms)@[i],
                    id@,
                ),
        decreases ms@.len(),
    {
        let ghost k = out@.len() as int;
        let m = ms.remove(0);
        proof {
            assert(m == old(ms)@[k]);
            assert(ms@ =~= old(ms)@.skip(k + 1));
        }
        let hit = match &m.transaccion_id {
            Some(t) => *t == *id,
            None => false,
        };
        if hit {
            out.push(MovementRow { transaccion_id: None, ..m });
        } else {
            out.push(m);
        }
    }
    *ms = out;
}

fn clear_movement_svc_refs(ms: &mut Vec<MovementRow>, id: &String)
    ensures
        final(ms)@.len() == old(ms)@.len(),
        forall|i: int|
            0 <= i < old(ms)@.len() ==> final(ms)@[i] == cleared_movement_svc(
                #[trigger] old(ms)@[i],
                id@,
            ),
{
    let mut out: Vec<MovementRow> = Vec::new();
    while ms.len() > 0
        invariant
            out@.len() + ms@.len() == old(ms)@.len(),
            ms@ == old(ms)@.skip(out@.len() as int),
            forall|i: int|
                0 <= i < out@.len() ==> out@[i] == cleared_movement_svc(
                    #[trigger] old(ms)@[i],
                    id@,
                ),
        decreases ms@.len(),
    {
        let ghost k = out@.len() as int;
        let m = ms.remove(0);
        proof {
            assert(m == old(ms)@[k]);
            assert(ms@ =~= old(ms)@.skip(k + 1));
        }
        let hit = match &m.servicio_id {
            Some(v) => *v == *id,
            None => false,
        };
        if hit {
            out.push(MovementRow { servicio_id: None, ..m });
        } else {
            out.push(m);
        }
    }
    *ms = out;
}

fn cascade_movements(ms: &mut Vec<MovementRow>, id: &String)
    ensures
        final(ms)@ == kept_movements(old(ms)@, id@),
{
    let mut out: Vec<MovementRow> = Vec::new();
    proof {
        assert(kept_movements(old(ms)@, id@) =~= out@ + kept_movements(ms@, id@));
    }
    while ms.len() > 0
        invariant
            kept_movements(old(ms)@, id@) == out@ + kept_movements(ms@, id@),
        decreases ms@.len(),
    {
        let ghost prev = ms@;
        let ghost pout = out@;
        let m = ms.remove(0);
        proof {
            assert(m == prev[0]);
            assert(ms@ =~= prev.skip(1));
        }
        if m.cuenta_bancaria_id == *id {
            proof {
                assert(kept_movements(prev, id@) == kept_movements(prev.skip(1), id@));
            }
        } else {
            proof {
                assert(kept_movements(prev, id@) == seq![prev[0]] + kept_movements(
                    prev.skip(1),
                    id@,
                ));
            }
            out.push(m);
            proof {
                assert(out@ =~= pout + seq![m]);
                assert(pout + (seq![m] + kept_movements(ms@, id@)) =~= (pout + seq![m])
                    + kept_movements(ms@, id@));
            }
        }
    }
    proof {
        assert(out@ + kept_movements(ms@, id@) =~= out@);
    }
    *ms = out;
}

/// The outcome the invariant layer assigns to inserting an apartment.
pub open spec fn apartment_insert_check(d: DataStore, row: ApartmentRow) -> Option<WriteError> {
    if apt_id_taken(d.apartments@, row.id@) {
        Some(WriteError::ConstraintViolation(RuleId::DuplicateId))
    } else if apt_pair_taken(d.apartments@, row.numero@, row.tipo_ocupacion) {
        Some(WriteError::ConstraintViolation(RuleId::ApartmentNumberKind))
    } else {
        None
    }
}

/// The row as stored: creation and update instants stamped to the
/// write's instant.
pub open spec fn stamped_apartment(row: ApartmentRow, now: u64) -> ApartmentRow {
    ApartmentRow { created_at: now, updated_at: now, ..row }
}

/// The outcome of inserting a tenant.
pub open spec fn tenant_insert_check(d: DataStore, row: TenantRow) -> Option<WriteError> {
    if tenant_id_taken(d.tenants@, row.id@) {
        Some(WriteError::ConstraintViolation(RuleId::DuplicateId))
    } else if row.cedula matches Some(c) && cedula_taken(d.tenants@, c@) {
        Some(WriteError::ConstraintViolation(RuleId::TenantNationalId))
    } else if row.apartamento_id matches Some(a) && !apt_id_taken(d.apartments@, a@) {
        Some(WriteError::ConstraintViolation(RuleId::UnknownApartment))
    } else {
        None
    }
}

pub open spec fn stamped_tenant(row: TenantRow, now: u64) -> TenantRow {
    TenantRow { created_at: now, updated_at: now, ..row }
}

/// The outcome of inserting a bank account.
pub open spec fn account_insert_check(d: DataStore, row: BankAccountRow) -> Option<WriteError> {
    if account_id_taken(d.accounts@, row.id@) {
        Some(WriteError::ConstraintViolation(RuleId::DuplicateId))
    } else if row.por_defecto && any_default(d.accounts@) {
        Some(WriteError::ConstraintViolation(RuleId::SingleDefaultAccount))
    } else {
        None
    }
}

pub open spec fn stamped_account(row: BankAccountRow, now: u64) -> BankAccountRow {
    BankAccountRow { created_at: now, updated_at: now, ..row }
}

/// The outcome of inserting a service type.
pub open spec fn service_type_insert_check(d: DataStore, row: ServiceTypeRow) -> Option<
    WriteError,
> {
    if service_type_id_taken(d.service_types@, row.id@) {
        Some(WriteError::ConstraintViolation(RuleId::DuplicateId))
    } else if codigo_taken(d.service_types@, row.codigo@) {
        Some(WriteError::ConstraintViolation(RuleId::ServiceTypeCode))
    } else {
        None
    }
}

pub open spec fn stamped_service_type(row: ServiceTypeRow, now: u64) -> ServiceTypeRow {
    ServiceTypeRow { created_at: now, updated_at: now, ..row }
}

/// The outcome of inserting a service provider.
pub open spec fn service_insert_check(d: DataStore, row: ServiceRow) -> Option<WriteError> {
    if service_id_taken(d.services@, row.id@) {
        Some(WriteError::ConstraintViolation(RuleId::DuplicateId))
    } else {
        None
    }
}

pub open spec fn stamped_service(row: ServiceRow, now: u64) -> ServiceRow {
    ServiceRow { created_at: now, updated_at: now, ..row }
}

/// The outcome of inserting an operational log entry.
pub open spec fn log_insert_check(d: DataStore, row: LogRow) -> Option<WriteError> {
    if log_id_taken(d.logs@, row.id@) {
        Some(WriteError::ConstraintViolation(RuleId::DuplicateId))
    } else {
        None
    }
}

pub open spec fn stamped_log(row: LogRow, now: u64) -> LogRow {
    LogRow { created_at: now, updated_at: now, ..row }
}

/// The outcome of inserting a report notice.
pub open spec fn notice_insert_check(d: DataStore, row: NoticeRow) -> Option<WriteError> {
    if notice_id_taken(d.notices@, row.id@) {
        Some(WriteError::ConstraintViolation(RuleId::DuplicateId))
    } else {
        None
    }
}

pub open spec fn stamped_notice(row: NoticeRow, now: u64) -> NoticeRow {
    NoticeRow { created_at: now, updated_at: now, ..row }
}

/// The outcome of inserting a report setting.
pub open spec fn setting_insert_check(d: DataStore, row: SettingRow) -> Option<WriteError> {
    if setting_id_taken(d.settings@, row.id@) {
        Some(WriteError::ConstraintViolation(RuleId::DuplicateId))
    } else if clave_taken(d.settings@, row.clave@) {
        Some(WriteError::ConstraintViolation(RuleId::SettingKey))
    } else {
        None
    }
}

pub open spec fn stamped_setting(row: SettingRow, now: u64) -> SettingRow {
    SettingRow { created_at: now, updated_at: now, ..row }
}

impl DataStore {
    /// Inserts an apartment; rejected exactly when its identifier or
    /// its (unit number, occupancy kind) pair is already taken.
    pub fn insert_apartment(&mut self, row: ApartmentRow, now: u64) -> (r: Result<(), WriteError>)
        requires
            wf_data(*old(self)),
        ensures
            wf_data(*final(self)),
            match r {
                Ok(()) => apartment_insert_check(*old(self), row) is None && final(self).apartments@ == old(self).apartments@.push(stamped_apartment(row, now))
                    && same_but_apartments(*old(self), *final(self)),
                Err(e) => apartment_insert_check(*old(self), row) == Some(e) && *final(self)
                    == *old(self),
            },
    {
        if apt_has_id(&self.apartments, &row.id) {
            return Err(WriteError::ConstraintViolation(RuleId::DuplicateId));
        }
        if apt_has_pair(&self.apartments, &row.numero, row.tipo_ocupacion) {
            return Err(WriteError::ConstraintViolation(RuleId::ApartmentNumberKind));
        }
        let stamped = ApartmentRow { created_at: now, updated_at: now, ..row };
        self.apartments.push(stamped);
        proof {
            let pre = old(self).apartments@;
            let post = self.apartments@;
            assert forall|i: int, j: int| 0 <= i < j < post.len() implies (#[trigger] post[i]).id@
                != (#[trigger] post[j]).id@ && !(post[i].numero@ == post[j].numero@
                && post[i].tipo_ocupacion == post[j].tipo_ocupacion) by {
                if j < pre.len() {
                    assert(post[i] == pre[i]);
                    assert(post[j] == pre[j]);
                } else {
                    assert(post[j] == stamped_apartment(row, now));
                    assert(post[i] == pre[i]);
                    assert(!(pre[i].id@ == row.id@));
                    assert(!(pre[i].numero@ == row.numero@ && pre[i].tipo_ocupacion
                        == row.tipo_ocupacion));
                }
            }
            assert forall|i: int|
                0 <= i < self.tenants@.len() implies ((
            #[trigger] self.tenants@[i]).apartamento_id matches Some(a) ==> apt_id_taken(
                post,
                a@,
            )) by {
                match self.tenants@[i].apartamento_id {
                    Some(a) => {
                        let k = choose|k: int| 0 <= k < pre.len() && pre[k].id@ == a@;
                        assert(post[k].id@ == a@);
                    },
                    None => {},
                }
            }
            assert forall|i: int|
                0 <= i < self.transactions@.len() implies ((
            #[trigger] self.transactions@[i]).apartamento_id matches Some(a) ==> apt_id_taken(
                post,
                a@,
            )) by {
                match self.transactions@[i].apartamento_id {
                    Some(a) => {
                        let k = choose|k: int| 0 <= k < pre.len() && pre[k].id@ == a@;
                        assert(post[k].id@ == a@);
                    },
                    None => {},
                }
            }
        }
        Ok(())
    }

    /// Inserts a tenant; rejected exactly when its identifier is taken,
    /// its national id is already registered, or its apartment
    /// reference names no apartment.
    pub fn insert_tenant(&mut self, row: TenantRow, now: u64) -> (r: Result<(), WriteError>)
        requires
            wf_data(*old(self)),
        ensures
            wf_data(*final(self)),
            match r {
                Ok(()) => tenant_insert_check(*old(self), row) is None && final(self).tenants@
                    == old(self).tenants@.push(stamped_tenant(row, now)) && same_but_tenants(
                    *old(self),
                    *final(self),
                ),
                Err(e) => tenant_insert_check(*old(self), row) == Some(e) && *final(self) == *old(self),
            },
    {
        if tenant_has_id(&self.tenants, &row.id) {
            return Err(WriteError::ConstraintViolation(RuleId::DuplicateId));
        }
        match &row.cedula {
            Some(c) => {
                if tenant_has_cedula(&self.tenants, c) {
                    return Err(WriteError::ConstraintViolation(RuleId::TenantNationalId));
                }
            },
            None => {},
        }
        match &row.apartamento_id {
            Some(a) => {
                if !apt_has_id(&self.apartments, a) {
                    return Err(WriteError::ConstraintViolation(RuleId::UnknownApartment));
                }
            },
            None => {},
        }
        let stamped = TenantRow { created_at: now, updated_at: now, ..row };
        self.tenants.push(stamped);
        proof {
            let pre = old(self).tenants@;
            let post = self.tenants@;
            assert forall|i: int, j: int| 0 <= i < j < post.len() implies (#[trigger] post[i]).id@
                != (#[trigger] post[j]).id@ && !(post[i].cedula matches Some(a)
                && post[j].cedula matches Some(b) && a@ == b@) by {
                if j < pre.len() {
                    assert(post[i] == pre[i]);
                    assert(post[j] == pre[j]);
                } else {
                    assert(post[j] == stamped_tenant(row, now));
                    assert(post[i] == pre[i]);
                    match row.cedula {
                        Some(c) => {
                            assert(!(pre[i].cedula matches Some(x) && x@ == c@));
                        },
                        None => {},
                    }
                }
            }
            assert forall|i: int|
                0 <= i < post.len() implies ((#[trigger] post[i]).apartamento_id matches Some(a)
                ==> apt_id_taken(self.apartments@, a@)) by {
                if i < pre.len() {
                    assert(post[i] == pre[i]);
                } else {
                    assert(post[i] == stamped_tenant(row, now));
                }
            }
        }
        Ok(())
    }

    /// Inserts a bank account; rejected exactly when its identifier is
    /// taken, or it claims the default marker while another account
    /// holds it.
    pub fn insert_bank_account(&mut self, row: BankAccountRow, now: u64) -> (r: Result<
        (),
        WriteError,
    >)
        requires
            wf_data(*old(self)),
        ensures
            wf_data(*final(self)),
            match r {
                Ok(()) => account_insert_check(*old(self), row) is None && final(self).accounts@
                    == old(self).accounts@.push(stamped_account(row, now)) && same_but_accounts(
                    *old(self),
                    *final(self),
                ),
                Err(e) => account_insert_check(*old(self), row) == Some(e) && *final(self) == *old(self),
            },
    {
        if account_has_id(&self.accounts, &row.id) {
            return Err(WriteError::ConstraintViolation(RuleId::DuplicateId));
        }
        if row.por_defecto && accounts_have_default(&self.accounts) {
            return Err(WriteError::ConstraintViolation(RuleId::SingleDefaultAccount));
        }
        let stamped = BankAccountRow { created_at: now, updated_at: now, ..row };
        self.accounts.push(stamped);
        proof {
            let pre = old(self).accounts@;
            let post = self.accounts@;
            assert forall|i: int, j: int| 0 <= i < j < post.len() implies (#[trigger] post[i]).id@
                != (#[trigger] post[j]).id@ && !(post[i].por_defecto && post[j].por_defecto) by {
                if j < pre.len() {
                    assert(post[i] == pre[i]);
                    assert(post[j] == pre[j]);
                } else {
                    assert(post[j] == stamped_account(row, now));
                    assert(post[i] == pre[i]);
                    if row.por_defecto {
                        assert(!pre[i].por_defecto);
                    }
                }
            }
            assert forall|i: int|
                0 <= i < self.movements@.len() implies account_id_taken(
                post,
                (#[trigger] self.movements@[i]).cuenta_bancaria_id@,
            ) by {
                let k = choose|k: int|
                    0 <= k < pre.len() && pre[k].id@ == self.movements@[i].cuenta_bancaria_id@;
                assert(post[k].id@ == self.movements@[i].cuenta_bancaria_id@);
            }
        }
        Ok(())
    }

    /// Inserts a service type; rejected exactly when its identifier or
    /// its code is taken.
    pub fn insert_service_type(&mut self, row: ServiceTypeRow, now: u64) -> (r: Result<
        (),
        WriteError,
    >)
        requires
            wf_data(*old(self)),
        ensures
            wf_data(*final(self)),
            match r {
                Ok(()) => service_type_insert_check(*old(self), row) is None && final(self).service_types@ == old(self).service_types@.push(stamped_service_type(row, now))
                    && same_but_service_types(*old(self), *final(self)),
                Err(e) => service_type_insert_check(*old(self), row) == Some(e) && *final(self)
                    == *old(self),
            },
    {
        if service_type_has_id(&self.service_types, &row.id) {
            return Err(WriteError::ConstraintViolation(RuleId::DuplicateId));
        }
        if service_type_has_codigo(&self.service_types, &row.codigo) {
            return Err(WriteError::ConstraintViolation(RuleId::ServiceTypeCode));
        }
        let stamped = ServiceTypeRow { created_at: now, updated_at: now, ..row };
        self.service_types.push(stamped);
        Ok(())
    }

    /// Inserts a service provider; rejected exactly when its identifier
    /// is taken.
    pub fn insert_service(&mut self, row: ServiceRow, now: u64) -> (r: Result<(), WriteError>)
        requires
            wf_data(*old(self)),
        ensures
            wf_data(*final(self)),
            match r {
                Ok(()) => service_insert_check(*old(self), row) is None && final(self).services@
                    == old(self).services@.push(stamped_service(row, now)) && same_but_services(
                    *old(self),
                    *final(self),
                ),
                Err(e) => service_insert_check(*old(self), row) == Some(e) && *final(self) == *old(self),
            },
    {
        if service_has_id(&self.services, &row.id) {
            return Err(WriteError::ConstraintViolation(RuleId::DuplicateId));
        }
        let stamped = ServiceRow { created_at: now, updated_at: now, ..row };
        self.services.push(stamped);
        proof {
            let pre = old(self).services@;
            let post = self.services@;
            assert forall|i: int, j: int| 0 <= i < j < post.len() implies (#[trigger] post[i]).id@
                != (#[trigger] post[j]).id@ by {
                if j < pre.len() {
                    assert(post[i] == pre[i]);
                    assert(post[j] == pre[j]);
                } else {
                    assert(post[j] == stamped_service(row, now));
                    assert(post[i] == pre[i]);
                }
            }
            assert forall|i: int|
                0 <= i < self.movements@.len() implies ((
            #[trigger] self.movements@[i]).servicio_id matches Some(v) ==> service_id_taken(
                post,
                v@,
            )) by {
                match self.movements@[i].servicio_id {
                    Some(v) => {
                        let k = choose|k: int| 0 <= k < pre.len() && pre[k].id@ == v@;
                        assert(post[k].id@ == v@);
                    },
                    None => {},
                }
            }
        }
        Ok(())
    }

    /// Inserts an operational log entry; rejected exactly when its
    /// identifier is taken.
    pub fn insert_log(&mut self, row: LogRow, now: u64) -> (r: Result<(), WriteError>)
        requires
            wf_data(*old(self)),
        ensures
            wf_data(*final(self)),
            match r {
                Ok(()) => log_insert_check(*old(self), row) is None && final(self).logs@ == old(self).logs@.push(stamped_log(row, now)) && same_but_logs(*old(self), *final(self)),
                Err(e) => log_insert_check(*old(self), row) == Some(e) && *final(self) == *old(self),
            },
    {
        if log_has_id(&self.logs, &row.id) {
            return Err(WriteError::ConstraintViolation(RuleId::DuplicateId));
        }
        let stamped = LogRow { created_at: now, updated_at: now, ..row };
        self.logs.push(stamped);
        Ok(())
    }

    /// Inserts a report notice; rejected exactly when its identifier is
    /// taken.
    pub fn insert_notice(&mut self, row: NoticeRow, now: u64) -> (r: Result<(), WriteError>)
        requires
            wf_data(*old(self)),
        ensures
            wf_data(*final(self)),
            match r {
                Ok(()) => notice_insert_check(*old(self), row) is None && final(self).notices@
                    == old(self).notices@.push(stamped_notice(row, now)) && same_but_notices(
                    *old(self),
                    *final(self),
                ),
                Err(e) => notice_insert_check(*old(self), row) == Some(e) && *final(self) == *old(self),
            },
    {
        if notice_has_id(&self.notices, &row.id) {
            return Err(WriteError::ConstraintViolation(RuleId::DuplicateId));
        }
        let stamped = NoticeRow { created_at: now, updated_at: now, ..row };
        self.notices.push(stamped);
        Ok(())
    }

    /// Inserts a report setting; rejected exactly when its identifier
    /// or its key is taken.
    pub fn insert_setting(&mut self, row: SettingRow, now: u64) -> (r: Result<(), WriteError>)
        requires
            wf_data(*old(self)),
        ensures
            wf_data(*final(self)),
            match r {
                Ok(()) => setting_insert_check(*old(self), row) is None && final(self).settings@
                    == old(self).settings@.push(stamped_setting(row, now)) && same_but_settings(
                    *old(self),
                    *final(self),
                ),
                Err(e) => setting_insert_check(*old(self), row) == Some(e) && *final(self) == *old(self),
            },
    {
        if setting_has_id(&self.settings, &row.id) {
            return Err(WriteError::ConstraintViolation(RuleId::DuplicateId));
        }
        if setting_has_clave(&self.settings, &row.clave) {
            return Err(WriteError::ConstraintViolation(RuleId::SettingKey));
        }
        let stamped = SettingRow { created_at: now, updated_at: now, ..row };
        self.settings.push(stamped);
        Ok(())
    }

    /// Inserts a financial transaction. The stored row never carries
    /// hand-set repayment bookkeeping: a credit sale starts pending with
    /// nothing paid. A mixed transaction must split its total exactly.
    pub fn insert_transaction(&mut self, row: TransactionRow, now: u64) -> (r: Result<
        (),
        WriteError,
    >)
        requires
            wf_data(*old(self)),
        ensures
            wf_data(*final(self)),
            match r {
                Ok(()) => transaction_insert_check(*old(self), row) is None && final(self).transactions@ == old(self).transactions@.push(stamped_transaction(row, now))
                    && same_but_transactions(*old(self), *final(self)),
                Err(e) => transaction_insert_check(*old(self), row) == Some(e) && *final(self)
                    == *old(self),
            },
    {
        if txn_has_id(&self.transactions, &row.id) {
            return Err(WriteError::ConstraintViolation(RuleId::DuplicateId));
        }
        if row.monto < 0 || row.monto > MAX_AMOUNT {
            return Err(WriteError::ValidationError(RuleId::AmountRange));
        }
        if !(matches!(row.estado_credito, None) && row.monto_pagado == 0) {
            return Err(WriteError::ValidationError(RuleId::CreditStateConsistency));
        }
        let mixed = match row.clasificacion_pago {
            Some(PaymentClass::Mixed) => true,
            _ => false,
        };
        if mixed {
            match (row.monto_gasto_comun, row.monto_fondo_reserva) {
                (Some(g), Some(f)) => {
                    if !(0 <= g && g <= MAX_AMOUNT && 0 <= f && f <= MAX_AMOUNT && g + f
                        == row.monto) {
                        return Err(WriteError::ValidationError(RuleId::SplitSum));
                    }
                },
                _ => {
                    return Err(WriteError::ValidationError(RuleId::SplitSum));
                },
            }
        } else {
            if !(matches!(row.monto_gasto_comun, None) && matches!(
                row.monto_fondo_reserva,
                None,
            )) {
                return Err(WriteError::ValidationError(RuleId::SplitFieldsUnset));
            }
        }
        match &row.apartamento_id {
            Some(a) => {
                if !apt_has_id(&self.apartments, a) {
                    return Err(WriteError::ConstraintViolation(RuleId::UnknownApartment));
                }
            },
            None => {},
        }
        let is_credit = match row.tipo {
            TransactionKind::CreditSale => true,
            _ => false,
        };
        let stamped = TransactionRow {
            estado_credito: if is_credit {
                Some(CreditState::Pending)
            } else {
                None
            },
            monto_pagado: 0,
            created_at: now,
            updated_at: now,
            ..row
        };
        self.transactions.push(stamped);
        proof {
            let pre = old(self).transactions@;
            let post = self.transactions@;
            assert(post[pre.len() as int] == stamped_transaction(row, now));
            assert forall|i: int, j: int| 0 <= i < j < post.len() implies (#[trigger] post[i]).id@
                != (#[trigger] post[j]).id@ by {
                if j < pre.len() {
                    assert(post[i] == pre[i]);
                    assert(post[j] == pre[j]);
                } else {
                    assert(post[i] == pre[i]);
                }
            }
            assert forall|i: int|
                0 <= i < post.len() implies ((#[trigger] post[i]).apartamento_id matches Some(a)
                ==> apt_id_taken(self.apartments@, a@)) by {
                if i < pre.len() {
                    assert(post[i] == pre[i]);
                }
            }
            assert forall|i: int|
                0 <= i < self.movements@.len() implies ((
            #[trigger] self.movements@[i]).transaccion_id matches Some(t) ==> txn_id_taken(
                post,
                t@,
            )) by {
                match self.movements@[i].transaccion_id {
                    Some(t) => {
                        let k = choose|k: int| 0 <= k < pre.len() && pre[k].id@ == t@;
                        assert(post[k].id@ == t@);
                    },
                    None => {},
                }
            }
        }
        Ok(())
    }

    /// Records the repayment progress of a credit sale: the paid amount
    /// is set to the given value, capped at the transaction's total, and
    /// the credit state becomes the one derived from it — pending for
    /// nothing, partial below the total, paid at the total. Rejected
    /// exactly when the transaction does not exist, the value is out of
    /// range, or the transaction is not a credit sale.
    pub fn update_credit_payment(&mut self, id: &String, pagado: i64, now: u64) -> (r: Result<
        (),
        WriteError,
    >)
        requires
            wf_data(*old(self)),
        ensures
            wf_data(*final(self)),
            match r {
                Ok(()) => amount_ok(pagado as int) && exists|i: int|
                    0 <= i < old(self).transactions@.len() && (
                    #[trigger] old(self).transactions@[i]).id@ == id@
                        && old(self).transactions@[i].tipo == TransactionKind::CreditSale && final(self).transactions@ == old(self).transactions@.update(
                        i,
                        credit_paid(old(self).transactions@[i], pagado, now),
                    ) && same_but_transactions(*old(self), *final(self)),
                Err(e) => *final(self) == *old(self) && ((e
                    == WriteError::ConstraintViolation(RuleId::UnknownTransaction) && !txn_id_taken(
                    old(self).transactions@,
                    id@,
                )) || (e == WriteError::ValidationError(RuleId::AmountRange) && txn_id_taken(
                    old(self).transactions@,
                    id@,
                ) && !amount_ok(pagado as int)) || (e == WriteError::ValidationError(
                    RuleId::CreditStateConsistency,
                ) && amount_ok(pagado as int) && exists|i: int|
                    0 <= i < old(self).transactions@.len() && (
                    #[trigger] old(self).transactions@[i]).id@ == id@
                        && old(self).transactions@[i].tipo != TransactionKind::CreditSale)),
            },
    {
        let idx = match txn_index_of(&self.transactions, id) {
            Some(i) => i,
            None => {
                return Err(WriteError::ConstraintViolation(RuleId::UnknownTransaction));
            },
        };
        if pagado < 0 || pagado > MAX_AMOUNT {
            return Err(WriteError::ValidationError(RuleId::AmountRange));
        }
        let is_credit = match self.transactions[idx].tipo {
            TransactionKind::CreditSale => true,
            _ => false,
        };
        if !is_credit {
            return Err(WriteError::ValidationError(RuleId::CreditStateConsistency));
        }
        let ghost pre = self.transactions@;
        let t = self.transactions.remove(idx);
        let monto = t.monto;
        let capped = if pagado > monto {
            monto
        } else {
            pagado
        };
        let estado = if capped <= 0 {
            CreditState::Pending
        } else if capped < monto {
            CreditState::Partial
        } else {
            CreditState::Paid
        };
        let t2 = TransactionRow {
            monto_pagado: capped,
            estado_credito: Some(estado),
            updated_at: now,
            ..t
        };
        self.transactions.insert(idx, t2);
        proof {
            let post = self.transactions@;
            assert(t2 == credit_paid(pre[idx as int], pagado, now));
            assert(post =~= pre.update(idx as int, t2));
            assert forall|i: int, j: int| 0 <= i < j < post.len() implies (#[trigger] post[i]).id@
                != (#[trigger] post[j]).id@ by {
                assert(post[i] == if i == idx {
                    t2
                } else {
                    pre[i]
                });
                assert(post[j] == if j == idx {
                    t2
                } else {
                    pre[j]
                });
            }
            assert forall|i: int| 0 <= i < post.len() implies txn_row_ok(#[trigger] post[i]) by {
                if i != idx {
                    assert(post[i] == pre[i]);
                }
            }
            assert forall|i: int|
                0 <= i < post.len() implies ((#[trigger] post[i]).apartamento_id matches Some(a)
                ==> apt_id_taken(self.apartments@, a@)) by {
                if i != idx {
                    assert(post[i] == pre[i]);
                } else {
                    assert(post[i].apartamento_id == pre[i].apartamento_id);
                }
            }
            assert forall|i: int|
                0 <= i < self.movements@.len() implies ((
            #[trigger] self.movements@[i]).transaccion_id matches Some(x) ==> txn_id_taken(
                post,
                x@,
            )) by {
                match self.movements@[i].transaccion_id {
                    Some(x) => {
                        let k = choose|k: int| 0 <= k < pre.len() && pre[k].id@ == x@;
                        assert(post[k].id@ == x@);
                    },
                    None => {},
                }
            }
        }
        Ok(())
    }

    /// Inserts a bank movement against exactly one existing account,
    /// with at most one movement per referenced transaction.
    pub fn insert_movement(&mut self, row: MovementRow, now: u64) -> (r: Result<(), WriteError>)
        requires
            wf_data(*old(self)),
        ensures
            wf_data(*final(self)),
            match r {
                Ok(()) => movement_insert_check(*old(self), row) is None && final(self).movements@
                    == old(self).movements@.push(stamped_movement(row, now)) && same_but_movements(
                    *old(self),
                    *final(self),
                ),
                Err(e) => movement_insert_check(*old(self), row) == Some(e) && *final(self) == *old(self),
            },
    {
        if movement_has_id(&self.movements, &row.id) {
            return Err(WriteError::ConstraintViolation(RuleId::DuplicateId));
        }
        if row.monto < 0 || row.monto > MAX_AMOUNT {
            return Err(WriteError::ValidationError(RuleId::AmountRange));
        }
        if !account_has_id(&self.accounts, &row.cuenta_bancaria_id) {
            return Err(WriteError::ConstraintViolation(RuleId::UnknownAccount));
        }
        match &row.transaccion_id {
            Some(t) => {
                if !txn_has_id(&self.transactions, t) {
                    return Err(WriteError::ConstraintViolation(RuleId::UnknownTransaction));
                }
                if movement_exists_for_txn(&self.movements, t) {
                    return Err(WriteError::ConstraintViolation(RuleId::OneMovementPerTransaction));
                }
            },
            None => {},
        }
        match &row.servicio_id {
            Some(v) => {
                if !service_has_id(&self.services, v) {
                    return Err(WriteError::ConstraintViolation(RuleId::UnknownService));
                }
            },
            None => {},
        }
        let stamped = MovementRow { created_at: now, updated_at: now, ..row };
        self.movements.push(stamped);
        proof {
            let pre = old(self).movements@;
            let post = self.movements@;
            assert(post[pre.len() as int] == stamped_movement(row, now));
            assert forall|i: int, j: int| 0 <= i < j < post.len() implies (#[trigger] post[i]).id@
                != (#[trigger] post[j]).id@ && !(post[i].transaccion_id matches Some(a)
                && post[j].transaccion_id matches Some(b) && a@ == b@) by {
                if j < pre.len() {
                    assert(post[i] == pre[i]);
                    assert(post[j] == pre[j]);
                } else {
                    assert(post[i] == pre[i]);
                    match row.transaccion_id {
                        Some(t) => {
                            assert(!(pre[i].transaccion_id matches Some(x) && x@ == t@));
                        },
                        None => {},
                    }
                }
            }
            assert forall|i: int|
                0 <= i < post.len() implies amount_ok((#[trigger] post[i]).monto as int)
                && account_id_taken(self.accounts@, post[i].cuenta_bancaria_id@) by {
                if i < pre.len() {
                    assert(post[i] == pre[i]);
                }
            }
            assert forall|i: int|
                0 <= i < post.len() implies ((#[trigger] post[i]).transaccion_id matches Some(t)
                ==> txn_id_taken(self.transactions@, t@)) by {
                if i < pre.len() {
                    assert(post[i] == pre[i]);
                }
            }
            assert forall|i: int|
                0 <= i < post.len() implies ((#[trigger] post[i]).servicio_id matches Some(v)
                ==> service_id_taken(self.services@, v@)) by {
                if i < pre.len() {
                    assert(post[i] == pre[i]);
                }
            }
        }
        Ok(())
    }

    /// Marks the named account as the default and atomically clears the
    /// marker from whichever account held it; afterwards exactly the
    /// named account carries the marker. Rejected exactly when no
    /// account has this identifier.
    pub fn set_default_account(&mut self, id: &String, now: u64) -> (r: Result<(), WriteError>)
        requires
            wf_data(*old(self)),
        ensures
            wf_data(*final(self)),
            match r {
                Ok(()) => account_id_taken(old(self).accounts@, id@) && final(self).accounts@.len()
                    == old(self).accounts@.len() && (forall|i: int|
                    0 <= i < old(self).accounts@.len() ==> final(self).accounts@[i]
                        == defaulted_account(#[trigger] old(self).accounts@[i], id@, now)) && (
                forall|i: int|
                    0 <= i < final(self).accounts@.len() ==> ((#[trigger] final(self).accounts@[i]).por_defecto <==> final(self).accounts@[i].id@ == id@))
                    && same_but_accounts(*old(self), *final(self)),
                Err(e) => e == WriteError::ConstraintViolation(RuleId::UnknownAccount)
                    && !account_id_taken(old(self).accounts@, id@) && *final(self) == *old(self),
            },
    {
        if !account_has_id(&self.accounts, id) {
            return Err(WriteError::ConstraintViolation(RuleId::UnknownAccount));
        }
        set_default_flags(&mut self.accounts, id, now);
        proof {
            let pre = old(self).accounts@;
            let post = self.accounts@;
            assert forall|i: int|
                0 <= i < post.len() implies ((#[trigger] post[i]).por_defecto <==> post[i].id@
                == id@) by {
                assert(post[i] == defaulted_account(pre[i], id@, now));
            }
            assert forall|i: int, j: int| 0 <= i < j < post.len() implies (#[trigger] post[i]).id@
                != (#[trigger] post[j]).id@ && !(post[i].por_defecto && post[j].por_defecto) by {
                assert(post[i] == defaulted_account(pre[i], id@, now));
                assert(post[j] == defaulted_account(pre[j], id@, now));
            }
            assert forall|i: int|
                0 <= i < self.movements@.len() implies account_id_taken(
                post,
                (#[trigger] self.movements@[i]).cuenta_bancaria_id@,
            ) by {
                let k = choose|k: int|
                    0 <= k < pre.len() && pre[k].id@ == self.movements@[i].cuenta_bancaria_id@;
                assert(post[k] == defaulted_account(pre[k], id@, now));
                assert(post[k].id@ == pre[k].id@);
            }
        }
        Ok(())
    }

    /// Deletes an apartment. The apartment's relationships are weak:
    /// tenant rows and transaction rows that referenced it keep
    /// everything else and have the reference nulled; no row is ever
    /// deleted with it. Returns whether an apartment was deleted.
    pub fn delete_apartment(&mut self, id: &String) -> (deleted: bool)
        requires
            wf_data(*old(self)),
        ensures
            wf_data(*final(self)),
            deleted == apt_id_taken(old(self).apartments@, id@),
            !deleted ==> *final(self) == *old(self),
            deleted ==> exists|i: int|
                0 <= i < old(self).apartments@.len() && (#[trigger] old(self).apartments@[i]).id@
                    == id@ && final(self).apartments@ == old(self).apartments@.remove(i),
            deleted ==> final(self).tenants@.len() == old(self).tenants@.len() && (forall|i: int|
                0 <= i < old(self).tenants@.len() ==> final(self).tenants@[i] == cleared_tenant_apt(
                    #[trigger] old(self).tenants@[i],
                    id@,
                )),
            deleted ==> final(self).transactions@.len() == old(self).transactions@.len() && (
            forall|i: int|
                0 <= i < old(self).transactions@.len() ==> final(self).transactions@[i]
                    == cleared_txn_apt(#[trigger] old(self).transactions@[i], id@)),
            final(self).accounts@ == old(self).accounts@,
            final(self).service_types@ == old(self).service_types@,
            final(self).services@ == old(self).services@,
            final(self).movements@ == old(self).movements@,
            final(self).logs@ == old(self).logs@,
            final(self).notices@ == old(self).notices@,
            final(self).settings@ == old(self).settings@,
    {
        let idx = match apt_index_of(&self.apartments, id) {
            Some(i) => i,
            None => {
                return false;
            },
        };
        let ghost pre_a = self.apartments@;
        let ghost pre_t = self.tenants@;
        let ghost pre_x = self.transactions@;
        self.apartments.remove(idx);
        clear_tenant_apt_refs(&mut self.tenants, id);
        clear_txn_apt_refs(&mut self.transactions, id);
        proof {
            let post_a = self.apartments@;
            assert forall|k: int|
                0 <= k < post_a.len() implies #[trigger] post_a[k] == (if k < idx {
                pre_a[k]
            } else {
                pre_a[k + 1]
            }) by {}
            assert forall|i: int, j: int| 0 <= i < j < post_a.len() implies (
            #[trigger] post_a[i]).id@ != (#[trigger] post_a[j]).id@ && !(post_a[i].numero@
                == post_a[j].numero@ && post_a[i].tipo_ocupacion == post_a[j].tipo_ocupacion) by {}
            assert forall|i: int|
                0 <= i < self.tenants@.len() implies ((
            #[trigger] self.tenants@[i]).apartamento_id matches Some(a) ==> apt_id_taken(
                post_a,
                a@,
            )) by {
                assert(self.tenants@[i] == cleared_tenant_apt(pre_t[i], id@));
                match self.tenants@[i].apartamento_id {
                    Some(a) => {
                        assert(a@ != id@);
                        let k = choose|k: int| 0 <= k < pre_a.len() && pre_a[k].id@ == a@;
                        assert(pre_a[idx as int].id@ == id@);
                        assert(k != idx);
                        if k < idx {
                            assert(post_a[k].id@ == a@);
                        } else {
                            assert(post_a[k - 1].id@ == a@);
                        }
                    },
                    None => {},
                }
            }
            assert forall|i: int, j: int| 0 <= i < j < self.tenants@.len() implies (
            #[trigger] self.tenants@[i]).id@ != (#[trigger] self.tenants@[j]).id@ && !(
            self.tenants@[i].cedula matches Some(a) && self.tenants@[j].cedula matches Some(b) && a@
                == b@) by {
                assert(self.tenants@[i] == cleared_tenant_apt(pre_t[i], id@));
                assert(self.tenants@[j] == cleared_tenant_apt(pre_t[j], id@));
            }
            assert forall|i: int|
                0 <= i < self.transactions@.len() implies ((
            #[trigger] self.transactions@[i]).apartamento_id matches Some(a) ==> apt_id_taken(
                post_a,
                a@,
            )) by {
                assert(self.transactions@[i] == cleared_txn_apt(pre_x[i], id@));
                match self.transactions@[i].apartamento_id {
                    Some(a) => {
                        assert(a@ != id@);
                        let k = choose|k: int| 0 <= k < pre_a.len() && pre_a[k].id@ == a@;
                        assert(pre_a[idx as int].id@ == id@);
                        assert(k != idx);
                        if k < idx {
                            assert(post_a[k].id@ == a@);
                        } else {
                            assert(post_a[k - 1].id@ == a@);
                        }
                    },
                    None => {},
                }
            }
            assert forall|i: int, j: int| 0 <= i < j < self.transactions@.len() implies (
            #[trigger] self.transactions@[i]).id@ != (#[trigger] self.transactions@[j]).id@ by {
                assert(self.transactions@[i] == cleared_txn_apt(pre_x[i], id@));
                assert(self.transactions@[j] == cleared_txn_apt(pre_x[j], id@));
            }
            assert forall|i: int|
                0 <= i < self.transactions@.len() implies txn_row_ok(
                #[trigger] self.transactions@[i],
            ) by {
                assert(self.transactions@[i] == cleared_txn_apt(pre_x[i], id@));
                assert(txn_row_ok(pre_x[i]));
            }
            assert forall|i: int|
                0 <= i < self.movements@.len() implies ((
            #[trigger] self.movements@[i]).transaccion_id matches Some(t) ==> txn_id_taken(
                self.transactions@,
                t@,
            )) by {
                match self.movements@[i].transaccion_id {
                    Some(t) => {
                        let k = choose|k: int| 0 <= k < pre_x.len() && pre_x[k].id@ == t@;
                        assert(self.transactions@[k] == cleared_txn_apt(pre_x[k], id@));
                        assert(self.transactions@[k].id@ == t@);
                    },
                    None => {},
                }
            }
        }
        true
    }

    /// Deletes a bank account. The account owns its movements: every
    /// movement against it is deleted with it, and every other movement
    /// survives untouched, in order. Returns whether an account was
    /// deleted.
    pub fn delete_bank_account(&mut self, id: &String) -> (deleted: bool)
        requires
            wf_data(*old(self)),
        ensures
            wf_data(*final(self)),
            deleted == account_id_taken(old(self).accounts@, id@),
            !deleted ==> *final(self) == *old(self),
            deleted ==> exists|i: int|
                0 <= i < old(self).accounts@.len() && (#[trigger] old(self).accounts@[i]).id@ == id@
                    && final(self).accounts@ == old(self).accounts@.remove(i),
            deleted ==> final(self).movements@ == kept_movements(old(self).movements@, id@),
            deleted ==> forall|j: int|
                0 <= j < final(self).movements@.len() ==> (
                #[trigger] final(self).movements@[j]).cuenta_bancaria_id@ != id@,
            final(self).apartments@ == old(self).apartments@,
            final(self).tenants@ == old(self).tenants@,
            final(self).service_types@ == old(self).service_types@,
            final(self).services@ == old(self).services@,
            final(self).transactions@ == old(self).transactions@,
            final(self).logs@ == old(self).logs@,
            final(self).notices@ == old(self).notices@,
            final(self).settings@ == old(self).settings@,
    {
        let idx = match account_index_of(&self.accounts, id) {
            Some(i) => i,
            None => {
                return false;
            },
        };
        let ghost pre_a = self.accounts@;
        let ghost pre_m = self.movements@;
        self.accounts.remove(idx);
        cascade_movements(&mut self.movements, id);
        proof {
            lemma_kept_movements_wf(pre_m, id@, pre_a, self.transactions@, self.services@);
            let post_a = self.accounts@;
            assert forall|k: int|
                0 <= k < post_a.len() implies #[trigger] post_a[k] == (if k < idx {
                pre_a[k]
            } else {
                pre_a[k + 1]
            }) by {}
            assert forall|i: int, j: int| 0 <= i < j < post_a.len() implies (
            #[trigger] post_a[i]).id@ != (#[trigger] post_a[j]).id@ && !(post_a[i].por_defecto
                && post_a[j].por_defecto) by {}
            assert forall|i: int|
                0 <= i < self.movements@.len() implies amount_ok(
                (#[trigger] self.movements@[i]).monto as int,
            ) && account_id_taken(post_a, self.movements@[i].cuenta_bancaria_id@) by {
                let cid = self.movements@[i].cuenta_bancaria_id@;
                assert(account_id_taken(pre_a, cid));
                assert(cid != id@);
                let k = choose|k: int| 0 <= k < pre_a.len() && pre_a[k].id@ == cid;
                assert(pre_a[idx as int].id@ == id@);
                assert(k != idx);
                if k < idx {
                    assert(post_a[k].id@ == cid);
                } else {
                    assert(post_a[k - 1].id@ == cid);
                }
            }
        }
        true
    }

    /// Deletes a transaction. Its link to a bank movement is weak: a
    /// movement that referenced it survives with the reference nulled,
    /// never deleted. Returns whether a transaction was deleted.
    pub fn delete_transaction(&mut self, id: &String) -> (deleted: bool)
        requires
            wf_data(*old(self)),
        ensures
            wf_data(*final(self)),
            deleted == txn_id_taken(old(self).transactions@, id@),
            !deleted ==> *final(self) == *old(self),
            deleted ==> exists|i: int|
                0 <= i < old(self).transactions@.len() && (
                #[trigger] old(self).transactions@[i]).id@ == id@ && final(self).transactions@
                    == old(self).transactions@.remove(i),
            deleted ==> final(self).movements@.len() == old(self).movements@.len() && (forall|
                i: int,
            |
                0 <= i < old(self).movements@.len() ==> final(self).movements@[i]
                    == cleared_movement_txn(#[trigger] old(self).movements@[i], id@)),
            final(self).apartments@ == old(self).apartments@,
            final(self).tenants@ == old(self).tenants@,
            final(self).accounts@ == old(self).accounts@,
            final(self).service_types@ == old(self).service_types@,
            final(self).services@ == old(self).services@,
            final(self).logs@ == old(self).logs@,
            final(self).notices@ == old(self).notices@,
            final(self).settings@ == old(self).settings@,
    {
        let idx = match txn_index_of(&self.transactions, id) {
            Some(i) => i,
            None => {
                return false;
            },
        };
        let ghost pre_x = self.transactions@;
        let ghost pre_m = self.movements@;
        self.transactions.remove(idx);
        clear_movement_txn_refs(&mut self.movements, id);
        proof {
            let post_x = self.transactions@;
            assert forall|k: int|
                0 <= k < post_x.len() implies #[trigger] post_x[k] == (if k < idx {
                pre_x[k]
            } else {
                pre_x[k + 1]
            }) by {}
            assert forall|i: int, j: int| 0 <= i < j < post_x.len() implies (
            #[trigger] post_x[i]).id@ != (#[trigger] post_x[j]).id@ by {}
            assert forall|i: int| 0 <= i < post_x.len() implies txn_row_ok(
                #[trigger] post_x[i],
            ) by {}
            assert forall|i: int|
                0 <= i < post_x.len() implies ((#[trigger] post_x[i]).apartamento_id matches Some(
                a,
            ) ==> apt_id_taken(self.apartments@, a@)) by {}
            assert forall|i: int, j: int| 0 <= i < j < self.movements@.len() implies (
            #[trigger] self.movements@[i]).id@ != (#[trigger] self.movements@[j]).id@ && !(
            self.movements@[i].transaccion_id matches Some(a)
                && self.movements@[j].transaccion_id matches Some(b) && a@ == b@) by {
                assert(self.movements@[i] == cleared_movement_txn(pre_m[i], id@));
                assert(self.movements@[j] == cleared_movement_txn(pre_m[j], id@));
            }
            assert forall|i: int|
                0 <= i < self.movements@.len() implies amount_ok(
                (#[trigger] self.movements@[i]).monto as int,
            ) && account_id_taken(self.accounts@, self.movements@[i].cuenta_bancaria_id@) && ((
            self.movements@[i]).servicio_id matches Some(v) ==> service_id_taken(
                self.services@,
                v@,
            )) by {
                assert(self.movements@[i] == cleared_movement_txn(pre_m[i], id@));
            }
            assert forall|i: int|
                0 <= i < self.movements@.len() implies ((
            #[trigger] self.movements@[i]).transaccion_id matches Some(t) ==> txn_id_taken(
                post_x,
                t@,
            )) by {
                assert(self.movements@[i] == cleared_movement_txn(pre_m[i], id@));
                match self.movements@[i].transaccion_id {
                    Some(t) => {
                        assert(t@ != id@);
                        let k = choose|k: int| 0 <= k < pre_x.len() && pre_x[k].id@ == t@;
                        assert(pre_x[idx as int].id@ == id@);
                        assert(k != idx);
                        if k < idx {
                            assert(post_x[k].id@ == t@);
                        } else {
                            assert(post_x[k - 1].id@ == t@);
                        }
                    },
                    None => {},
                }
            }
        }
        true
    }

    /// Deletes a service provider. Its link to a bank movement is weak:
    /// a movement that referenced it survives with the reference nulled.
    /// Returns whether a service was deleted.
    pub fn delete_service(&mut self, id: &String) -> (deleted: bool)
        requires
            wf_data(*old(self)),
        ensures
            wf_data(*final(self)),
            deleted == service_id_taken(old(self).services@, id@),
            !deleted ==> *final(self) == *old(self),
            deleted ==> exists|i: int|
                0 <= i < old(self).services@.len() && (#[trigger] old(self).services@[i]).id@ == id@
                    && final(self).services@ == old(self).services@.remove(i),
            deleted ==> final(self).movements@.len() == old(self).movements@.len() && (forall|
                i: int,
            |
                0 <= i < old(self).movements@.len() ==> final(self).movements@[i]
                    == cleared_movement_svc(#[trigger] old(self).movements@[i], id@)),
            final(self).apartments@ == old(self).apartments@,
            final(self).tenants@ == old(self).tenants@,
            final(self).accounts@ == old(self).accounts@,
            final(self).service_types@ == old(self).service_types@,
            final(self).transactions@ == old(self).transactions@,
            final(self).logs@ == old(self).logs@,
            final(self).notices@ == old(self).notices@,
            final(self).settings@ == old(self).settings@,
    {
        let idx = match svc_index_of(&self.services, id) {
            Some(i) => i,
            None => {
                return false;
            },
        };
        let ghost pre_s = self.services@;
        let ghost pre_m = self.movements@;
        self.services.remove(idx);
        clear_movement_svc_refs(&mut self.movements, id);
        proof {
            let post_s = self.services@;
            assert forall|k: int|
                0 <= k < post_s.len() implies #[trigger] post_s[k] == (if k < idx {
                pre_s[k]
            } else {
                pre_s[k + 1]
            }) by {}
            assert forall|i: int, j: int| 0 <= i < j < post_s.len() implies (
            #[trigger] post_s[i]).id@ != (#[trigger] post_s[j]).id@ by {}
            assert forall|i: int, j: int| 0 <= i < j < self.movements@.len() implies (
            #[trigger] self.movements@[i]).id@ != (#[trigger] self.movements@[j]).id@ && !(
            self.movements@[i].transaccion_id matches Some(a)
                && self.movements@[j].transaccion_id matches Some(b) && a@ == b@) by {
                assert(self.movements@[i] == cleared_movement_svc(pre_m[i], id@));
                assert(self.movements@[j] == cleared_movement_svc(pre_m[j], id@));
            }
            assert forall|i: int|
                0 <= i < self.movements@.len() implies amount_ok(
                (#[trigger] self.movements@[i]).monto as int,
            ) && account_id_taken(self.accounts@, self.movements@[i].cuenta_bancaria_id@) && ((
            self.movements@[i]).transaccion_id matches Some(t) ==> txn_id_taken(
                self.transactions@,
                t@,
            )) by {
                assert(self.movements@[i] == cleared_movement_svc(pre_m[i], id@));
            }
            assert forall|i: int|
                0 <= i < self.movements@.len() implies ((
            #[trigger] self.movements@[i]).servicio_id matches Some(v) ==> service_id_taken(
                post_s,
                v@,
            )) by {
                assert(self.movements@[i] == cleared_movement_svc(pre_m[i], id@));
                match self.movements@[i].servicio_id {
                    Some(v) => {
                        assert(v@ != id@);
                        let k = choose|k: int| 0 <= k < pre_s.len() && pre_s[k].id@ == v@;
                        assert(pre_s[idx as int].id@ == id@);
                        assert(k != idx);
                        if k < idx {
                            assert(post_s[k].id@ == v@);
                        } else {
                            assert(post_s[k - 1].id@ == v@);
                        }
                    },
                    None => {},
                }
            }
        }
        true
    }
}

} // verus!
