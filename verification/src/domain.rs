//! Closed enumerated domains of the categorical columns, together with
//! the parsers that decide whether a raw text value belongs to a domain.
//! A write that carries a value outside its declared set never reaches
//! the store: the parsers here are the single place where that check is
//! decided, and their contracts say exactly which texts are accepted.

use vstd::prelude::*;

verus! {

/// Whether an apartment record stands for its owner or for its tenant.
#[derive(PartialEq, Eq, Structural, Clone, Copy, Debug)]
pub enum OccupancyKind {
    Owner,
    Tenant,
}

/// Kind of a financial ledger entry.
#[derive(PartialEq, Eq, Structural, Clone, Copy, Debug)]
pub enum TransactionKind {
    Income,
    Expense,
    CreditSale,
    PaymentReceipt,
}

/// Expense/income category of a transaction.
#[derive(PartialEq, Eq, Structural, Clone, Copy, Debug)]
pub enum Category {
    CommonExpenses,
    ReserveFund,
    Maintenance,
    Services,
    Administration,
    Repairs,
    Cleaning,
    Security,
    Other,
}

/// Payment method of a transaction.
#[derive(PartialEq, Eq, Structural, Clone, Copy, Debug)]
pub enum PaymentMethod {
    Cash,
    Transfer,
    Card,
    Check,
    Other,
}

/// Repayment progress of a credit sale; always derived from the paid
/// amount, never set independently.
#[derive(PartialEq, Eq, Structural, Clone, Copy, Debug)]
pub enum CreditState {
    Pending,
    Partial,
    Paid,
}

/// How a transaction's amount is allocated between the two recurring
/// obligations.
#[derive(PartialEq, Eq, Structural, Clone, Copy, Debug)]
pub enum PaymentClass {
    CommonExpense,
    ReserveFund,
    Mixed,
}

/// Direction of a bank movement.
#[derive(PartialEq, Eq, Structural, Clone, Copy, Debug)]
pub enum MovementKind {
    Income,
    Expense,
}

/// Allocation class of a bank movement (no mixed lines at this level).
#[derive(PartialEq, Eq, Structural, Clone, Copy, Debug)]
pub enum MovementClass {
    CommonExpense,
    ReserveFund,
}

/// Kind of an operational log entry.
#[derive(PartialEq, Eq, Structural, Clone, Copy, Debug)]
pub enum LogKind {
    News,
    DueDate,
    Maintenance,
    Meeting,
    Incident,
    Reminder,
    Other,
}

/// Status of an operational log entry.
#[derive(PartialEq, Eq, Structural, Clone, Copy, Debug)]
pub enum LogStatus {
    Pending,
    InProgress,
    Done,
    Cancelled,
    Overdue,
}

/// Text equality on views; the store's categorical values are compared
/// against the declared tokens with it.
fn str_eq(a: &str, b: &str) -> (r: bool)
    ensures
        r == (a@ == b@),
{
    let oa: String = a.to_owned();
    let ob: String = b.to_owned();
    oa == ob
}

pub open spec fn spec_parse_occupancy_kind(s: Seq<char>) -> Option<OccupancyKind> {
    if s == "PROPIETARIO"@ {
        Some(OccupancyKind::Owner)
    } else if s == "INQUILINO"@ {
        Some(OccupancyKind::Tenant)
    } else {
        None
    }
}

pub fn parse_occupancy_kind(s: &str) -> (r: Option<OccupancyKind>)
    ensures
        r == spec_parse_occupancy_kind(s@),
{
    if str_eq(s, "PROPIETARIO") {
        Some(OccupancyKind::Owner)
    } else if str_eq(s, "INQUILINO") {
        Some(OccupancyKind::Tenant)
    } else {
        None
    }
}

pub open spec fn spec_parse_transaction_kind(s: Seq<char>) -> Option<TransactionKind> {
    if s == "INGRESO"@ {
        Some(TransactionKind::Income)
    } else if s == "EGRESO"@ {
        Some(TransactionKind::Expense)
    } else if s == "VENTA_CREDITO"@ {
        Some(TransactionKind::CreditSale)
    } else if s == "RECIBO_PAGO"@ {
        Some(TransactionKind::PaymentReceipt)
    } else {
        None
    }
}

pub fn parse_transaction_kind(s: &str) -> (r: Option<TransactionKind>)
    ensures
        r == spec_parse_transaction_kind(s@),
{
    if str_eq(s, "INGRESO") {
        Some(TransactionKind::Income)
    } else if str_eq(s, "EGRESO") {
        Some(TransactionKind::Expense)
    } else if str_eq(s, "VENTA_CREDITO") {
        Some(TransactionKind::CreditSale)
    } else if str_eq(s, "RECIBO_PAGO") {
        Some(TransactionKind::PaymentReceipt)
    } else {
        None
    }
}

pub open spec fn spec_parse_category(s: Seq<char>) -> Option<Category> {
    if s == "GASTOS_COMUNES"@ {
        Some(Category::CommonExpenses)
    } else if s == "FONDO_RESERVA"@ {
        Some(Category::ReserveFund)
    } else if s == "MANTENIMIENTO"@ {
        Some(Category::Maintenance)
    } else if s == "SERVICIOS"@ {
        Some(Category::Services)
    } else if s == "ADMINISTRACION"@ {
        Some(Category::Administration)
    } else if s == "REPARACIONES"@ {
        Some(Category::Repairs)
    } else if s == "LIMPIEZA"@ {
        Some(Category::Cleaning)
    } else if s == "SEGURIDAD"@ {
        Some(Category::Security)
    } else if s == "OTROS"@ {
        Some(Category::Other)
    } else {
        None
    }
}

pub fn parse_category(s: &str) -> (r: Option<Category>)
    ensures
        r == spec_parse_category(s@),
{
    if str_eq(s, "GASTOS_COMUNES") {
        Some(Category::CommonExpenses)
    } else if str_eq(s, "FONDO_RESERVA") {
        Some(Category::ReserveFund)
    } else if str_eq(s, "MANTENIMIENTO") {
        Some(Category::Maintenance)
    } else if str_eq(s, "SERVICIOS") {
        Some(Category::Services)
    } else if str_eq(s, "ADMINISTRACION") {
        Some(Category::Administration)
    } else if str_eq(s, "REPARACIONES") {
        Some(Category::Repairs)
    } else if str_eq(s, "LIMPIEZA") {
        Some(Category::Cleaning)
    } else if str_eq(s, "SEGURIDAD") {
        Some(Category::Security)
    } else if str_eq(s, "OTROS") {
        Some(Category::Other)
    } else {
        None
    }
}

pub open spec fn spec_parse_payment_method(s: Seq<char>) -> Option<PaymentMethod> {
    if s == "EFECTIVO"@ {
        Some(PaymentMethod::Cash)
    } else if s == "TRANSFERENCIA"@ {
        Some(PaymentMethod::Transfer)
    } else if s == "TARJETA"@ {
        Some(PaymentMethod::Card)
    } else if s == "CHEQUE"@ {
        Some(PaymentMethod::Check)
    } else if s == "OTRO"@ {
        Some(PaymentMethod::Other)
    } else {
        None
    }
}

pub fn parse_payment_method(s: &str) -> (r: Option<PaymentMethod>)
    ensures
        r == spec_parse_payment_method(s@),
{
    if str_eq(s, "EFECTIVO") {
        Some(PaymentMethod::Cash)
    } else if str_eq(s, "TRANSFERENCIA") {
        Some(PaymentMethod::Transfer)
    } else if str_eq(s, "TARJETA") {
        Some(PaymentMethod::Card)
    } else if str_eq(s, "CHEQUE") {
        Some(PaymentMethod::Check)
    } else if str_eq(s, "OTRO") {
        Some(PaymentMethod::Other)
    } else {
        None
    }
}

pub open spec fn spec_parse_credit_state(s: Seq<char>) -> Option<CreditState> {
    if s == "PENDIENTE"@ {
        Some(CreditState::Pending)
    } else if s == "PARCIAL"@ {
        Some(CreditState::Partial)
    } else if s == "PAGADO"@ {
        Some(CreditState::Paid)
    } else {
        None
    }
}

pub fn parse_credit_state(s: &str) -> (r: Option<CreditState>)
    ensures
        r == spec_parse_credit_state(s@),
{
    if str_eq(s, "PENDIENTE") {
        Some(CreditState::Pending)
    } else if str_eq(s, "PARCIAL") {
        Some(CreditState::Partial)
    } else if str_eq(s, "PAGADO") {
        Some(CreditState::Paid)
    } else {
        None
    }
}

pub open spec fn spec_parse_payment_class(s: Seq<char>) -> Option<PaymentClass> {
    if s == "GASTO_COMUN"@ {
        Some(PaymentClass::CommonExpense)
    } else if s == "FONDO_RESERVA"@ {
        Some(PaymentClass::ReserveFund)
    } else if s == "MIXTO"@ {
        Some(PaymentClass::Mixed)
    } else {
        None
    }
}

pub fn parse_payment_class(s: &str) -> (r: Option<PaymentClass>)
    ensures
        r == spec_parse_payment_class(s@),
{
    if str_eq(s, "GASTO_COMUN") {
        Some(PaymentClass::CommonExpense)
    } else if str_eq(s, "FONDO_RESERVA") {
        Some(PaymentClass::ReserveFund)
    } else if str_eq(s, "MIXTO") {
        Some(PaymentClass::Mixed)
    } else {
        None
    }
}

pub open spec fn spec_parse_movement_kind(s: Seq<char>) -> Option<MovementKind> {
    if s == "INGRESO"@ {
        Some(MovementKind::Income)
    } else if s == "EGRESO"@ {
        Some(MovementKind::Expense)
    } else {
        None
    }
}

pub fn parse_movement_kind(s: &str) -> (r: Option<MovementKind>)
    ensures
        r == spec_parse_movement_kind(s@),
{
    if str_eq(s, "INGRESO") {
        Some(MovementKind::Income)
    } else if str_eq(s, "EGRESO") {
        Some(MovementKind::Expense)
    } else {
        None
    }
}

pub open spec fn spec_parse_movement_class(s: Seq<char>) -> Option<MovementClass> {
    if s == "GASTO_COMUN"@ {
        Some(MovementClass::CommonExpense)
    } else if s == "FONDO_RESERVA"@ {
        Some(MovementClass::ReserveFund)
    } else {
        None
    }
}

pub fn parse_movement_class(s: &str) -> (r: Option<MovementClass>)
    ensures
        r == spec_parse_movement_class(s@),
{
    if str_eq(s, "GASTO_COMUN") {
        Some(MovementClass::CommonExpense)
    } else if str_eq(s, "FONDO_RESERVA") {
        Some(MovementClass::ReserveFund)
    } else {
        None
    }
}

pub open spec fn spec_parse_log_kind(s: Seq<char>) -> Option<LogKind> {
    if s == "NOVEDAD"@ {
        Some(LogKind::News)
    } else if s == "VENCIMIENTO"@ {
        Some(LogKind::DueDate)
    } else if s == "MANTENIMIENTO"@ {
        Some(LogKind::Maintenance)
    } else if s == "REUNION"@ {
        Some(LogKind::Meeting)
    } else if s == "INCIDENTE"@ {
        Some(LogKind::Incident)
    } else if s == "RECORDATORIO"@ {
        Some(LogKind::Reminder)
    } else if s == "OTRO"@ {
        Some(LogKind::Other)
    } else {
        None
    }
}

pub fn parse_log_kind(s: &str) -> (r: Option<LogKind>)
    ensures
        r == spec_parse_log_kind(s@),
{
    if str_eq(s, "NOVEDAD") {
        Some(LogKind::News)
    } else if str_eq(s, "VENCIMIENTO") {
        Some(LogKind::DueDate)
    } else if str_eq(s, "MANTENIMIENTO") {
        Some(LogKind::Maintenance)
    } else if str_eq(s, "REUNION") {
        Some(LogKind::Meeting)
    } else if str_eq(s, "INCIDENTE") {
        Some(LogKind::Incident)
    } else if str_eq(s, "RECORDATORIO") {
        Some(LogKind::Reminder)
    } else if str_eq(s, "OTRO") {
        Some(LogKind::Other)
    } else {
        None
    }
}

pub open spec fn spec_parse_log_status(s: Seq<char>) -> Option<LogStatus> {
    if s == "PENDIENTE"@ {
        Some(LogStatus::Pending)
    } else if s == "EN_PROCESO"@ {
        Some(LogStatus::InProgress)
    } else if s == "REALIZADO"@ {
        Some(LogStatus::Done)
    } else if s == "CANCELADO"@ {
        Some(LogStatus::Cancelled)
    } else if s == "VENCIDO"@ {
        Some(LogStatus::Overdue)
    } else {
        None
    }
}

pub fn parse_log_status(s: &str) -> (r: Option<LogStatus>)
    ensures
        r == spec_parse_log_status(s@),
{
    if str_eq(s, "PENDIENTE") {
        Some(LogStatus::Pending)
    } else if str_eq(s, "EN_PROCESO") {
        Some(LogStatus::InProgress)
    } else if str_eq(s, "REALIZADO") {
        Some(LogStatus::Done)
    } else if str_eq(s, "CANCELADO") {
        Some(LogStatus::Cancelled)
    } else if str_eq(s, "VENCIDO") {
        Some(LogStatus::Overdue)
    } else {
        None
    }
}

} // verus!
