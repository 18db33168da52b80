use condo_store::domain::parse_category;
use condo_store::domain::parse_credit_state;
use condo_store::domain::parse_log_kind;
use condo_store::domain::parse_log_status;
use condo_store::domain::parse_movement_class;
use condo_store::domain::parse_movement_kind;
use condo_store::domain::parse_occupancy_kind;
use condo_store::domain::parse_payment_class;
use condo_store::domain::parse_payment_method;
use condo_store::domain::parse_transaction_kind;
use condo_store::domain::Category;
use condo_store::domain::CreditState;
use condo_store::domain::LogKind;
use condo_store::domain::LogStatus;
use condo_store::domain::MovementClass;
use condo_store::domain::MovementKind;
use condo_store::domain::OccupancyKind;
use condo_store::domain::PaymentClass;
use condo_store::domain::PaymentMethod;
use condo_store::domain::TransactionKind;

#[test]
fn occupancy_kind_domain_is_closed() {
    assert_eq!(parse_occupancy_kind("PROPIETARIO"), Some(OccupancyKind::Owner));
    assert_eq!(parse_occupancy_kind("INQUILINO"), Some(OccupancyKind::Tenant));
    assert_eq!(parse_occupancy_kind("DUENO"), None);
    assert_eq!(parse_occupancy_kind(""), None);
    assert_eq!(parse_occupancy_kind("propietario"), None);
}

#[test]
fn transaction_kind_domain_is_closed() {
    assert_eq!(parse_transaction_kind("INGRESO"), Some(TransactionKind::Income));
    assert_eq!(parse_transaction_kind("EGRESO"), Some(TransactionKind::Expense));
    assert_eq!(parse_transaction_kind("VENTA_CREDITO"), Some(TransactionKind::CreditSale));
    assert_eq!(parse_transaction_kind("RECIBO_PAGO"), Some(TransactionKind::PaymentReceipt));
    assert_eq!(parse_transaction_kind("PRESTAMO"), None);
}

#[test]
fn category_domain_is_closed() {
    assert_eq!(parse_category("GASTOS_COMUNES"), Some(Category::CommonExpenses));
    assert_eq!(parse_category("FONDO_RESERVA"), Some(Category::ReserveFund));
    assert_eq!(parse_category("MANTENIMIENTO"), Some(Category::Maintenance));
    assert_eq!(parse_category("SERVICIOS"), Some(Category::Services));
    assert_eq!(parse_category("ADMINISTRACION"), Some(Category::Administration));
    assert_eq!(parse_category("REPARACIONES"), Some(Category::Repairs));
    assert_eq!(parse_category("LIMPIEZA"), Some(Category::Cleaning));
    assert_eq!(parse_category("SEGURIDAD"), Some(Category::Security));
    assert_eq!(parse_category("OTROS"), Some(Category::Other));
    assert_eq!(parse_category("VARIOS"), None);
}

#[test]
fn payment_method_domain_is_closed() {
    assert_eq!(parse_payment_method("EFECTIVO"), Some(PaymentMethod::Cash));
    assert_eq!(parse_payment_method("TRANSFERENCIA"), Some(PaymentMethod::Transfer));
    assert_eq!(parse_payment_method("TARJETA"), Some(PaymentMethod::Card));
    assert_eq!(parse_payment_method("CHEQUE"), Some(PaymentMethod::Check));
    assert_eq!(parse_payment_method("OTRO"), Some(PaymentMethod::Other));
    assert_eq!(parse_payment_method("CRIPTO"), None);
}

#[test]
fn credit_state_domain_is_closed() {
    assert_eq!(parse_credit_state("PENDIENTE"), Some(CreditState::Pending));
    assert_eq!(parse_credit_state("PARCIAL"), Some(CreditState::Partial));
    assert_eq!(parse_credit_state("PAGADO"), Some(CreditState::Paid));
    assert_eq!(parse_credit_state("ANULADO"), None);
}

#[test]
fn payment_class_domain_is_closed() {
    assert_eq!(parse_payment_class("GASTO_COMUN"), Some(PaymentClass::CommonExpense));
    assert_eq!(parse_payment_class("FONDO_RESERVA"), Some(PaymentClass::ReserveFund));
    assert_eq!(parse_payment_class("MIXTO"), Some(PaymentClass::Mixed));
    assert_eq!(parse_payment_class("PARCIAL"), None);
}

#[test]
fn movement_domains_are_closed() {
    assert_eq!(parse_movement_kind("INGRESO"), Some(MovementKind::Income));
    assert_eq!(parse_movement_kind("EGRESO"), Some(MovementKind::Expense));
    assert_eq!(parse_movement_kind("VENTA_CREDITO"), None);
    assert_eq!(parse_movement_class("GASTO_COMUN"), Some(MovementClass::CommonExpense));
    assert_eq!(parse_movement_class("FONDO_RESERVA"), Some(MovementClass::ReserveFund));
    assert_eq!(parse_movement_class("MIXTO"), None);
}

#[test]
fn log_domains_are_closed() {
    assert_eq!(parse_log_kind("NOVEDAD"), Some(LogKind::News));
    assert_eq!(parse_log_kind("VENCIMIENTO"), Some(LogKind::DueDate));
    assert_eq!(parse_log_kind("MANTENIMIENTO"), Some(LogKind::Maintenance));
    assert_eq!(parse_log_kind("REUNION"), Some(LogKind::Meeting));
    assert_eq!(parse_log_kind("INCIDENTE"), Some(LogKind::Incident));
    assert_eq!(parse_log_kind("RECORDATORIO"), Some(LogKind::Reminder));
    assert_eq!(parse_log_kind("OTRO"), Some(LogKind::Other));
    assert_eq!(parse_log_kind("AVISO"), None);
    assert_eq!(parse_log_status("PENDIENTE"), Some(LogStatus::Pending));
    assert_eq!(parse_log_status("EN_PROCESO"), Some(LogStatus::InProgress));
    assert_eq!(parse_log_status("REALIZADO"), Some(LogStatus::Done));
    assert_eq!(parse_log_status("CANCELADO"), Some(LogStatus::Cancelled));
    assert_eq!(parse_log_status("VENCIDO"), Some(LogStatus::Overdue));
    assert_eq!(parse_log_status("LISTO"), None);
}
