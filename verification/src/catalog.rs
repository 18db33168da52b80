//! The schema catalog: a pure data description of every entity table,
//! its columns, defaults, enumerated domains, uniqueness constraints,
//! foreign keys with their delete actions, and the declared indexes.
//! The migration runner materializes exactly this data; nothing in the
//! catalog is imperative.

use vstd::prelude::*;

verus! {

/// Identity of an entity table.
#[derive(PartialEq, Eq, Structural, Clone, Copy, Debug)]
pub enum TableId {
    Apartment,
    Tenant,
    BankAccount,
    ServiceType,
    Service,
    Transaction,
    BankMovement,
    LogEntry,
    ReportNotice,
    ReportSetting,
}

/// Identity of a declared index.
#[derive(PartialEq, Eq, Structural, Clone, Copy, Debug)]
pub enum IndexId {
    TenantApartment,
    TransactionApartment,
    MovementAccount,
    MovementTransaction,
    MovementService,
    NoticeMonthYear,
}

/// Storage type of a column. Monetary columns are fixed-point amounts
/// held in hundredths of the currency unit.
#[derive(PartialEq, Eq, Structural, Clone, Copy, Debug)]
pub enum ColumnType {
    Text,
    Integer,
    Amount,
}

/// The closed value set a categorical column draws from; the parsers in
/// `domain` decide membership.
#[derive(PartialEq, Eq, Structural, Clone, Copy, Debug)]
pub enum DomainId {
    OccupancyKinds,
    TransactionKinds,
    Categories,
    PaymentMethods,
    CreditStates,
    PaymentClasses,
    MovementKinds,
    MovementClasses,
    LogKinds,
    LogStatuses,
}

/// Default value a column takes when a write leaves it unset.
#[derive(Clone, Copy, Debug)]
pub enum ColumnDefault {
    NoDefault,
    IntValue(i64),
    AmountValue(i64),
    TextValue(&'static str),
    /// The creation/update instant supplied by the store at write time.
    Now,
}

/// One column of an entity table.
#[derive(Clone, Copy, Debug)]
pub struct Column {
    pub name: &'static str,
    pub ty: ColumnType,
    pub nullable: bool,
    pub default: ColumnDefault,
    pub domain: Option<DomainId>,
    /// Single-column uniqueness (national id, lookup code, setting key,
    /// one bank movement per transaction).
    pub unique: bool,
}

/// A two-column uniqueness constraint, columns given by position.
#[derive(Clone, Copy, Debug)]
pub struct CompositeUnique {
    pub first: usize,
    pub second: usize,
}

/// Ownership tag of a relationship: an owning reference cascades the
/// delete, a weak one nulls the referencing column.
#[derive(PartialEq, Eq, Structural, Clone, Copy, Debug)]
pub enum RefAction {
    Cascade,
    SetNull,
}

/// A foreign key from the column at `col` to the primary identifier of
/// `references`.
#[derive(Clone, Copy, Debug)]
pub struct ForeignKey {
    pub col: usize,
    pub references: TableId,
    pub on_delete: RefAction,
}

/// One entity table: columns by position, the primary identifier
/// column, composite uniqueness constraints, and foreign keys.
#[derive(Debug)]
pub struct TableDef {
    pub id: TableId,
    pub name: &'static str,
    pub columns: Vec<Column>,
    pub pk: usize,
    pub composite_uniques: Vec<CompositeUnique>,
    pub foreign_keys: Vec<ForeignKey>,
}

/// One declared index: the indexed table and one or two columns by
/// position.
#[derive(Clone, Copy, Debug)]
pub struct IndexDef {
    pub id: IndexId,
    pub name: &'static str,
    pub table: TableId,
    pub col: usize,
    pub col2: Option<usize>,
}

pub open spec fn wf_composite_unique(u: CompositeUnique, n_cols: int) -> bool {
    u.first < n_cols && u.second < n_cols && u.first != u.second
}

pub open spec fn wf_foreign_key(f: ForeignKey, n_cols: int) -> bool {
    f.col < n_cols
}

/// Well-formedness of a table definition: at least one column, a valid
/// non-nullable primary identifier, and every constraint within range.
pub open spec fn wf_table_def(d: TableDef) -> bool {
    &&& d.columns@.len() > 0
    &&& d.pk < d.columns@.len()
    &&& !d.columns@[d.pk as int].nullable
    &&& forall|i: int|
        0 <= i < d.composite_uniques@.len() ==> wf_composite_unique(
            #[trigger] d.composite_uniques@[i],
            d.columns@.len() as int,
        )
    &&& forall|i: int|
        0 <= i < d.foreign_keys@.len() ==> wf_foreign_key(
            #[trigger] d.foreign_keys@[i],
            d.columns@.len() as int,
        )
}

/// Runtime check deciding `wf_table_def`; the migration runner refuses
/// an ill-formed definition.
pub fn check_table_def(d: &TableDef) -> (b: bool)
    ensures
        b == wf_table_def(*d),
{
    if d.columns.len() == 0 {
        return false;
    }
    if d.pk >= d.columns.len() {
        return false;
    }
    if d.columns[d.pk].nullable {
        return false;
    }
    let n = d.columns.len();
    let mut i: usize = 0;
    while i < d.composite_uniques.len()
        invariant
            0 <= i <= d.composite_uniques@.len(),
            forall|j: int|
                0 <= j < i ==> wf_composite_unique(#[trigger] d.composite_uniques@[j], n as int),
            n == d.columns@.len(),
        decreases d.composite_uniques@.len() - i,
    {
        let u = d.composite_uniques[i];
        if u.first >= n || u.second >= n || u.first == u.second {
            return false;
        }
        i = i + 1;
    }
    let mut k: usize = 0;
    while k < d.foreign_keys.len()
        invariant
            0 <= k <= d.foreign_keys@.len(),
            forall|j: int| 0 <= j < k ==> wf_foreign_key(#[trigger] d.foreign_keys@[j], n as int),
            n == d.columns@.len(),
        decreases d.foreign_keys@.len() - k,
    {
        if d.foreign_keys[k].col >= n {
            return false;
        }
        k = k + 1;
    }
    true
}

/// Declared constraints of the apartment table: the (unit number,
/// occupancy kind) pair is unique, the kind draws from the closed
/// occupancy set, and the recurring amounts and instants carry their
/// declared defaults.
pub open spec fn apartment_rules(t: TableDef) -> bool {
    &&& t.columns@.len() == 14
    &&& t.pk == 0
    &&& t.columns@[1].name@ == "numero"@
    &&& !t.columns@[1].nullable
    &&& t.columns@[3].default == ColumnDefault::AmountValue(0)
    &&& t.columns@[4].default == ColumnDefault::AmountValue(0)
    &&& t.columns@[5].default == ColumnDefault::AmountValue(0)
    &&& t.columns@[6].name@ == "tipoOcupacion"@
    &&& t.columns@[6].domain == Some(DomainId::OccupancyKinds)
    &&& (t.columns@[6].default matches ColumnDefault::TextValue(s) && s@ == "PROPIETARIO"@)
    &&& t.columns@[12].default == ColumnDefault::Now
    &&& t.columns@[13].default == ColumnDefault::Now
    &&& t.composite_uniques@.len() == 1
    &&& t.composite_uniques@[0].first == 1
    &&& t.composite_uniques@[0].second == 6
    &&& t.foreign_keys@.len() == 0
}

/// Declared constraints of the tenant table: globally unique nullable
/// national id, and a weak reference to an apartment (nulled when the
/// apartment is deleted).
pub open spec fn tenant_rules(t: TableDef) -> bool {
    &&& t.columns@.len() == 14
    &&& t.pk == 0
    &&& t.columns@[3].name@ == "cedula"@
    &&& t.columns@[3].unique
    &&& t.columns@[3].nullable
    &&& t.columns@[6].domain == Some(DomainId::OccupancyKinds)
    &&& (t.columns@[6].default matches ColumnDefault::TextValue(s) && s@ == "INQUILINO"@)
    &&& t.columns@[7].name@ == "activo"@
    &&& t.columns@[7].default == ColumnDefault::IntValue(1)
    &&& t.columns@[8].default == ColumnDefault::Now
    &&& t.columns@[11].default == ColumnDefault::Now
    &&& t.columns@[12].default == ColumnDefault::Now
    &&& t.foreign_keys@.len() == 1
    &&& t.foreign_keys@[0].col == 13
    &&& t.foreign_keys@[0].references == TableId::Apartment
    &&& t.foreign_keys@[0].on_delete == RefAction::SetNull
}

/// Declared shape of the bank account table. The single-default rule is
/// not a column constraint: the store only holds a boolean marker, and
/// the invariant layer enforces that at most one account carries it.
pub open spec fn bank_account_rules(t: TableDef) -> bool {
    &&& t.columns@.len() == 10
    &&& t.pk == 0
    &&& t.columns@[5].default == ColumnDefault::AmountValue(0)
    &&& t.columns@[6].name@ == "activa"@
    &&& t.columns@[6].default == ColumnDefault::IntValue(1)
    &&& t.columns@[7].name@ == "porDefecto"@
    &&& t.columns@[7].ty == ColumnType::Integer
    &&& t.columns@[7].default == ColumnDefault::IntValue(0)
    &&& t.columns@[8].default == ColumnDefault::Now
    &&& t.columns@[9].default == ColumnDefault::Now
    &&& t.foreign_keys@.len() == 0
}

/// Declared constraints of the service type lookup table: the code is
/// globally unique.
pub open spec fn service_type_rules(t: TableDef) -> bool {
    &&& t.columns@.len() == 8
    &&& t.pk == 0
    &&& t.columns@[1].name@ == "codigo"@
    &&& t.columns@[1].unique
    &&& !t.columns@[1].nullable
    &&& (t.columns@[3].default matches ColumnDefault::TextValue(s) && s@ == "default"@)
    &&& t.columns@[4].default == ColumnDefault::IntValue(0)
    &&& t.columns@[5].default == ColumnDefault::IntValue(1)
    &&& t.columns@[6].default == ColumnDefault::Now
    &&& t.columns@[7].default == ColumnDefault::Now
}

/// Declared shape of the service provider table: the provider record's
/// full column list (type, name, contact and bank details, notes,
/// active flag, instants) with its declared nullability and defaults.
pub open spec fn service_rules(t: TableDef) -> bool {
    &&& t.columns@.len() == 11
    &&& t.pk == 0
    &&& t.columns@[0].name@ == "id"@ && !t.columns@[0].nullable
    &&& t.columns@[1].name@ == "tipo"@ && !t.columns@[1].nullable
    &&& t.columns@[2].name@ == "nombre"@ && !t.columns@[2].nullable
    &&& t.columns@[3].name@ == "celular"@ && t.columns@[3].nullable
    &&& t.columns@[4].name@ == "email"@ && t.columns@[4].nullable
    &&& t.columns@[5].name@ == "banco"@ && t.columns@[5].nullable
    &&& t.columns@[6].name@ == "numeroCuenta"@ && t.columns@[6].nullable
    &&& t.columns@[7].name@ == "observaciones"@ && t.columns@[7].nullable
    &&& t.columns@[8].name@ == "activo"@ && t.columns@[8].ty == ColumnType::Integer
    &&& t.columns@[8].default == ColumnDefault::IntValue(1)
    &&& t.columns@[9].name@ == "createdAt"@ && t.columns@[9].default == ColumnDefault::Now
    &&& t.columns@[10].name@ == "updatedAt"@ && t.columns@[10].default == ColumnDefault::Now
    &&& t.composite_uniques@.len() == 0
    &&& t.foreign_keys@.len() == 0
}

/// Declared constraints of the transaction table: every categorical
/// column draws from its closed set, the payment method and repayment
/// amount carry their declared defaults, and the apartment reference is
/// weak.
pub open spec fn transaction_rules(t: TableDef) -> bool {
    &&& t.columns@.len() == 17
    &&& t.pk == 0
    &&& t.columns@[1].domain == Some(DomainId::TransactionKinds)
    &&& t.columns@[3].default == ColumnDefault::Now
    &&& t.columns@[4].domain == Some(DomainId::Categories)
    &&& t.columns@[7].domain == Some(DomainId::PaymentMethods)
    &&& (t.columns@[7].default matches ColumnDefault::TextValue(s) && s@ == "EFECTIVO"@)
    &&& t.columns@[9].domain == Some(DomainId::CreditStates)
    &&& t.columns@[10].name@ == "montoPagado"@
    &&& t.columns@[10].default == ColumnDefault::AmountValue(0)
    &&& t.columns@[11].domain == Some(DomainId::PaymentClasses)
    &&& t.columns@[14].default == ColumnDefault::Now
    &&& t.columns@[15].default == ColumnDefault::Now
    &&& t.foreign_keys@.len() == 1
    &&& t.foreign_keys@[0].col == 16
    &&& t.foreign_keys@[0].references == TableId::Apartment
    &&& t.foreign_keys@[0].on_delete == RefAction::SetNull
}

/// Declared constraints of the bank movement table: owned by its
/// account (cascade), at most one movement per transaction (unique weak
/// reference), weak reference to a service.
pub open spec fn movement_rules(t: TableDef) -> bool {
    &&& t.columns@.len() == 15
    &&& t.pk == 0
    &&& t.columns@[1].domain == Some(DomainId::MovementKinds)
    &&& t.columns@[3].default == ColumnDefault::Now
    &&& !t.columns@[4].nullable
    &&& t.columns@[8].domain == Some(DomainId::MovementClasses)
    &&& t.columns@[9].name@ == "conciliado"@
    &&& t.columns@[9].default == ColumnDefault::IntValue(0)
    &&& t.columns@[10].default == ColumnDefault::Now
    &&& t.columns@[11].default == ColumnDefault::Now
    &&& !t.columns@[12].nullable
    &&& t.columns@[13].name@ == "transaccionId"@
    &&& t.columns@[13].unique
    &&& t.foreign_keys@.len() == 3
    &&& t.foreign_keys@[0].col == 12
    &&& t.foreign_keys@[0].references == TableId::BankAccount
    &&& t.foreign_keys@[0].on_delete == RefAction::Cascade
    &&& t.foreign_keys@[1].col == 13
    &&& t.foreign_keys@[1].references == TableId::Transaction
    &&& t.foreign_keys@[1].on_delete == RefAction::SetNull
    &&& t.foreign_keys@[2].col == 14
    &&& t.foreign_keys@[2].references == TableId::Service
    &&& t.foreign_keys@[2].on_delete == RefAction::SetNull
}

/// Declared constraints of the operational log table: kind and status
/// draw from their closed sets.
pub open spec fn log_rules(t: TableDef) -> bool {
    &&& t.columns@.len() == 8
    &&& t.pk == 0
    &&& t.columns@[1].default == ColumnDefault::Now
    &&& t.columns@[2].domain == Some(DomainId::LogKinds)
    &&& !t.columns@[3].nullable
    &&& t.columns@[5].domain == Some(DomainId::LogStatuses)
    &&& (t.columns@[5].default matches ColumnDefault::TextValue(s) && s@ == "PENDIENTE"@)
    &&& t.columns@[6].default == ColumnDefault::Now
    &&& t.columns@[7].default == ColumnDefault::Now
}

/// Declared shape of the report notice table: an ordered display line
/// scoped to a (month, year) pair — both non-nullable integer columns,
/// the targets of the composite index — with an active flag and the
/// declared defaults.
pub open spec fn notice_rules(t: TableDef) -> bool {
    &&& t.columns@.len() == 8
    &&& t.pk == 0
    &&& t.columns@[0].name@ == "id"@ && !t.columns@[0].nullable
    &&& t.columns@[1].name@ == "texto"@ && !t.columns@[1].nullable
    &&& t.columns@[2].name@ == "orden"@ && t.columns@[2].ty == ColumnType::Integer
    &&& t.columns@[2].default == ColumnDefault::IntValue(0)
    &&& t.columns@[3].name@ == "mes"@ && t.columns@[3].ty == ColumnType::Integer
    &&& !t.columns@[3].nullable
    &&& t.columns@[4].name@ == "anio"@ && t.columns@[4].ty == ColumnType::Integer
    &&& !t.columns@[4].nullable
    &&& t.columns@[5].name@ == "activo"@ && t.columns@[5].ty == ColumnType::Integer
    &&& t.columns@[5].default == ColumnDefault::IntValue(1)
    &&& t.columns@[6].default == ColumnDefault::Now
    &&& t.columns@[7].default == ColumnDefault::Now
    &&& t.composite_uniques@.len() == 0
    &&& t.foreign_keys@.len() == 0
}

/// Declared constraints of the report setting table: the key is
/// globally unique.
pub open spec fn setting_rules(t: TableDef) -> bool {
    &&& t.columns@.len() == 5
    &&& t.pk == 0
    &&& t.columns@[1].name@ == "clave"@
    &&& t.columns@[1].unique
    &&& !t.columns@[1].nullable
    &&& !t.columns@[2].nullable
    &&& t.columns@[3].default == ColumnDefault::Now
    &&& t.columns@[4].default == ColumnDefault::Now
}

pub fn apartment_table() -> (t: TableDef)
    ensures
        t.id == TableId::Apartment,
        wf_table_def(t),
        apartment_rules(t),
{
    let mut cols: Vec<Column> = Vec::new();
    cols.push(Column { name: "id", ty: ColumnType::Text, nullable: false, default: ColumnDefault::NoDefault, domain: None, unique: false });
    cols.push(Column { name: "numero", ty: ColumnType::Text, nullable: false, default: ColumnDefault::NoDefault, domain: None, unique: false });
    cols.push(Column { name: "piso", ty: ColumnType::Integer, nullable: true, default: ColumnDefault::NoDefault, domain: None, unique: false });
    cols.push(Column { name: "alicuota", ty: ColumnType::Amount, nullable: true, default: ColumnDefault::AmountValue(0), domain: None, unique: false });
    cols.push(Column { name: "gastosComunes", ty: ColumnType::Amount, nullable: true, default: ColumnDefault::AmountValue(0), domain: None, unique: false });
    cols.push(Column { name: "fondoReserva", ty: ColumnType::Amount, nullable: true, default: ColumnDefault::AmountValue(0), domain: None, unique: false });
    cols.push(Column { name: "tipoOcupacion", ty: ColumnType::Text, nullable: true, default: ColumnDefault::TextValue("PROPIETARIO"), domain: Some(DomainId::OccupancyKinds), unique: false });
    cols.push(Column { name: "contactoNombre", ty: ColumnType::Text, nullable: true, default: ColumnDefault::NoDefault, domain: None, unique: false });
    cols.push(Column { name: "contactoApellido", ty: ColumnType::Text, nullable: true, default: ColumnDefault::NoDefault, domain: None, unique: false });
    cols.push(Column { name: "contactoCelular", ty: ColumnType::Text, nullable: true, default: ColumnDefault::NoDefault, domain: None, unique: false });
    cols.push(Column { name: "contactoEmail", ty: ColumnType::Text, nullable: true, default: ColumnDefault::NoDefault, domain: None, unique: false });
    cols.push(Column { name: "notas", ty: ColumnType::Text, nullable: true, default: ColumnDefault::NoDefault, domain: None, unique: false });
    cols.push(Column { name: "createdAt", ty: ColumnType::Text, nullable: true, default: ColumnDefault::Now, domain: None, unique: false });
    cols.push(Column { name: "updatedAt", ty: ColumnType::Text, nullable: true, default: ColumnDefault::Now, domain: None, unique: false });
    let mut uniques: Vec<CompositeUnique> = Vec::new();
    uniques.push(CompositeUnique { first: 1, second: 6 });
    TableDef {
        id: TableId::Apartment,
        name: "Apartamento",
        columns: cols,
        pk: 0,
        composite_uniques: uniques,
        foreign_keys: Vec::new(),
    }
}

pub fn tenant_table() -> (t: TableDef)
    ensures
        t.id == TableId::Tenant,
        wf_table_def(t),
        tenant_rules(t),
{
    let mut cols: Vec<Column> = Vec::new();
    cols.push(Column { name: "id", ty: ColumnType::Text, nullable: false, default: ColumnDefault::NoDefault, domain: None, unique: false });
    cols.push(Column { name: "nombre", ty: ColumnType::Text, nullable: false, default: ColumnDefault::NoDefault, domain: None, unique: false });
    cols.push(Column { name: "apellido", ty: ColumnType::Text, nullable: false, default: ColumnDefault::NoDefault, domain: None, unique: false });
    cols.push(Column { name: "cedula", ty: ColumnType::Text, nullable: true, default: ColumnDefault::NoDefault, domain: None, unique: true });
    cols.push(Column { name: "email", ty: ColumnType::Text, nullable: true, default: ColumnDefault::NoDefault, domain: None, unique: false });
    cols.push(Column { name: "telefono", ty: ColumnType::Text, nullable: true, default: ColumnDefault::NoDefault, domain: None, unique: false });
    cols.push(Column { name: "tipo", ty: ColumnType::Text, nullable: true, default: ColumnDefault::TextValue("INQUILINO"), domain: Some(DomainId::OccupancyKinds), unique: false });
    cols.push(Column { name: "activo", ty: ColumnType::Integer, nullable: true, default: ColumnDefault::IntValue(1), domain: None, unique: false });
    cols.push(Column { name: "fechaIngreso", ty: ColumnType::Text, nullable: true, default: ColumnDefault::Now, domain: None, unique: false });
    cols.push(Column { name: "fechaSalida", ty: ColumnType::Text, nullable: true, default: ColumnDefault::NoDefault, domain: None, unique: false });
    cols.push(Column { name: "notas", ty: ColumnType::Text, nullable: true, default: ColumnDefault::NoDefault, domain: None, unique: false });
    cols.push(Column { name: "createdAt", ty: ColumnType::Text, nullable: true, default: ColumnDefault::Now, domain: None, unique: false });
    cols.push(Column { name: "updatedAt", ty: ColumnType::Text, nullable: true, default: ColumnDefault::Now, domain: None, unique: false });
    cols.push(Column { name: "apartamentoId", ty: ColumnType::Text, nullable: true, default: ColumnDefault::NoDefault, domain: None, unique: false });
    let mut fks: Vec<ForeignKey> = Vec::new();
    fks.push(ForeignKey { col: 13, references: TableId::Apartment, on_delete: RefAction::SetNull });
    TableDef {
        id: TableId::Tenant,
        name: "Inquilino",
        columns: cols,
        pk: 0,
        composite_uniques: Vec::new(),
        foreign_keys: fks,
    }
}

pub fn bank_account_table() -> (t: TableDef)
    ensures
        t.id == TableId::BankAccount,
        wf_table_def(t),
        bank_account_rules(t),
{
    let mut cols: Vec<Column> = Vec::new();
    cols.push(Column { name: "id", ty: ColumnType::Text, nullable: false, default: ColumnDefault::NoDefault, domain: None, unique: false });
    cols.push(Column { name: "banco", ty: ColumnType::Text, nullable: false, default: ColumnDefault::NoDefault, domain: None, unique: false });
    cols.push(Column { name: "tipoCuenta", ty: ColumnType::Text, nullable: false, default: ColumnDefault::NoDefault, domain: None, unique: false });
    cols.push(Column { name: "numeroCuenta", ty: ColumnType::Text, nullable: false, default: ColumnDefault::NoDefault, domain: None, unique: false });
    cols.push(Column { name: "titular", ty: ColumnType::Text, nullable: true, default: ColumnDefault::NoDefault, domain: None, unique: false });
    cols.push(Column { name: "saldoInicial", ty: ColumnType::Amount, nullable: true, default: ColumnDefault::AmountValue(0), domain: None, unique: false });
    cols.push(Column { name: "activa", ty: ColumnType::Integer, nullable: true, default: ColumnDefault::IntValue(1), domain: None, unique: false });
    cols.push(Column { name: "porDefecto", ty: ColumnType::Integer, nullable: true, default: ColumnDefault::IntValue(0), domain: None, unique: false });
    cols.push(Column { name: "createdAt", ty: ColumnType::Text, nullable: true, default: ColumnDefault::Now, domain: None, unique: false });
    cols.push(Column { name: "updatedAt", ty: ColumnType::Text, nullable: true, default: ColumnDefault::Now, domain: None, unique: false });
    TableDef {
        id: TableId::BankAccount,
        name: "CuentaBancaria",
        columns: cols,
        pk: 0,
        composite_uniques: Vec::new(),
        foreign_keys: Vec::new(),
    }
}

pub fn service_type_table() -> (t: TableDef)
    ensures
        t.id == TableId::ServiceType,
        wf_table_def(t),
        service_type_rules(t),
{
    let mut cols: Vec<Column> = Vec::new();
    cols.push(Column { name: "id", ty: ColumnType::Text, nullable: false, default: ColumnDefault::NoDefault, domain: None, unique: false });
    cols.push(Column { name: "codigo", ty: ColumnType::Text, nullable: false, default: ColumnDefault::NoDefault, domain: None, unique: true });
    cols.push(Column { name: "nombre", ty: ColumnType::Text, nullable: false, default: ColumnDefault::NoDefault, domain: None, unique: false });
    cols.push(Column { name: "color", ty: ColumnType::Text, nullable: true, default: ColumnDefault::TextValue("default"), domain: None, unique: false });
    cols.push(Column { name: "orden", ty: ColumnType::Integer, nullable: true, default: ColumnDefault::IntValue(0), domain: None, unique: false });
    cols.push(Column { name: "activo", ty: ColumnType::Integer, nullable: true, default: ColumnDefault::IntValue(1), domain: None, unique: false });
    cols.push(Column { name: "createdAt", ty: ColumnType::Text, nullable: true, default: ColumnDefault::Now, domain: None, unique: false });
    cols.push(Column { name: "updatedAt", ty: ColumnType::Text, nullable: true, default: ColumnDefault::Now, domain: None, unique: false });
    TableDef {
        id: TableId::ServiceType,
        name: "TipoServicio",
        columns: cols,
        pk: 0,
        composite_uniques: Vec::new(),
        foreign_keys: Vec::new(),
    }
}

pub fn service_table() -> (t: TableDef)
    ensures
        t.id == TableId::Service,
        wf_table_def(t),
        service_rules(t),
{
    let mut cols: Vec<Column> = Vec::new();
    cols.push(Column { name: "id", ty: ColumnType::Text, nullable: false, default: ColumnDefault::NoDefault, domain: None, unique: false });
    cols.push(Column { name: "tipo", ty: ColumnType::Text, nullable: false, default: ColumnDefault::NoDefault, domain: None, unique: false });
    cols.push(Column { name: "nombre", ty: ColumnType::Text, nullable: false, default: ColumnDefault::NoDefault, domain: None, unique: false });
    cols.push(Column { name: "celular", ty: ColumnType::Text, nullable: true, default: ColumnDefault::NoDefault, domain: None, unique: false });
    cols.push(Column { name: "email", ty: ColumnType::Text, nullable: true, default: ColumnDefault::NoDefault, domain: None, unique: false });
    cols.push(Column { name: "banco", ty: ColumnType::Text, nullable: true, default: ColumnDefault::NoDefault, domain: None, unique: false });
    cols.push(Column { name: "numeroCuenta", ty: ColumnType::Text, nullable: true, default: ColumnDefault::NoDefault, domain: None, unique: false });
    cols.push(Column { name: "observaciones", ty: ColumnType::Text, nullable: true, default: ColumnDefault::NoDefault, domain: None, unique: false });
    cols.push(Column { name: "activo", ty: ColumnType::Integer, nullable: true, default: ColumnDefault::IntValue(1), domain: None, unique: false });
    cols.push(Column { name: "createdAt", ty: ColumnType::Text, nullable: true, default: ColumnDefault::Now, domain: None, unique: false });
    cols.push(Column { name: "updatedAt", ty: ColumnType::Text, nullable: true, default: ColumnDefault::Now, domain: None, unique: false });
    TableDef {
        id: TableId::Service,
        name: "Servicio",
        columns: cols,
        pk: 0,
        composite_uniques: Vec::new(),
        foreign_keys: Vec::new(),
    }
}

pub fn transaction_table() -> (t: TableDef)
    ensures
        t.id == TableId::Transaction,
        wf_table_def(t),
        transaction_rules(t),
{
    let mut cols: Vec<Column> = Vec::new();
    cols.push(Column { name: "id", ty: ColumnType::Text, nullable: false, default: ColumnDefault::NoDefault, domain: None, unique: false });
    cols.push(Column { name: "tipo", ty: ColumnType::Text, nullable: false, default: ColumnDefault::NoDefault, domain: Some(DomainId::TransactionKinds), unique: false });
    cols.push(Column { name: "monto", ty: ColumnType::Amount, nullable: false, default: ColumnDefault::NoDefault, domain: None, unique: false });
    cols.push(Column { name: "fecha", ty: ColumnType::Text, nullable: true, default: ColumnDefault::Now, domain: None, unique: false });
    cols.push(Column { name: "categoria", ty: ColumnType::Text, nullable: true, default: ColumnDefault::NoDefault, domain: Some(DomainId::Categories), unique: false });
    cols.push(Column { name: "descripcion", ty: ColumnType::Text, nullable: true, default: ColumnDefault::NoDefault, domain: None, unique: false });
    cols.push(Column { name: "referencia", ty: ColumnType::Text, nullable: true, default: ColumnDefault::NoDefault, domain: None, unique: false });
    cols.push(Column { name: "metodoPago", ty: ColumnType::Text, nullable: true, default: ColumnDefault::TextValue("EFECTIVO"), domain: Some(DomainId::PaymentMethods), unique: false });
    cols.push(Column { name: "notas", ty: ColumnType::Text, nullable: true, default: ColumnDefault::NoDefault, domain: None, unique: false });
    cols.push(Column { name: "estadoCredito", ty: ColumnType::Text, nullable: true, default: ColumnDefault::NoDefault, domain: Some(DomainId::CreditStates), unique: false });
    cols.push(Column { name: "montoPagado", ty: ColumnType::Amount, nullable: true, default: ColumnDefault::AmountValue(0), domain: None, unique: false });
    cols.push(Column { name: "clasificacionPago", ty: ColumnType::Text, nullable: true, default: ColumnDefault::NoDefault, domain: Some(DomainId::PaymentClasses), unique: false });
    cols.push(Column { name: "montoGastoComun", ty: ColumnType::Amount, nullable: true, default: ColumnDefault::NoDefault, domain: None, unique: false });
    cols.push(Column { name: "montoFondoReserva", ty: ColumnType::Amount, nullable: true, default: ColumnDefault::NoDefault, domain: None, unique: false });
    cols.push(Column { name: "createdAt", ty: ColumnType::Text, nullable: true, default: ColumnDefault::Now, domain: None, unique: false });
    cols.push(Column { name: "updatedAt", ty: ColumnType::Text, nullable: true, default: ColumnDefault::Now, domain: None, unique: false });
    cols.push(Column { name: "apartamentoId", ty: ColumnType::Text, nullable: true, default: ColumnDefault::NoDefault, domain: None, unique: false });
    let mut fks: Vec<ForeignKey> = Vec::new();
    fks.push(ForeignKey { col: 16, references: TableId::Apartment, on_delete: RefAction::SetNull });
    TableDef {
        id: TableId::Transaction,
        name: "Transaccion",
        columns: cols,
        pk: 0,
        composite_uniques: Vec::new(),
        foreign_keys: fks,
    }
}

pub fn movement_table() -> (t: TableDef)
    ensures
        t.id == TableId::BankMovement,
        wf_table_def(t),
        movement_rules(t),
{
    let mut cols: Vec<Column> = Vec::new();
    cols.push(Column { name: "id", ty: ColumnType::Text, nullable: false, default: ColumnDefault::NoDefault, domain: None, unique: false });
    cols.push(Column { name: "tipo", ty: ColumnType::Text, nullable: false, default: ColumnDefault::NoDefault, domain: Some(DomainId::MovementKinds), unique: false });
    cols.push(Column { name: "monto", ty: ColumnType::Amount, nullable: false, default: ColumnDefault::NoDefault, domain: None, unique: false });
    cols.push(Column { name: "fecha", ty: ColumnType::Text, nullable: true, default: ColumnDefault::Now, domain: None, unique: false });
    cols.push(Column { name: "descripcion", ty: ColumnType::Text, nullable: false, default: ColumnDefault::NoDefault, domain: None, unique: false });
    cols.push(Column { name: "referencia", ty: ColumnType::Text, nullable: true, default: ColumnDefault::NoDefault, domain: None, unique: false });
    cols.push(Column { name: "numeroDocumento", ty: ColumnType::Text, nullable: true, default: ColumnDefault::NoDefault, domain: None, unique: false });
    cols.push(Column { name: "archivoUrl", ty: ColumnType::Text, nullable: true, default: ColumnDefault::NoDefault, domain: None, unique: false });
    cols.push(Column { name: "clasificacion", ty: ColumnType::Text, nullable: true, default: ColumnDefault::NoDefault, domain: Some(DomainId::MovementClasses), unique: false });
    cols.push(Column { name: "conciliado", ty: ColumnType::Integer, nullable: true, default: ColumnDefault::IntValue(0), domain: None, unique: false });
    cols.push(Column { name: "createdAt", ty: ColumnType::Text, nullable: true, default: ColumnDefault::Now, domain: None, unique: false });
    cols.push(Column { name: "updatedAt", ty: ColumnType::Text, nullable: true, default: ColumnDefault::Now, domain: None, unique: false });
    cols.push(Column { name: "cuentaBancariaId", ty: ColumnType::Text, nullable: false, default: ColumnDefault::NoDefault, domain: None, unique: false });
    cols.push(Column { name: "transaccionId", ty: ColumnType::Text, nullable: true, default: ColumnDefault::NoDefault, domain: None, unique: true });
    cols.push(Column { name: "servicioId", ty: ColumnType::Text, nullable: true, default: ColumnDefault::NoDefault, domain: None, unique: false });
    let mut fks: Vec<ForeignKey> = Vec::new();
    fks.push(ForeignKey { col: 12, references: TableId::BankAccount, on_delete: RefAction::Cascade });
    fks.push(ForeignKey { col: 13, references: TableId::Transaction, on_delete: RefAction::SetNull });
    fks.push(ForeignKey { col: 14, references: TableId::Service, on_delete: RefAction::SetNull });
    TableDef {
        id: TableId::BankMovement,
        name: "MovimientoBancario",
        columns: cols,
        pk: 0,
        composite_uniques: Vec::new(),
        foreign_keys: fks,
    }
}

pub fn log_table() -> (t: TableDef)
    ensures
        t.id == TableId::LogEntry,
        wf_table_def(t),
        log_rules(t),
{
    let mut cols: Vec<Column> = Vec::new();
    cols.push(Column { name: "id", ty: ColumnType::Text, nullable: false, default: ColumnDefault::NoDefault, domain: None, unique: false });
    cols.push(Column { name: "fecha", ty: ColumnType::Text, nullable: true, default: ColumnDefault::Now, domain: None, unique: false });
    cols.push(Column { name: "tipo", ty: ColumnType::Text, nullable: false, default: ColumnDefault::NoDefault, domain: Some(DomainId::LogKinds), unique: false });
    cols.push(Column { name: "detalle", ty: ColumnType::Text, nullable: false, default: ColumnDefault::NoDefault, domain: None, unique: false });
    cols.push(Column { name: "observaciones", ty: ColumnType::Text, nullable: true, default: ColumnDefault::NoDefault, domain: None, unique: false });
    cols.push(Column { name: "situacion", ty: ColumnType::Text, nullable: true, default: ColumnDefault::TextValue("PENDIENTE"), domain: Some(DomainId::LogStatuses), unique: false });
    cols.push(Column { name: "createdAt", ty: ColumnType::Text, nullable: true, default: ColumnDefault::Now, domain: None, unique: false });
    cols.push(Column { name: "updatedAt", ty: ColumnType::Text, nullable: true, default: ColumnDefault::Now, domain: None, unique: false });
    TableDef {
        id: TableId::LogEntry,
        name: "Registro",
        columns: cols,
        pk: 0,
        composite_uniques: Vec::new(),
        foreign_keys: Vec::new(),
    }
}

pub fn notice_table() -> (t: TableDef)
    ensures
        t.id == TableId::ReportNotice,
        wf_table_def(t),
        notice_rules(t),
{
    let mut cols: Vec<Column> = Vec::new();
    cols.push(Column { name: "id", ty: ColumnType::Text, nullable: false, default: ColumnDefault::NoDefault, domain: None, unique: false });
    cols.push(Column { name: "texto", ty: ColumnType::Text, nullable: false, default: ColumnDefault::NoDefault, domain: None, unique: false });
    cols.push(Column { name: "orden", ty: ColumnType::Integer, nullable: true, default: ColumnDefault::IntValue(0), domain: None, unique: false });
    cols.push(Column { name: "mes", ty: ColumnType::Integer, nullable: false, default: ColumnDefault::NoDefault, domain: None, unique: false });
    cols.push(Column { name: "anio", ty: ColumnType::Integer, nullable: false, default: ColumnDefault::NoDefault, domain: None, unique: false });
    cols.push(Column { name: "activo", ty: ColumnType::Integer, nullable: true, default: ColumnDefault::IntValue(1), domain: None, unique: false });
    cols.push(Column { name: "createdAt", ty: ColumnType::Text, nullable: true, default: ColumnDefault::Now, domain: None, unique: false });
    cols.push(Column { name: "updatedAt", ty: ColumnType::Text, nullable: true, default: ColumnDefault::Now, domain: None, unique: false });
    TableDef {
        id: TableId::ReportNotice,
        name: "AvisoInforme",
        columns: cols,
        pk: 0,
        composite_uniques: Vec::new(),
        foreign_keys: Vec::new(),
    }
}

pub fn setting_table() -> (t: TableDef)
    ensures
        t.id == TableId::ReportSetting,
        wf_table_def(t),
        setting_rules(t),
{
    let mut cols: Vec<Column> = Vec::new();
    cols.push(Column { name: "id", ty: ColumnType::Text, nullable: false, default: ColumnDefault::NoDefault, domain: None, unique: false });
    cols.push(Column { name: "clave", ty: ColumnType::Text, nullable: false, default: ColumnDefault::NoDefault, domain: None, unique: true });
    cols.push(Column { name: "valor", ty: ColumnType::Text, nullable: false, default: ColumnDefault::NoDefault, domain: None, unique: false });
    cols.push(Column { name: "createdAt", ty: ColumnType::Text, nullable: true, default: ColumnDefault::Now, domain: None, unique: false });
    cols.push(Column { name: "updatedAt", ty: ColumnType::Text, nullable: true, default: ColumnDefault::Now, domain: None, unique: false });
    TableDef {
        id: TableId::ReportSetting,
        name: "ConfiguracionInforme",
        columns: cols,
        pk: 0,
        composite_uniques: Vec::new(),
        foreign_keys: Vec::new(),
    }
}

/// The declared indexes: foreign-key lookups and the (month, year)
/// composite for report notices, each pinned to the columns it covers.
pub fn catalog_indexes() -> (r: Vec<IndexDef>)
    ensures
        r@.len() == 6,
        r@[0].id == IndexId::TenantApartment && r@[0].table == TableId::Tenant && r@[0].col == 13
            && r@[0].col2 is None,
        r@[1].id == IndexId::TransactionApartment && r@[1].table == TableId::Transaction
            && r@[1].col == 16 && r@[1].col2 is None,
        r@[2].id == IndexId::MovementAccount && r@[2].table == TableId::BankMovement && r@[2].col
            == 12 && r@[2].col2 is None,
        r@[3].id == IndexId::MovementTransaction && r@[3].table == TableId::BankMovement
            && r@[3].col == 13 && r@[3].col2 is None,
        r@[4].id == IndexId::MovementService && r@[4].table == TableId::BankMovement && r@[4].col
            == 14 && r@[4].col2 is None,
        r@[5].id == IndexId::NoticeMonthYear && r@[5].table == TableId::ReportNotice && r@[5].col
            == 3 && r@[5].col2 == Some(4usize),
{
    let mut r: Vec<IndexDef> = Vec::new();
    r.push(IndexDef { id: IndexId::TenantApartment, name: "idx_inquilino_apartamento", table: TableId::Tenant, col: 13, col2: None });
    r.push(IndexDef { id: IndexId::TransactionApartment, name: "idx_transaccion_apartamento", table: TableId::Transaction, col: 16, col2: None });
    r.push(IndexDef { id: IndexId::MovementAccount, name: "idx_movimiento_cuenta", table: TableId::BankMovement, col: 12, col2: None });
    r.push(IndexDef { id: IndexId::MovementTransaction, name: "idx_movimiento_transaccion", table: TableId::BankMovement, col: 13, col2: None });
    r.push(IndexDef { id: IndexId::MovementService, name: "idx_movimiento_servicio", table: TableId::BankMovement, col: 14, col2: None });
    r.push(IndexDef { id: IndexId::NoticeMonthYear, name: "idx_aviso_mes_anio", table: TableId::ReportNotice, col: 3, col2: Some(4) });
    r
}

/// Identity of the table a statement position in the initial change-set
/// creates, in declaration order.
pub open spec fn catalog_table_ids() -> Seq<TableId> {
    seq![
        TableId::Apartment,
        TableId::Tenant,
        TableId::BankAccount,
        TableId::ServiceType,
        TableId::Service,
        TableId::Transaction,
        TableId::BankMovement,
        TableId::LogEntry,
        TableId::ReportNotice,
        TableId::ReportSetting,
    ]
}

/// The full catalog: every entity table of the store, in declaration
/// order, each well formed and carrying its declared constraints.
pub fn catalog_tables() -> (r: Vec<TableDef>)
    ensures
        r@.len() == 10,
        forall|i: int| 0 <= i < 10 ==> #[trigger] r@[i].id == catalog_table_ids()[i],
        forall|i: int| 0 <= i < 10 ==> wf_table_def(#[trigger] r@[i]),
        apartment_rules(r@[0]),
        tenant_rules(r@[1]),
        bank_account_rules(r@[2]),
        service_type_rules(r@[3]),
        service_rules(r@[4]),
        transaction_rules(r@[5]),
        movement_rules(r@[6]),
        log_rules(r@[7]),
        notice_rules(r@[8]),
        setting_rules(r@[9]),
{
    let mut r: Vec<TableDef> = Vec::new();
    r.push(apartment_table());
    r.push(tenant_table());
    r.push(bank_account_table());
    r.push(service_type_table());
    r.push(service_table());
    r.push(transaction_table());
    r.push(movement_table());
    r.push(log_table());
    r.push(notice_table());
    r.push(setting_table());
    r
}

} // verus!
