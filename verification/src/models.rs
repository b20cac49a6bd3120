//! The records the payroll rules work on.
//!
//! Identifiers are 128-bit numbers, points in time are microseconds since the Unix
//! epoch, and money is a [`Decimal`].

use vstd::prelude::*;
use vstd::std_specs::convert::FromSpecImpl;
use vstd::string::StringExecFns;
use crate::decimal::{Decimal, DecimalValue};

verus! {

/// The hyphenated lower-case hexadecimal text of the identifier with the given value,
/// as the `uuid` crate writes it.
pub uninterp spec fn uuid_hyphenated(value: nat) -> Seq<char>;

/// The value of the identifier that the `uuid` crate reads from `text`; `None` where it
/// reads none.
pub uninterp spec fn uuid_parsed(text: Seq<char>) -> Option<nat>;

/// A 128-bit identifier.
#[derive(Clone, Copy, Debug, PartialEq, Eq, Structural)]
pub struct Uuid {
    pub value: u128,
}

impl Uuid {
    /// The identifier with the given value.
    pub fn from_u128(value: u128) -> (id: Uuid)
        ensures
            id.value == value,
    {
        Uuid { value }
    }

    /// The value of the identifier.
    pub fn as_u128(&self) -> (value: u128)
        ensures
            value == self.value,
    {
        self.value
    }

    /// Reads an identifier from text, in any of the forms the `uuid` crate accepts.
    pub fn parse_str(text: &str) -> (r: Option<Uuid>)
        ensures
            match r {
                Some(id) => uuid_parsed(text@) == Some(id.value as nat),
                None => uuid_parsed(text@) is None,
            },
    {
        match uuid_from_str(text) {
            Some(value) => Some(Uuid { value }),
            None => None,
        }
    }

    /// The identifier as text.
    pub open spec fn text(self) -> Seq<char> {
        uuid_hyphenated(self.value as nat)
    }

    /// The identifier as hyphenated lower-case hexadecimal text.
    pub fn to_text(&self) -> (s: String)
        ensures
            s@ == self.text(),
    {
        uuid_to_string(self.value)
    }
}

/// Formats through `Display` of `uuid::Uuid`, built by `uuid::Uuid::from_u128`.
/// Trusted: the text is the one that [`uuid_hyphenated`] names.
#[verifier::external_body]
fn uuid_to_string(value: u128) -> (s: String)
    ensures
        s@ == uuid_hyphenated(value as nat),
{
    uuid::Uuid::from_u128(value).to_string()
}

/// An organization that pays salaries out of its wallet.
#[derive(Clone, Debug)]
pub struct Organization {
    pub id: Uuid,
    pub name: String,
    pub email: String,
    pub password_hash: String,
    pub wallet_balance: Decimal,
    pub created_at: i64,
    pub updated_at: i64,
}

#[derive(Debug)]
pub struct CreateOrganizationRequest {
    pub name: String,
    pub email: String,
    pub password: String,
}

#[derive(Debug)]
pub struct LoginRequest {
    pub email: String,
    pub password: String,
}

#[derive(Debug)]
pub struct AuthResponse {
    pub token: String,
    pub organization: OrganizationPublic,
}

/// What an organization shows of itself: everything but the password hash.
#[derive(Clone, Debug)]
pub struct OrganizationPublic {
    pub id: Uuid,
    pub name: String,
    pub email: String,
    pub wallet_balance: Decimal,
    pub created_at: i64,
}

impl From<Organization> for OrganizationPublic {
    fn from(org: Organization) -> (public: OrganizationPublic) {
        OrganizationPublic {
            id: org.id,
            name: org.name,
            email: org.email,
            wallet_balance: org.wallet_balance,
            created_at: org.created_at,
        }
    }
}

impl FromSpecImpl<Organization> for OrganizationPublic {
    open spec fn obeys_from_spec() -> bool {
        true
    }

    open spec fn from_spec(org: Organization) -> OrganizationPublic {
        OrganizationPublic {
            id: org.id,
            name: org.name,
            email: org.email,
            wallet_balance: org.wallet_balance,
            created_at: org.created_at,
        }
    }
}

/// An employee with the bank details a disbursement goes to.
#[derive(Clone, Debug)]
pub struct Employee {
    pub id: Uuid,
    pub organization_id: Uuid,
    pub first_name: String,
    pub last_name: String,
    pub email: String,
    pub bank_account_number: String,
    pub bank_code: String,
    pub bank_name: String,
    pub base_salary: Decimal,
    pub is_active: bool,
    pub created_at: i64,
    pub updated_at: i64,
}

#[derive(Debug)]
pub struct CreateEmployeeRequest {
    pub first_name: String,
    pub last_name: String,
    pub email: String,
    pub bank_account_number: String,
    pub bank_code: String,
    pub bank_name: String,
    pub base_salary: Decimal,
}

#[derive(Debug)]
pub struct SetBaseSalaryRequest {
    pub base_salary: Decimal,
}

/// The statutory rates of an organization, each a percentage of the gross salary.
#[derive(Clone, Copy, Debug)]
pub struct TaxConfig {
    pub id: Uuid,
    pub organization_id: Uuid,
    /// Income tax, `7.5` meaning 7.5 %.
    pub paye_rate: Decimal,
    /// Pension contribution of the employee.
    pub pension_rate: Decimal,
    /// National Housing Fund.
    pub nhf_rate: Decimal,
    /// National Health Insurance Scheme.
    pub nhis_rate: Decimal,
    pub created_at: i64,
    pub updated_at: i64,
}

/// Calls `uuid::Uuid::parse_str` and takes the value with `uuid::Uuid::as_u128`.
/// Trusted: the value is the one that [`uuid_parsed`] names, `None` where parsing fails.
#[verifier::external_body]
fn uuid_from_str(text: &str) -> (r: Option<u128>)
    ensures
        match r {
            Some(value) => uuid_parsed(text@) == Some(value as nat),
            None => uuid_parsed(text@) is None,
        },
{
    match uuid::Uuid::parse_str(text) {
        Ok(id) => Some(id.as_u128()),
        Err(_) => None,
    }
}

impl TaxConfig {
    /// Whether all four rates are zero.
    pub open spec fn all_zero(self) -> bool {
        &&& self.paye_rate@ == DecimalValue::zero()
        &&& self.pension_rate@ == DecimalValue::zero()
        &&& self.nhf_rate@ == DecimalValue::zero()
        &&& self.nhis_rate@ == DecimalValue::zero()
    }

    /// The rates of an organization that has configured none: all zero.
    pub fn zero_rates(organization_id: Uuid) -> (config: TaxConfig)
        ensures
            config.all_zero(),
            config.organization_id == organization_id,
            config.id.value == 0,
            config.created_at == 0,
            config.updated_at == 0,
    {
        TaxConfig {
            id: Uuid { value: 0 },
            organization_id,
            paye_rate: Decimal::zero(),
            pension_rate: Decimal::zero(),
            nhf_rate: Decimal::zero(),
            nhis_rate: Decimal::zero(),
            created_at: 0,
            updated_at: 0,
        }
    }
}

#[derive(Clone, Copy, Debug)]
pub struct SetTaxConfigRequest {
    pub paye_rate: Decimal,
    pub pension_rate: Decimal,
    pub nhf_rate: Decimal,
    pub nhis_rate: Decimal,
}

/// The kinds of one-off adjustment to a salary.
#[derive(Clone, Copy, Debug, PartialEq, Eq, Structural)]
pub enum AdjustmentType {
    Overtime,
    Bonus,
    Commission,
    LateDayDeduction,
    UnpaidLeaveDeduction,
    OtherDeduction,
    OtherAddition,
}

impl AdjustmentType {
    /// Whether an adjustment of this kind is added to the salary.
    pub open spec fn adds(self) -> bool {
        self is Overtime || self is Bonus || self is Commission || self is OtherAddition
    }

    /// Whether an adjustment of this kind is taken off the salary. Every kind either
    /// adds or deducts, never both.
    pub open spec fn deducts(self) -> bool {
        self is LateDayDeduction || self is UnpaidLeaveDeduction || self is OtherDeduction
    }

    /// The name of the kind as the store and the wire know it.
    pub open spec fn label_of(self) -> Seq<char> {
        match self {
            AdjustmentType::Overtime => "overtime"@,
            AdjustmentType::Bonus => "bonus"@,
            AdjustmentType::Commission => "commission"@,
            AdjustmentType::LateDayDeduction => "late_day_deduction"@,
            AdjustmentType::UnpaidLeaveDeduction => "unpaid_leave_deduction"@,
            AdjustmentType::OtherDeduction => "other_deduction"@,
            AdjustmentType::OtherAddition => "other_addition"@,
        }
    }

    /// The name of the kind as the store and the wire know it.
    pub fn label(&self) -> (name: &'static str)
        ensures
            name@ == self.label_of(),
    {
        match self {
            AdjustmentType::Overtime => "overtime",
            AdjustmentType::Bonus => "bonus",
            AdjustmentType::Commission => "commission",
            AdjustmentType::LateDayDeduction => "late_day_deduction",
            AdjustmentType::UnpaidLeaveDeduction => "unpaid_leave_deduction",
            AdjustmentType::OtherDeduction => "other_deduction",
            AdjustmentType::OtherAddition => "other_addition",
        }
    }

    /// The kind with the given name, if there is one.
    pub fn from_label(name: &str) -> (r: Option<AdjustmentType>)
        ensures
            match r {
                Some(kind) => kind.label_of() == name@,
                None => forall|kind: AdjustmentType| kind.label_of() != name@,
            },
    {
        if same_text(name, "overtime") {
            Some(AdjustmentType::Overtime)
        } else if same_text(name, "bonus") {
            Some(AdjustmentType::Bonus)
        } else if same_text(name, "commission") {
            Some(AdjustmentType::Commission)
        } else if same_text(name, "late_day_deduction") {
            Some(AdjustmentType::LateDayDeduction)
        } else if same_text(name, "unpaid_leave_deduction") {
            Some(AdjustmentType::UnpaidLeaveDeduction)
        } else if same_text(name, "other_deduction") {
            Some(AdjustmentType::OtherDeduction)
        } else if same_text(name, "other_addition") {
            Some(AdjustmentType::OtherAddition)
        } else {
            None
        }
    }

    /// Whether an adjustment of this kind is added to the salary.
    pub fn is_addition(&self) -> (r: bool)
        ensures
            r == self.adds(),
            r == !self.deducts(),
    {
        match self {
            AdjustmentType::Overtime => true,
            AdjustmentType::Bonus => true,
            AdjustmentType::Commission => true,
            AdjustmentType::OtherAddition => true,
            AdjustmentType::LateDayDeduction => false,
            AdjustmentType::UnpaidLeaveDeduction => false,
            AdjustmentType::OtherDeduction => false,
        }
    }

    /// Whether an adjustment of this kind is taken off the salary.
    pub fn is_deduction(&self) -> (r: bool)
        ensures
            r == self.deducts(),
            r == !self.adds(),
    {
        !self.is_addition()
    }
}

/// One addition to or deduction from an employee's pay in one pay period.
#[derive(Clone, Debug)]
pub struct PayrollAdjustment {
    pub id: Uuid,
    pub employee_id: Uuid,
    pub organization_id: Uuid,
    pub adjustment_type: AdjustmentType,
    pub amount: Decimal,
    pub description: String,
    /// `YYYY-MM`.
    pub pay_period: String,
    pub created_at: i64,
}

#[derive(Debug)]
pub struct AddAdjustmentRequest {
    pub amount: Decimal,
    pub description: String,
    /// `YYYY-MM`.
    pub pay_period: String,
}

/// Where a payroll run stands.
#[derive(Clone, Copy, Debug, PartialEq, Eq, Structural)]
pub enum PayrollStatus {
    Pending,
    Processing,
    Completed,
    Failed,
}

impl PayrollStatus {
    /// A run that is completed or failed never changes again.
    pub open spec fn terminal(self) -> bool {
        self is Completed || self is Failed
    }

    /// A run in this state stands in the way of another run for the same organization
    /// and pay period: every state but `Failed`.
    pub open spec fn blocks_new_run(self) -> bool {
        !(self is Failed)
    }

    /// The name of the status as the store and the wire know it.
    pub open spec fn label_of(self) -> Seq<char> {
        match self {
            PayrollStatus::Pending => "pending"@,
            PayrollStatus::Processing => "processing"@,
            PayrollStatus::Completed => "completed"@,
            PayrollStatus::Failed => "failed"@,
        }
    }

    /// The name of the status as the store and the wire know it.
    pub fn label(&self) -> (name: &'static str)
        ensures
            name@ == self.label_of(),
    {
        match self {
            PayrollStatus::Pending => "pending",
            PayrollStatus::Processing => "processing",
            PayrollStatus::Completed => "completed",
            PayrollStatus::Failed => "failed",
        }
    }

    /// The status with the given name, if there is one.
    pub fn from_label(name: &str) -> (r: Option<PayrollStatus>)
        ensures
            match r {
                Some(status) => status.label_of() == name@,
                None => forall|status: PayrollStatus| status.label_of() != name@,
            },
    {
        if same_text(name, "pending") {
            Some(PayrollStatus::Pending)
        } else if same_text(name, "processing") {
            Some(PayrollStatus::Processing)
        } else if same_text(name, "completed") {
            Some(PayrollStatus::Completed)
        } else if same_text(name, "failed") {
            Some(PayrollStatus::Failed)
        } else {
            None
        }
    }

    /// Whether the run has reached its end.
    pub fn is_terminal(&self) -> (r: bool)
        ensures
            r == self.terminal(),
    {
        match self {
            PayrollStatus::Completed => true,
            PayrollStatus::Failed => true,
            PayrollStatus::Pending => false,
            PayrollStatus::Processing => false,
        }
    }

    /// Whether the run is pending, processing or completed.
    pub fn is_active_or_completed(&self) -> (r: bool)
        ensures
            r == self.blocks_new_run(),
    {
        match self {
            PayrollStatus::Failed => false,
            PayrollStatus::Pending => true,
            PayrollStatus::Processing => true,
            PayrollStatus::Completed => true,
        }
    }
}

/// One payroll execution for an organization and a pay period.
#[derive(Clone, Debug)]
pub struct PayrollRun {
    pub id: Uuid,
    pub organization_id: Uuid,
    pub pay_period: String,
    pub status: PayrollStatus,
    pub total_gross: Decimal,
    pub total_deductions: Decimal,
    pub total_net: Decimal,
    pub employee_count: i32,
    pub initiated_at: i64,
    pub completed_at: Option<i64>,
}

#[derive(Debug)]
pub struct RunPayrollRequest {
    /// `YYYY-MM`.
    pub pay_period: String,
}

/// The durable record of what a run did for one employee.
#[derive(Clone, Debug)]
pub struct PayrollSlip {
    pub id: Uuid,
    pub payroll_run_id: Uuid,
    pub employee_id: Uuid,
    pub organization_id: Uuid,
    pub pay_period: String,
    pub base_salary: Decimal,
    pub total_additions: Decimal,
    pub gross_salary: Decimal,
    pub paye_tax: Decimal,
    pub pension_deduction: Decimal,
    pub nhf_deduction: Decimal,
    pub nhis_deduction: Decimal,
    pub other_deductions: Decimal,
    pub total_deductions: Decimal,
    pub net_salary: Decimal,
    pub monnify_reference: Option<String>,
    /// `success` or `failed`.
    pub payment_status: String,
    pub created_at: i64,
}

#[derive(Debug)]
pub struct FundWalletRequest {
    pub amount: Decimal,
    pub customer_name: String,
    pub customer_email: String,
}

#[derive(Debug)]
pub struct FundWalletResponse {
    pub checkout_url: String,
    pub payment_reference: String,
    pub amount: Decimal,
}

/// The claims of a session token.
#[derive(Debug)]
pub struct Claims {
    pub sub: String,
    pub org_name: String,
    pub exp: usize,
    pub iat: usize,
}

/// Whether two texts are the same.
pub fn same_text(a: &str, b: &str) -> (same: bool)
    ensures
        same == (a@ == b@),
{
    String::from_str(a) == String::from_str(b)
}

/// No two kinds of adjustment share a name, and no two statuses do: the names differ
/// in length.
pub proof fn lemma_labels_are_distinct()
    ensures
        forall|a: AdjustmentType, b: AdjustmentType| a.label_of() == b.label_of() ==> a == b,
        forall|a: PayrollStatus, b: PayrollStatus| a.label_of() == b.label_of() ==> a == b,
{
    reveal_strlit("overtime");
    reveal_strlit("bonus");
    reveal_strlit("commission");
    reveal_strlit("late_day_deduction");
    reveal_strlit("unpaid_leave_deduction");
    reveal_strlit("other_deduction");
    reveal_strlit("other_addition");
    reveal_strlit("pending");
    reveal_strlit("processing");
    reveal_strlit("completed");
    reveal_strlit("failed");
    assert forall|a: AdjustmentType, b: AdjustmentType| a.label_of() == b.label_of() implies a
        == b by {
        if a != b {
            assert(a.label_of().len() != b.label_of().len());
        }
    }
    assert forall|a: PayrollStatus, b: PayrollStatus| a.label_of() == b.label_of() implies a
        == b by {
        if a != b {
            assert(a.label_of().len() != b.label_of().len());
        }
    }
}

} // verus!
