//! What is asked of an employee's salary and adjustments.

use vstd::prelude::*;
use vstd::string::StringExecFns;
use crate::decimal::{Decimal, DecimalValue};
use crate::errors::AppError;
use crate::models::{
    AddAdjustmentRequest, AdjustmentType, CreateEmployeeRequest, Employee, PayrollAdjustment,
    SetBaseSalaryRequest, Uuid,
};

verus! {

/// Checks a base salary: it must not be negative.
pub fn validate_base_salary(body: &SetBaseSalaryRequest) -> (r: Result<(), AppError>)
    ensures
        r is Ok <==> DecimalValue::zero().le(body.base_salary@),
        r matches Err(e) ==> e matches AppError::Validation(m) && m@
            == "Base salary cannot be negative"@,
{
    if body.base_salary.lt(&Decimal::zero()) {
        Err(AppError::Validation(String::from_str("Base salary cannot be negative")))
    } else {
        Ok(())
    }
}

/// Checks the amount of an adjustment: it must be greater than zero.
pub fn validate_adjustment(body: &AddAdjustmentRequest) -> (r: Result<(), AppError>)
    ensures
        r is Ok <==> DecimalValue::zero().lt(body.amount@),
        r matches Err(e) ==> e matches AppError::Validation(m) && m@
            == "Amount must be greater than zero"@,
{
    if body.amount.le(&Decimal::zero()) {
        Err(AppError::Validation(String::from_str("Amount must be greater than zero")))
    } else {
        Ok(())
    }
}

/// The error for an employee that the organization does not have.
pub fn employee_not_found(employee_id: Uuid) -> (e: AppError)
    ensures
        e matches AppError::NotFound(m) && m@ == "Employee "@ + employee_id.text() + " not found"@,
{
    AppError::NotFound(
        String::from_str("Employee ").concat(employee_id.to_text().as_str()).concat(" not found"),
    )
}

/// The error for an email address that an employee of the organization has already.
pub fn employee_exists(email: &str) -> (e: AppError)
    ensures
        e matches AppError::Conflict(m) && m@ == "Employee with email '"@ + email@
            + "' already exists in this organization"@,
{
    AppError::Conflict(
        String::from_str("Employee with email '").concat(email).concat(
            "' already exists in this organization",
        ),
    )
}

/// An employee as onboarded: active, with the details of the request.
pub fn new_employee(
    id: Uuid,
    organization_id: Uuid,
    body: CreateEmployeeRequest,
    now: i64,
) -> (employee: Employee)
    ensures
        employee.id == id,
        employee.organization_id == organization_id,
        employee.first_name == body.first_name,
        employee.last_name == body.last_name,
        employee.email == body.email,
        employee.bank_account_number == body.bank_account_number,
        employee.bank_code == body.bank_code,
        employee.bank_name == body.bank_name,
        employee.base_salary == body.base_salary,
        employee.is_active,
        employee.created_at == now,
        employee.updated_at == now,
{
    Employee {
        id,
        organization_id,
        first_name: body.first_name,
        last_name: body.last_name,
        email: body.email,
        bank_account_number: body.bank_account_number,
        bank_code: body.bank_code,
        bank_name: body.bank_name,
        base_salary: body.base_salary,
        is_active: true,
        created_at: now,
        updated_at: now,
    }
}

/// Decides whether an adjustment may be added: the employee must belong to the
/// organization, and the amount must be greater than zero. The first is checked
/// first.
pub fn admit_adjustment(
    employee_found: bool,
    employee_id: Uuid,
    body: &AddAdjustmentRequest,
) -> (r: Result<(), AppError>)
    ensures
        r is Ok <==> employee_found && DecimalValue::zero().lt(body.amount@),
        r matches Err(e) ==> if !employee_found {
            e matches AppError::NotFound(m) && m@ == "Employee "@ + employee_id.text()
                + " not found"@
        } else {
            e matches AppError::Validation(m) && m@ == "Amount must be greater than zero"@
        },
{
    if !employee_found {
        return Err(employee_not_found(employee_id));
    }
    validate_adjustment(body)
}

/// An adjustment as it is recorded.
pub fn new_adjustment(
    id: Uuid,
    employee_id: Uuid,
    organization_id: Uuid,
    adjustment_type: AdjustmentType,
    body: AddAdjustmentRequest,
    now: i64,
) -> (adjustment: PayrollAdjustment)
    ensures
        adjustment.id == id,
        adjustment.employee_id == employee_id,
        adjustment.organization_id == organization_id,
        adjustment.adjustment_type == adjustment_type,
        adjustment.amount == body.amount,
        adjustment.description == body.description,
        adjustment.pay_period == body.pay_period,
        adjustment.created_at == now,
{
    PayrollAdjustment {
        id,
        employee_id,
        organization_id,
        adjustment_type,
        amount: body.amount,
        description: body.description,
        pay_period: body.pay_period,
        created_at: now,
    }
}

/// The answer to a deactivation, given how many employees the store changed: the
/// employee is unknown where it changed none.
pub fn deactivation_outcome(rows_affected: u64, employee_id: Uuid) -> (r: Result<String, AppError>)
    ensures
        match r {
            Ok(message) => rows_affected > 0 && message@ == "Employee deactivated successfully"@,
            Err(e) => rows_affected == 0 && (e matches AppError::NotFound(m) && m@ == "Employee "@
                + employee_id.text() + " not found"@),
        },
{
    if rows_affected == 0 {
        Err(employee_not_found(employee_id))
    } else {
        Ok(String::from_str("Employee deactivated successfully"))
    }
}

} // verus!
