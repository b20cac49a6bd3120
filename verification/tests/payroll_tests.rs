use payroll_system::decimal::{Decimal, MAX_MANTISSA};
use payroll_system::models::{AdjustmentType, Employee, PayrollAdjustment, TaxConfig, Uuid};
use payroll_system::services::payroll::{CalculatedSlip, PayrollService};

fn dec(num: i64, scale: u32) -> Decimal {
    Decimal::new(num, scale)
}

fn employee(base_salary: Decimal) -> Employee {
    Employee {
        id: Uuid::from_u128(7),
        organization_id: Uuid::from_u128(1),
        first_name: "Ada".to_string(),
        last_name: "Obi".to_string(),
        email: "ada@example.com".to_string(),
        bank_account_number: "0123456789".to_string(),
        bank_code: "058".to_string(),
        bank_name: "GTBank".to_string(),
        base_salary,
        is_active: true,
        created_at: 0,
        updated_at: 0,
    }
}

fn adjustment(kind: AdjustmentType, amount: Decimal) -> PayrollAdjustment {
    PayrollAdjustment {
        id: Uuid::from_u128(100),
        employee_id: Uuid::from_u128(7),
        organization_id: Uuid::from_u128(1),
        adjustment_type: kind,
        amount,
        description: "adjustment".to_string(),
        pay_period: "2024-05".to_string(),
        created_at: 0,
    }
}

fn rates(paye: Decimal, pension: Decimal, nhf: Decimal, nhis: Decimal) -> TaxConfig {
    TaxConfig {
        id: Uuid::from_u128(50),
        organization_id: Uuid::from_u128(1),
        paye_rate: paye,
        pension_rate: pension,
        nhf_rate: nhf,
        nhis_rate: nhis,
        created_at: 0,
        updated_at: 0,
    }
}

fn usual_rates() -> TaxConfig {
    rates(dec(75, 1), dec(8, 0), dec(25, 1), dec(175, 2))
}

fn calculate(e: &Employee, adjustments: &[PayrollAdjustment], tax: &TaxConfig) -> CalculatedSlip {
    assert!(PayrollService::can_calculate(e, adjustments, tax));
    PayrollService::calculate(e, adjustments, tax)
}

#[test]
fn salary_with_bonus_and_statutory_rates() {
    let e = employee(dec(300000, 0));
    let adjustments = vec![adjustment(AdjustmentType::Bonus, dec(50000, 0))];
    let slip = calculate(&e, &adjustments, &usual_rates());
    assert_eq!(slip.employee_id, Uuid::from_u128(7));
    assert_eq!(slip.base_salary, dec(300000, 0));
    assert_eq!(slip.total_additions, dec(50000, 0));
    assert_eq!(slip.gross_salary, dec(350000, 0));
    assert_eq!(slip.paye_tax, dec(26250, 0));
    assert_eq!(slip.pension_deduction, dec(28000, 0));
    assert_eq!(slip.nhf_deduction, dec(8750, 0));
    assert_eq!(slip.nhis_deduction, dec(6125, 0));
    assert_eq!(slip.other_deductions, Decimal::zero());
    assert_eq!(slip.total_deductions, dec(69125, 0));
    assert_eq!(slip.net_salary, dec(280875, 0));
}

#[test]
fn absent_rates_leave_the_gross_salary_whole() {
    let e = employee(dec(300000, 0));
    let adjustments = vec![adjustment(AdjustmentType::Overtime, dec(1250075, 2))];
    let zero = TaxConfig::zero_rates(Uuid::from_u128(1));
    let slip = calculate(&e, &adjustments, &zero);
    assert_eq!(slip.gross_salary, dec(31250075, 2));
    assert_eq!(slip.paye_tax, Decimal::zero());
    assert_eq!(slip.pension_deduction, Decimal::zero());
    assert_eq!(slip.nhf_deduction, Decimal::zero());
    assert_eq!(slip.nhis_deduction, Decimal::zero());
    assert_eq!(slip.total_deductions, Decimal::zero());
    assert_eq!(slip.net_salary, slip.gross_salary);
}

#[test]
fn zero_rates_are_all_zero() {
    let zero = TaxConfig::zero_rates(Uuid::from_u128(9));
    assert_eq!(zero.organization_id, Uuid::from_u128(9));
    assert_eq!(zero.paye_rate, Decimal::zero());
    assert_eq!(zero.pension_rate, Decimal::zero());
    assert_eq!(zero.nhf_rate, Decimal::zero());
    assert_eq!(zero.nhis_rate, Decimal::zero());
}

#[test]
fn net_salary_stops_at_zero() {
    let e = employee(dec(1000, 0));
    let adjustments = vec![
        adjustment(AdjustmentType::UnpaidLeaveDeduction, dec(900, 0)),
        adjustment(AdjustmentType::LateDayDeduction, dec(500, 0)),
    ];
    let slip = calculate(&e, &adjustments, &usual_rates());
    assert_eq!(slip.gross_salary, dec(1000, 0));
    assert_eq!(slip.other_deductions, dec(1400, 0));
    assert_eq!(slip.total_deductions, dec(159750, 2));
    assert!(slip.total_deductions.gt(&slip.gross_salary));
    assert_eq!(slip.net_salary, Decimal::zero());
    assert!(!slip.net_salary.is_sign_negative());
}

#[test]
fn net_salary_of_exactly_zero() {
    let e = employee(dec(1000, 0));
    let adjustments = vec![adjustment(AdjustmentType::OtherDeduction, dec(1000, 0))];
    let zero = TaxConfig::zero_rates(Uuid::from_u128(1));
    let slip = calculate(&e, &adjustments, &zero);
    assert_eq!(slip.net_salary, Decimal::zero());
}

#[test]
fn every_kind_of_adjustment_lands_on_its_side() {
    let e = employee(dec(100000, 0));
    let adjustments = vec![
        adjustment(AdjustmentType::Overtime, dec(1, 0)),
        adjustment(AdjustmentType::LateDayDeduction, dec(10, 0)),
        adjustment(AdjustmentType::Bonus, dec(100, 0)),
        adjustment(AdjustmentType::UnpaidLeaveDeduction, dec(1000, 0)),
        adjustment(AdjustmentType::Commission, dec(10000, 0)),
        adjustment(AdjustmentType::OtherDeduction, dec(20000, 0)),
        adjustment(AdjustmentType::OtherAddition, dec(200000, 0)),
    ];
    let zero = TaxConfig::zero_rates(Uuid::from_u128(1));
    let slip = calculate(&e, &adjustments, &zero);
    assert_eq!(slip.total_additions, dec(210101, 0));
    assert_eq!(slip.other_deductions, dec(21010, 0));
    assert_eq!(slip.gross_salary, dec(310101, 0));
    assert_eq!(slip.total_deductions, dec(21010, 0));
    assert_eq!(slip.net_salary, dec(289091, 0));
}

#[test]
fn no_adjustments_at_all() {
    let e = employee(dec(200000, 0));
    let slip = calculate(&e, &[], &usual_rates());
    assert_eq!(slip.total_additions, Decimal::zero());
    assert_eq!(slip.other_deductions, Decimal::zero());
    assert_eq!(slip.gross_salary, dec(200000, 0));
    assert_eq!(slip.total_deductions, dec(39500, 0));
    assert_eq!(slip.net_salary, dec(160500, 0));
}

#[test]
fn levies_are_not_rounded() {
    let e = employee(dec(100001, 2));
    let slip = calculate(&e, &[], &usual_rates());
    assert_eq!(slip.paye_tax, dec(750007500, 7));
    assert_eq!(slip.pension_deduction, dec(800008, 4));
    assert_eq!(slip.nhf_deduction, dec(250002500, 7));
    assert_eq!(slip.nhis_deduction, dec(175001750, 7));
    assert_eq!(slip.total_deductions, dec(1975019750, 7));
    assert_eq!(slip.net_salary, dec(802508025, 6));
}

#[test]
fn deductions_reduce_only_the_net_salary() {
    let e = employee(dec(300000, 0));
    let adjustments = vec![
        adjustment(AdjustmentType::Bonus, dec(50000, 0)),
        adjustment(AdjustmentType::LateDayDeduction, dec(875, 0)),
    ];
    let slip = calculate(&e, &adjustments, &usual_rates());
    assert_eq!(slip.gross_salary, dec(350000, 0));
    assert_eq!(slip.paye_tax, dec(26250, 0));
    assert_eq!(slip.other_deductions, dec(875, 0));
    assert_eq!(slip.total_deductions, dec(70000, 0));
    assert_eq!(slip.net_salary, dec(280000, 0));
}

#[test]
fn try_calculate_agrees_with_calculate() {
    let e = employee(dec(300000, 0));
    let adjustments = vec![adjustment(AdjustmentType::Bonus, dec(50000, 0))];
    let slip = PayrollService::try_calculate(&e, &adjustments, &usual_rates()).unwrap();
    assert_eq!(slip.net_salary, dec(280875, 0));
    assert_eq!(slip.gross_salary, dec(350000, 0));
}

#[test]
fn figures_beyond_the_decimal_range_are_refused() {
    let top = Decimal::try_from_i128_with_scale(MAX_MANTISSA, 0).unwrap();
    let e = employee(top);
    let adjustments = vec![adjustment(AdjustmentType::Bonus, top)];
    assert!(!PayrollService::can_calculate(&e, &adjustments, &usual_rates()));
    assert!(PayrollService::try_calculate(&e, &adjustments, &usual_rates()).is_none());
}

#[test]
fn adjustment_kinds_are_partitioned() {
    let additions = [
        AdjustmentType::Overtime,
        AdjustmentType::Bonus,
        AdjustmentType::Commission,
        AdjustmentType::OtherAddition,
    ];
    let deductions = [
        AdjustmentType::LateDayDeduction,
        AdjustmentType::UnpaidLeaveDeduction,
        AdjustmentType::OtherDeduction,
    ];
    for kind in additions.iter() {
        assert!(kind.is_addition());
        assert!(!kind.is_deduction());
    }
    for kind in deductions.iter() {
        assert!(kind.is_deduction());
        assert!(!kind.is_addition());
    }
}
