//! The calculation engine: from a salary, its adjustments and the statutory rates to
//! the figures of a payslip.

use vstd::prelude::*;
use crate::decimal::{lemma_lt_zero, value_of, Decimal, DecimalValue};
use crate::models::{Employee, PayrollAdjustment, TaxConfig, Uuid};

verus! {

/// Picks the amount of an adjustment that is an addition (`additions` true) or a
/// deduction (`additions` false), and nothing of the others.
pub open spec fn amount_if(additions: bool) -> spec_fn(PayrollAdjustment) -> Option<DecimalValue> {
    |a: PayrollAdjustment|
        if a.adjustment_type.adds() == additions {
            Some(a.amount@)
        } else {
            None
        }
}

/// The amounts of the adjustments that are additions (`additions` true) or deductions
/// (`additions` false), in the order of the adjustments.
pub open spec fn amounts_of(
    adjustments: Seq<PayrollAdjustment>,
    additions: bool,
) -> Seq<DecimalValue> {
    adjustments.filter_map(amount_if(additions))
}

/// The sum of `amounts`, added up from zero in their order; `None` once a sum
/// overflows.
pub open spec fn decimal_total(amounts: Seq<DecimalValue>) -> Option<DecimalValue>
    decreases amounts.len(),
{
    if amounts.len() == 0 {
        Some(DecimalValue::zero())
    } else {
        match decimal_total(amounts.drop_last()) {
            Some(t) => t.sum(amounts.last()),
            None => None,
        }
    }
}

/// `a + b` where both are there.
pub open spec fn sum_of(a: Option<DecimalValue>, b: Option<DecimalValue>) -> Option<DecimalValue> {
    match (a, b) {
        (Some(x), Some(y)) => x.sum(y),
        _ => None,
    }
}

/// `a - b` where both are there.
pub open spec fn difference_of(
    a: Option<DecimalValue>,
    b: Option<DecimalValue>,
) -> Option<DecimalValue> {
    match (a, b) {
        (Some(x), Some(y)) => x.difference(y),
        _ => None,
    }
}

/// `gross * rate / 100` where the gross salary is there: the product first, then the
/// division, with nothing rounded in between by this crate.
pub open spec fn levy_of(gross: Option<DecimalValue>, rate: DecimalValue) -> Option<DecimalValue> {
    match gross {
        Some(g) => match g.product(rate) {
            Some(p) => p.quotient(DecimalValue::whole(100)),
            None => None,
        },
        None => None,
    }
}

/// The figures of a payslip as numbers.
pub struct SlipValue {
    pub employee_id: Uuid,
    pub base_salary: DecimalValue,
    pub total_additions: DecimalValue,
    pub gross_salary: DecimalValue,
    pub paye_tax: DecimalValue,
    pub pension_deduction: DecimalValue,
    pub nhf_deduction: DecimalValue,
    pub nhis_deduction: DecimalValue,
    pub other_deductions: DecimalValue,
    pub total_deductions: DecimalValue,
    pub net_salary: DecimalValue,
}

/// The figures of one employee's pay, each as far as the decimal range lets it be
/// computed.
pub struct Figures {
    pub total_additions: Option<DecimalValue>,
    pub other_deductions: Option<DecimalValue>,
    pub gross_salary: Option<DecimalValue>,
    pub paye_tax: Option<DecimalValue>,
    pub pension_deduction: Option<DecimalValue>,
    pub nhf_deduction: Option<DecimalValue>,
    pub nhis_deduction: Option<DecimalValue>,
    pub total_deductions: Option<DecimalValue>,
    pub balance: Option<DecimalValue>,
}

/// The formulas of the payslip.
pub open spec fn figures_of(
    base_salary: DecimalValue,
    adjustments: Seq<PayrollAdjustment>,
    tax_config: TaxConfig,
) -> Figures {
    let total_additions = decimal_total(amounts_of(adjustments, true));
    let other_deductions = decimal_total(amounts_of(adjustments, false));
    let gross_salary = sum_of(Some(base_salary), total_additions);
    let paye_tax = levy_of(gross_salary, tax_config.paye_rate@);
    let pension_deduction = levy_of(gross_salary, tax_config.pension_rate@);
    let nhf_deduction = levy_of(gross_salary, tax_config.nhf_rate@);
    let nhis_deduction = levy_of(gross_salary, tax_config.nhis_rate@);
    let total_deductions = sum_of(
        sum_of(sum_of(sum_of(paye_tax, pension_deduction), nhf_deduction), nhis_deduction),
        other_deductions,
    );
    Figures {
        total_additions,
        other_deductions,
        gross_salary,
        paye_tax,
        pension_deduction,
        nhf_deduction,
        nhis_deduction,
        total_deductions,
        balance: difference_of(gross_salary, total_deductions),
    }
}

/// The payslip of an employee: the figures of [`figures_of`] and a net salary that is
/// the gross salary less all deductions, or zero where the deductions are larger.
/// `None` when one of the figures leaves the decimal range.
pub open spec fn payslip_of(
    employee: Employee,
    adjustments: Seq<PayrollAdjustment>,
    tax_config: TaxConfig,
) -> Option<SlipValue> {
    let f = figures_of(employee.base_salary@, adjustments, tax_config);
    if f.other_deductions is Some && f.balance is Some {
        Some(
            SlipValue {
                employee_id: employee.id,
                base_salary: employee.base_salary@,
                total_additions: f.total_additions->0,
                gross_salary: f.gross_salary->0,
                paye_tax: f.paye_tax->0,
                pension_deduction: f.pension_deduction->0,
                nhf_deduction: f.nhf_deduction->0,
                nhis_deduction: f.nhis_deduction->0,
                other_deductions: f.other_deductions->0,
                total_deductions: f.total_deductions->0,
                net_salary: (f.balance->0).max(DecimalValue::zero()),
            },
        )
    } else {
        None
    }
}

/// The figures of one employee's pay for one pay period.
#[derive(Clone, Copy, Debug)]
pub struct CalculatedSlip {
    pub employee_id: Uuid,
    pub base_salary: Decimal,
    pub total_additions: Decimal,
    pub gross_salary: Decimal,
    pub paye_tax: Decimal,
    pub pension_deduction: Decimal,
    pub nhf_deduction: Decimal,
    pub nhis_deduction: Decimal,
    pub other_deductions: Decimal,
    pub total_deductions: Decimal,
    pub net_salary: Decimal,
}

impl View for CalculatedSlip {
    type V = SlipValue;

    open spec fn view(&self) -> SlipValue {
        SlipValue {
            employee_id: self.employee_id,
            base_salary: self.base_salary@,
            total_additions: self.total_additions@,
            gross_salary: self.gross_salary@,
            paye_tax: self.paye_tax@,
            pension_deduction: self.pension_deduction@,
            nhf_deduction: self.nhf_deduction@,
            nhis_deduction: self.nhis_deduction@,
            other_deductions: self.other_deductions@,
            total_deductions: self.total_deductions@,
            net_salary: self.net_salary@,
        }
    }
}

/// The view of an optional payslip.
pub open spec fn slip_value_of(r: Option<CalculatedSlip>) -> Option<SlipValue> {
    match r {
        Some(s) => Some(s@),
        None => None,
    }
}

/// The calculation engine.
pub struct PayrollService;

impl PayrollService {
    /// Adds up the additions or the deductions among `adjustments`.
    fn total(adjustments: &[PayrollAdjustment], additions: bool) -> (r: Option<Decimal>)
        ensures
            value_of(r) == decimal_total(amounts_of(adjustments@, additions)),
    {
        let ghost pick = amount_if(additions);
        let mut acc: Option<Decimal> = Some(Decimal::zero());
        let n: usize = adjustments.len();
        let mut i: usize = 0;
        while i < n
            invariant
                i <= n,
                n == adjustments@.len(),
                pick == amount_if(additions),
                value_of(acc) == decimal_total(adjustments@.take(i as int).filter_map(pick)),
            decreases n - i,
        {
            let a = &adjustments[i];
            let ghost before = adjustments@.take(i as int).filter_map(pick);
            let ghost after = adjustments@.take(i + 1).filter_map(pick);
            proof {
                adjustments@.lemma_filter_map_take_succ(pick, i as int);
            }
            if a.adjustment_type.is_addition() == additions {
                acc = match acc {
                    Some(t) => t.checked_add(a.amount),
                    None => None,
                };
                assert(pick(adjustments@[i as int]) == Some(a.amount@));
                assert(after =~= before.push(a.amount@));
                assert(after.drop_last() =~= before);
            } else {
                assert(pick(adjustments@[i as int]) is None);
                assert(after =~= before);
            }
            i = i + 1;
        }
        assert(adjustments@.take(n as int) == adjustments@);
        acc
    }

    /// `gross * rate / 100`.
    fn levy(gross: Decimal, rate: Decimal) -> (r: Option<Decimal>)
        ensures
            value_of(r) == levy_of(Some(gross@), rate@),
    {
        match gross.checked_mul(rate) {
            Some(p) => p.checked_div(Decimal::one_hundred()),
            None => None,
        }
    }

    /// Computes every figure, giving up at the first that leaves the decimal range.
    fn figures(
        employee: &Employee,
        adjustments: &[PayrollAdjustment],
        tax_config: &TaxConfig,
    ) -> (r: Option<CalculatedSlip>)
        ensures
            slip_value_of(r) == payslip_of(*employee, adjustments@, *tax_config),
            r matches Some(slip) ==> slip.net_salary@.non_negative(),
    {
        let total_additions = Self::total(adjustments, true)?;
        let other_deductions = Self::total(adjustments, false)?;
        let gross_salary = employee.base_salary.checked_add(total_additions)?;
        let paye_tax = Self::levy(gross_salary, tax_config.paye_rate)?;
        let pension_deduction = Self::levy(gross_salary, tax_config.pension_rate)?;
        let nhf_deduction = Self::levy(gross_salary, tax_config.nhf_rate)?;
        let nhis_deduction = Self::levy(gross_salary, tax_config.nhis_rate)?;
        let total_deductions = paye_tax.checked_add(pension_deduction)?.checked_add(
            nhf_deduction,
        )?.checked_add(nhis_deduction)?.checked_add(other_deductions)?;
        let balance = gross_salary.checked_sub(total_deductions)?;
        let net_salary = balance.max(Decimal::zero());
        proof {
            lemma_lt_zero(balance@);
        }
        Some(
            CalculatedSlip {
                employee_id: employee.id,
                base_salary: employee.base_salary,
                total_additions,
                gross_salary,
                paye_tax,
                pension_deduction,
                nhf_deduction,
                nhis_deduction,
                other_deductions,
                total_deductions,
                net_salary,
            },
        )
    }

    /// Whether every figure of the payslip stays within the decimal range.
    pub fn can_calculate(
        employee: &Employee,
        adjustments: &[PayrollAdjustment],
        tax_config: &TaxConfig,
    ) -> (ok: bool)
        ensures
            ok == payslip_of(*employee, adjustments@, *tax_config).is_some(),
    {
        Self::figures(employee, adjustments, tax_config).is_some()
    }

    /// Calculates the pay of one employee from the adjustments of the pay period and
    /// the organization's rates.
    ///
    /// The additions are added to the base salary to give the gross salary; each
    /// statutory deduction is its rate as a percentage of the gross salary; the net
    /// salary is the gross salary less all deductions and never below zero.
    pub fn calculate(
        employee: &Employee,
        adjustments: &[PayrollAdjustment],
        tax_config: &TaxConfig,
    ) -> (slip: CalculatedSlip)
        requires
            payslip_of(*employee, adjustments@, *tax_config).is_some(),
        ensures
            Some(slip@) == payslip_of(*employee, adjustments@, *tax_config),
            slip.employee_id == employee.id,
            slip.base_salary@ == employee.base_salary@,
            slip.net_salary@.non_negative(),
    {
        Self::figures(employee, adjustments, tax_config).unwrap()
    }

    /// Calculates the pay of one employee, or returns `None` when a figure leaves the
    /// decimal range.
    pub fn try_calculate(
        employee: &Employee,
        adjustments: &[PayrollAdjustment],
        tax_config: &TaxConfig,
    ) -> (r: Option<CalculatedSlip>)
        ensures
            slip_value_of(r) == payslip_of(*employee, adjustments@, *tax_config),
            r matches Some(slip) ==> slip.net_salary@.non_negative(),
    {
        if Self::can_calculate(employee, adjustments, tax_config) {
            Some(Self::calculate(employee, adjustments, tax_config))
        } else {
            None
        }
    }
}

/// The net salary is never negative, however large the deductions are.
pub proof fn lemma_net_salary_never_negative(
    employee: Employee,
    adjustments: Seq<PayrollAdjustment>,
    tax_config: TaxConfig,
)
    ensures
        payslip_of(employee, adjustments, tax_config) matches Some(slip)
            ==> slip.net_salary.non_negative(),
{
    let f = figures_of(employee.base_salary@, adjustments, tax_config);
    if f.balance is Some {
        lemma_lt_zero(f.balance->0);
    }
}

/// The gross salary is the base salary plus the total of the additions, and that
/// total adds up the amounts of the adjustments that are additions and no others.
pub proof fn lemma_gross_is_base_plus_additions(
    employee: Employee,
    adjustments: Seq<PayrollAdjustment>,
    tax_config: TaxConfig,
)
    ensures
        payslip_of(employee, adjustments, tax_config) matches Some(slip) ==> {
            &&& slip.base_salary == employee.base_salary@
            &&& Some(slip.total_additions) == decimal_total(amounts_of(adjustments, true))
            &&& Some(slip.gross_salary) == slip.base_salary.sum(slip.total_additions)
        },
{
}

/// An adjustment counts towards the additions exactly when its kind adds, and towards
/// the other deductions exactly when it does not.
pub proof fn lemma_adjustment_counts_once(adjustments: Seq<PayrollAdjustment>, a: PayrollAdjustment)
    ensures
        amounts_of(adjustments.push(a), true) == if a.adjustment_type.adds() {
            amounts_of(adjustments, true).push(a.amount@)
        } else {
            amounts_of(adjustments, true)
        },
        amounts_of(adjustments.push(a), false) == if a.adjustment_type.adds() {
            amounts_of(adjustments, false)
        } else {
            amounts_of(adjustments, false).push(a.amount@)
        },
{
    assert(adjustments.push(a).drop_last() =~= adjustments);
    assert(amounts_of(adjustments.push(a), true) =~= if a.adjustment_type.adds() {
        amounts_of(adjustments, true).push(a.amount@)
    } else {
        amounts_of(adjustments, true)
    });
    assert(amounts_of(adjustments.push(a), false) =~= if a.adjustment_type.adds() {
        amounts_of(adjustments, false)
    } else {
        amounts_of(adjustments, false).push(a.amount@)
    });
}

/// Each statutory deduction is the gross salary times its rate, divided by one
/// hundred; the total of the deductions is the four of them and the other deductions
/// added up in that order, and the other deductions add up the amounts of the
/// adjustments that are deductions.
pub proof fn lemma_total_deductions(
    employee: Employee,
    adjustments: Seq<PayrollAdjustment>,
    tax_config: TaxConfig,
)
    ensures
        payslip_of(employee, adjustments, tax_config) matches Some(slip) ==> {
            &&& Some(slip.paye_tax) == levy_of(Some(slip.gross_salary), tax_config.paye_rate@)
            &&& Some(slip.pension_deduction) == levy_of(
                Some(slip.gross_salary),
                tax_config.pension_rate@,
            )
            &&& Some(slip.nhf_deduction) == levy_of(Some(slip.gross_salary), tax_config.nhf_rate@)
            &&& Some(slip.nhis_deduction) == levy_of(Some(slip.gross_salary), tax_config.nhis_rate@)
            &&& Some(slip.other_deductions) == decimal_total(amounts_of(adjustments, false))
            &&& Some(slip.total_deductions) == sum_of(
                sum_of(
                    sum_of(
                        sum_of(Some(slip.paye_tax), Some(slip.pension_deduction)),
                        Some(slip.nhf_deduction),
                    ),
                    Some(slip.nhis_deduction),
                ),
                Some(slip.other_deductions),
            )
            &&& exists|balance: DecimalValue|
                Some(balance) == slip.gross_salary.difference(slip.total_deductions)
                    && slip.net_salary == #[trigger] balance.max(DecimalValue::zero())
        },
{
    let f = figures_of(employee.base_salary@, adjustments, tax_config);
    if payslip_of(employee, adjustments, tax_config) is Some {
        let balance = f.balance->0;
        let slip = payslip_of(employee, adjustments, tax_config)->0;
        assert(Some(balance) == slip.gross_salary.difference(slip.total_deductions)
            && slip.net_salary == balance.max(DecimalValue::zero()));
    }
}

} // verus!
