//! Admission of payroll runs, and the organization's rates.
//!
//! For one organization and one pay period there is at most one run that has not
//! failed. A run is admitted only where no such run exists; it then starts `pending`.

use vstd::prelude::*;
use vstd::string::StringExecFns;
use crate::decimal::{Decimal, DecimalValue};
use crate::errors::AppError;
use crate::models::{PayrollRun, PayrollStatus, SetTaxConfigRequest, TaxConfig, Uuid};
use crate::services::orchestrator::status_may_follow;

verus! {

/// Whether `run` stands in the way of a new run for the organization and pay period:
/// it is a run for them and it has not failed.
pub open spec fn blocks(run: PayrollRun, organization_id: Uuid, pay_period: Seq<char>) -> bool {
    &&& run.organization_id == organization_id
    &&& run.pay_period@ == pay_period
    &&& run.status.blocks_new_run()
}

/// Whether a new run for the organization and pay period can be admitted: none of
/// `runs` stands in its way.
pub open spec fn admissible(
    runs: Seq<PayrollRun>,
    organization_id: Uuid,
    pay_period: Seq<char>,
) -> bool {
    forall|i: int| 0 <= i < runs.len() ==> !blocks(#[trigger] runs[i], organization_id, pay_period)
}

/// No two of `runs` that have not failed are for the same organization and pay
/// period.
pub open spec fn one_run_per_period(runs: Seq<PayrollRun>) -> bool {
    forall|i: int, j: int|
        0 <= i < j < runs.len() ==> !blocks(
            #[trigger] runs[i],
            (#[trigger] runs[j]).organization_id,
            runs[j].pay_period@,
        ) || !runs[j].status.blocks_new_run()
}

/// The same run with another status.
pub open spec fn with_status(run: PayrollRun, status: PayrollStatus) -> PayrollRun {
    PayrollRun { status, ..run }
}

/// Decides whether a run for the organization and pay period may be created, given
/// the runs that exist: it may not while one of them, for the same organization and
/// pay period, is pending, processing or completed.
pub fn admit_run(
    existing: &[PayrollRun],
    organization_id: Uuid,
    pay_period: &String,
) -> (r: Result<(), AppError>)
    ensures
        r is Ok <==> admissible(existing@, organization_id, pay_period@),
        r matches Err(e) ==> e is PayrollAlreadyProcessed,
{
    let n: usize = existing.len();
    let mut i: usize = 0;
    while i < n
        invariant
            i <= n,
            n == existing@.len(),
            forall|k: int|
                0 <= k < i ==> !blocks(#[trigger] existing@[k], organization_id, pay_period@),
        decreases n - i,
    {
        let run = &existing[i];
        if run.organization_id == organization_id && run.pay_period == *pay_period
            && run.status.is_active_or_completed() {
            assert(blocks(existing@[i as int], organization_id, pay_period@));
            return Err(AppError::PayrollAlreadyProcessed);
        }
        i = i + 1;
    }
    Ok(())
}

/// A run as it is created: pending, with all totals at zero.
pub fn new_run(
    id: Uuid,
    organization_id: Uuid,
    pay_period: String,
    initiated_at: i64,
) -> (run: PayrollRun)
    ensures
        run.id == id,
        run.organization_id == organization_id,
        run.pay_period == pay_period,
        run.status is Pending,
        run.total_gross@ == DecimalValue::zero(),
        run.total_deductions@ == DecimalValue::zero(),
        run.total_net@ == DecimalValue::zero(),
        run.employee_count == 0,
        run.initiated_at == initiated_at,
        run.completed_at is None,
{
    PayrollRun {
        id,
        organization_id,
        pay_period,
        status: PayrollStatus::Pending,
        total_gross: Decimal::zero(),
        total_deductions: Decimal::zero(),
        total_net: Decimal::zero(),
        employee_count: 0,
        initiated_at,
        completed_at: None,
    }
}

/// Answers a request to run the payroll of a pay period: the new pending run where
/// it is admitted, the conflict where a run that has not failed exists already.
pub fn open_run(
    existing: &[PayrollRun],
    id: Uuid,
    organization_id: Uuid,
    pay_period: String,
    initiated_at: i64,
) -> (r: Result<PayrollRun, AppError>)
    ensures
        r is Ok <==> admissible(existing@, organization_id, pay_period@),
        match r {
            Ok(run) => {
                &&& run.id == id
                &&& run.organization_id == organization_id
                &&& run.pay_period == pay_period
                &&& run.status is Pending
                &&& run.total_gross@ == DecimalValue::zero()
                &&& run.total_deductions@ == DecimalValue::zero()
                &&& run.total_net@ == DecimalValue::zero()
                &&& run.employee_count == 0
                &&& run.initiated_at == initiated_at
                &&& run.completed_at is None
            },
            Err(e) => e is PayrollAlreadyProcessed,
        },
{
    match admit_run(existing, organization_id, &pay_period) {
        Ok(()) => Ok(new_run(id, organization_id, pay_period, initiated_at)),
        Err(e) => Err(e),
    }
}

/// Admitting a run keeps the rule of one run per period: where no two runs that have
/// not failed share an organization and pay period, and `run` is admissible, the
/// same holds once `run` has joined them.
pub proof fn lemma_admission_keeps_one_run_per_period(runs: Seq<PayrollRun>, run: PayrollRun)
    requires
        one_run_per_period(runs),
        admissible(runs, run.organization_id, run.pay_period@),
    ensures
        one_run_per_period(runs.push(run)),
{
    let after = runs.push(run);
    assert forall|i: int, j: int| 0 <= i < j < after.len() implies !blocks(
        #[trigger] after[i],
        (#[trigger] after[j]).organization_id,
        after[j].pay_period@,
    ) || !after[j].status.blocks_new_run() by {
        if j < runs.len() {
            assert(after[i] == runs[i] && after[j] == runs[j]);
        } else {
            assert(after[i] == runs[i]);
            assert(!blocks(runs[i], run.organization_id, run.pay_period@));
        }
    }
}

/// While a run that has not failed exists for an organization and pay period, another
/// run for them is refused.
pub proof fn lemma_second_run_is_refused(
    runs: Seq<PayrollRun>,
    i: int,
    organization_id: Uuid,
    pay_period: Seq<char>,
)
    requires
        0 <= i < runs.len(),
        blocks(runs[i], organization_id, pay_period),
    ensures
        !admissible(runs, organization_id, pay_period),
{
}

/// Once every run for an organization and pay period has failed, a new run for them
/// is admitted.
pub proof fn lemma_failed_runs_do_not_block(
    runs: Seq<PayrollRun>,
    organization_id: Uuid,
    pay_period: Seq<char>,
)
    requires
        forall|i: int|
            0 <= i < runs.len() && (#[trigger] runs[i]).organization_id == organization_id
                && runs[i].pay_period@ == pay_period ==> runs[i].status is Failed,
    ensures
        admissible(runs, organization_id, pay_period),
{
}

/// A run that moves on through its states keeps the rule of one run per period: a
/// failed run never comes back to life.
pub proof fn lemma_progress_keeps_one_run_per_period(
    runs: Seq<PayrollRun>,
    i: int,
    status: PayrollStatus,
)
    requires
        one_run_per_period(runs),
        0 <= i < runs.len(),
        status_may_follow(runs[i].status, status),
    ensures
        one_run_per_period(runs.update(i, with_status(runs[i], status))),
{
    let after = runs.update(i, with_status(runs[i], status));
    assert forall|a: int, b: int| 0 <= a < b < after.len() implies !blocks(
        #[trigger] after[a],
        (#[trigger] after[b]).organization_id,
        after[b].pay_period@,
    ) || !after[b].status.blocks_new_run() by {
        assert(!blocks(runs[a], runs[b].organization_id, runs[b].pay_period@)
            || !runs[b].status.blocks_new_run());
    }
}

/// Whether a rate is a percentage: between 0 and 100, both included.
pub open spec fn is_percentage(rate: DecimalValue) -> bool {
    DecimalValue::zero().le(rate) && rate.le(DecimalValue::whole(100))
}

/// Whether all four rates are percentages.
pub open spec fn rates_valid(body: SetTaxConfigRequest) -> bool {
    &&& is_percentage(body.paye_rate@)
    &&& is_percentage(body.pension_rate@)
    &&& is_percentage(body.nhf_rate@)
    &&& is_percentage(body.nhis_rate@)
}

/// Whether `rate` is below 0 or above 100.
fn out_of_range(rate: &Decimal) -> (r: bool)
    ensures
        r == !is_percentage(rate@),
{
    rate.lt(&Decimal::zero()) || rate.gt(&Decimal::one_hundred())
}

/// Checks the rates an organization wants to set: each must lie between 0 and 100.
pub fn validate_tax_rates(body: &SetTaxConfigRequest) -> (r: Result<(), AppError>)
    ensures
        r is Ok <==> rates_valid(*body),
        r matches Err(e) ==> e matches AppError::Validation(m) && m@
            == "All rates must be between 0 and 100"@,
{
    if out_of_range(&body.paye_rate) || out_of_range(&body.pension_rate) || out_of_range(
        &body.nhf_rate,
    ) || out_of_range(&body.nhis_rate) {
        Err(AppError::Validation(String::from_str("All rates must be between 0 and 100")))
    } else {
        Ok(())
    }
}

/// The rates as they are stored for an organization.
pub fn new_tax_config(
    id: Uuid,
    organization_id: Uuid,
    body: &SetTaxConfigRequest,
    now: i64,
) -> (config: TaxConfig)
    ensures
        config.id == id,
        config.organization_id == organization_id,
        config.paye_rate == body.paye_rate,
        config.pension_rate == body.pension_rate,
        config.nhf_rate == body.nhf_rate,
        config.nhis_rate == body.nhis_rate,
        config.created_at == now,
        config.updated_at == now,
{
    TaxConfig {
        id,
        organization_id,
        paye_rate: body.paye_rate,
        pension_rate: body.pension_rate,
        nhf_rate: body.nhf_rate,
        nhis_rate: body.nhis_rate,
        created_at: now,
        updated_at: now,
    }
}

/// The error for an organization that has set no rates.
pub fn tax_config_not_set() -> (e: AppError)
    ensures
        e matches AppError::NotFound(m) && m@ == "Tax configuration not set"@,
{
    AppError::NotFound(String::from_str("Tax configuration not set"))
}

/// The error for a run that the organization does not have.
pub fn run_not_found(run_id: Uuid) -> (e: AppError)
    ensures
        e matches AppError::NotFound(m) && m@ == "Payroll run "@ + run_id.text() + " not found"@,
{
    AppError::NotFound(
        String::from_str("Payroll run ").concat(run_id.to_text().as_str()).concat(" not found"),
    )
}

} // verus!
