//! The payroll run orchestrator.
//!
//! A run is driven as a state machine. The caller does the outside work (it reads the
//! store, calls the gateway, sends mail) and reports each result as an event; the
//! orchestrator answers every event with the next thing to do. All decisions of a run
//! are taken here: when it fails, which employees are paid, what is booked.
//!
//! A run starts `pending`, is `processing` from its first step, and ends `completed`
//! or `failed`. It fails only when it has no employees to work on. Once the first
//! employee is taken up, nothing that happens to a single employee keeps the run from
//! completing.

use vstd::prelude::*;
use vstd::string::StringExecFns;
use vstd::arithmetic::power::{lemma_pow_positive, pow};
use crate::decimal::{lemma_order_by_units, Decimal, DecimalValue, MAX_SCALE};
use crate::errors::AppError;
use crate::models::{Employee, PayrollAdjustment, PayrollSlip, PayrollStatus, TaxConfig, Uuid};
use crate::services::monnify::MonnifyTransferBody;
use crate::services::payroll::{
    decimal_total, payslip_of, sum_of, CalculatedSlip, PayrollService, SlipValue,
};

verus! {

/// What a run is waiting for.
#[derive(Clone, Copy, Debug)]
pub enum Stage {
    /// Nothing has happened yet.
    Created,
    /// The active employees of the organization.
    LoadingEmployees,
    /// The organization's rates.
    LoadingTaxConfig,
    /// The current employee's adjustments for the pay period.
    LoadingAdjustments,
    /// The wallet balance, to see whether it covers the current employee's net salary.
    ReadingBalance { slip: CalculatedSlip },
    /// The gateway's answer to the transfer of the current employee's net salary;
    /// `available` is the wallet balance that was read for it.
    Transferring { slip: CalculatedSlip, available: Decimal },
    /// The store's answer to the slip of the current employee.
    SavingSlip { slip: CalculatedSlip, paid: bool },
    /// The attempt to send the current employee's payslip.
    Notifying,
    /// A figure left the decimal range; the run stays where it is.
    Halted,
    /// The run is over.
    Closed,
}

/// One slip that a run has handed to the store.
pub struct LedgerEntry {
    pub slip: SlipValue,
    /// Whether the gateway confirmed the transfer: the slip's status is `success`.
    pub paid: bool,
}

/// The figures that a run totals.
pub enum Figure {
    Gross,
    Deductions,
    Net,
}

impl Figure {
    /// The figure on a slip.
    pub open spec fn of(self, slip: SlipValue) -> DecimalValue {
        match self {
            Figure::Gross => slip.gross_salary,
            Figure::Deductions => slip.total_deductions,
            Figure::Net => slip.net_salary,
        }
    }
}

/// The figures of the paid slips of a ledger, in its order.
pub open spec fn paid_figures(ledger: Seq<LedgerEntry>, figure: Figure) -> Seq<DecimalValue>
    decreases ledger.len(),
{
    if ledger.len() == 0 {
        Seq::empty()
    } else if ledger.last().paid {
        paid_figures(ledger.drop_last(), figure).push(figure.of(ledger.last().slip))
    } else {
        paid_figures(ledger.drop_last(), figure)
    }
}

/// The number of paid slips of a ledger.
pub open spec fn paid_count(ledger: Seq<LedgerEntry>) -> nat {
    paid_figures(ledger, Figure::Net).len()
}

/// The sum of the net salaries of the paid slips of a ledger, in units of `10^-28`.
pub open spec fn paid_net_units(ledger: Seq<LedgerEntry>) -> int
    decreases ledger.len(),
{
    if ledger.len() == 0 {
        0
    } else if ledger.last().paid {
        paid_net_units(ledger.drop_last()) + ledger.last().slip.net_salary.units()
    } else {
        paid_net_units(ledger.drop_last())
    }
}

/// The wallet balance, in units of `10^-28`, once the store has applied every debit
/// of the ledger to a balance of `before` units: the balance before less the net
/// salaries of the paid slips. The store keeps balances exactly.
pub open spec fn wallet_after(before: int, ledger: Seq<LedgerEntry>) -> int {
    before - paid_net_units(ledger)
}

/// A transfer the caller is to ask of the gateway.
#[derive(Debug)]
pub struct TransferOrder {
    pub amount: Decimal,
    pub reference: String,
    pub employee_name: String,
    pub bank_code: String,
    pub account_number: String,
    pub narration: String,
}

/// A slip the caller is to append to the store.
#[derive(Debug)]
pub struct SlipEntry {
    pub payroll_run_id: Uuid,
    pub organization_id: Uuid,
    pub pay_period: String,
    pub figures: CalculatedSlip,
    pub monnify_reference: Option<String>,
    /// `success` or `failed`.
    pub payment_status: String,
}

impl SlipEntry {
    /// The slip as the store holds it once it has given it an identifier and a time.
    pub fn into_slip(self, id: Uuid, created_at: i64) -> (slip: PayrollSlip)
        ensures
            slip.id == id,
            slip.created_at == created_at,
            slip.payroll_run_id == self.payroll_run_id,
            slip.employee_id == self.figures.employee_id,
            slip.organization_id == self.organization_id,
            slip.pay_period == self.pay_period,
            slip.base_salary == self.figures.base_salary,
            slip.total_additions == self.figures.total_additions,
            slip.gross_salary == self.figures.gross_salary,
            slip.paye_tax == self.figures.paye_tax,
            slip.pension_deduction == self.figures.pension_deduction,
            slip.nhf_deduction == self.figures.nhf_deduction,
            slip.nhis_deduction == self.figures.nhis_deduction,
            slip.other_deductions == self.figures.other_deductions,
            slip.total_deductions == self.figures.total_deductions,
            slip.net_salary == self.figures.net_salary,
            slip.monnify_reference == self.monnify_reference,
            slip.payment_status == self.payment_status,
    {
        PayrollSlip {
            id,
            payroll_run_id: self.payroll_run_id,
            employee_id: self.figures.employee_id,
            organization_id: self.organization_id,
            pay_period: self.pay_period,
            base_salary: self.figures.base_salary,
            total_additions: self.figures.total_additions,
            gross_salary: self.figures.gross_salary,
            paye_tax: self.figures.paye_tax,
            pension_deduction: self.figures.pension_deduction,
            nhf_deduction: self.figures.nhf_deduction,
            nhis_deduction: self.figures.nhis_deduction,
            other_deductions: self.figures.other_deductions,
            total_deductions: self.figures.total_deductions,
            net_salary: self.figures.net_salary,
            monnify_reference: self.monnify_reference,
            payment_status: self.payment_status,
            created_at,
        }
    }
}

/// What the caller is to do next.
#[derive(Debug)]
pub enum RunAction {
    /// Mark the run `processing` and load the organization's active employees.
    LoadEmployees,
    /// Mark the run `failed`. The run is over.
    MarkFailed,
    /// Load the organization's rates.
    LoadTaxConfig,
    /// Load the adjustments of the employee for the pay period.
    LoadAdjustments { employee_id: Uuid, pay_period: String },
    /// Read the organization's wallet balance, and keep the wallet from every other
    /// writer until the slip of the employee is saved.
    ReadBalance,
    /// Ask the gateway for the transfer.
    SendTransfer(TransferOrder),
    /// Take `debit`, where there is one, off the wallet, append the slip, and let go
    /// of the wallet.
    SaveSlip { debit: Option<Decimal>, entry: SlipEntry },
    /// Try to send the payslip; whether it arrives does not matter to the run.
    SendPayslip {
        employee_email: String,
        employee_name: String,
        org_name: String,
        slip: PayrollSlip,
    },
    /// Mark the run `completed` with these totals and the time. The run is over.
    Complete {
        total_gross: Decimal,
        total_deductions: Decimal,
        total_net: Decimal,
        employee_count: i32,
    },
    /// Stop: a figure left the decimal range.
    Halt,
    /// Nothing: the event was not the one the run is waiting for.
    Ignore,
}

/// What the caller reports.
#[derive(Debug)]
pub enum RunEvent {
    /// The run is handed over.
    Start,
    /// The active employees, or `None` where they could not be loaded.
    EmployeesLoaded(Option<Vec<Employee>>),
    /// The organization's rates, or `None` where it has none.
    TaxConfigLoaded(Option<TaxConfig>),
    /// The adjustments asked for; none where they could not be loaded.
    AdjustmentsLoaded(Vec<PayrollAdjustment>),
    /// The wallet balance, or `None` where it could not be read.
    BalanceRead(Option<Decimal>),
    /// The gateway's answer to the transfer.
    TransferFinished(Result<MonnifyTransferBody, AppError>),
    /// The slip as the store holds it, or `None` where it could not be appended.
    SlipSaved(Option<PayrollSlip>),
    /// The payslip was sent, or sending it failed.
    NotificationAttempted,
}

/// The state of one payroll run.
pub struct RunOrchestrator {
    pub payroll_run_id: Uuid,
    pub organization_id: Uuid,
    pub org_name: String,
    pub pay_period: String,
    pub status: PayrollStatus,
    pub stage: Stage,
    pub employees: Vec<Employee>,
    pub tax_config: TaxConfig,
    /// The index of the current employee.
    pub cursor: usize,
    pub total_gross: Decimal,
    pub total_deductions: Decimal,
    pub total_net: Decimal,
    pub success_count: i32,
    /// The slips handed to the store so far.
    pub ledger: Ghost<Seq<LedgerEntry>>,
}

impl RunOrchestrator {
    /// The slips that the totals include: all that were handed to the store, but for
    /// a paid one whose saving is still awaited.
    pub open spec fn booked(self) -> Seq<LedgerEntry> {
        if self.stage matches Stage::SavingSlip { slip, paid } && paid {
            self.ledger@.drop_last()
        } else {
            self.ledger@
        }
    }

    /// Whether the run is at work on its current employee.
    pub open spec fn at_employee(self) -> bool {
        self.stage is LoadingAdjustments || self.stage is ReadingBalance
            || self.stage is Transferring || self.stage is SavingSlip || self.stage is Notifying
    }

    /// What holds of every run.
    ///
    /// The status follows the stage. Unless the run has halted, the totals are the
    /// sums over the paid slips that are booked, and the count is their number; unpaid
    /// slips count for nothing. A run that has not reached its first employee has
    /// handed no slip to the store.
    pub open spec fn wf(self) -> bool {
        &&& self.stage is Created <==> self.status is Pending
        &&& self.stage is Closed <==> self.status.terminal()
        &&& self.at_employee() ==> self.cursor < self.employees@.len()
        &&& self.stage is LoadingTaxConfig ==> self.employees@.len() > 0
        &&& self.status is Completed ==> self.employees@.len() > 0
        &&& (self.stage is Created || self.stage is LoadingEmployees
            || self.stage is LoadingTaxConfig || self.status is Failed) ==> self.ledger@.len() == 0
        &&& self.stage matches Stage::SavingSlip { slip, paid } ==> self.ledger@.len() > 0
            && self.ledger@.last() == (LedgerEntry { slip: slip@, paid })
        &&& self.stage matches Stage::Transferring { slip, available } ==> {
            &&& slip.net_salary.well_formed()
            &&& available.well_formed()
            &&& slip.net_salary@.non_negative()
            &&& !available@.lt(slip.net_salary@)
        }
        &&& self.stage matches Stage::ReadingBalance { slip } ==> slip.net_salary@.non_negative()
        &&& forall|i: int|
            0 <= i < self.ledger@.len() ==> (#[trigger] self.ledger@[i]).slip.net_salary
                .non_negative()
        &&& !(self.stage is Halted) ==> self.totals_are_booked()
    }

    /// The totals are the sums over the paid slips that are booked, added up in the
    /// order in which the slips were handed to the store, and the count is the number
    /// of those slips.
    pub open spec fn totals_are_booked(self) -> bool {
        &&& Some(self.total_gross@) == decimal_total(paid_figures(self.booked(), Figure::Gross))
        &&& Some(self.total_deductions@) == decimal_total(
            paid_figures(self.booked(), Figure::Deductions),
        )
        &&& Some(self.total_net@) == decimal_total(paid_figures(self.booked(), Figure::Net))
        &&& self.success_count == paid_count(self.booked())
    }

    /// A run that has just been created: `pending`, with nothing booked.
    pub fn new(
        payroll_run_id: Uuid,
        organization_id: Uuid,
        org_name: String,
        pay_period: String,
    ) -> (run: RunOrchestrator)
        ensures
            run.wf(),
            run.stage is Created,
            run.status is Pending,
            run.payroll_run_id == payroll_run_id,
            run.organization_id == organization_id,
            run.org_name == org_name,
            run.pay_period == pay_period,
            run.employees@.len() == 0,
            run.ledger@.len() == 0,
            run.success_count == 0,
            run.total_gross@ == DecimalValue::zero(),
            run.total_deductions@ == DecimalValue::zero(),
            run.total_net@ == DecimalValue::zero(),
    {
        RunOrchestrator {
            payroll_run_id,
            organization_id,
            org_name,
            pay_period,
            status: PayrollStatus::Pending,
            stage: Stage::Created,
            employees: Vec::new(),
            tax_config: TaxConfig::zero_rates(organization_id),
            cursor: 0,
            total_gross: Decimal::zero(),
            total_deductions: Decimal::zero(),
            total_net: Decimal::zero(),
            success_count: 0,
            ledger: Ghost(Seq::empty()),
        }
    }

    /// The event was not awaited: nothing changes and nothing is to be done.
    pub open spec fn ignored(
        pre: RunOrchestrator,
        post: RunOrchestrator,
        action: RunAction,
    ) -> bool {
        post == pre && action is Ignore
    }

    /// How a run starts: it is `processing` at once and asks for its employees.
    pub open spec fn started(
        pre: RunOrchestrator,
        post: RunOrchestrator,
        action: RunAction,
    ) -> bool {
        if pre.stage is Created {
            &&& post == (RunOrchestrator {
                status: PayrollStatus::Processing,
                stage: Stage::LoadingEmployees,
                ..pre
            })
            &&& action is LoadEmployees
        } else {
            Self::ignored(pre, post, action)
        }
    }

    /// What follows from the employees: without any, because they could not be loaded
    /// or because there are none, the run fails; otherwise it goes on to the rates.
    pub open spec fn took_employees(
        pre: RunOrchestrator,
        loaded: Option<Vec<Employee>>,
        post: RunOrchestrator,
        action: RunAction,
    ) -> bool {
        if pre.stage is LoadingEmployees {
            if loaded is Some && loaded->0@.len() > 0 {
                &&& post == (RunOrchestrator {
                    stage: Stage::LoadingTaxConfig,
                    employees: loaded->0,
                    ..pre
                })
                &&& action is LoadTaxConfig
            } else {
                &&& post == (RunOrchestrator {
                    status: PayrollStatus::Failed,
                    stage: Stage::Closed,
                    ..pre
                })
                &&& action is MarkFailed
            }
        } else {
            Self::ignored(pre, post, action)
        }
    }

    /// What follows from the rates: the organization's own where it has any, zero
    /// rates where it has none; then the first employee is taken up.
    pub open spec fn took_tax_config(
        pre: RunOrchestrator,
        found: Option<TaxConfig>,
        post: RunOrchestrator,
        action: RunAction,
    ) -> bool {
        if pre.stage is LoadingTaxConfig {
            &&& post == (RunOrchestrator {
                stage: Stage::LoadingAdjustments,
                tax_config: post.tax_config,
                cursor: 0,
                ..pre
            })
            &&& match found {
                Some(config) => post.tax_config == config,
                None => post.tax_config.all_zero(),
            }
            &&& Self::asks_adjustments(post, action)
        } else {
            Self::ignored(pre, post, action)
        }
    }

    /// The action asks for the adjustments of the current employee of `run`.
    pub open spec fn asks_adjustments(run: RunOrchestrator, action: RunAction) -> bool {
        &&& action matches RunAction::LoadAdjustments { employee_id, pay_period }
        &&& employee_id == run.employees@[run.cursor as int].id
        &&& pay_period@ == run.pay_period@
    }

    /// Takes the run from `pending` to `processing`.
    pub fn start(&mut self) -> (action: RunAction)
        requires
            old(self).wf(),
        ensures
            final(self).wf(),
            Self::started(*old(self), *final(self), action),
    {
        match self.stage {
            Stage::Created => {
                self.status = PayrollStatus::Processing;
                self.stage = Stage::LoadingEmployees;
                RunAction::LoadEmployees
            },
            _ => RunAction::Ignore,
        }
    }

    /// Takes the employees the store returned.
    pub fn employees_loaded(&mut self, loaded: Option<Vec<Employee>>) -> (action: RunAction)
        requires
            old(self).wf(),
        ensures
            final(self).wf(),
            Self::took_employees(*old(self), loaded, *final(self), action),
    {
        match self.stage {
            Stage::LoadingEmployees => {
                match loaded {
                    Some(list) => {
                        if list.len() > 0 {
                            self.employees = list;
                            self.stage = Stage::LoadingTaxConfig;
                            return RunAction::LoadTaxConfig;
                        }
                    },
                    None => {},
                }
                self.status = PayrollStatus::Failed;
                self.stage = Stage::Closed;
                RunAction::MarkFailed
            },
            _ => RunAction::Ignore,
        }
    }

    /// Takes the rates the store returned.
    pub fn tax_config_loaded(&mut self, found: Option<TaxConfig>) -> (action: RunAction)
        requires
            old(self).wf(),
        ensures
            final(self).wf(),
            Self::took_tax_config(*old(self), found, *final(self), action),
    {
        match self.stage {
            Stage::LoadingTaxConfig => {
                self.tax_config = match found {
                    Some(config) => config,
                    None => TaxConfig::zero_rates(self.organization_id),
                };
                self.cursor = 0;
                self.stage = Stage::LoadingAdjustments;
                self.ask_adjustments()
            },
            _ => RunAction::Ignore,
        }
    }

    /// The request for the current employee's adjustments.
    fn ask_adjustments(&self) -> (action: RunAction)
        requires
            self.cursor < self.employees@.len(),
        ensures
            Self::asks_adjustments(*self, action),
    {
        RunAction::LoadAdjustments {
            employee_id: self.employees[self.cursor].id,
            pay_period: self.pay_period.clone(),
        }
    }

    /// The full name of an employee.
    pub open spec fn full_name(employee: Employee) -> Seq<char> {
        employee.first_name@ + " "@ + employee.last_name@
    }

    /// The reference of the transfer to an employee within a run.
    pub open spec fn transfer_reference(payroll_run_id: Uuid, employee_id: Uuid) -> Seq<char> {
        "PAY-"@ + payroll_run_id.text() + "-"@ + employee_id.text()
    }

    /// The action orders the transfer of the net salary of `slip` to the current
    /// employee of `run`.
    pub open spec fn orders_transfer(
        run: RunOrchestrator,
        slip: CalculatedSlip,
        action: RunAction,
    ) -> bool {
        let employee = run.employees@[run.cursor as int];
        &&& action matches RunAction::SendTransfer(order)
        &&& order.amount == slip.net_salary
        &&& order.reference@ == Self::transfer_reference(run.payroll_run_id, employee.id)
        &&& order.employee_name@ == Self::full_name(employee)
        &&& order.bank_code@ == employee.bank_code@
        &&& order.account_number@ == employee.bank_account_number@
        &&& order.narration@ == run.org_name@ + " Salary - "@ + run.pay_period@
    }

    /// The action hands `slip` to the store: as `success`, with the gateway's reference
    /// and a debit of exactly the net salary, where the transfer was paid; as `failed`,
    /// with neither, where it was not.
    pub open spec fn saves_slip(
        run: RunOrchestrator,
        slip: CalculatedSlip,
        paid: bool,
        reference: Option<Seq<char>>,
        action: RunAction,
    ) -> bool {
        &&& action matches RunAction::SaveSlip { debit, entry }
        &&& debit == (if paid {
            Some(slip.net_salary)
        } else {
            None
        })
        &&& entry.payroll_run_id == run.payroll_run_id
        &&& entry.organization_id == run.organization_id
        &&& entry.pay_period@ == run.pay_period@
        &&& entry.figures == slip
        &&& match entry.monnify_reference {
            Some(r) => paid && reference == Some(r@),
            None => !paid,
        }
        &&& entry.payment_status@ == (if paid {
            "success"@
        } else {
            "failed"@
        })
    }

    /// The action sends the saved slip to the current employee of `run`.
    pub open spec fn sends_payslip(
        run: RunOrchestrator,
        saved: PayrollSlip,
        action: RunAction,
    ) -> bool {
        let employee = run.employees@[run.cursor as int];
        &&& action matches RunAction::SendPayslip { employee_email, employee_name, org_name, slip }
        &&& employee_email@ == employee.email@
        &&& employee_name@ == Self::full_name(employee)
        &&& org_name@ == run.org_name@
        &&& slip == saved
    }

    /// How a run leaves an employee: it takes up the next one, or, after the last, it
    /// completes with the totals it has booked.
    pub open spec fn moved_on(
        pre: RunOrchestrator,
        post: RunOrchestrator,
        action: RunAction,
    ) -> bool {
        if pre.cursor + 1 < pre.employees@.len() {
            &&& post == (RunOrchestrator {
                stage: Stage::LoadingAdjustments,
                cursor: (pre.cursor + 1) as usize,
                ..pre
            })
            &&& Self::asks_adjustments(post, action)
        } else {
            &&& post == (RunOrchestrator {
                status: PayrollStatus::Completed,
                stage: Stage::Closed,
                ..pre
            })
            &&& action matches RunAction::Complete {
                total_gross,
                total_deductions,
                total_net,
                employee_count,
            }
            &&& total_gross == pre.total_gross
            &&& total_deductions == pre.total_deductions
            &&& total_net == pre.total_net
            &&& employee_count == pre.success_count
        }
    }

    /// What follows from the adjustments: the payslip of the current employee is
    /// calculated and the wallet balance asked for. The run halts where a figure
    /// leaves the decimal range.
    pub open spec fn took_adjustments(
        pre: RunOrchestrator,
        adjustments: Vec<PayrollAdjustment>,
        post: RunOrchestrator,
        action: RunAction,
    ) -> bool {
        if pre.stage is LoadingAdjustments {
            match payslip_of(pre.employees@[pre.cursor as int], adjustments@, pre.tax_config) {
                Some(figures) => {
                    &&& post.stage matches Stage::ReadingBalance { slip }
                    &&& slip@ == figures
                    &&& post == (RunOrchestrator { stage: post.stage, ..pre })
                    &&& action is ReadBalance
                },
                None => {
                    &&& post == (RunOrchestrator { stage: Stage::Halted, ..pre })
                    &&& action is Halt
                },
            }
        } else {
            Self::ignored(pre, post, action)
        }
    }

    /// What follows from the wallet balance. A balance below the net salary is not
    /// enough: the slip is saved as `failed` and the gateway is not called. A balance
    /// that could not be read leaves the employee without a slip. Otherwise the
    /// transfer is ordered.
    pub open spec fn took_balance(
        pre: RunOrchestrator,
        balance: Option<Decimal>,
        post: RunOrchestrator,
        action: RunAction,
    ) -> bool {
        match pre.stage {
            Stage::ReadingBalance { slip } => match balance {
                None => Self::moved_on(pre, post, action),
                Some(available) => if available@.lt(slip.net_salary@) {
                    &&& post == (RunOrchestrator {
                        stage: Stage::SavingSlip { slip, paid: false },
                        ledger: post.ledger,
                        ..pre
                    })
                    &&& post.ledger@ == pre.ledger@.push(LedgerEntry { slip: slip@, paid: false })
                    &&& Self::saves_slip(pre, slip, false, None, action)
                } else {
                    &&& post == (RunOrchestrator {
                        stage: Stage::Transferring { slip, available },
                        ..pre
                    })
                    &&& Self::orders_transfer(pre, slip, action)
                },
            },
            _ => Self::ignored(pre, post, action),
        }
    }

    /// What follows from the gateway's answer: the slip is saved as `success` with
    /// the gateway's reference and the wallet is debited by the net salary, or the
    /// slip is saved as `failed` and the wallet is left alone.
    pub open spec fn took_transfer(
        pre: RunOrchestrator,
        result: Result<MonnifyTransferBody, AppError>,
        post: RunOrchestrator,
        action: RunAction,
    ) -> bool {
        match pre.stage {
            Stage::Transferring { slip, available } => {
                let paid = result is Ok;
                let reference = match result {
                    Ok(body) => Some(body.reference@),
                    Err(_) => None,
                };
                &&& post == (RunOrchestrator {
                    stage: Stage::SavingSlip { slip, paid },
                    ledger: post.ledger,
                    ..pre
                })
                &&& post.ledger@ == pre.ledger@.push(LedgerEntry { slip: slip@, paid })
                &&& Self::saves_slip(pre, slip, paid, reference, action)
            },
            _ => Self::ignored(pre, post, action),
        }
    }

    /// What follows from the store's answer to a slip. A paid slip is booked: its
    /// gross salary, deductions and net salary are added to the totals and the count
    /// goes up by one, whether or not the store kept the slip; the payslip is sent
    /// where it did. An unpaid slip changes nothing. The run halts where a total
    /// leaves its range.
    pub open spec fn took_saved_slip(
        pre: RunOrchestrator,
        saved: Option<PayrollSlip>,
        post: RunOrchestrator,
        action: RunAction,
    ) -> bool {
        match pre.stage {
            Stage::SavingSlip { slip, paid } => if !paid {
                Self::moved_on(pre, post, action)
            } else {
                let gross = pre.total_gross@.sum(slip.gross_salary@);
                let deductions = pre.total_deductions@.sum(slip.total_deductions@);
                let net = pre.total_net@.sum(slip.net_salary@);
                if gross is Some && deductions is Some && net is Some && pre.success_count
                    < i32::MAX {
                    let booked = RunOrchestrator {
                        total_gross: post.total_gross,
                        total_deductions: post.total_deductions,
                        total_net: post.total_net,
                        success_count: (pre.success_count + 1) as i32,
                        ..pre
                    };
                    &&& Some(post.total_gross@) == gross
                    &&& Some(post.total_deductions@) == deductions
                    &&& Some(post.total_net@) == net
                    &&& match saved {
                        Some(kept) => {
                            &&& post == (RunOrchestrator { stage: Stage::Notifying, ..booked })
                            &&& Self::sends_payslip(pre, kept, action)
                        },
                        None => Self::moved_on(booked, post, action),
                    }
                } else {
                    &&& post == (RunOrchestrator { stage: Stage::Halted, ..pre })
                    &&& action is Halt
                }
            },
            _ => Self::ignored(pre, post, action),
        }
    }

    /// What follows from the attempt to notify: the run leaves the employee, whatever
    /// came of it.
    pub open spec fn took_notification(
        pre: RunOrchestrator,
        post: RunOrchestrator,
        action: RunAction,
    ) -> bool {
        if pre.stage is Notifying {
            Self::moved_on(pre, post, action)
        } else {
            Self::ignored(pre, post, action)
        }
    }

    /// The transition of a run on an event.
    pub open spec fn stepped(
        pre: RunOrchestrator,
        event: RunEvent,
        post: RunOrchestrator,
        action: RunAction,
    ) -> bool {
        match event {
            RunEvent::Start => Self::started(pre, post, action),
            RunEvent::EmployeesLoaded(loaded) => Self::took_employees(pre, loaded, post, action),
            RunEvent::TaxConfigLoaded(found) => Self::took_tax_config(pre, found, post, action),
            RunEvent::AdjustmentsLoaded(adjustments) => Self::took_adjustments(
                pre,
                adjustments,
                post,
                action,
            ),
            RunEvent::BalanceRead(balance) => Self::took_balance(pre, balance, post, action),
            RunEvent::TransferFinished(result) => Self::took_transfer(pre, result, post, action),
            RunEvent::SlipSaved(saved) => Self::took_saved_slip(pre, saved, post, action),
            RunEvent::NotificationAttempted => Self::took_notification(pre, post, action),
        }
    }

    /// Leaves the current employee.
    fn move_on(&mut self) -> (action: RunAction)
        requires
            old(self).wf(),
            old(self).at_employee(),
            old(self).booked() == old(self).ledger@,
        ensures
            final(self).wf(),
            Self::moved_on(*old(self), *final(self), action),
    {
        let count = self.employees.len();
        if self.cursor + 1 < count {
            self.cursor = self.cursor + 1;
            self.stage = Stage::LoadingAdjustments;
            self.ask_adjustments()
        } else {
            self.status = PayrollStatus::Completed;
            self.stage = Stage::Closed;
            RunAction::Complete {
                total_gross: self.total_gross,
                total_deductions: self.total_deductions,
                total_net: self.total_net,
                employee_count: self.success_count,
            }
        }
    }

    /// The full name of the current employee.
    fn current_name(&self) -> (name: String)
        requires
            self.cursor < self.employees@.len(),
        ensures
            name@ == Self::full_name(self.employees@[self.cursor as int]),
    {
        let employee = &self.employees[self.cursor];
        employee.first_name.clone().concat(" ").concat(employee.last_name.as_str())
    }

    /// The slip as it is handed to the store.
    fn slip_entry(&self, slip: CalculatedSlip, reference: Option<String>) -> (action: RunAction)
        ensures
            Self::saves_slip(
                *self,
                slip,
                reference is Some,
                match reference {
                    Some(r) => Some(r@),
                    None => None,
                },
                action,
            ),
    {
        let (debit, payment_status) = match reference {
            Some(_) => (Some(slip.net_salary), String::from_str("success")),
            None => (None, String::from_str("failed")),
        };
        RunAction::SaveSlip {
            debit,
            entry: SlipEntry {
                payroll_run_id: self.payroll_run_id,
                organization_id: self.organization_id,
                pay_period: self.pay_period.clone(),
                figures: slip,
                monnify_reference: reference,
                payment_status,
            },
        }
    }

    /// Takes the adjustments the store returned for the current employee.
    pub fn adjustments_loaded(&mut self, adjustments: Vec<PayrollAdjustment>) -> (action: RunAction)
        requires
            old(self).wf(),
        ensures
            final(self).wf(),
            Self::took_adjustments(*old(self), adjustments, *final(self), action),
    {
        match self.stage {
            Stage::LoadingAdjustments => {
                let calculated = PayrollService::try_calculate(
                    &self.employees[self.cursor],
                    adjustments.as_slice(),
                    &self.tax_config,
                );
                match calculated {
                    Some(slip) => {
                        self.stage = Stage::ReadingBalance { slip };
                        RunAction::ReadBalance
                    },
                    None => {
                        self.stage = Stage::Halted;
                        RunAction::Halt
                    },
                }
            },
            _ => RunAction::Ignore,
        }
    }

    /// Takes the wallet balance the store returned.
    pub fn balance_read(&mut self, balance: Option<Decimal>) -> (action: RunAction)
        requires
            old(self).wf(),
        ensures
            final(self).wf(),
            Self::took_balance(*old(self), balance, *final(self), action),
    {
        match self.stage {
            Stage::ReadingBalance { slip } => match balance {
                None => self.move_on(),
                Some(available) => {
                    if available.lt(&slip.net_salary) {
                        let action = self.slip_entry(slip, None);
                        let ghost entry = LedgerEntry { slip: slip@, paid: false };
                        proof {
                            lemma_ledger_push(self.ledger@, entry);
                        }
                        self.ledger = Ghost(self.ledger@.push(entry));
                        self.stage = Stage::SavingSlip { slip, paid: false };
                        action
                    } else {
                        let employee = &self.employees[self.cursor];
                        let reference = String::from_str("PAY-").concat(
                            self.payroll_run_id.to_text().as_str(),
                        ).concat("-").concat(employee.id.to_text().as_str());
                        let narration = self.org_name.clone().concat(" Salary - ").concat(
                            self.pay_period.as_str(),
                        );
                        let order = TransferOrder {
                            amount: slip.net_salary,
                            reference,
                            employee_name: self.current_name(),
                            bank_code: employee.bank_code.clone(),
                            account_number: employee.bank_account_number.clone(),
                            narration,
                        };
                        proof {
                            use_type_invariant(&available);
                            use_type_invariant(&slip.net_salary);
                        }
                        self.stage = Stage::Transferring { slip, available };
                        RunAction::SendTransfer(order)
                    }
                },
            },
            _ => RunAction::Ignore,
        }
    }

    /// Takes the gateway's answer to the transfer.
    pub fn transfer_finished(
        &mut self,
        result: Result<MonnifyTransferBody, AppError>,
    ) -> (action: RunAction)
        requires
            old(self).wf(),
        ensures
            final(self).wf(),
            Self::took_transfer(*old(self), result, *final(self), action),
    {
        match self.stage {
            Stage::Transferring { slip, available } => {
                let reference = match result {
                    Ok(body) => Some(body.reference),
                    Err(_) => None,
                };
                let paid = reference.is_some();
                let action = self.slip_entry(slip, reference);
                let ghost entry = LedgerEntry { slip: slip@, paid };
                proof {
                    lemma_ledger_push(self.ledger@, entry);
                }
                self.ledger = Ghost(self.ledger@.push(entry));
                self.stage = Stage::SavingSlip { slip, paid };
                action
            },
            _ => RunAction::Ignore,
        }
    }

    /// Takes the store's answer to the slip.
    pub fn slip_saved(&mut self, saved: Option<PayrollSlip>) -> (action: RunAction)
        requires
            old(self).wf(),
        ensures
            final(self).wf(),
            Self::took_saved_slip(*old(self), saved, *final(self), action),
    {
        match self.stage {
            Stage::SavingSlip { slip, paid } => {
                if !paid {
                    return self.move_on();
                }
                let gross = self.total_gross.checked_add(slip.gross_salary);
                let deductions = self.total_deductions.checked_add(slip.total_deductions);
                let net = self.total_net.checked_add(slip.net_salary);
                if gross.is_none() || deductions.is_none() || net.is_none() || self.success_count
                    == i32::MAX {
                    self.stage = Stage::Halted;
                    return RunAction::Halt;
                }
                proof {
                    lemma_ledger_push(self.ledger@.drop_last(), self.ledger@.last());
                    assert(self.ledger@.drop_last().push(self.ledger@.last()) =~= self.ledger@);
                }
                self.total_gross = gross.unwrap();
                self.total_deductions = deductions.unwrap();
                self.total_net = net.unwrap();
                self.success_count = self.success_count + 1;
                match saved {
                    Some(kept) => {
                        let action = RunAction::SendPayslip {
                            employee_email: self.employees[self.cursor].email.clone(),
                            employee_name: self.current_name(),
                            org_name: self.org_name.clone(),
                            slip: kept,
                        };
                        self.stage = Stage::Notifying;
                        action
                    },
                    None => {
                        self.stage = Stage::Notifying;
                        self.move_on()
                    },
                }
            },
            _ => RunAction::Ignore,
        }
    }

    /// Takes the news that the notification was attempted.
    pub fn notification_attempted(&mut self) -> (action: RunAction)
        requires
            old(self).wf(),
        ensures
            final(self).wf(),
            Self::took_notification(*old(self), *final(self), action),
    {
        match self.stage {
            Stage::Notifying => self.move_on(),
            _ => RunAction::Ignore,
        }
    }

    /// Advances the run by one event and says what is to be done next.
    pub fn step(&mut self, event: RunEvent) -> (action: RunAction)
        requires
            old(self).wf(),
        ensures
            final(self).wf(),
            Self::stepped(*old(self), event, *final(self), action),
    {
        match event {
            RunEvent::Start => self.start(),
            RunEvent::EmployeesLoaded(loaded) => self.employees_loaded(loaded),
            RunEvent::TaxConfigLoaded(found) => self.tax_config_loaded(found),
            RunEvent::AdjustmentsLoaded(adjustments) => self.adjustments_loaded(adjustments),
            RunEvent::BalanceRead(balance) => self.balance_read(balance),
            RunEvent::TransferFinished(result) => self.transfer_finished(result),
            RunEvent::SlipSaved(saved) => self.slip_saved(saved),
            RunEvent::NotificationAttempted => self.notification_attempted(),
        }
    }
}

/// A slip that joins a ledger adds its figures to those of the paid slips where it is
/// paid, and leaves them as they were where it is not.
pub proof fn lemma_ledger_push(ledger: Seq<LedgerEntry>, entry: LedgerEntry)
    ensures
        forall|figure: Figure| #[trigger]
            paid_figures(ledger.push(entry), figure) == if entry.paid {
                paid_figures(ledger, figure).push(figure.of(entry.slip))
            } else {
                paid_figures(ledger, figure)
            },
        forall|figure: Figure| #[trigger]
            decimal_total(paid_figures(ledger.push(entry), figure)) == if entry.paid {
                sum_of(decimal_total(paid_figures(ledger, figure)), Some(figure.of(entry.slip)))
            } else {
                decimal_total(paid_figures(ledger, figure))
            },
        paid_count(ledger.push(entry)) == if entry.paid {
            paid_count(ledger) + 1
        } else {
            paid_count(ledger)
        },
        ledger.push(entry).drop_last() == ledger,
{
    assert(ledger.push(entry).drop_last() =~= ledger);
    assert forall|figure: Figure| #[trigger]
        paid_figures(ledger.push(entry), figure) == if entry.paid {
            paid_figures(ledger, figure).push(figure.of(entry.slip))
        } else {
            paid_figures(ledger, figure)
        } by {}
    assert forall|figure: Figure| #[trigger]
        decimal_total(paid_figures(ledger.push(entry), figure)) == if entry.paid {
            sum_of(decimal_total(paid_figures(ledger, figure)), Some(figure.of(entry.slip)))
        } else {
            decimal_total(paid_figures(ledger, figure))
        } by {
        if entry.paid {
            let before = paid_figures(ledger, figure);
            assert(before.push(figure.of(entry.slip)).drop_last() =~= before);
        }
    }
}

/// The statuses a run may pass to from `from`: a pending run starts processing, a
/// processing run completes or fails, and a run that is over stays as it is.
pub open spec fn status_may_follow(from: PayrollStatus, to: PayrollStatus) -> bool {
    match from {
        PayrollStatus::Pending => to is Pending || to is Processing,
        PayrollStatus::Processing => !(to is Pending),
        PayrollStatus::Completed => to is Completed,
        PayrollStatus::Failed => to is Failed,
    }
}

/// No event changes a run that is completed or failed.
pub proof fn lemma_terminal_run_stays(
    pre: RunOrchestrator,
    event: RunEvent,
    post: RunOrchestrator,
    action: RunAction,
)
    requires
        pre.wf(),
        pre.status.terminal(),
        RunOrchestrator::stepped(pre, event, post, action),
    ensures
        post == pre,
        action is Ignore,
{
}

/// The status of a run only moves forward: from pending to processing, from
/// processing to completed or failed.
pub proof fn lemma_status_moves_forward(
    pre: RunOrchestrator,
    event: RunEvent,
    post: RunOrchestrator,
    action: RunAction,
)
    requires
        pre.wf(),
        RunOrchestrator::stepped(pre, event, post, action),
    ensures
        status_may_follow(pre.status, post.status),
        post.status is Processing && pre.status is Pending ==> event is Start,
{
}

/// A run fails in one way only: it asked for its employees and got none, because they
/// could not be loaded or because there are none. Then nothing was handed to the store
/// and the totals are untouched.
pub proof fn lemma_run_fails_only_without_employees(
    pre: RunOrchestrator,
    event: RunEvent,
    post: RunOrchestrator,
    action: RunAction,
)
    requires
        pre.wf(),
        RunOrchestrator::stepped(pre, event, post, action),
    ensures
        post.status is Failed && !(pre.status is Failed) <==> pre.stage is LoadingEmployees && (
        event matches RunEvent::EmployeesLoaded(loaded) && (loaded is None || loaded->0@.len()
            == 0)),
        post.status is Failed && !(pre.status is Failed) ==> action is MarkFailed
            && post.ledger@.len() == 0 && post.total_net == pre.total_net && post.total_gross
            == pre.total_gross && post.total_deductions == pre.total_deductions
            && post.success_count == pre.success_count,
{
}

/// Once a run has taken up an employee it never fails, whatever happens to that
/// employee or to any later one: it stays in processing or completes.
pub proof fn lemma_run_with_employee_never_fails(
    pre: RunOrchestrator,
    event: RunEvent,
    post: RunOrchestrator,
    action: RunAction,
)
    requires
        pre.wf(),
        pre.at_employee(),
        RunOrchestrator::stepped(pre, event, post, action),
    ensures
        post.status is Processing || post.status is Completed,
        post.at_employee() || post.stage is Halted || post.status is Completed,
{
}

/// Whether `event` is the one a run in `stage` is waiting for.
pub open spec fn awaits(stage: Stage, event: RunEvent) -> bool {
    match stage {
        Stage::Created => event is Start,
        Stage::LoadingEmployees => event is EmployeesLoaded,
        Stage::LoadingTaxConfig => event is TaxConfigLoaded,
        Stage::LoadingAdjustments => event is AdjustmentsLoaded,
        Stage::ReadingBalance { .. } => event is BalanceRead,
        Stage::Transferring { .. } => event is TransferFinished,
        Stage::SavingSlip { .. } => event is SlipSaved,
        Stage::Notifying => event is NotificationAttempted,
        Stage::Halted => false,
        Stage::Closed => false,
    }
}

/// An upper bound on the events a run still takes before it is over: five for every
/// employee not yet taken up, and what is left of the current one.
pub open spec fn steps_left(run: RunOrchestrator) -> int {
    let all = run.employees@.len() as int * 5;
    let later = (run.employees@.len() - run.cursor - 1) * 5;
    match run.stage {
        Stage::Created => 3 + all,
        Stage::LoadingEmployees => 2 + all,
        Stage::LoadingTaxConfig => 1 + all,
        Stage::LoadingAdjustments => later + 5,
        Stage::ReadingBalance { .. } => later + 4,
        Stage::Transferring { .. } => later + 3,
        Stage::SavingSlip { .. } => later + 2,
        Stage::Notifying => later + 1,
        Stage::Halted => 0,
        Stage::Closed => 0,
    }
}

/// A run takes the event it is waiting for, and ignores every other.
pub proof fn lemma_awaited_event_is_taken(
    pre: RunOrchestrator,
    event: RunEvent,
    post: RunOrchestrator,
    action: RunAction,
)
    requires
        pre.wf(),
        RunOrchestrator::stepped(pre, event, post, action),
    ensures
        awaits(pre.stage, event) <==> !(action is Ignore),
        !awaits(pre.stage, event) ==> post == pre,
{
}

/// Every event that a run takes brings it closer to its end. Once the first employee
/// is taken up, a run that is handed the events it waits for completes after at most
/// five events for each employee, unless a figure leaves the decimal range and the
/// run halts.
pub proof fn lemma_run_comes_to_an_end(
    pre: RunOrchestrator,
    event: RunEvent,
    post: RunOrchestrator,
    action: RunAction,
)
    requires
        pre.wf(),
        pre.at_employee(),
        awaits(pre.stage, event),
        RunOrchestrator::stepped(pre, event, post, action),
    ensures
        0 <= steps_left(post) < steps_left(pre),
        post.status is Completed <==> post.stage is Closed,
        steps_left(post) == 0 ==> post.status is Completed || post.stage is Halted,
        post.employees == pre.employees,
{
    assert(pre.employees.len() == pre.employees@.len());
    assert(pre.cursor < pre.employees@.len());
    assert((pre.employees@.len() - pre.cursor - 1) * 5 >= 0) by (nonlinear_arith)
        requires
            pre.cursor < pre.employees@.len(),
    ;
    if post.at_employee() {
        assert((post.employees@.len() - post.cursor - 1) * 5 >= 0) by (nonlinear_arith)
            requires
                post.cursor < post.employees@.len(),
        ;
        if post.cursor != pre.cursor {
            assert(post.cursor == pre.cursor + 1);
            assert((post.employees@.len() - post.cursor - 1) * 5 + 5 == (pre.employees@.len()
                - pre.cursor - 1) * 5) by (nonlinear_arith)
                requires
                    post.cursor == pre.cursor + 1,
                    post.employees@.len() == pre.employees@.len(),
            ;
        }
    }
}

/// The wallet is touched through saved slips only. An action that saves a slip adds
/// that slip to the ledger, and it carries a debit exactly when the slip is paid: the
/// debit is then the slip's net salary. No other action adds to the ledger.
pub proof fn lemma_ledger_follows_actions(
    pre: RunOrchestrator,
    event: RunEvent,
    post: RunOrchestrator,
    action: RunAction,
)
    requires
        pre.wf(),
        RunOrchestrator::stepped(pre, event, post, action),
    ensures
        match action {
            RunAction::SaveSlip { debit, entry } => {
                &&& post.ledger@ == pre.ledger@.push(
                    LedgerEntry { slip: entry.figures@, paid: debit is Some },
                )
                &&& debit matches Some(amount) ==> amount == entry.figures.net_salary
                &&& debit is Some <==> entry.payment_status@ == "success"@
                &&& debit is None <==> entry.payment_status@ == "failed"@
            },
            _ => post.ledger@ == pre.ledger@,
        },
{
    reveal_strlit("success");
    reveal_strlit("failed");
    assert("success"@ != "failed"@) by {
        assert("success"@.len() == 7);
        assert("failed"@.len() == 6);
    }
}

/// The totals of a completed run are the sums, over the slips with status `success`
/// that the run handed to the store, of gross salary, deductions and net salary, and
/// the count is the number of those slips.
pub proof fn lemma_completed_totals(run: RunOrchestrator)
    requires
        run.wf(),
        run.status is Completed,
    ensures
        Some(run.total_gross@) == decimal_total(paid_figures(run.ledger@, Figure::Gross)),
        Some(run.total_deductions@) == decimal_total(paid_figures(run.ledger@, Figure::Deductions)),
        Some(run.total_net@) == decimal_total(paid_figures(run.ledger@, Figure::Net)),
        run.success_count == paid_count(run.ledger@),
{
}

/// The wallet balance after a run is the balance before it less the sum of the net
/// salaries of the slips with status `success`. Each such slip takes exactly its net
/// salary off the balance; a slip with status `failed` takes nothing off it.
pub proof fn lemma_wallet_after_run(before: int, ledger: Seq<LedgerEntry>, entry: LedgerEntry)
    ensures
        wallet_after(before, Seq::empty()) == before,
        wallet_after(before, ledger) == before - paid_net_units(ledger),
        wallet_after(before, ledger.push(entry)) == if entry.paid {
            wallet_after(before, ledger) - entry.slip.net_salary.units()
        } else {
            wallet_after(before, ledger)
        },
{
    assert(ledger.push(entry).drop_last() =~= ledger);
}

/// A debit is covered by the balance that was read for it. A run orders a debit only
/// as it saves a paid slip; the amount is then the slip's net salary, it is not
/// negative, and it is at most the wallet balance that the run read before it asked
/// for the transfer. A balance from which such a debit is taken stays at zero or above.
pub proof fn lemma_debit_is_covered(
    pre: RunOrchestrator,
    event: RunEvent,
    post: RunOrchestrator,
    action: RunAction,
)
    requires
        pre.wf(),
        RunOrchestrator::stepped(pre, event, post, action),
    ensures
        action matches RunAction::SaveSlip { debit: Some(amount), entry } ==> {
            &&& pre.stage matches Stage::Transferring { slip, available }
            &&& amount == slip.net_salary
            &&& 0 <= amount@.units() <= available@.units()
            &&& available@.units() - amount@.units() >= 0
        },
{
    if let RunAction::SaveSlip { debit: Some(amount), entry } = action {
        if let Stage::Transferring { slip, available } = pre.stage {
            lemma_order_by_units(available@, slip.net_salary@);
            lemma_order_by_units(slip.net_salary@, available@);
        }
    }
}

/// What a run has taken off the wallet is never negative: the balance after a run is
/// at most the balance before it.
pub proof fn lemma_wallet_never_grows(run: RunOrchestrator, before: int)
    requires
        run.wf(),
    ensures
        wallet_after(before, run.ledger@) <= before,
{
    lemma_paid_net_units_not_negative(run.ledger@);
}

/// The net salaries of paid slips add up to zero or more where none is negative.
pub proof fn lemma_paid_net_units_not_negative(ledger: Seq<LedgerEntry>)
    requires
        forall|i: int|
            0 <= i < ledger.len() ==> (#[trigger] ledger[i]).slip.net_salary.non_negative(),
    ensures
        paid_net_units(ledger) >= 0,
    decreases ledger.len(),
{
    if ledger.len() > 0 {
        lemma_paid_net_units_not_negative(ledger.drop_last());
        let net = ledger.last().slip.net_salary;
        lemma_pow_positive(10, (MAX_SCALE - net.scale) as nat);
        assert(net.units() >= 0) by (nonlinear_arith)
            requires
                net.units() == net.mantissa * pow(10, (MAX_SCALE - net.scale) as nat),
                net.mantissa >= 0,
                pow(10, (MAX_SCALE - net.scale) as nat) > 0,
        ;
    }
}

} // verus!
