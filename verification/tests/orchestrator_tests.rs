use payroll_system::decimal::{Decimal, MAX_MANTISSA};
use payroll_system::errors::AppError;
use payroll_system::models::{
    AdjustmentType, Employee, PayrollAdjustment, PayrollSlip, PayrollStatus, TaxConfig, Uuid,
};
use payroll_system::services::monnify::MonnifyTransferBody;
use payroll_system::services::orchestrator::{
    RunAction, RunEvent, RunOrchestrator, SlipEntry, Stage,
};

const RUN: u128 = 0xaa;
const ORG: u128 = 0x01;

fn dec(num: i64, scale: u32) -> Decimal {
    Decimal::new(num, scale)
}

fn employee(id: u128, first: &str, last: &str, base_salary: Decimal) -> Employee {
    Employee {
        id: Uuid::from_u128(id),
        organization_id: Uuid::from_u128(ORG),
        first_name: first.to_string(),
        last_name: last.to_string(),
        email: format!("{}@example.com", first.to_lowercase()),
        bank_account_number: format!("00000000{:02}", id),
        bank_code: "058".to_string(),
        bank_name: "GTBank".to_string(),
        base_salary,
        is_active: true,
        created_at: 0,
        updated_at: 0,
    }
}

fn bonus(employee_id: u128, amount: Decimal) -> PayrollAdjustment {
    PayrollAdjustment {
        id: Uuid::from_u128(900),
        employee_id: Uuid::from_u128(employee_id),
        organization_id: Uuid::from_u128(ORG),
        adjustment_type: AdjustmentType::Bonus,
        amount,
        description: "bonus".to_string(),
        pay_period: "2024-05".to_string(),
        created_at: 0,
    }
}

fn usual_rates() -> TaxConfig {
    TaxConfig {
        id: Uuid::from_u128(50),
        organization_id: Uuid::from_u128(ORG),
        paye_rate: dec(75, 1),
        pension_rate: dec(8, 0),
        nhf_rate: dec(25, 1),
        nhis_rate: dec(175, 2),
        created_at: 0,
        updated_at: 0,
    }
}

fn new_run() -> RunOrchestrator {
    RunOrchestrator::new(
        Uuid::from_u128(RUN),
        Uuid::from_u128(ORG),
        "Acme".to_string(),
        "2024-05".to_string(),
    )
}

/// A run that has taken up its first employee and waits for the adjustments.
fn run_with(employees: Vec<Employee>, rates: Option<TaxConfig>) -> RunOrchestrator {
    let mut run = new_run();
    assert!(matches!(run.step(RunEvent::Start), RunAction::LoadEmployees));
    assert!(matches!(run.step(RunEvent::EmployeesLoaded(Some(employees))), RunAction::LoadTaxConfig));
    assert!(matches!(
        run.step(RunEvent::TaxConfigLoaded(rates)),
        RunAction::LoadAdjustments { .. }
    ));
    run
}

fn paid(reference: &str) -> RunEvent {
    RunEvent::TransferFinished(Ok(MonnifyTransferBody {
        reference: reference.to_string(),
        status: "SUCCESS".to_string(),
    }))
}

fn refused() -> RunEvent {
    RunEvent::TransferFinished(Err(AppError::MonnifyError("Insufficient balance".to_string())))
}

fn saved(entry: SlipEntry) -> PayrollSlip {
    entry.into_slip(Uuid::from_u128(0x51), 1714000000)
}

fn expect_save(action: RunAction) -> (Option<Decimal>, SlipEntry) {
    match action {
        RunAction::SaveSlip { debit, entry } => (debit, entry),
        other => panic!("expected a slip to save, got {:?}", other),
    }
}

fn expect_complete(action: RunAction) -> (Decimal, Decimal, Decimal, i32) {
    match action {
        RunAction::Complete { total_gross, total_deductions, total_net, employee_count } => {
            (total_gross, total_deductions, total_net, employee_count)
        }
        other => panic!("expected the run to complete, got {:?}", other),
    }
}

#[test]
fn a_new_run_is_pending() {
    let run = new_run();
    assert_eq!(run.status, PayrollStatus::Pending);
    assert!(matches!(run.stage, Stage::Created));
    assert_eq!(run.payroll_run_id, Uuid::from_u128(RUN));
    assert_eq!(run.organization_id, Uuid::from_u128(ORG));
    assert_eq!(run.org_name, "Acme");
    assert_eq!(run.pay_period, "2024-05");
    assert_eq!(run.success_count, 0);
    assert_eq!(run.total_net, Decimal::zero());
    assert!(run.employees.is_empty());
}

#[test]
fn starting_moves_to_processing() {
    let mut run = new_run();
    assert!(matches!(run.start(), RunAction::LoadEmployees));
    assert_eq!(run.status, PayrollStatus::Processing);
    assert!(matches!(run.stage, Stage::LoadingEmployees));
}

#[test]
fn no_active_employees_fails_the_run() {
    let mut run = new_run();
    run.step(RunEvent::Start);
    assert!(matches!(run.step(RunEvent::EmployeesLoaded(Some(Vec::new()))), RunAction::MarkFailed));
    assert_eq!(run.status, PayrollStatus::Failed);
    assert!(matches!(run.stage, Stage::Closed));
    assert_eq!(run.success_count, 0);
    assert_eq!(run.total_gross, Decimal::zero());
}

#[test]
fn employees_that_cannot_be_loaded_fail_the_run() {
    let mut run = new_run();
    run.step(RunEvent::Start);
    assert!(matches!(run.step(RunEvent::EmployeesLoaded(None)), RunAction::MarkFailed));
    assert_eq!(run.status, PayrollStatus::Failed);
}

#[test]
fn a_run_that_is_over_ignores_every_event() {
    let mut run = new_run();
    run.step(RunEvent::Start);
    run.step(RunEvent::EmployeesLoaded(None));
    assert!(matches!(run.step(RunEvent::Start), RunAction::Ignore));
    assert!(matches!(
        run.step(RunEvent::EmployeesLoaded(Some(vec![employee(2, "Ada", "Obi", dec(1, 0))]))),
        RunAction::Ignore
    ));
    assert!(matches!(run.step(RunEvent::TaxConfigLoaded(None)), RunAction::Ignore));
    assert!(matches!(run.step(RunEvent::AdjustmentsLoaded(Vec::new())), RunAction::Ignore));
    assert!(matches!(run.step(RunEvent::BalanceRead(Some(dec(1, 0)))), RunAction::Ignore));
    assert!(matches!(run.step(paid("MFY-1")), RunAction::Ignore));
    assert!(matches!(run.step(RunEvent::SlipSaved(None)), RunAction::Ignore));
    assert!(matches!(run.step(RunEvent::NotificationAttempted), RunAction::Ignore));
    assert_eq!(run.status, PayrollStatus::Failed);
    assert!(run.employees.is_empty());
}

#[test]
fn an_event_out_of_turn_is_ignored() {
    let mut run = new_run();
    assert!(matches!(run.step(RunEvent::BalanceRead(Some(dec(1, 0)))), RunAction::Ignore));
    assert_eq!(run.status, PayrollStatus::Pending);
    run.step(RunEvent::Start);
    assert!(matches!(run.step(RunEvent::Start), RunAction::Ignore));
    assert!(matches!(run.step(RunEvent::NotificationAttempted), RunAction::Ignore));
    assert!(matches!(run.stage, Stage::LoadingEmployees));
    assert_eq!(run.status, PayrollStatus::Processing);
}

#[test]
fn absent_rates_fall_back_to_zero() {
    let run = run_with(vec![employee(2, "Ada", "Obi", dec(300000, 0))], None);
    assert_eq!(run.tax_config.paye_rate, Decimal::zero());
    assert_eq!(run.tax_config.pension_rate, Decimal::zero());
    assert_eq!(run.tax_config.nhf_rate, Decimal::zero());
    assert_eq!(run.tax_config.nhis_rate, Decimal::zero());
}

#[test]
fn the_first_employee_is_taken_up_after_the_rates() {
    let mut run = new_run();
    run.step(RunEvent::Start);
    run.step(RunEvent::EmployeesLoaded(Some(vec![
        employee(2, "Ada", "Obi", dec(300000, 0)),
        employee(3, "Bola", "Ade", dec(100000, 0)),
    ])));
    match run.step(RunEvent::TaxConfigLoaded(Some(usual_rates()))) {
        RunAction::LoadAdjustments { employee_id, pay_period } => {
            assert_eq!(employee_id, Uuid::from_u128(2));
            assert_eq!(pay_period, "2024-05");
        }
        other => panic!("unexpected {:?}", other),
    }
    assert_eq!(run.tax_config.paye_rate, dec(75, 1));
    assert_eq!(run.cursor, 0);
}

#[test]
fn a_wallet_that_does_not_cover_the_net_salary() {
    let mut run = run_with(vec![employee(2, "Ada", "Obi", dec(300000, 0))], Some(usual_rates()));
    let adjustments = vec![bonus(2, dec(50000, 0))];
    assert!(matches!(run.step(RunEvent::AdjustmentsLoaded(adjustments)), RunAction::ReadBalance));
    let (debit, entry) = expect_save(run.step(RunEvent::BalanceRead(Some(dec(100000, 0)))));
    assert!(debit.is_none());
    assert_eq!(entry.payment_status, "failed");
    assert_eq!(entry.monnify_reference, None);
    assert_eq!(entry.figures.net_salary, dec(280875, 0));
    assert_eq!(entry.payroll_run_id, Uuid::from_u128(RUN));
    assert_eq!(entry.organization_id, Uuid::from_u128(ORG));
    assert_eq!(entry.pay_period, "2024-05");
    let (gross, deductions, net, count) =
        expect_complete(run.step(RunEvent::SlipSaved(Some(saved(entry)))));
    assert_eq!(gross, Decimal::zero());
    assert_eq!(deductions, Decimal::zero());
    assert_eq!(net, Decimal::zero());
    assert_eq!(count, 0);
    assert_eq!(run.status, PayrollStatus::Completed);
    assert!(matches!(run.stage, Stage::Closed));
}

#[test]
fn a_wallet_that_just_covers_the_net_salary() {
    let mut run = run_with(vec![employee(2, "Ada", "Obi", dec(300000, 0))], Some(usual_rates()));
    run.step(RunEvent::AdjustmentsLoaded(vec![bonus(2, dec(50000, 0))]));
    assert!(matches!(
        run.step(RunEvent::BalanceRead(Some(dec(28087500, 2)))),
        RunAction::SendTransfer(_)
    ));
    match run.stage {
        Stage::Transferring { slip, available } => {
            assert_eq!(available, dec(280875, 0));
            assert_eq!(slip.net_salary, dec(280875, 0));
        }
        other => panic!("unexpected {:?}", other),
    }
}

#[test]
fn a_paid_employee_is_debited_booked_and_notified() {
    let mut run = run_with(vec![employee(2, "Ada", "Obi", dec(300000, 0))], Some(usual_rates()));
    run.step(RunEvent::AdjustmentsLoaded(vec![bonus(2, dec(50000, 0))]));
    match run.step(RunEvent::BalanceRead(Some(dec(1000000, 0)))) {
        RunAction::SendTransfer(order) => {
            assert_eq!(order.amount, dec(280875, 0));
            assert_eq!(
                order.reference,
                "PAY-00000000-0000-0000-0000-0000000000aa-00000000-0000-0000-0000-000000000002"
            );
            assert_eq!(order.employee_name, "Ada Obi");
            assert_eq!(order.bank_code, "058");
            assert_eq!(order.account_number, "0000000002");
            assert_eq!(order.narration, "Acme Salary - 2024-05");
        }
        other => panic!("unexpected {:?}", other),
    }
    let (debit, entry) = expect_save(run.step(paid("MFY-77")));
    assert_eq!(debit, Some(dec(280875, 0)));
    assert_eq!(entry.payment_status, "success");
    assert_eq!(entry.monnify_reference, Some("MFY-77".to_string()));
    assert_eq!(entry.figures.gross_salary, dec(350000, 0));
    assert_eq!(run.success_count, 0);
    let kept = saved(entry);
    match run.step(RunEvent::SlipSaved(Some(kept))) {
        RunAction::SendPayslip { employee_email, employee_name, org_name, slip } => {
            assert_eq!(employee_email, "ada@example.com");
            assert_eq!(employee_name, "Ada Obi");
            assert_eq!(org_name, "Acme");
            assert_eq!(slip.id, Uuid::from_u128(0x51));
            assert_eq!(slip.net_salary, dec(280875, 0));
            assert_eq!(slip.payment_status, "success");
        }
        other => panic!("unexpected {:?}", other),
    }
    assert_eq!(run.success_count, 1);
    let (gross, deductions, net, count) = expect_complete(run.step(RunEvent::NotificationAttempted));
    assert_eq!(gross, dec(350000, 0));
    assert_eq!(deductions, dec(69125, 0));
    assert_eq!(net, dec(280875, 0));
    assert_eq!(count, 1);
    assert_eq!(run.status, PayrollStatus::Completed);
}

#[test]
fn a_refused_transfer_leaves_wallet_and_totals_alone() {
    let mut run = run_with(vec![employee(2, "Ada", "Obi", dec(300000, 0))], Some(usual_rates()));
    run.step(RunEvent::AdjustmentsLoaded(Vec::new()));
    assert!(matches!(run.step(RunEvent::BalanceRead(Some(dec(1000000, 0)))), RunAction::SendTransfer(_)));
    let (debit, entry) = expect_save(run.step(refused()));
    assert!(debit.is_none());
    assert_eq!(entry.payment_status, "failed");
    assert_eq!(entry.monnify_reference, None);
    let (gross, deductions, net, count) =
        expect_complete(run.step(RunEvent::SlipSaved(Some(saved(entry)))));
    assert_eq!(gross, Decimal::zero());
    assert_eq!(deductions, Decimal::zero());
    assert_eq!(net, Decimal::zero());
    assert_eq!(count, 0);
    assert_eq!(run.status, PayrollStatus::Completed);
}

#[test]
fn a_balance_that_cannot_be_read_skips_the_employee() {
    let mut run = run_with(
        vec![employee(2, "Ada", "Obi", dec(300000, 0)), employee(3, "Bola", "Ade", dec(100000, 0))],
        Some(usual_rates()),
    );
    run.step(RunEvent::AdjustmentsLoaded(Vec::new()));
    match run.step(RunEvent::BalanceRead(None)) {
        RunAction::LoadAdjustments { employee_id, .. } => assert_eq!(employee_id, Uuid::from_u128(3)),
        other => panic!("unexpected {:?}", other),
    }
    assert_eq!(run.cursor, 1);
    assert_eq!(run.status, PayrollStatus::Processing);
}

#[test]
fn totals_count_paid_slips_only() {
    let mut run = run_with(
        vec![
            employee(2, "Ada", "Obi", dec(300000, 0)),
            employee(3, "Bola", "Ade", dec(100000, 0)),
            employee(4, "Chidi", "Eze", dec(200000, 0)),
        ],
        Some(usual_rates()),
    );
    let mut wallet = dec(1000000, 0);
    let mut debits = Vec::new();

    // Ada is paid.
    run.step(RunEvent::AdjustmentsLoaded(vec![bonus(2, dec(50000, 0))]));
    run.step(RunEvent::BalanceRead(Some(wallet)));
    let (debit, entry) = expect_save(run.step(paid("MFY-1")));
    wallet = wallet.checked_sub(debit.unwrap()).unwrap();
    debits.push(debit.unwrap());
    run.step(RunEvent::SlipSaved(Some(saved(entry))));
    assert!(matches!(run.step(RunEvent::NotificationAttempted), RunAction::LoadAdjustments { .. }));

    // Bola's transfer is refused.
    run.step(RunEvent::AdjustmentsLoaded(Vec::new()));
    run.step(RunEvent::BalanceRead(Some(wallet)));
    let (debit, entry) = expect_save(run.step(refused()));
    assert!(debit.is_none());
    assert!(matches!(
        run.step(RunEvent::SlipSaved(Some(saved(entry)))),
        RunAction::LoadAdjustments { .. }
    ));

    // Chidi is paid.
    run.step(RunEvent::AdjustmentsLoaded(Vec::new()));
    run.step(RunEvent::BalanceRead(Some(wallet)));
    let (debit, entry) = expect_save(run.step(paid("MFY-3")));
    wallet = wallet.checked_sub(debit.unwrap()).unwrap();
    debits.push(debit.unwrap());
    run.step(RunEvent::SlipSaved(Some(saved(entry))));
    let (gross, deductions, net, count) = expect_complete(run.step(RunEvent::NotificationAttempted));

    assert_eq!(gross, dec(550000, 0));
    assert_eq!(deductions, dec(108625, 0));
    assert_eq!(net, dec(441375, 0));
    assert_eq!(count, 2);
    assert_eq!(debits, vec![dec(280875, 0), dec(160500, 0)]);
    assert_eq!(wallet, dec(558625, 0));
    assert_eq!(wallet, dec(1000000, 0).checked_sub(net).unwrap());
}

#[test]
fn a_paid_slip_the_store_lost_is_still_booked() {
    let mut run = run_with(vec![employee(2, "Ada", "Obi", dec(300000, 0))], Some(usual_rates()));
    run.step(RunEvent::AdjustmentsLoaded(Vec::new()));
    run.step(RunEvent::BalanceRead(Some(dec(1000000, 0))));
    let (debit, _entry) = expect_save(run.step(paid("MFY-1")));
    assert_eq!(debit, Some(dec(240750, 0)));
    let (gross, deductions, net, count) = expect_complete(run.step(RunEvent::SlipSaved(None)));
    assert_eq!(gross, dec(300000, 0));
    assert_eq!(deductions, dec(59250, 0));
    assert_eq!(net, dec(240750, 0));
    assert_eq!(count, 1);
}

#[test]
fn the_run_completes_whatever_comes_of_the_notice() {
    let mut run = run_with(
        vec![employee(2, "Ada", "Obi", dec(300000, 0)), employee(3, "Bola", "Ade", dec(100000, 0))],
        None,
    );
    run.step(RunEvent::AdjustmentsLoaded(Vec::new()));
    run.step(RunEvent::BalanceRead(Some(dec(1000000, 0))));
    let (_, entry) = expect_save(run.step(paid("MFY-1")));
    assert!(matches!(
        run.step(RunEvent::SlipSaved(Some(saved(entry)))),
        RunAction::SendPayslip { .. }
    ));
    assert!(matches!(run.stage, Stage::Notifying));
    assert!(matches!(run.step(RunEvent::NotificationAttempted), RunAction::LoadAdjustments { .. }));
    assert_eq!(run.cursor, 1);
    assert_eq!(run.status, PayrollStatus::Processing);
}

#[test]
fn a_payslip_beyond_the_decimal_range_halts_the_run() {
    let top = Decimal::try_from_i128_with_scale(MAX_MANTISSA, 0).unwrap();
    let mut run = run_with(vec![employee(2, "Ada", "Obi", top)], Some(usual_rates()));
    assert!(matches!(
        run.step(RunEvent::AdjustmentsLoaded(vec![bonus(2, top)])),
        RunAction::Halt
    ));
    assert!(matches!(run.stage, Stage::Halted));
    assert_eq!(run.status, PayrollStatus::Processing);
    assert!(matches!(run.step(RunEvent::BalanceRead(Some(top))), RunAction::Ignore));
}

#[test]
fn totals_beyond_the_decimal_range_halt_the_run() {
    let top = Decimal::try_from_i128_with_scale(MAX_MANTISSA, 0).unwrap();
    let mut run = run_with(
        vec![employee(2, "Ada", "Obi", top), employee(3, "Bola", "Ade", top)],
        None,
    );
    run.step(RunEvent::AdjustmentsLoaded(Vec::new()));
    run.step(RunEvent::BalanceRead(Some(top)));
    let (_, entry) = expect_save(run.step(paid("MFY-1")));
    run.step(RunEvent::SlipSaved(Some(saved(entry))));
    run.step(RunEvent::NotificationAttempted);
    run.step(RunEvent::AdjustmentsLoaded(Vec::new()));
    run.step(RunEvent::BalanceRead(Some(top)));
    let (debit, _entry) = expect_save(run.step(paid("MFY-2")));
    assert_eq!(debit, Some(top));
    assert!(matches!(run.step(RunEvent::SlipSaved(None)), RunAction::Halt));
    assert_eq!(run.status, PayrollStatus::Processing);
    assert_eq!(run.success_count, 1);
    assert_eq!(run.total_net, top);
}

#[test]
fn a_slip_entry_becomes_the_stored_slip() {
    let mut run = run_with(vec![employee(2, "Ada", "Obi", dec(300000, 0))], Some(usual_rates()));
    run.step(RunEvent::AdjustmentsLoaded(vec![bonus(2, dec(50000, 0))]));
    run.step(RunEvent::BalanceRead(Some(dec(1000000, 0))));
    let (_, entry) = expect_save(run.step(paid("MFY-77")));
    let slip = entry.into_slip(Uuid::from_u128(0x99), 1714000001);
    assert_eq!(slip.id, Uuid::from_u128(0x99));
    assert_eq!(slip.created_at, 1714000001);
    assert_eq!(slip.payroll_run_id, Uuid::from_u128(RUN));
    assert_eq!(slip.employee_id, Uuid::from_u128(2));
    assert_eq!(slip.organization_id, Uuid::from_u128(ORG));
    assert_eq!(slip.pay_period, "2024-05");
    assert_eq!(slip.base_salary, dec(300000, 0));
    assert_eq!(slip.total_additions, dec(50000, 0));
    assert_eq!(slip.gross_salary, dec(350000, 0));
    assert_eq!(slip.paye_tax, dec(26250, 0));
    assert_eq!(slip.pension_deduction, dec(28000, 0));
    assert_eq!(slip.nhf_deduction, dec(8750, 0));
    assert_eq!(slip.nhis_deduction, dec(6125, 0));
    assert_eq!(slip.other_deductions, Decimal::zero());
    assert_eq!(slip.total_deductions, dec(69125, 0));
    assert_eq!(slip.net_salary, dec(280875, 0));
    assert_eq!(slip.monnify_reference, Some("MFY-77".to_string()));
    assert_eq!(slip.payment_status, "success");
}
