//! The payslip notice: what it says and whom it goes to.
//!
//! The notice is rendered twice, as plain text and as HTML, from the slip as the store
//! holds it. Delivering it is left to the caller.

use std::sync::Arc;
use vstd::prelude::*;
use vstd::string::StringExecFns;
use crate::config::Config;
use crate::decimal::{Decimal, DecimalValue};
use crate::models::PayrollSlip;

verus! {

// The fixed parts of the plain-text notice, each named after what follows it.
pub const TEXT_GREETING: &'static str = "Dear ";

pub const TEXT_PERIOD: &'static str = ",\n\nYour salary for ";

pub const TEXT_ORGANIZATION: &'static str = " has been processed by ";

pub const TEXT_BASE_SALARY: &'static str = ".\n\nEARNINGS\nBase Salary:         ";

pub const TEXT_ADDITIONS: &'static str = "\nAllowances/Bonuses:  ";

pub const TEXT_GROSS: &'static str = "\nGross Salary:        ";

pub const TEXT_PAYE: &'static str = "\n\nDEDUCTIONS\nPAYE Tax:            ";

pub const TEXT_PENSION: &'static str = "\nPension:             ";

pub const TEXT_NHF: &'static str = "\nNHF:                 ";

pub const TEXT_NHIS: &'static str = "\nNHIS:                ";

pub const TEXT_OTHER_DEDUCTIONS: &'static str = "\nOther Deductions:    ";

pub const TEXT_TOTAL_DEDUCTIONS: &'static str = "\nTotal Deductions:    ";

pub const TEXT_NET_PAY: &'static str = "\n\nNET PAY:             ";

pub const TEXT_REFERENCE: &'static str = "\n\nPayment Reference: ";

pub const TEXT_SENDER: &'static str = "\n\nThis is an automated message from ";

pub const TEXT_CLOSING: &'static str = "'s payroll system.";

// The fixed parts of the HTML notice, each named after what follows it.
pub const HTML_HEADER: &'static str = "<!DOCTYPE html>\n<html lang=\"en\">\n<head>\n  <meta charset=\"UTF-8\" />\n  <style>\n    body { font-family: Arial, sans-serif; background: #f4f4f4; color: #333; }\n    .container { max-width: 600px; margin: 30px auto; background: #fff; border-radius: 8px; overflow: hidden; box-shadow: 0 2px 8px rgba(0,0,0,0.1); }\n    .header { background: #1a56db; color: #fff; padding: 24px 32px; }\n    .header h1 { margin: 0; font-size: 22px; }\n    .header p { margin: 4px 0 0; opacity: 0.85; }\n    .body { padding: 24px 32px; }\n    h2 { color: #1a56db; border-bottom: 2px solid #e5e7eb; padding-bottom: 6px; }\n    table { width: 100%; border-collapse: collapse; margin-bottom: 16px; }\n    td { padding: 8px 4px; border-bottom: 1px solid #f1f1f1; }\n    td:last-child { text-align: right; font-weight: 600; }\n    .total-row td { font-size: 16px; color: #1a56db; border-top: 2px solid #1a56db; border-bottom: none; }\n    .deductions td { color: #dc2626; }\n    .footer { background: #f9fafb; padding: 16px 32px; font-size: 12px; color: #6b7280; text-align: center; }\n  </style>\n</head>\n<body>\n<div class=\"container\">\n  <div class=\"header\">\n    <h1>";

pub const HTML_TITLE_PERIOD: &'static str = "</h1>\n    <p>Payslip for ";

pub const HTML_GREETING: &'static str = "</p>\n  </div>\n  <div class=\"body\">\n    <p>Dear <strong>";

pub const HTML_BODY_PERIOD: &'static str = "</strong>,</p>\n    <p>Your salary for <strong>";

pub const HTML_BASE_SALARY: &'static str = "</strong> has been processed. Please find your payslip details below.</p>\n\n    <h2>Earnings</h2>\n    <table>\n      <tr><td>Base Salary</td><td>";

pub const HTML_ADDITIONS: &'static str = "</td></tr>\n      <tr><td>Allowances & Bonuses</td><td>";

pub const HTML_GROSS: &'static str = "</td></tr>\n      <tr class=\"total-row\"><td>Gross Salary</td><td>";

pub const HTML_PAYE: &'static str = "</td></tr>\n    </table>\n\n    <h2>Deductions</h2>\n    <table class=\"deductions\">\n      <tr><td>PAYE Tax</td><td>- ";

pub const HTML_PENSION: &'static str = "</td></tr>\n      <tr><td>Pension (Employee)</td><td>- ";

pub const HTML_NHF: &'static str = "</td></tr>\n      <tr><td>NHF</td><td>- ";

pub const HTML_NHIS: &'static str = "</td></tr>\n      <tr><td>NHIS</td><td>- ";

pub const HTML_OTHER_DEDUCTIONS: &'static str = "</td></tr>\n      <tr><td>Other Deductions</td><td>- ";

pub const HTML_TOTAL_DEDUCTIONS: &'static str = "</td></tr>\n      <tr class=\"total-row\"><td>Total Deductions</td><td>- ";

pub const HTML_NET_PAY: &'static str = "</td></tr>\n    </table>\n\n    <h2>Net Pay</h2>\n    <table>\n      <tr class=\"total-row\"><td>Amount Transferred to Your Account</td><td>";

pub const HTML_REFERENCE: &'static str = "</td></tr>\n    </table>\n\n    <p style=\"margin-top:16px; font-size:13px; color:#6b7280;\">Payment Reference: <code>";

pub const HTML_SENDER: &'static str = "</code></p>\n  </div>\n  <div class=\"footer\">\n    <p>This is an automated payslip from ";

pub const HTML_CLOSING: &'static str = "'s payroll system. Please do not reply to this email.</p>\n  </div>\n</div>\n</body>\n</html>";

/// An amount as the notice shows it: the naira sign and two digits after the point.
pub open spec fn amount_text(amount: DecimalValue) -> Seq<char> {
    "\u{20a6}"@ + amount.fixed2_text()
}

/// The gateway's reference as the notice shows it: `N/A` where there is none.
pub open spec fn reference_text(reference: Option<String>) -> Seq<char> {
    match reference {
        Some(r) => r@,
        None => "N/A"@,
    }
}

/// A mailbox: a display name and an address in angle brackets.
pub open spec fn mailbox_text(name: Seq<char>, address: Seq<char>) -> Seq<char> {
    name + " <"@ + address + ">"@
}

/// The subject of the notice.
pub open spec fn subject_text(pay_period: Seq<char>, org_name: Seq<char>) -> Seq<char> {
    "Your Payslip for "@ + pay_period + " - "@ + org_name
}

/// The plain-text notice: earnings, the deductions line by line, the net pay and the
/// gateway's reference.
pub open spec fn payslip_text_of(employee_name: Seq<char>, org_name: Seq<char>, slip: PayrollSlip) -> Seq<char> {
    TEXT_GREETING@
        + employee_name + TEXT_PERIOD@
        + slip.pay_period@ + TEXT_ORGANIZATION@
        + org_name + TEXT_BASE_SALARY@
        + amount_text(slip.base_salary@) + TEXT_ADDITIONS@
        + amount_text(slip.total_additions@) + TEXT_GROSS@
        + amount_text(slip.gross_salary@) + TEXT_PAYE@
        + amount_text(slip.paye_tax@) + TEXT_PENSION@
        + amount_text(slip.pension_deduction@) + TEXT_NHF@
        + amount_text(slip.nhf_deduction@) + TEXT_NHIS@
        + amount_text(slip.nhis_deduction@) + TEXT_OTHER_DEDUCTIONS@
        + amount_text(slip.other_deductions@) + TEXT_TOTAL_DEDUCTIONS@
        + amount_text(slip.total_deductions@) + TEXT_NET_PAY@
        + amount_text(slip.net_salary@) + TEXT_REFERENCE@
        + reference_text(slip.monnify_reference) + TEXT_SENDER@
        + org_name + TEXT_CLOSING@
}

/// The HTML notice, with the same content as the plain-text one.
pub open spec fn payslip_html_of(employee_name: Seq<char>, org_name: Seq<char>, slip: PayrollSlip) -> Seq<char> {
    HTML_HEADER@
        + org_name + HTML_TITLE_PERIOD@
        + slip.pay_period@ + HTML_GREETING@
        + employee_name + HTML_BODY_PERIOD@
        + slip.pay_period@ + HTML_BASE_SALARY@
        + amount_text(slip.base_salary@) + HTML_ADDITIONS@
        + amount_text(slip.total_additions@) + HTML_GROSS@
        + amount_text(slip.gross_salary@) + HTML_PAYE@
        + amount_text(slip.paye_tax@) + HTML_PENSION@
        + amount_text(slip.pension_deduction@) + HTML_NHF@
        + amount_text(slip.nhf_deduction@) + HTML_NHIS@
        + amount_text(slip.nhis_deduction@) + HTML_OTHER_DEDUCTIONS@
        + amount_text(slip.other_deductions@) + HTML_TOTAL_DEDUCTIONS@
        + amount_text(slip.total_deductions@) + HTML_NET_PAY@
        + amount_text(slip.net_salary@) + HTML_REFERENCE@
        + reference_text(slip.monnify_reference) + HTML_SENDER@
        + org_name + HTML_CLOSING@
}

/// An amount as the notice shows it.
pub fn format_amount(amount: Decimal) -> (text: String)
    ensures
        text@ == amount_text(amount@),
{
    String::from_str("\u{20a6}").concat(amount.to_fixed2_string().as_str())
}

/// Renders the HTML notice.
pub fn build_payslip_html(employee_name: &str, org_name: &str, slip: &PayrollSlip) -> (body: String)
    ensures
        body@ == payslip_html_of(employee_name@, org_name@, *slip),
{
    let reference = match &slip.monnify_reference {
        Some(r) => r.as_str(),
        None => "N/A",
    };
    let mut out = String::from_str(HTML_HEADER);
    out.append(org_name);
    out.append(HTML_TITLE_PERIOD);
    out.append(slip.pay_period.as_str());
    out.append(HTML_GREETING);
    out.append(employee_name);
    out.append(HTML_BODY_PERIOD);
    out.append(slip.pay_period.as_str());
    out.append(HTML_BASE_SALARY);
    out.append(format_amount(slip.base_salary).as_str());
    out.append(HTML_ADDITIONS);
    out.append(format_amount(slip.total_additions).as_str());
    out.append(HTML_GROSS);
    out.append(format_amount(slip.gross_salary).as_str());
    out.append(HTML_PAYE);
    out.append(format_amount(slip.paye_tax).as_str());
    out.append(HTML_PENSION);
    out.append(format_amount(slip.pension_deduction).as_str());
    out.append(HTML_NHF);
    out.append(format_amount(slip.nhf_deduction).as_str());
    out.append(HTML_NHIS);
    out.append(format_amount(slip.nhis_deduction).as_str());
    out.append(HTML_OTHER_DEDUCTIONS);
    out.append(format_amount(slip.other_deductions).as_str());
    out.append(HTML_TOTAL_DEDUCTIONS);
    out.append(format_amount(slip.total_deductions).as_str());
    out.append(HTML_NET_PAY);
    out.append(format_amount(slip.net_salary).as_str());
    out.append(HTML_REFERENCE);
    out.append(reference);
    out.append(HTML_SENDER);
    out.append(org_name);
    out.append(HTML_CLOSING);
    out
}

/// Renders the plain-text notice.
pub fn build_payslip_text(employee_name: &str, org_name: &str, slip: &PayrollSlip) -> (body: String)
    ensures
        body@ == payslip_text_of(employee_name@, org_name@, *slip),
{
    let reference = match &slip.monnify_reference {
        Some(r) => r.as_str(),
        None => "N/A",
    };
    let mut out = String::from_str(TEXT_GREETING);
    out.append(employee_name);
    out.append(TEXT_PERIOD);
    out.append(slip.pay_period.as_str());
    out.append(TEXT_ORGANIZATION);
    out.append(org_name);
    out.append(TEXT_BASE_SALARY);
    out.append(format_amount(slip.base_salary).as_str());
    out.append(TEXT_ADDITIONS);
    out.append(format_amount(slip.total_additions).as_str());
    out.append(TEXT_GROSS);
    out.append(format_amount(slip.gross_salary).as_str());
    out.append(TEXT_PAYE);
    out.append(format_amount(slip.paye_tax).as_str());
    out.append(TEXT_PENSION);
    out.append(format_amount(slip.pension_deduction).as_str());
    out.append(TEXT_NHF);
    out.append(format_amount(slip.nhf_deduction).as_str());
    out.append(TEXT_NHIS);
    out.append(format_amount(slip.nhis_deduction).as_str());
    out.append(TEXT_OTHER_DEDUCTIONS);
    out.append(format_amount(slip.other_deductions).as_str());
    out.append(TEXT_TOTAL_DEDUCTIONS);
    out.append(format_amount(slip.total_deductions).as_str());
    out.append(TEXT_NET_PAY);
    out.append(format_amount(slip.net_salary).as_str());
    out.append(TEXT_REFERENCE);
    out.append(reference);
    out.append(TEXT_SENDER);
    out.append(org_name);
    out.append(TEXT_CLOSING);
    out
}

/// A notice ready to be handed to the relay.
#[derive(Debug)]
pub struct PayslipMessage {
    pub from: String,
    pub to: String,
    pub subject: String,
    pub text_body: String,
    pub html_body: String,
}

/// The notification client's rules.
#[derive(Clone)]
pub struct EmailService {
    pub config: Arc<Config>,
}

impl EmailService {
    pub fn new(config: Arc<Config>) -> (service: EmailService)
        ensures
            service.config == config,
    {
        EmailService { config }
    }

    /// The notice that tells an employee of a payment: from the configured sender to
    /// the employee, with the pay period and the organization in the subject and the
    /// slip rendered as text and as HTML.
    pub fn payslip_message(
        &self,
        employee_email: &str,
        employee_name: &str,
        org_name: &str,
        slip: &PayrollSlip,
    ) -> (message: PayslipMessage)
        ensures
            message.from@ == mailbox_text(
                self.config.email_from_name@,
                self.config.email_from_address@,
            ),
            message.to@ == mailbox_text(employee_name@, employee_email@),
            message.subject@ == subject_text(slip.pay_period@, org_name@),
            message.text_body@ == payslip_text_of(employee_name@, org_name@, *slip),
            message.html_body@ == payslip_html_of(employee_name@, org_name@, *slip),
    {
        let subject = String::from_str("Your Payslip for ").concat(slip.pay_period.as_str()).concat(
            " - ",
        ).concat(org_name);
        let from = self.config.email_from_name.clone().concat(" <").concat(
            self.config.email_from_address.as_str(),
        ).concat(">");
        let to = String::from_str(employee_name).concat(" <").concat(employee_email).concat(">");
        PayslipMessage {
            from,
            to,
            subject,
            text_body: build_payslip_text(employee_name, org_name, slip),
            html_body: build_payslip_html(employee_name, org_name, slip),
        }
    }
}

} // verus!
