//! Wallet funding and what else an organization asks for.

use vstd::prelude::*;
use vstd::string::StringExecFns;
use vstd::std_specs::convert::FromSpec;
use crate::decimal::Decimal;
use crate::errors::AppError;
use crate::models::{AuthResponse, FundWalletResponse, Organization, OrganizationPublic, Uuid};
use crate::services::monnify::InitPaymentBody;

verus! {

/// What `bcrypt::verify` finds for a password and a hash: whether they match, or the
/// text of the error where the hash cannot be read.
pub uninterp spec fn bcrypt_verdict(password: Seq<char>, hash: Seq<char>) -> Result<
    bool,
    Seq<char>,
>;

/// Reads a verdict as text only.
pub open spec fn verdict_text(r: Result<bool, String>) -> Result<bool, Seq<char>> {
    match r {
        Ok(matches) => Ok(matches),
        Err(e) => Err(e@),
    }
}

/// The error for a login that names no organization or gives the wrong password.
pub fn invalid_login() -> (e: AppError)
    ensures
        e matches AppError::Unauthorized(m) && m@ == "Invalid email or password"@,
{
    AppError::Unauthorized(String::from_str("Invalid email or password"))
}

/// Checks a password against the stored hash. A hash that cannot be read is an
/// internal error; a password that does not match is an invalid login.
pub fn check_password(password: &str, password_hash: &str) -> (r: Result<(), AppError>)
    ensures
        match bcrypt_verdict(password@, password_hash@) {
            Ok(matches) => if matches {
                r is Ok
            } else {
                r matches Err(AppError::Unauthorized(m)) && m@ == "Invalid email or password"@
            },
            Err(text) => r matches Err(AppError::Internal(m)) && m@ == text,
        },
{
    match verify_password(password, password_hash) {
        Ok(true) => Ok(()),
        Ok(false) => Err(invalid_login()),
        Err(text) => Err(AppError::Internal(text)),
    }
}

/// The answer to a registration or a login: the token and the organization's public
/// profile.
pub fn auth_response(token: String, organization: Organization) -> (response: AuthResponse)
    ensures
        response.token == token,
        response.organization == OrganizationPublic::from_spec(organization),
{
    AuthResponse { token, organization: OrganizationPublic::from(organization) }
}

/// The error for an organization that does not exist.
pub fn organization_not_found() -> (e: AppError)
    ensures
        e matches AppError::NotFound(m) && m@ == "Organization not found"@,
{
    AppError::NotFound(String::from_str("Organization not found"))
}

/// The reference of a wallet funding: the organization and a fresh identifier.
pub fn funding_reference(organization_id: Uuid, nonce: Uuid) -> (reference: String)
    ensures
        reference@ == "FUND-"@ + organization_id.text() + "-"@ + nonce.text(),
{
    String::from_str("FUND-").concat(organization_id.to_text().as_str()).concat("-").concat(
        nonce.to_text().as_str(),
    )
}

/// The answer to a request to fund the wallet: where to pay, under which reference,
/// and the amount asked for.
pub fn funding_response(payment: InitPaymentBody, amount: Decimal) -> (response: FundWalletResponse)
    ensures
        response.checkout_url == payment.checkout_url,
        response.payment_reference == payment.payment_reference,
        response.amount == amount,
{
    FundWalletResponse {
        checkout_url: payment.checkout_url,
        payment_reference: payment.payment_reference,
        amount,
    }
}

/// The error for an email address that an organization has already.
pub fn organization_exists(email: &str) -> (e: AppError)
    ensures
        e matches AppError::Conflict(m) && m@ == "Organization with email '"@ + email@
            + "' already exists"@,
{
    AppError::Conflict(
        String::from_str("Organization with email '").concat(email).concat("' already exists"),
    )
}

/// Calls `bcrypt::verify`. Trusted: the outcome is the one that [`bcrypt_verdict`]
/// names, an error given as its text.
#[verifier::external_body]
fn verify_password(password: &str, password_hash: &str) -> (r: Result<bool, String>)
    ensures
        verdict_text(r) == bcrypt_verdict(password@, password_hash@),
{
    match bcrypt::verify(password, password_hash) {
        Ok(matches) => Ok(matches),
        Err(e) => Err(e.to_string()),
    }
}

} // verus!
