use std::sync::Arc;

use payroll_system::config::Config;
use payroll_system::decimal::Decimal;
use payroll_system::errors::AppError;
use payroll_system::services::monnify::{
    InitPaymentBody, InitPaymentResponse, MonnifyAuthResponse, MonnifyService, MonnifyTokenBody,
    MonnifyTransferBody, MonnifyTransferResponse, MAX_CREDENTIALS_BYTES,
};

fn config_with(key: &str, secret: &str) -> Config {
    Config {
        server_host: "127.0.0.1".to_string(),
        server_port: 3000,
        database_url: "postgres://localhost/payroll".to_string(),
        jwt_secret: "secret".to_string(),
        jwt_expiry_hours: 24,
        smtp_host: "smtp.example.com".to_string(),
        smtp_port: 587,
        smtp_username: "mailer".to_string(),
        smtp_password: "hunter2".to_string(),
        email_from_name: "Payroll System".to_string(),
        email_from_address: "payroll@example.com".to_string(),
        monnify_base_url: "https://sandbox.monnify.com".to_string(),
        monnify_api_key: key.to_string(),
        monnify_secret_key: secret.to_string(),
        monnify_wallet_account_number: "8016472829".to_string(),
        monnify_contract_code: "CONTRACT-1".to_string(),
    }
}

fn service() -> MonnifyService {
    MonnifyService::new(Arc::new(config_with("user", "pass")))
}

fn error_text(e: AppError) -> String {
    match e {
        AppError::MonnifyError(m) => m,
        other => panic!("not a gateway error: {:?}", other),
    }
}

#[test]
fn gateway_urls() {
    let s = service();
    assert_eq!(s.login_url(), "https://sandbox.monnify.com/api/v1/auth/login");
    assert_eq!(s.transfer_url(), "https://sandbox.monnify.com/api/v2/disbursements/single");
    assert_eq!(
        s.init_transaction_url(),
        "https://sandbox.monnify.com/api/v1/merchant/transactions/init-transaction"
    );
}

#[test]
fn basic_authorization_encodes_key_and_secret() {
    assert_eq!(service().basic_authorization().unwrap(), "Basic dXNlcjpwYXNz");
}

#[test]
fn basic_authorization_pads_the_encoding() {
    let s = MonnifyService::new(Arc::new(config_with("a", "b")));
    assert_eq!(s.basic_authorization().unwrap(), "Basic YTpi");
    let s = MonnifyService::new(Arc::new(config_with("ab", "c")));
    assert_eq!(s.basic_authorization().unwrap(), "Basic YWI6Yw==");
}

#[test]
fn basic_authorization_refuses_oversized_credentials() {
    let key = "k".repeat(MAX_CREDENTIALS_BYTES);
    let s = MonnifyService::new(Arc::new(config_with(&key, "s")));
    match s.basic_authorization() {
        Err(AppError::Internal(m)) => assert_eq!(m, "Gateway credentials are too long"),
        other => panic!("expected a refusal, got {:?}", other.map(|h| h.len())),
    }
}

#[test]
fn access_token_of_a_successful_login() {
    let auth = MonnifyAuthResponse {
        request_successful: true,
        response_body: Some(MonnifyTokenBody { access_token: "token-1".to_string() }),
        response_message: "success".to_string(),
    };
    assert_eq!(MonnifyService::access_token(auth).unwrap(), "token-1");
}

#[test]
fn access_token_of_a_refused_login() {
    let auth = MonnifyAuthResponse {
        request_successful: false,
        response_body: Some(MonnifyTokenBody { access_token: "token-1".to_string() }),
        response_message: "bad key".to_string(),
    };
    assert_eq!(error_text(MonnifyService::access_token(auth).unwrap_err()), "Auth failed: bad key");
}

#[test]
fn access_token_missing_from_the_answer() {
    let auth = MonnifyAuthResponse {
        request_successful: true,
        response_body: None,
        response_message: "success".to_string(),
    };
    assert_eq!(
        error_text(MonnifyService::access_token(auth).unwrap_err()),
        "No access token in response"
    );
}

#[test]
fn transfer_request_carries_every_field() {
    let request = service().transfer_request(
        Decimal::new(280875, 0),
        "PAY-1-2",
        "Ada Obi",
        "058",
        "0123456789",
        "Acme Salary - 2024-05",
    );
    assert_eq!(request.amount, Decimal::new(280875, 0));
    assert_eq!(request.reference, "PAY-1-2");
    assert_eq!(request.narration, "Acme Salary - 2024-05");
    assert_eq!(request.destination_bank_code, "058");
    assert_eq!(request.destination_account_number, "0123456789");
    assert_eq!(request.currency, "NGN");
    assert_eq!(request.source_account_number, "8016472829");
    assert_eq!(request.destination_account_name, "Ada Obi");
    assert!(!request.async_);
}

#[test]
fn transfer_outcome_of_a_successful_transfer() {
    let result = MonnifyTransferResponse {
        request_successful: true,
        response_message: "success".to_string(),
        response_body: Some(MonnifyTransferBody {
            reference: "MFY-1".to_string(),
            status: "SUCCESS".to_string(),
        }),
    };
    let body = MonnifyService::transfer_outcome(result).unwrap();
    assert_eq!(body.reference, "MFY-1");
    assert_eq!(body.status, "SUCCESS");
}

#[test]
fn transfer_outcome_of_a_refused_transfer() {
    let result = MonnifyTransferResponse {
        request_successful: false,
        response_message: "Insufficient balance".to_string(),
        response_body: Some(MonnifyTransferBody {
            reference: "MFY-1".to_string(),
            status: "FAILED".to_string(),
        }),
    };
    assert_eq!(
        error_text(MonnifyService::transfer_outcome(result).unwrap_err()),
        "Insufficient balance"
    );
}

#[test]
fn transfer_outcome_without_a_body() {
    let result = MonnifyTransferResponse {
        request_successful: true,
        response_message: "success".to_string(),
        response_body: None,
    };
    assert_eq!(
        error_text(MonnifyService::transfer_outcome(result).unwrap_err()),
        "No transfer body in response"
    );
}

#[test]
fn payment_request_carries_every_field() {
    let request =
        service().payment_request(Decimal::new(500000, 0), "Acme", "pay@acme.test", "FUND-1-2");
    assert_eq!(request.amount, Decimal::new(500000, 0));
    assert_eq!(request.customer_name, "Acme");
    assert_eq!(request.customer_email, "pay@acme.test");
    assert_eq!(request.payment_reference, "FUND-1-2");
    assert_eq!(request.payment_description, "Payroll Wallet Funding");
    assert_eq!(request.currency_code, "NGN");
    assert_eq!(request.contract_code, "CONTRACT-1");
    assert_eq!(
        request.redirect_url,
        "https://sandbox.monnify.com/api/v1/organizations/wallet/callback"
    );
    assert_eq!(request.payment_methods, vec!["CARD".to_string(), "ACCOUNT_TRANSFER".to_string()]);
}

#[test]
fn payment_outcome_of_each_kind_of_answer() {
    let ok = InitPaymentResponse {
        request_successful: true,
        response_body: Some(InitPaymentBody {
            checkout_url: "https://pay.test/1".to_string(),
            payment_reference: "FUND-1-2".to_string(),
        }),
        response_message: "success".to_string(),
    };
    let body = MonnifyService::payment_outcome(ok).unwrap();
    assert_eq!(body.checkout_url, "https://pay.test/1");
    assert_eq!(body.payment_reference, "FUND-1-2");

    let refused = InitPaymentResponse {
        request_successful: false,
        response_body: None,
        response_message: "Invalid contract".to_string(),
    };
    assert_eq!(
        error_text(MonnifyService::payment_outcome(refused).unwrap_err()),
        "Invalid contract"
    );

    let empty = InitPaymentResponse {
        request_successful: true,
        response_body: None,
        response_message: "success".to_string(),
    };
    assert_eq!(
        error_text(MonnifyService::payment_outcome(empty).unwrap_err()),
        "No payment body in response"
    );
}
