//! The disbursement gateway: what is sent to it and how its answers are read.
//!
//! Every call stands alone: credentials are exchanged for a token, then one request
//! is made with it. Nothing is retried. This module builds the requests and reads the
//! answers; sending them is left to the caller.

use std::sync::Arc;
use vstd::prelude::*;
use vstd::string::StringExecFns;
use vstd::utf8::encode_utf8;
use crate::config::Config;
use crate::decimal::Decimal;
use crate::errors::AppError;

verus! {

/// Credentials of at most this many bytes are encoded.
pub const MAX_CREDENTIALS_BYTES: usize = 0x1000_0000;

/// The base64 text, standard alphabet with padding, of the UTF-8 bytes of `text`.
pub uninterp spec fn base64_standard(text: Seq<char>) -> Seq<char>;

/// The gateway's answer to a login.
#[derive(Debug)]
pub struct MonnifyAuthResponse {
    pub request_successful: bool,
    pub response_body: Option<MonnifyTokenBody>,
    pub response_message: String,
}

#[derive(Debug)]
pub struct MonnifyTokenBody {
    pub access_token: String,
}

/// A single transfer to a bank account.
#[derive(Debug)]
pub struct SingleTransferRequest {
    pub amount: Decimal,
    pub reference: String,
    pub narration: String,
    pub destination_bank_code: String,
    pub destination_account_number: String,
    pub currency: String,
    pub source_account_number: String,
    pub destination_account_name: String,
    pub async_: bool,
}

/// The gateway's answer to a transfer.
#[derive(Debug)]
pub struct MonnifyTransferResponse {
    pub request_successful: bool,
    pub response_message: String,
    pub response_body: Option<MonnifyTransferBody>,
}

#[derive(Debug)]
pub struct MonnifyTransferBody {
    pub reference: String,
    pub status: String,
}

/// A request for a payment link that tops up the wallet.
#[derive(Debug)]
pub struct InitPaymentRequest {
    pub amount: Decimal,
    pub customer_name: String,
    pub customer_email: String,
    pub payment_reference: String,
    pub payment_description: String,
    pub currency_code: String,
    pub contract_code: String,
    pub redirect_url: String,
    pub payment_methods: Vec<String>,
}

/// The gateway's answer to a request for a payment link.
#[derive(Debug)]
pub struct InitPaymentResponse {
    pub request_successful: bool,
    pub response_body: Option<InitPaymentBody>,
    pub response_message: String,
}

#[derive(Debug)]
pub struct InitPaymentBody {
    pub checkout_url: String,
    pub payment_reference: String,
}

/// The gateway client's rules.
#[derive(Clone)]
pub struct MonnifyService {
    pub config: Arc<Config>,
}

impl MonnifyService {
    pub fn new(config: Arc<Config>) -> (service: MonnifyService)
        ensures
            service.config == config,
    {
        MonnifyService { config }
    }

    /// The text that is encoded to log in: key, colon, secret.
    pub open spec fn credentials(self) -> Seq<char> {
        self.config.monnify_api_key@ + ":"@ + self.config.monnify_secret_key@
    }

    /// Where to log in.
    pub fn login_url(&self) -> (url: String)
        ensures
            url@ == self.config.monnify_base_url@ + "/api/v1/auth/login"@,
    {
        self.config.monnify_base_url.clone().concat("/api/v1/auth/login")
    }

    /// Where a single transfer is submitted.
    pub fn transfer_url(&self) -> (url: String)
        ensures
            url@ == self.config.monnify_base_url@ + "/api/v2/disbursements/single"@,
    {
        self.config.monnify_base_url.clone().concat("/api/v2/disbursements/single")
    }

    /// Where a payment link is asked for.
    pub fn init_transaction_url(&self) -> (url: String)
        ensures
            url@ == self.config.monnify_base_url@
                + "/api/v1/merchant/transactions/init-transaction"@,
    {
        self.config.monnify_base_url.clone().concat(
            "/api/v1/merchant/transactions/init-transaction",
        )
    }

    /// The `Authorization` header of a login: `Basic` and the encoded credentials.
    /// Credentials of more than [`MAX_CREDENTIALS_BYTES`] bytes are refused.
    pub fn basic_authorization(&self) -> (header: Result<String, AppError>)
        ensures
            header is Ok <==> encode_utf8(self.credentials()).len() <= MAX_CREDENTIALS_BYTES,
            match header {
                Ok(h) => h@ == "Basic "@ + base64_standard(self.credentials()),
                Err(e) => e matches AppError::Internal(m)
                    && m@ == "Gateway credentials are too long"@,
            },
    {
        let credentials = self.config.monnify_api_key.clone().concat(":").concat(
            self.config.monnify_secret_key.as_str(),
        );
        let plain = credentials.as_str();
        if plain.as_bytes().len() > MAX_CREDENTIALS_BYTES {
            return Err(AppError::Internal(String::from_str("Gateway credentials are too long")));
        }
        let encoded = encode_base64(plain);
        Ok(String::from_str("Basic ").concat(encoded.as_str()))
    }

    /// Reads the answer to a login: the token of a successful answer.
    pub fn access_token(auth: MonnifyAuthResponse) -> (token: Result<String, AppError>)
        ensures
            match token {
                Ok(t) => Self::login_failure(auth) is None && t
                    == auth.response_body->0.access_token,
                Err(e) => e matches AppError::MonnifyError(m) && Some(m@) == Self::login_failure(
                    auth,
                ),
            },
    {
        if !auth.request_successful {
            return Err(
                AppError::MonnifyError(
                    String::from_str("Auth failed: ").concat(auth.response_message.as_str()),
                ),
            );
        }
        match auth.response_body {
            Some(body) => Ok(body.access_token),
            None => Err(AppError::MonnifyError(String::from_str("No access token in response"))),
        }
    }

    /// The single transfer of `amount` to an employee's account, drawn on the
    /// organization's gateway wallet, in naira, waiting for the outcome.
    pub fn transfer_request(
        &self,
        amount: Decimal,
        reference: &str,
        employee_name: &str,
        bank_code: &str,
        account_number: &str,
        narration: &str,
    ) -> (request: SingleTransferRequest)
        ensures
            request.amount == amount,
            request.reference@ == reference@,
            request.narration@ == narration@,
            request.destination_bank_code@ == bank_code@,
            request.destination_account_number@ == account_number@,
            request.currency@ == "NGN"@,
            request.source_account_number@ == self.config.monnify_wallet_account_number@,
            request.destination_account_name@ == employee_name@,
            !request.async_,
    {
        SingleTransferRequest {
            amount,
            reference: String::from_str(reference),
            narration: String::from_str(narration),
            destination_bank_code: String::from_str(bank_code),
            destination_account_number: String::from_str(account_number),
            currency: String::from_str("NGN"),
            source_account_number: self.config.monnify_wallet_account_number.clone(),
            destination_account_name: String::from_str(employee_name),
            async_: false,
        }
    }

    /// Reads the answer to a transfer: the gateway's reference and status where the
    /// request succeeded, its message as the error where it did not.
    pub fn transfer_outcome(result: MonnifyTransferResponse) -> (outcome: Result<
        MonnifyTransferBody,
        AppError,
    >)
        ensures
            match outcome {
                Ok(body) => Self::transfer_failure(result) is None && result.response_body
                    == Some(body),
                Err(e) => e matches AppError::MonnifyError(m) && Some(m@)
                    == Self::transfer_failure(result),
            },
    {
        if !result.request_successful {
            return Err(AppError::MonnifyError(result.response_message));
        }
        match result.response_body {
            Some(body) => Ok(body),
            None => Err(AppError::MonnifyError(String::from_str("No transfer body in response"))),
        }
    }

    /// The request for a payment link over `amount`, payable by card or by account
    /// transfer.
    pub fn payment_request(
        &self,
        amount: Decimal,
        customer_name: &str,
        customer_email: &str,
        reference: &str,
    ) -> (request: InitPaymentRequest)
        ensures
            request.amount == amount,
            request.customer_name@ == customer_name@,
            request.customer_email@ == customer_email@,
            request.payment_reference@ == reference@,
            request.payment_description@ == "Payroll Wallet Funding"@,
            request.currency_code@ == "NGN"@,
            request.contract_code@ == self.config.monnify_contract_code@,
            request.redirect_url@ == self.config.monnify_base_url@
                + "/api/v1/organizations/wallet/callback"@,
            request.payment_methods@.len() == 2,
            request.payment_methods@[0]@ == "CARD"@,
            request.payment_methods@[1]@ == "ACCOUNT_TRANSFER"@,
    {
        let mut payment_methods: Vec<String> = Vec::new();
        payment_methods.push(String::from_str("CARD"));
        payment_methods.push(String::from_str("ACCOUNT_TRANSFER"));
        InitPaymentRequest {
            amount,
            customer_name: String::from_str(customer_name),
            customer_email: String::from_str(customer_email),
            payment_reference: String::from_str(reference),
            payment_description: String::from_str("Payroll Wallet Funding"),
            currency_code: String::from_str("NGN"),
            contract_code: self.config.monnify_contract_code.clone(),
            redirect_url: self.config.monnify_base_url.clone().concat(
                "/api/v1/organizations/wallet/callback",
            ),
            payment_methods,
        }
    }

    /// Reads the answer to a request for a payment link.
    pub fn payment_outcome(result: InitPaymentResponse) -> (outcome: Result<
        InitPaymentBody,
        AppError,
    >)
        ensures
            match outcome {
                Ok(body) => Self::payment_failure(result) is None && result.response_body
                    == Some(body),
                Err(e) => e matches AppError::MonnifyError(m) && Some(m@) == Self::payment_failure(
                    result,
                ),
            },
    {
        if !result.request_successful {
            return Err(AppError::MonnifyError(result.response_message));
        }
        match result.response_body {
            Some(body) => Ok(body),
            None => Err(AppError::MonnifyError(String::from_str("No payment body in response"))),
        }
    }

    /// Why a login failed, if it did: the gateway said so, or it sent no token.
    pub open spec fn login_failure(auth: MonnifyAuthResponse) -> Option<Seq<char>> {
        if !auth.request_successful {
            Some("Auth failed: "@ + auth.response_message@)
        } else if auth.response_body is None {
            Some("No access token in response"@)
        } else {
            None
        }
    }

    /// Why a transfer failed, if it did: the gateway's own message where it refused,
    /// a fixed one where its answer holds no body.
    pub open spec fn transfer_failure(result: MonnifyTransferResponse) -> Option<Seq<char>> {
        if !result.request_successful {
            Some(result.response_message@)
        } else if result.response_body is None {
            Some("No transfer body in response"@)
        } else {
            None
        }
    }

    /// Why a request for a payment link failed, if it did.
    pub open spec fn payment_failure(result: InitPaymentResponse) -> Option<Seq<char>> {
        if !result.request_successful {
            Some(result.response_message@)
        } else if result.response_body is None {
            Some("No payment body in response"@)
        } else {
            None
        }
    }
}

/// Calls `base64::Engine::encode` on the standard engine. Trusted: the result is the
/// padded base64 text of the bytes of `text`, named by [`base64_standard`]. The size of
/// the output, four bytes for every three of input, is kept far below what can be
/// allocated.
#[verifier::external_body]
fn encode_base64(text: &str) -> (encoded: String)
    requires
        encode_utf8(text@).len() <= MAX_CREDENTIALS_BYTES,
    ensures
        encoded@ == base64_standard(text@),
{
    base64::Engine::encode(&base64::engine::general_purpose::STANDARD, text)
}

} // verus!
