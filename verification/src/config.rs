//! The settings of the service.

use vstd::prelude::*;
use vstd::string::StringExecFns;
use crate::text::{decimal_text, push_decimal};

verus! {

/// What `str::parse::<u16>` reads from `text`; `None` where it reads no number.
pub uninterp spec fn parsed_u16(text: Seq<char>) -> Option<int>;

/// What `str::parse::<i64>` reads from `text`; `None` where it reads no number.
pub uninterp spec fn parsed_i64(text: Seq<char>) -> Option<int>;

/// The variables the settings are taken from, each as it was found, or `None` where
/// it is not set.
#[derive(Debug, Clone)]
pub struct Environment {
    pub server_host: Option<String>,
    pub server_port: Option<String>,
    pub database_url: Option<String>,
    pub jwt_secret: Option<String>,
    pub jwt_expiry_hours: Option<String>,
    pub smtp_host: Option<String>,
    pub smtp_port: Option<String>,
    pub smtp_username: Option<String>,
    pub smtp_password: Option<String>,
    pub email_from_name: Option<String>,
    pub email_from_address: Option<String>,
    pub monnify_base_url: Option<String>,
    pub monnify_api_key: Option<String>,
    pub monnify_secret_key: Option<String>,
    pub monnify_wallet_account_number: Option<String>,
    pub monnify_contract_code: Option<String>,
}

/// The text of a variable, or `fallback` where it is not set.
pub open spec fn text_or(var: Option<String>, fallback: Seq<char>) -> Seq<char> {
    match var {
        Some(s) => s@,
        None => fallback,
    }
}

/// The port in a variable, `fallback` where it is not set, `None` where it holds no
/// port.
pub open spec fn port_or(var: Option<String>, fallback: int) -> Option<int> {
    match var {
        Some(s) => parsed_u16(s@),
        None => Some(fallback),
    }
}

/// The number in a variable, `fallback` where it is not set, `None` where it holds no
/// number.
pub open spec fn number_or(var: Option<String>, fallback: int) -> Option<int> {
    match var {
        Some(s) => parsed_i64(s@),
        None => Some(fallback),
    }
}

impl Environment {
    /// What is wrong with the variables, if anything: the first, in the order of the
    /// settings, that is missing though it has no default, or that holds no number
    /// where one is needed.
    pub open spec fn fault(self) -> Option<Seq<char>> {
        if port_or(self.server_port, 3000) is None {
            Some("SERVER_PORT must be a valid port number"@)
        } else if self.database_url is None {
            Some("DATABASE_URL must be set"@)
        } else if self.jwt_secret is None {
            Some("JWT_SECRET must be set"@)
        } else if number_or(self.jwt_expiry_hours, 24) is None {
            Some("JWT_EXPIRY_HOURS must be a number"@)
        } else if self.smtp_host is None {
            Some("SMTP_HOST must be set"@)
        } else if port_or(self.smtp_port, 587) is None {
            Some("SMTP_PORT must be a number"@)
        } else if self.smtp_username is None {
            Some("SMTP_USERNAME must be set"@)
        } else if self.smtp_password is None {
            Some("SMTP_PASSWORD must be set"@)
        } else if self.email_from_address is None {
            Some("EMAIL_FROM_ADDRESS must be set"@)
        } else if self.monnify_api_key is None {
            Some("MONNIFY_API_KEY must be set"@)
        } else if self.monnify_secret_key is None {
            Some("MONNIFY_SECRET_KEY must be set"@)
        } else if self.monnify_wallet_account_number is None {
            Some("MONNIFY_WALLET_ACCOUNT_NUMBER must be set"@)
        } else if self.monnify_contract_code is None {
            Some("MONNIFY_CONTRACT_CODE must be set"@)
        } else {
            None
        }
    }
}

/// Where the service listens and whom it talks to.
#[derive(Debug, Clone)]
pub struct Config {
    pub server_host: String,
    pub server_port: u16,
    pub database_url: String,
    pub jwt_secret: String,
    pub jwt_expiry_hours: i64,
    pub smtp_host: String,
    pub smtp_port: u16,
    pub smtp_username: String,
    pub smtp_password: String,
    pub email_from_name: String,
    pub email_from_address: String,
    pub monnify_base_url: String,
    pub monnify_api_key: String,
    pub monnify_secret_key: String,
    pub monnify_wallet_account_number: String,
    pub monnify_contract_code: String,
}

impl Config {
    /// The settings that the variables give: each variable as it is set, and the
    /// default of those that have one where they are not. Where a variable is missing
    /// or holds no number, the error says which.
    pub fn from_values(env: Environment) -> (r: Result<Config, String>)
        ensures
            match r {
                Ok(config) => {
                    &&& env.fault() is None
                    &&& config.server_host@ == text_or(env.server_host, "127.0.0.1"@)
                    &&& Some(config.server_port as int) == port_or(env.server_port, 3000)
                    &&& Some(config.database_url) == env.database_url
                    &&& Some(config.jwt_secret) == env.jwt_secret
                    &&& Some(config.jwt_expiry_hours as int) == number_or(env.jwt_expiry_hours, 24)
                    &&& Some(config.smtp_host) == env.smtp_host
                    &&& Some(config.smtp_port as int) == port_or(env.smtp_port, 587)
                    &&& Some(config.smtp_username) == env.smtp_username
                    &&& Some(config.smtp_password) == env.smtp_password
                    &&& config.email_from_name@ == text_or(env.email_from_name, "Payroll System"@)
                    &&& Some(config.email_from_address) == env.email_from_address
                    &&& config.monnify_base_url@ == text_or(
                        env.monnify_base_url,
                        "https://sandbox.monnify.com"@,
                    )
                    &&& Some(config.monnify_api_key) == env.monnify_api_key
                    &&& Some(config.monnify_secret_key) == env.monnify_secret_key
                    &&& Some(config.monnify_wallet_account_number)
                        == env.monnify_wallet_account_number
                    &&& Some(config.monnify_contract_code) == env.monnify_contract_code
                },
                Err(message) => Some(message@) == env.fault(),
            },
    {
        let server_host = or_default(env.server_host, "127.0.0.1");
        let server_port = match port(env.server_port, 3000) {
            Some(p) => p,
            None => return Err(String::from_str("SERVER_PORT must be a valid port number")),
        };
        let database_url = match env.database_url {
            Some(v) => v,
            None => return Err(String::from_str("DATABASE_URL must be set")),
        };
        let jwt_secret = match env.jwt_secret {
            Some(v) => v,
            None => return Err(String::from_str("JWT_SECRET must be set")),
        };
        let jwt_expiry_hours = match env.jwt_expiry_hours {
            Some(s) => match parse_i64(s.as_str()) {
                Some(n) => n,
                None => return Err(String::from_str("JWT_EXPIRY_HOURS must be a number")),
            },
            None => 24,
        };
        let smtp_host = match env.smtp_host {
            Some(v) => v,
            None => return Err(String::from_str("SMTP_HOST must be set")),
        };
        let smtp_port = match port(env.smtp_port, 587) {
            Some(p) => p,
            None => return Err(String::from_str("SMTP_PORT must be a number")),
        };
        let smtp_username = match env.smtp_username {
            Some(v) => v,
            None => return Err(String::from_str("SMTP_USERNAME must be set")),
        };
        let smtp_password = match env.smtp_password {
            Some(v) => v,
            None => return Err(String::from_str("SMTP_PASSWORD must be set")),
        };
        let email_from_name = or_default(env.email_from_name, "Payroll System");
        let email_from_address = match env.email_from_address {
            Some(v) => v,
            None => return Err(String::from_str("EMAIL_FROM_ADDRESS must be set")),
        };
        let monnify_base_url = or_default(env.monnify_base_url, "https://sandbox.monnify.com");
        let monnify_api_key = match env.monnify_api_key {
            Some(v) => v,
            None => return Err(String::from_str("MONNIFY_API_KEY must be set")),
        };
        let monnify_secret_key = match env.monnify_secret_key {
            Some(v) => v,
            None => return Err(String::from_str("MONNIFY_SECRET_KEY must be set")),
        };
        let monnify_wallet_account_number = match env.monnify_wallet_account_number {
            Some(v) => v,
            None => return Err(String::from_str("MONNIFY_WALLET_ACCOUNT_NUMBER must be set")),
        };
        let monnify_contract_code = match env.monnify_contract_code {
            Some(v) => v,
            None => return Err(String::from_str("MONNIFY_CONTRACT_CODE must be set")),
        };
        Ok(
            Config {
                server_host,
                server_port,
                database_url,
                jwt_secret,
                jwt_expiry_hours,
                smtp_host,
                smtp_port,
                smtp_username,
                smtp_password,
                email_from_name,
                email_from_address,
                monnify_base_url,
                monnify_api_key,
                monnify_secret_key,
                monnify_wallet_account_number,
                monnify_contract_code,
            },
        )
    }

    /// The address to listen on: host, a colon, and the port in decimal.
    pub fn server_addr(&self) -> (addr: String)
        ensures
            addr@ == self.server_host@ + ":"@ + decimal_text(self.server_port as nat),
    {
        let mut addr = self.server_host.clone();
        addr.append(":");
        push_decimal(&mut addr, self.server_port as u64);
        addr
    }
}

/// The text of a variable, or the default where it is not set.
fn or_default(var: Option<String>, fallback: &str) -> (text: String)
    ensures
        text@ == text_or(var, fallback@),
{
    match var {
        Some(s) => s,
        None => String::from_str(fallback),
    }
}

/// The port in a variable, or the default where it is not set.
fn port(var: Option<String>, fallback: u16) -> (r: Option<u16>)
    ensures
        match r {
            Some(p) => port_or(var, fallback as int) == Some(p as int),
            None => port_or(var, fallback as int) is None,
        },
{
    match var {
        Some(s) => parse_u16(s.as_str()),
        None => Some(fallback),
    }
}

/// Calls `str::parse::<u16>`. Trusted: the number is the one that [`parsed_u16`]
/// names, `None` where parsing fails.
#[verifier::external_body]
fn parse_u16(text: &str) -> (r: Option<u16>)
    ensures
        match r {
            Some(n) => parsed_u16(text@) == Some(n as int),
            None => parsed_u16(text@) is None,
        },
{
    text.parse::<u16>().ok()
}

/// Calls `str::parse::<i64>`. Trusted: the number is the one that [`parsed_i64`]
/// names, `None` where parsing fails.
#[verifier::external_body]
fn parse_i64(text: &str) -> (r: Option<i64>)
    ensures
        match r {
            Some(n) => parsed_i64(text@) == Some(n as int),
            None => parsed_i64(text@) is None,
        },
{
    text.parse::<i64>().ok()
}

} // verus!
