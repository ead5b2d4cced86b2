//! What a client is configured with.

use crate::error::QPayError;
use crate::text::join3;
use vstd::prelude::*;
use vstd::string::*;

verus! {

/// The environment variable that holds the base URL.
pub const ENV_BASE_URL: &'static str = "QPAY_BASE_URL";

/// The environment variable that holds the user name.
pub const ENV_USERNAME: &'static str = "QPAY_USERNAME";

/// The environment variable that holds the password.
pub const ENV_PASSWORD: &'static str = "QPAY_PASSWORD";

/// The environment variable that holds the default invoice code.
pub const ENV_INVOICE_CODE: &'static str = "QPAY_INVOICE_CODE";

/// The environment variable that holds the default callback URL.
pub const ENV_CALLBACK_URL: &'static str = "QPAY_CALLBACK_URL";

/// Text that a configuration value can be given as: a string slice, an owned
/// string, or a reference to one.
pub trait IntoText {
    /// The characters of the value.
    spec fn text(&self) -> Seq<char>;

    /// The value as an owned string.
    fn into_text(self) -> (r: String)
        ensures
            r@ == self.text(),
    ;
}

impl<'a> IntoText for &'a str {
    open spec fn text(&self) -> Seq<char> {
        (*self)@
    }

    fn into_text(self) -> (r: String) {
        String::from_str(self)
    }
}

impl<'a> IntoText for &'a String {
    open spec fn text(&self) -> Seq<char> {
        (**self)@
    }

    fn into_text(self) -> (r: String) {
        self.clone()
    }
}

impl IntoText for String {
    open spec fn text(&self) -> Seq<char> {
        self@
    }

    fn into_text(self) -> (r: String) {
        self
    }
}

/// The configuration of a client. It is fixed once the client is made.
#[derive(Debug, Clone)]
pub struct QPayConfig {
    pub base_url: String,
    pub username: String,
    pub password: String,
    pub invoice_code: String,
    pub callback_url: String,
}

/// What the environment holds for each variable of the configuration, `None`
/// where the variable is not set.
#[derive(Debug, Clone)]
pub struct Environment {
    pub base_url: Option<String>,
    pub username: Option<String>,
    pub password: Option<String>,
    pub invoice_code: Option<String>,
    pub callback_url: Option<String>,
}

/// The message that reports the variable `name` as missing.
pub open spec fn missing_variable_message(name: Seq<char>) -> Seq<char> {
    "required environment variable "@ + name + " is not set"@
}

/// The value of the variable `name`, or the configuration error that reports
/// it as missing.
pub fn require_env(name: &str, value: Option<String>) -> (r: Result<String, QPayError>)
    ensures
        match value {
            Some(v) => r == Ok::<String, QPayError>(v),
            None => r matches Err(QPayError::Config(message)) && message@
                == missing_variable_message(name@),
        },
{
    match value {
        Some(v) => Ok(v),
        None => Err(
            QPayError::Config(join3("required environment variable ", name, " is not set")),
        ),
    }
}

impl Environment {
    /// The name of the first variable that is not set, in the order base URL,
    /// user name, password, invoice code, callback URL.
    pub open spec fn first_missing(&self) -> Option<Seq<char>> {
        if self.base_url is None {
            Some(ENV_BASE_URL@)
        } else if self.username is None {
            Some(ENV_USERNAME@)
        } else if self.password is None {
            Some(ENV_PASSWORD@)
        } else if self.invoice_code is None {
            Some(ENV_INVOICE_CODE@)
        } else if self.callback_url is None {
            Some(ENV_CALLBACK_URL@)
        } else {
            None
        }
    }
}

impl QPayConfig {
    /// A configuration with the given values.
    pub fn new(
        base_url: impl IntoText,
        username: impl IntoText,
        password: impl IntoText,
        invoice_code: impl IntoText,
        callback_url: impl IntoText,
    ) -> (r: QPayConfig)
        ensures
            r.base_url@ == base_url.text(),
            r.username@ == username.text(),
            r.password@ == password.text(),
            r.invoice_code@ == invoice_code.text(),
            r.callback_url@ == callback_url.text(),
    {
        QPayConfig {
            base_url: base_url.into_text(),
            username: username.into_text(),
            password: password.into_text(),
            invoice_code: invoice_code.into_text(),
            callback_url: callback_url.into_text(),
        }
    }

    /// The configuration that the environment holds.
    ///
    /// All five variables are required. Where some are not set, the error
    /// names the first of them.
    pub fn from_env(env: Environment) -> (r: Result<QPayConfig, QPayError>)
        ensures
            match env.first_missing() {
                None => r matches Ok(config) && Some(config.base_url) == env.base_url && Some(
                    config.username,
                ) == env.username && Some(config.password) == env.password && Some(
                    config.invoice_code,
                ) == env.invoice_code && Some(config.callback_url) == env.callback_url,
                Some(name) => r matches Err(QPayError::Config(message)) && message@
                    == missing_variable_message(name),
            },
    {
        let base_url = match require_env(ENV_BASE_URL, env.base_url) {
            Ok(v) => v,
            Err(e) => return Err(e),
        };
        let username = match require_env(ENV_USERNAME, env.username) {
            Ok(v) => v,
            Err(e) => return Err(e),
        };
        let password = match require_env(ENV_PASSWORD, env.password) {
            Ok(v) => v,
            Err(e) => return Err(e),
        };
        let invoice_code = match require_env(ENV_INVOICE_CODE, env.invoice_code) {
            Ok(v) => v,
            Err(e) => return Err(e),
        };
        let callback_url = match require_env(ENV_CALLBACK_URL, env.callback_url) {
            Ok(v) => v,
            Err(e) => return Err(e),
        };
        Ok(QPayConfig { base_url, username, password, invoice_code, callback_url })
    }
}

} // verus!
