//! The error type of the client, and the error codes that the payment API
//! is known to answer with.

use crate::text::{decimal, decimal_string};
use vstd::prelude::*;
use vstd::string::*;

verus! {

/// `reqwest::Error`, the error of the transport. It is carried as it is;
/// nothing is known of what it holds.
#[verifier::external_type_specification]
#[verifier::external_body]
pub struct ExHttpError(reqwest::Error);

/// `serde_json::Error`, the error of the JSON codec. It is carried as it is;
/// nothing is known of what it holds.
#[verifier::external_type_specification]
#[verifier::external_body]
pub struct ExJsonError(serde_json::Error);

/// Everything that can go wrong with a call.
#[derive(Debug)]
pub enum QPayError {
    /// The transport failed: connection, TLS, timeout.
    Http(reqwest::Error),
    /// JSON could not be written or read.
    Json(serde_json::Error),
    /// The client is set up wrongly.
    Config(String),
    /// The API answered with a status outside 200..=299.
    Api { status_code: u16, code: String, message: String, raw_body: String },
    /// No access token could be obtained.
    Token(String),
}

impl QPayError {
    /// Whether the error wraps one of the transport or of the JSON codec,
    /// whose own text is part of the message.
    pub open spec fn has_source(&self) -> bool {
        self is Http || self is Json
    }

    /// The message of the error, where `source` is the text of the wrapped
    /// error. `Config`, `Api` and `Token` wrap none and ignore `source`.
    pub open spec fn message_with(&self, source: Seq<char>) -> Seq<char> {
        match *self {
            QPayError::Http(_) => "http error: "@ + source,
            QPayError::Json(_) => "json error: "@ + source,
            QPayError::Config(detail) => "config error: "@ + detail@,
            QPayError::Api { status_code, code, message, raw_body } => "qpay: "@ + code@ + " - "@
                + message@ + " (status "@ + decimal(status_code as nat) + ")"@,
            QPayError::Token(detail) => "failed to get token: "@ + detail@,
        }
    }

    /// The message of an error that wraps no other.
    pub open spec fn message(&self) -> Seq<char>
        recommends
            !self.has_source(),
    {
        self.message_with(Seq::empty())
    }

    /// Formats the error, given the text of the error it wraps.
    pub fn describe_with(&self, source: &str) -> (r: String)
        ensures
            r@ == self.message_with(source@),
    {
        match self {
            QPayError::Http(_) => String::from_str("http error: ").concat(source),
            QPayError::Json(_) => String::from_str("json error: ").concat(source),
            QPayError::Config(detail) => String::from_str("config error: ").concat(
                detail.as_str(),
            ),
            QPayError::Api { status_code, code, message, .. } => {
                let status = decimal_string(*status_code);
                String::from_str("qpay: ").concat(code.as_str()).concat(" - ").concat(
                    message.as_str(),
                ).concat(" (status ").concat(status.as_str()).concat(")")
            },
            QPayError::Token(detail) => String::from_str("failed to get token: ").concat(
                detail.as_str(),
            ),
        }
    }

    /// `text` is what the wrapped error prints, for an error that wraps one,
    /// and empty for the others.
    pub open spec fn is_source_text(&self, text: String) -> bool {
        match *self {
            QPayError::Http(e) => to_string_from_display_ensures::<reqwest::Error>(&e, text),
            QPayError::Json(e) => to_string_from_display_ensures::<serde_json::Error>(&e, text),
            _ => text@ == Seq::<char>::empty(),
        }
    }

    /// Formats the error for people to read: the message of its kind, with
    /// what the wrapped error prints where it wraps one.
    pub fn to_string(&self) -> (r: String)
        ensures
            exists|source: String|
                self.is_source_text(source) && r@ == self.message_with(source@),
            !self.has_source() ==> r@ == self.message(),
    {
        let source = match self {
            QPayError::Http(e) => e.to_string(),
            QPayError::Json(e) => e.to_string(),
            _ => String::new(),
        };
        let r = self.describe_with(source.as_str());
        assert(self.is_source_text(source) && r@ == self.message_with(source@));
        r
    }
}

impl From<reqwest::Error> for QPayError {
    fn from(e: reqwest::Error) -> (r: QPayError) {
        QPayError::Http(e)
    }
}

impl vstd::std_specs::convert::FromSpecImpl<reqwest::Error> for QPayError {
    open spec fn obeys_from_spec() -> bool {
        true
    }

    open spec fn from_spec(e: reqwest::Error) -> QPayError {
        QPayError::Http(e)
    }
}

impl From<serde_json::Error> for QPayError {
    fn from(e: serde_json::Error) -> (r: QPayError) {
        QPayError::Json(e)
    }
}

impl vstd::std_specs::convert::FromSpecImpl<serde_json::Error> for QPayError {
    open spec fn obeys_from_spec() -> bool {
        true
    }

    open spec fn from_spec(e: serde_json::Error) -> QPayError {
        QPayError::Json(e)
    }
}

/// What came of the transport, as the client reports it: the value, or the
/// transport's error as it is. A failure of the network is never hidden and
/// never tried again here.
pub fn http_result<T>(result: Result<T, reqwest::Error>) -> (r: Result<T, QPayError>)
    ensures
        match result {
            Ok(value) => r == Ok::<T, QPayError>(value),
            Err(e) => r == Err::<T, QPayError>(QPayError::Http(e)),
        },
{
    match result {
        Ok(value) => Ok(value),
        Err(e) => Err(QPayError::Http(e)),
    }
}

/// What came of writing or reading JSON, as the client reports it: the value,
/// or the codec's error as it is. A body that cannot be read as what was
/// expected is an error, whatever the status was.
pub fn json_result<T>(result: Result<T, serde_json::Error>) -> (r: Result<T, QPayError>)
    ensures
        match result {
            Ok(value) => r == Ok::<T, QPayError>(value),
            Err(e) => r == Err::<T, QPayError>(QPayError::Json(e)),
        },
{
    match result {
        Ok(value) => Ok(value),
        Err(e) => Err(QPayError::Json(e)),
    }
}

/// The error envelope of the API: a machine code and a message for people.
/// Either may be empty when the answer did not carry it.
#[derive(Debug)]
pub struct ApiErrorBody {
    pub code: String,
    pub message: String,
}

impl Default for ApiErrorBody {
    fn default() -> (r: ApiErrorBody)
        ensures
            r.code@.len() == 0,
            r.message@.len() == 0,
    {
        ApiErrorBody { code: String::new(), message: String::new() }
    }
}

/// Status, code and message of an API error; `None` for every other kind.
pub fn is_qpay_error(err: &QPayError) -> (r: Option<(u16, &str, &str)>)
    ensures
        match *err {
            QPayError::Api { status_code, code, message, raw_body } => r matches Some(t) && t.0
                == status_code && t.1@ == code@ && t.2@ == message@,
            _ => r is None,
        },
{
    match err {
        QPayError::Api { status_code, code, message, .. } => Some(
            (*status_code, code.as_str(), message.as_str()),
        ),
        _ => None,
    }
}

// Error codes of the payment API, as it spells them.
pub const ERR_ACCOUNT_BANK_DUPLICATED: &'static str = "ACCOUNT_BANK_DUPLICATED";

pub const ERR_ACCOUNT_SELECTION_INVALID: &'static str = "ACCOUNT_SELECTION_INVALID";

pub const ERR_AUTHENTICATION_FAILED: &'static str = "AUTHENTICATION_FAILED";

pub const ERR_BANK_ACCOUNT_NOT_FOUND: &'static str = "BANK_ACCOUNT_NOTFOUND";

pub const ERR_BANK_MCC_ALREADY_ADDED: &'static str = "BANK_MCC_ALREADY_ADDED";

pub const ERR_BANK_MCC_NOT_FOUND: &'static str = "BANK_MCC_NOT_FOUND";

pub const ERR_CARD_TERMINAL_NOT_FOUND: &'static str = "CARD_TERMINAL_NOTFOUND";

pub const ERR_CLIENT_NOT_FOUND: &'static str = "CLIENT_NOTFOUND";

pub const ERR_CLIENT_USERNAME_DUPLICATED: &'static str = "CLIENT_USERNAME_DUPLICATED";

pub const ERR_CUSTOMER_DUPLICATE: &'static str = "CUSTOMER_DUPLICATE";

pub const ERR_CUSTOMER_NOT_FOUND: &'static str = "CUSTOMER_NOTFOUND";

pub const ERR_CUSTOMER_REGISTER_INVALID: &'static str = "CUSTOMER_REGISTER_INVALID";

pub const ERR_EBARIMT_CANCEL_NOT_SUPPORTED: &'static str = "EBARIMT_CANCEL_NOTSUPPERDED";

pub const ERR_EBARIMT_NOT_REGISTERED: &'static str = "EBARIMT_NOT_REGISTERED";

pub const ERR_EBARIMT_QR_CODE_INVALID: &'static str = "EBARIMT_QR_CODE_INVALID";

pub const ERR_INFORM_NOT_FOUND: &'static str = "INFORM_NOTFOUND";

pub const ERR_INPUT_CODE_REGISTERED: &'static str = "INPUT_CODE_REGISTERED";

pub const ERR_INPUT_NOT_FOUND: &'static str = "INPUT_NOTFOUND";

pub const ERR_INVALID_AMOUNT: &'static str = "INVALID_AMOUNT";

pub const ERR_INVALID_OBJECT_TYPE: &'static str = "INVALID_OBJECT_TYPE";

pub const ERR_INVOICE_ALREADY_CANCELED: &'static str = "INVOICE_ALREADY_CANCELED";

pub const ERR_INVOICE_CODE_INVALID: &'static str = "INVOICE_CODE_INVALID";

pub const ERR_INVOICE_CODE_REGISTERED: &'static str = "INVOICE_CODE_REGISTERED";

pub const ERR_INVOICE_LINE_REQUIRED: &'static str = "INVOICE_LINE_REQUIRED";

pub const ERR_INVOICE_NOT_FOUND: &'static str = "INVOICE_NOTFOUND";

pub const ERR_INVOICE_PAID: &'static str = "INVOICE_PAID";

pub const ERR_INVOICE_RECEIVER_DATA_ADDR_REQ: &'static str = "INVOICE_RECEIVER_DATA_ADDRESS_REQUIRED";

pub const ERR_INVOICE_RECEIVER_DATA_EMAIL_REQ: &'static str = "INVOICE_RECEIVER_DATA_EMAIL_REQUIRED";

pub const ERR_INVOICE_RECEIVER_DATA_PHONE_REQ: &'static str = "INVOICE_RECEIVER_DATA_PHONE_REQUIRED";

pub const ERR_INVOICE_RECEIVER_DATA_REQUIRED: &'static str = "INVOICE_RECEIVER_DATA_REQUIRED";

pub const ERR_MAX_AMOUNT_ERR: &'static str = "MAX_AMOUNT_ERR";

pub const ERR_MCC_NOT_FOUND: &'static str = "MCC_NOTFOUND";

pub const ERR_MERCHANT_ALREADY_REGISTERED: &'static str = "MERCHANT_ALREADY_REGISTERED";

pub const ERR_MERCHANT_INACTIVE: &'static str = "MERCHANT_INACTIVE";

pub const ERR_MERCHANT_NOT_FOUND: &'static str = "MERCHANT_NOTFOUND";

pub const ERR_MIN_AMOUNT_ERR: &'static str = "MIN_AMOUNT_ERR";

pub const ERR_NO_CREDENTIALS: &'static str = "NO_CREDENDIALS";

pub const ERR_OBJECT_DATA_ERROR: &'static str = "OBJECT_DATA_ERROR";

pub const ERR_P2P_TERMINAL_NOT_FOUND: &'static str = "P2P_TERMINAL_NOTFOUND";

pub const ERR_PAYMENT_ALREADY_CANCELED: &'static str = "PAYMENT_ALREADY_CANCELED";

pub const ERR_PAYMENT_NOT_PAID: &'static str = "PAYMENT_NOT_PAID";

pub const ERR_PAYMENT_NOT_FOUND: &'static str = "PAYMENT_NOTFOUND";

pub const ERR_PERMISSION_DENIED: &'static str = "PERMISSION_DENIED";

pub const ERR_QR_ACCOUNT_INACTIVE: &'static str = "QRACCOUNT_INACTIVE";

pub const ERR_QR_ACCOUNT_NOT_FOUND: &'static str = "QRACCOUNT_NOTFOUND";

pub const ERR_QR_CODE_NOT_FOUND: &'static str = "QRCODE_NOTFOUND";

pub const ERR_QR_CODE_USED: &'static str = "QRCODE_USED";

pub const ERR_SENDER_BRANCH_DATA_REQUIRED: &'static str = "SENDER_BRANCH_DATA_REQUIRED";

pub const ERR_TAX_LINE_REQUIRED: &'static str = "TAX_LINE_REQUIRED";

pub const ERR_TAX_PRODUCT_CODE_REQUIRED: &'static str = "TAX_PRODUCT_CODE_REQUIRED";

pub const ERR_TRANSACTION_NOT_APPROVED: &'static str = "TRANSACTION_NOT_APPROVED";

pub const ERR_TRANSACTION_REQUIRED: &'static str = "TRANSACTION_REQUIRED";

} // verus!
