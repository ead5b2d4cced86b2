//! The payment operations: which request each of them is.
//!
//! A payload is handed over as JSON text. What the answer holds is said with
//! each operation.

use crate::client::QPayClient;
use crate::error::QPayError;
use crate::http::{HttpMethod, HttpRequest};
use crate::text::join2;
use vstd::prelude::*;

verus! {

/// The path of one payment, before its identifier.
pub const PAYMENT_ITEM_PATH: &'static str = "/v2/payment/";

/// The path of the payment check.
pub const PAYMENT_CHECK_PATH: &'static str = "/v2/payment/check";

/// The path of the payment listing.
pub const PAYMENT_LIST_PATH: &'static str = "/v2/payment/list";

/// The path that cancels a payment, before its identifier.
pub const PAYMENT_CANCEL_PATH: &'static str = "/v2/payment/cancel/";

/// The path that refunds a payment, before its identifier.
pub const PAYMENT_REFUND_PATH: &'static str = "/v2/payment/refund/";

impl QPayClient {
    /// The call that fetches the payment `payment_id`. It has no payload; the
    /// answer is a `PaymentDetail`.
    pub fn get_payment(&self, payment_id: &str) -> (r: Result<HttpRequest, QPayError>)
        ensures
            self@.prepares(r, HttpMethod::Get, PAYMENT_ITEM_PATH@ + payment_id@, None),
    {
        let path = join2(PAYMENT_ITEM_PATH, payment_id);
        self.resource_request(HttpMethod::Get, path.as_str(), None)
    }

    /// The call that asks whether an object has been paid. `payload` is a
    /// `PaymentCheckRequest`; the answer is a `PaymentCheckResponse`.
    pub fn check_payment(&self, payload: String) -> (r: Result<HttpRequest, QPayError>)
        ensures
            self@.prepares(r, HttpMethod::Post, PAYMENT_CHECK_PATH@, Some(payload@)),
    {
        self.resource_request(HttpMethod::Post, PAYMENT_CHECK_PATH, Some(payload))
    }

    /// The call that lists payments. `payload` is a `PaymentListRequest`; the
    /// answer is a `PaymentListResponse`.
    pub fn list_payments(&self, payload: String) -> (r: Result<HttpRequest, QPayError>)
        ensures
            self@.prepares(r, HttpMethod::Post, PAYMENT_LIST_PATH@, Some(payload@)),
    {
        self.resource_request(HttpMethod::Post, PAYMENT_LIST_PATH, Some(payload))
    }

    /// The call that cancels the card payment `payment_id`. `payload` is a
    /// `PaymentCancelRequest`; the answer has no content.
    pub fn cancel_payment(&self, payment_id: &str, payload: String) -> (r: Result<HttpRequest, QPayError>)
        ensures
            self@.prepares(r, HttpMethod::Delete, PAYMENT_CANCEL_PATH@ + payment_id@, Some(payload@)),
    {
        let path = join2(PAYMENT_CANCEL_PATH, payment_id);
        self.resource_request(HttpMethod::Delete, path.as_str(), Some(payload))
    }

    /// The call that refunds the card payment `payment_id`. `payload` is a
    /// `PaymentRefundRequest`; the answer has no content.
    pub fn refund_payment(&self, payment_id: &str, payload: String) -> (r: Result<HttpRequest, QPayError>)
        ensures
            self@.prepares(r, HttpMethod::Delete, PAYMENT_REFUND_PATH@ + payment_id@, Some(payload@)),
    {
        let path = join2(PAYMENT_REFUND_PATH, payment_id);
        self.resource_request(HttpMethod::Delete, path.as_str(), Some(payload))
    }
}

} // verus!
