//! The operations on electronic tax receipts: which request each of them is.
//!
//! A payload is handed over as JSON text. What the answer holds is said with
//! each operation.

use crate::client::QPayClient;
use crate::error::QPayError;
use crate::http::{HttpMethod, HttpRequest};
use crate::text::join2;
use vstd::prelude::*;

verus! {

/// The path under which receipts are issued.
pub const EBARIMT_CREATE_PATH: &'static str = "/v2/ebarimt_v3/create";

/// The path of the receipt of one payment, before the payment's identifier.
pub const EBARIMT_ITEM_PATH: &'static str = "/v2/ebarimt_v3/";

impl QPayClient {
    /// The call that issues an electronic tax receipt for a payment.
    /// `payload` is a `CreateEbarimtRequest`; the answer is an
    /// `EbarimtResponse`.
    pub fn create_ebarimt(&self, payload: String) -> (r: Result<HttpRequest, QPayError>)
        ensures
            self@.prepares(r, HttpMethod::Post, EBARIMT_CREATE_PATH@, Some(payload@)),
    {
        self.resource_request(HttpMethod::Post, EBARIMT_CREATE_PATH, Some(payload))
    }

    /// The call that cancels the electronic tax receipt of the payment
    /// `payment_id`. It has no payload; the answer is an `EbarimtResponse`.
    pub fn cancel_ebarimt(&self, payment_id: &str) -> (r: Result<HttpRequest, QPayError>)
        ensures
            self@.prepares(r, HttpMethod::Delete, EBARIMT_ITEM_PATH@ + payment_id@, None),
    {
        let path = join2(EBARIMT_ITEM_PATH, payment_id);
        self.resource_request(HttpMethod::Delete, path.as_str(), None)
    }
}

} // verus!
