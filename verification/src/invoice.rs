//! The invoice operations: which request each of them is.
//!
//! A payload is handed over as JSON text. What the answer holds is said with
//! each operation.

use crate::client::QPayClient;
use crate::error::QPayError;
use crate::http::{HttpMethod, HttpRequest};
use crate::text::join2;
use vstd::prelude::*;

verus! {

/// The path under which invoices are created.
pub const INVOICE_PATH: &'static str = "/v2/invoice";

/// The path of one invoice, before its identifier.
pub const INVOICE_ITEM_PATH: &'static str = "/v2/invoice/";

impl QPayClient {
    /// The call that creates an invoice with the full set of options.
    /// `payload` is a `CreateInvoiceRequest`; the answer is an
    /// `InvoiceResponse`.
    pub fn create_invoice(&self, payload: String) -> (r: Result<HttpRequest, QPayError>)
        ensures
            self@.prepares(r, HttpMethod::Post, INVOICE_PATH@, Some(payload@)),
    {
        self.resource_request(HttpMethod::Post, INVOICE_PATH, Some(payload))
    }

    /// The call that creates an invoice from the few fields that every
    /// invoice needs. `payload` is a `CreateSimpleInvoiceRequest`; the answer
    /// is an `InvoiceResponse`.
    pub fn create_simple_invoice(&self, payload: String) -> (r: Result<HttpRequest, QPayError>)
        ensures
            self@.prepares(r, HttpMethod::Post, INVOICE_PATH@, Some(payload@)),
    {
        self.resource_request(HttpMethod::Post, INVOICE_PATH, Some(payload))
    }

    /// The call that creates an invoice with tax information. `payload` is a
    /// `CreateEbarimtInvoiceRequest`; the answer is an `InvoiceResponse`.
    pub fn create_ebarimt_invoice(&self, payload: String) -> (r: Result<HttpRequest, QPayError>)
        ensures
            self@.prepares(r, HttpMethod::Post, INVOICE_PATH@, Some(payload@)),
    {
        self.resource_request(HttpMethod::Post, INVOICE_PATH, Some(payload))
    }

    /// The call that cancels the invoice `invoice_id`. It has no payload and
    /// its answer has no content.
    pub fn cancel_invoice(&self, invoice_id: &str) -> (r: Result<HttpRequest, QPayError>)
        ensures
            self@.prepares(r, HttpMethod::Delete, INVOICE_ITEM_PATH@ + invoice_id@, None),
    {
        let path = join2(INVOICE_ITEM_PATH, invoice_id);
        self.resource_request(HttpMethod::Delete, path.as_str(), None)
    }
}

} // verus!
