//! The payloads of the payment API.
//!
//! These are plain records. Field names are those of the API's JSON, except
//! where a comment on the field gives the name on the wire.

use vstd::prelude::*;

verus! {

/// `serde_json::Value`, any JSON value. It is carried as it is; nothing is
/// known of what it holds.
#[verifier::external_type_specification]
#[verifier::external_body]
pub struct ExJsonValue(serde_json::Value);

/// The answer of the token and refresh endpoints.
///
/// The client reads both expiry fields as instants, in seconds since the
/// epoch, and not as numbers of seconds from the moment of the answer.
#[derive(Debug, Clone)]
pub struct TokenResponse {
    pub token_type: String,
    /// The instant after which the refresh token must not be used.
    pub refresh_expires_in: i64,
    pub refresh_token: String,
    pub access_token: String,
    /// The instant after which the access token must not be used.
    pub expires_in: i64,
    pub scope: String,
    /// `not-before-policy` on the wire.
    pub not_before_policy: String,
    pub session_state: String,
}

/// A postal address. Every part is optional.
#[derive(Debug, Clone)]
pub struct Address {
    pub city: Option<String>,
    pub district: Option<String>,
    pub street: Option<String>,
    pub building: Option<String>,
    pub address: Option<String>,
    pub zipcode: Option<String>,
    pub longitude: Option<String>,
    pub latitude: Option<String>,
}

impl Default for Address {
    /// The record with every field absent.
    fn default() -> (r: Address)
        ensures
            r.city is None,
            r.district is None,
            r.street is None,
            r.building is None,
            r.address is None,
            r.zipcode is None,
            r.longitude is None,
            r.latitude is None,
    {
        Address {
            city: None,
            district: None,
            street: None,
            building: None,
            address: None,
            zipcode: None,
            longitude: None,
            latitude: None,
        }
    }
}

/// The branch that issues an invoice.
#[derive(Debug, Clone)]
pub struct SenderBranchData {
    pub register: Option<String>,
    pub name: Option<String>,
    pub email: Option<String>,
    pub phone: Option<String>,
    pub address: Option<Address>,
}

impl Default for SenderBranchData {
    /// The record with every field absent.
    fn default() -> (r: SenderBranchData)
        ensures
            r.register is None,
            r.name is None,
            r.email is None,
            r.phone is None,
            r.address is None,
    {
        SenderBranchData {
            register: None,
            name: None,
            email: None,
            phone: None,
            address: None,
        }
    }
}

/// The member of staff who issues an invoice.
#[derive(Debug, Clone)]
pub struct SenderStaffData {
    pub name: Option<String>,
    pub email: Option<String>,
    pub phone: Option<String>,
}

impl Default for SenderStaffData {
    /// The record with every field absent.
    fn default() -> (r: SenderStaffData)
        ensures
            r.name is None,
            r.email is None,
            r.phone is None,
    {
        SenderStaffData {
            name: None,
            email: None,
            phone: None,
        }
    }
}

/// The party that an invoice is made out to.
#[derive(Debug, Clone)]
pub struct InvoiceReceiverData {
    pub register: Option<String>,
    pub name: Option<String>,
    pub email: Option<String>,
    pub phone: Option<String>,
    pub address: Option<Address>,
}

impl Default for InvoiceReceiverData {
    /// The record with every field absent.
    fn default() -> (r: InvoiceReceiverData)
        ensures
            r.register is None,
            r.name is None,
            r.email is None,
            r.phone is None,
            r.address is None,
    {
        InvoiceReceiverData {
            register: None,
            name: None,
            email: None,
            phone: None,
            address: None,
        }
    }
}

/// A bank account that a transaction is settled on.
#[derive(Debug, Clone)]
pub struct Account {
    pub account_bank_code: String,
    pub account_number: String,
    pub iban_number: String,
    pub account_name: String,
    pub account_currency: String,
    pub is_default: bool,
}

/// One transaction of an invoice.
#[derive(Debug, Clone)]
pub struct Transaction {
    pub description: String,
    pub amount: String,
    pub accounts: Option<Vec<Account>>,
}

/// A link that opens the invoice in a bank's application.
#[derive(Debug, Clone)]
pub struct Deeplink {
    pub name: String,
    pub description: String,
    pub logo: String,
    pub link: String,
}

/// A created invoice.
#[derive(Debug, Clone)]
pub struct InvoiceResponse {
    pub invoice_id: String,
    pub qr_text: String,
    pub qr_image: String,
    /// `qPay_shortUrl` on the wire.
    pub qpay_short_url: String,
    pub urls: Vec<Deeplink>,
}

/// A page of a listing.
#[derive(Debug, Clone)]
pub struct Offset {
    pub page_number: i32,
    pub page_limit: i32,
}

/// Asks whether an object has been paid.
#[derive(Debug, Clone)]
pub struct PaymentCheckRequest {
    pub object_type: String,
    pub object_id: String,
    pub offset: Option<Offset>,
}

/// One payment found by a payment check.
#[derive(Debug, Clone)]
pub struct PaymentCheckRow {
    pub payment_id: String,
    pub payment_status: String,
    pub payment_amount: String,
    pub trx_fee: String,
    pub payment_currency: String,
    pub payment_wallet: String,
    pub payment_type: String,
    pub next_payment_date: Option<String>,
    pub next_payment_datetime: Option<String>,
    pub card_transactions: Vec<CardTransaction>,
    pub p2p_transactions: Vec<P2PTransaction>,
}

/// A payment, as the API reports it.
#[derive(Debug, Clone)]
pub struct PaymentDetail {
    pub payment_id: String,
    pub payment_status: String,
    pub payment_fee: String,
    pub payment_amount: String,
    pub payment_currency: String,
    pub payment_date: String,
    pub payment_wallet: String,
    pub transaction_type: String,
    pub object_type: String,
    pub object_id: String,
    pub next_payment_date: Option<String>,
    pub next_payment_datetime: Option<String>,
    pub card_transactions: Vec<CardTransaction>,
    pub p2p_transactions: Vec<P2PTransaction>,
}

/// The card part of a payment.
#[derive(Debug, Clone)]
pub struct CardTransaction {
    pub card_merchant_code: Option<String>,
    pub card_terminal_code: Option<String>,
    pub card_number: Option<String>,
    pub card_type: String,
    pub is_cross_border: bool,
    pub amount: Option<String>,
    pub transaction_amount: Option<String>,
    pub currency: Option<String>,
    pub transaction_currency: Option<String>,
    pub date: Option<String>,
    pub transaction_date: Option<String>,
    pub status: Option<String>,
    pub transaction_status: Option<String>,
    pub settlement_status: String,
    pub settlement_status_date: String,
}

/// The account-to-account part of a payment.
#[derive(Debug, Clone)]
pub struct P2PTransaction {
    pub transaction_bank_code: String,
    pub account_bank_code: String,
    pub account_bank_name: String,
    pub account_number: String,
    pub status: String,
    pub amount: String,
    pub currency: String,
    pub settlement_status: String,
}

/// Asks for the payments of an object within a period.
#[derive(Debug, Clone)]
pub struct PaymentListRequest {
    pub object_type: String,
    pub object_id: String,
    pub start_date: String,
    pub end_date: String,
    pub offset: Offset,
}

/// A page of payments.
#[derive(Debug, Clone)]
pub struct PaymentListResponse {
    pub count: i32,
    pub rows: Vec<PaymentListItem>,
}

/// One payment of a listing.
#[derive(Debug, Clone)]
pub struct PaymentListItem {
    pub payment_id: String,
    pub payment_date: String,
    pub payment_status: String,
    pub payment_fee: String,
    pub payment_amount: String,
    pub payment_currency: String,
    pub payment_wallet: String,
    pub payment_name: String,
    pub payment_description: String,
    pub qr_code: String,
    pub paid_by: String,
    pub object_type: String,
    pub object_id: String,
}

/// Cancels a card payment.
#[derive(Debug, Clone)]
pub struct PaymentCancelRequest {
    pub callback_url: Option<String>,
    pub note: Option<String>,
}

impl Default for PaymentCancelRequest {
    /// The record with every field absent.
    fn default() -> (r: PaymentCancelRequest)
        ensures
            r.callback_url is None,
            r.note is None,
    {
        PaymentCancelRequest {
            callback_url: None,
            note: None,
        }
    }
}

/// Refunds a card payment.
#[derive(Debug, Clone)]
pub struct PaymentRefundRequest {
    pub callback_url: Option<String>,
    pub note: Option<String>,
}

impl Default for PaymentRefundRequest {
    /// The record with every field absent.
    fn default() -> (r: PaymentRefundRequest)
        ensures
            r.callback_url is None,
            r.note is None,
    {
        PaymentRefundRequest {
            callback_url: None,
            note: None,
        }
    }
}

/// Asks for an electronic tax receipt for a payment.
#[derive(Debug, Clone)]
pub struct CreateEbarimtRequest {
    pub payment_id: String,
    pub ebarimt_receiver_type: String,
    pub ebarimt_receiver: Option<String>,
    pub district_code: Option<String>,
    pub classification_code: Option<String>,
}

/// An electronic tax receipt.
#[derive(Debug, Clone)]
pub struct EbarimtResponse {
    pub id: String,
    pub ebarimt_by: String,
    pub g_wallet_id: String,
    pub g_wallet_customer_id: String,
    pub ebarimt_receiver_type: String,
    pub ebarimt_receiver: String,
    pub ebarimt_district_code: String,
    pub ebarimt_bill_type: String,
    pub g_merchant_id: String,
    pub merchant_branch_code: String,
    pub merchant_terminal_code: Option<String>,
    pub merchant_staff_code: Option<String>,
    pub merchant_register_no: String,
    pub g_payment_id: String,
    pub paid_by: String,
    pub object_type: String,
    pub object_id: String,
    pub amount: String,
    pub vat_amount: String,
    pub city_tax_amount: String,
    pub ebarimt_qr_data: String,
    pub ebarimt_lottery: String,
    pub note: Option<String>,
    pub barimt_status: String,
    pub barimt_status_date: String,
    pub ebarimt_sent_email: Option<String>,
    pub ebarimt_receiver_phone: String,
    pub tax_type: String,
    pub merchant_tin: Option<String>,
    pub ebarimt_receipt_id: Option<String>,
    pub created_by: String,
    pub created_date: String,
    pub updated_by: String,
    pub updated_date: String,
    pub status: bool,
    pub barimt_items: Vec<EbarimtItem>,
    pub barimt_transactions: Vec<serde_json::Value>,
    pub barimt_histories: Vec<EbarimtHistory>,
}

/// One line of an electronic tax receipt.
#[derive(Debug, Clone)]
pub struct EbarimtItem {
    pub id: String,
    pub barimt_id: String,
    pub merchant_product_code: Option<String>,
    pub tax_product_code: String,
    pub bar_code: Option<String>,
    pub name: String,
    pub unit_price: String,
    pub quantity: String,
    pub amount: String,
    pub city_tax_amount: String,
    pub vat_amount: String,
    pub note: Option<String>,
    pub created_by: String,
    pub created_date: String,
    pub updated_by: String,
    pub updated_date: String,
    pub status: bool,
}

/// One earlier state of an electronic tax receipt.
#[derive(Debug, Clone)]
pub struct EbarimtHistory {
    pub id: String,
    pub barimt_id: String,
    pub ebarimt_receiver_type: String,
    pub ebarimt_receiver: String,
    pub ebarimt_register_no: Option<String>,
    pub ebarimt_bill_id: String,
    pub ebarimt_date: String,
    pub ebarimt_mac_address: String,
    pub ebarimt_internal_code: String,
    pub ebarimt_bill_type: String,
    pub ebarimt_qr_data: String,
    pub ebarimt_lottery: String,
    pub ebarimt_lottery_msg: Option<String>,
    pub ebarimt_error_code: Option<String>,
    pub ebarimt_error_msg: Option<String>,
    pub ebarimt_response_code: Option<String>,
    pub ebarimt_response_msg: Option<String>,
    pub note: Option<String>,
    pub barimt_status: String,
    pub barimt_status_date: String,
    pub ebarimt_sent_email: Option<String>,
    pub ebarimt_receiver_phone: String,
    pub tax_type: String,
    pub created_by: String,
    pub created_date: String,
    pub updated_by: String,
    pub updated_date: String,
    pub status: bool,
}

} // verus!
