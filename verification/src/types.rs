//! The generic per-call envelope and the canonical request/response payloads
//! of each flow.

use vstd::prelude::*;

use crate::enums::{AttemptStatus, CaptureMethod, Currency, PaymentMethod, RefundStatus};
use crate::errors::{ConnectorError, ErrorResponse};
use crate::masked::{CardNumber, Masked};

verus! {

/// Flow marker: authorization of a new payment.
pub struct Authorize;

/// Flow marker: capture of an authorized payment.
pub struct Capture;

/// Flow marker: cancellation of an authorized payment.
pub struct Void;

/// Flow marker: synchronization of a payment attempt.
pub struct PSync;

/// Flow marker: verification of a stored payment method.
pub struct Verify;

/// Flow marker: a session setup call.
pub struct Session;

/// Flow marker: execution of a refund.
pub struct Execute;

/// Flow marker: synchronization of a refund.
pub struct RSync;

/// Card credentials as the canonical request carries them. The secret
/// fields are copied verbatim into a connector's wire request and nowhere
/// else.
pub struct Card {
    pub card_number: CardNumber,
    pub card_exp_month: Masked,
    pub card_exp_year: Masked,
    pub card_cvc: Masked,
}

/// The payment instrument behind an authorization request.
pub enum PaymentMethodData {
    Card(Card),
    Wallet,
    BankRedirect,
}

/// The stored credential variant handed to a connector's auth resolver.
pub enum ConnectorAuthType {
    HeaderKey { api_key: Masked },
    BodyKey { api_key: Masked, key1: Masked },
    SignatureKey { api_key: Masked, key1: Masked, api_secret: Masked },
}

/// A connector-side transaction reference, possibly still unknown.
pub enum ResponseId {
    ConnectorTransactionId(String),
    EncodedData(String),
    NoResponseId,
}

impl ResponseId {
    /// The plain connector transaction id, owed exactly when the reference
    /// is a `ConnectorTransactionId`; every other variant is a missing id.
    pub fn get_connector_transaction_id(&self) -> (r: Result<String, ConnectorError>)
        ensures
            (self matches ResponseId::ConnectorTransactionId(id) <==> r is Ok),
            r matches Ok(id) ==> self matches ResponseId::ConnectorTransactionId(sid) && id@
                == sid@,
            r matches Err(e) ==> e@ == ConnectorError::MissingConnectorTransactionID@,
    {
        match self {
            ResponseId::ConnectorTransactionId(id) => Ok(id.clone()),
            _ => Err(ConnectorError::MissingConnectorTransactionID),
        }
    }
}

/// Canonical authorize-request payload.
pub struct PaymentsAuthorizeData {
    pub amount: i64,
    pub currency: Currency,
    pub payment_method_data: PaymentMethodData,
    pub capture_method: Option<CaptureMethod>,
}

impl PaymentsAuthorizeData {
    /// Whether this authorization is an auto-capture flow. An absent capture
    /// method means the platform default, which is automatic capture.
    pub fn is_auto_capture(&self) -> (r: bool)
        ensures
            r == (self.capture_method is None || self.capture_method == Some(
                CaptureMethod::Automatic,
            )),
    {
        match self.capture_method {
            None => true,
            Some(CaptureMethod::Automatic) => true,
            Some(CaptureMethod::Manual) => false,
        }
    }
}

/// Canonical capture-request payload.
pub struct PaymentsCaptureData {
    pub amount_to_capture: i64,
    pub currency: Currency,
    pub connector_transaction_id: String,
}

/// Canonical void-request payload. The connector transaction id may be
/// absent when the void is attempted before any connector reply arrived.
pub struct PaymentsCancelData {
    pub connector_transaction_id: Option<String>,
}

/// Canonical payment-sync payload.
pub struct PaymentsSyncData {
    pub connector_transaction_id: ResponseId,
}

/// Canonical session-request payload (no connector in this crate supports
/// the flow; the payload stays empty).
pub struct PaymentsSessionData {
    pub amount: i64,
    pub currency: Currency,
}

/// Canonical verify-request payload.
pub struct VerifyRequestData {
    pub payment_method_data: PaymentMethodData,
}

/// Canonical refund payload, shared by refund-execute and refund-sync.
pub struct RefundsData {
    pub refund_id: String,
    pub connector_transaction_id: String,
    pub refund_amount: i64,
    pub currency: Currency,
}

/// Canonical success payload of the payment flows.
pub enum PaymentsResponseData {
    TransactionResponse {
        resource_id: ResponseId,
        redirection_data: Option<String>,
        mandate_reference: Option<String>,
        connector_metadata: Option<String>,
        network_txn_id: Option<String>,
        connector_response_reference_id: Option<String>,
        incremental_authorization_allowed: Option<bool>,
    },
}

/// Canonical success payload of the refund flows.
pub struct RefundsResponseData {
    pub connector_refund_id: String,
    pub refund_status: RefundStatus,
}

/// The per-call envelope: identifying metadata, credentials, the canonical
/// request payload of one flow, and the slot the canonical outcome is
/// written into. The slot holds a success payload or a canonical error,
/// never both.
pub struct RouterData<F, Req, Res> {
    pub flow: core::marker::PhantomData<F>,
    pub merchant_id: String,
    pub connector: String,
    pub payment_id: String,
    pub attempt_id: Option<String>,
    pub status: AttemptStatus,
    pub return_url: Option<String>,
    pub connector_auth_type: ConnectorAuthType,
    pub payment_method: PaymentMethod,
    pub description: Option<String>,
    pub amount_captured: Option<i64>,
    pub connector_metadata: Option<String>,
    pub request: Req,
    pub response: Result<Res, ErrorResponse>,
}

/// Envelope of the authorize flow.
pub type PaymentsAuthorizeRouterData = RouterData<
    Authorize,
    PaymentsAuthorizeData,
    PaymentsResponseData,
>;

/// Envelope of the capture flow.
pub type PaymentsCaptureRouterData = RouterData<Capture, PaymentsCaptureData, PaymentsResponseData>;

/// Envelope of the void flow.
pub type PaymentsCancelRouterData = RouterData<Void, PaymentsCancelData, PaymentsResponseData>;

/// Envelope of the payment-sync flow.
pub type PaymentsSyncRouterData = RouterData<PSync, PaymentsSyncData, PaymentsResponseData>;

/// Envelope of the refund flows.
pub type RefundsRouterData<F> = RouterData<F, RefundsData, RefundsResponseData>;

/// Envelope of the refund-sync flow.
pub type RefundSyncRouterData = RouterData<RSync, RefundsData, RefundsResponseData>;

/// Field-for-field carry-over of everything in the envelope that the return
/// path must not touch: all identifying metadata, the credentials, and the
/// request payload. Only the status and the response slot are set by a
/// response transformer.
pub open spec fn same_call_identity<F, Req, Res>(
    a: RouterData<F, Req, Res>,
    b: RouterData<F, Req, Res>,
) -> bool {
    &&& a.merchant_id == b.merchant_id
    &&& a.connector == b.connector
    &&& a.payment_id == b.payment_id
    &&& a.attempt_id == b.attempt_id
    &&& a.return_url == b.return_url
    &&& a.connector_auth_type == b.connector_auth_type
    &&& a.payment_method == b.payment_method
    &&& a.description == b.description
    &&& a.amount_captured == b.amount_captured
    &&& a.connector_metadata == b.connector_metadata
    &&& a.request == b.request
}

/// A connector's reply, as the envelope-updating path receives it: one wire
/// response DTO beside the envelope the call started from.
pub struct ResponseRouterData<F, R, Req, Res> {
    pub response: R,
    pub data: RouterData<F, Req, Res>,
    pub http_code: u16,
}

/// What the external transport hands back: an HTTP status code and the raw
/// body bytes.
pub struct Response {
    pub status_code: u16,
    pub response: Vec<u8>,
}

} // verus!
