//! Transformers between the canonical flow payloads and PayU's wire DTOs,
//! and the translators from PayU's status vocabulary into the canonical
//! state sets.

use vstd::prelude::*;

use crate::codec::{
    amount_request_wire, body_text, body_to_text, build_amount_request_text,
    build_capture_request_text, build_card_request_text, capture_request_wire, card_request_wire,
    decodable_body, parse_payments_response, parse_refund_response, parse_status_error,
    payments_response_read, refund_response_read, status_error_read,
};
use crate::enums;
use crate::enums::{AttemptStatus, CaptureMethod};
use crate::errors::{ConnectorError, ConnectorErrorView, Feature};
use crate::masked::Masked;
use crate::types::{
    ConnectorAuthType, Execute, PaymentMethodData, PaymentsAuthorizeRouterData,
    PaymentsCaptureRouterData, PaymentsResponseData, RSync, RefundsData, RefundsResponseData,
    RefundsRouterData, ResponseId, ResponseRouterData, RouterData, same_call_identity,
};
use crate::wire::{clean_text, is_clean_str, opt_text_view, str_eq};

verus! {

/// PayU's credential shape: a single API key sent in the authorization
/// header.
pub struct PayuAuthType {
    pub api_key: Masked,
}

impl PayuAuthType {
    /// Project the stored credential variant onto what PayU understands.
    /// `Ok` exactly for a `HeaderKey`; every other variant is a credential
    /// mismatch.
    pub fn try_from(auth_type: &ConnectorAuthType) -> (r: Result<PayuAuthType, ConnectorError>)
        ensures
            (auth_type matches ConnectorAuthType::HeaderKey { .. }) <==> r is Ok,
            r matches Ok(v) ==> auth_type matches ConnectorAuthType::HeaderKey { api_key }
                && v.api_key@ == api_key@,
            r matches Err(e) ==> e@ == ConnectorErrorView::FailedToObtainAuthType,
    {
        match auth_type {
            ConnectorAuthType::HeaderKey { api_key } => Ok(
                PayuAuthType { api_key: api_key.clone() },
            ),
            _ => Err(ConnectorError::FailedToObtainAuthType),
        }
    }
}

/// PayU's payment-status vocabulary, with the `Processing` default for an
/// absent or unknown wire status.
#[derive(Clone, Copy, Debug, PartialEq, Eq, Structural)]
pub enum PayuPaymentStatus {
    Succeeded,
    Failed,
    Processing,
}

/// The canonical attempt status each PayU payment status translates to.
pub open spec fn payu_attempt_status_of(item: PayuPaymentStatus) -> AttemptStatus {
    match item {
        PayuPaymentStatus::Succeeded => AttemptStatus::Charged,
        PayuPaymentStatus::Failed => AttemptStatus::Failure,
        PayuPaymentStatus::Processing => AttemptStatus::Authorizing,
    }
}

impl PayuPaymentStatus {
    /// Translate PayU's payment status into the canonical attempt status.
    pub fn attempt_status(self) -> (r: AttemptStatus)
        ensures
            r == payu_attempt_status_of(self),
    {
        match self {
            PayuPaymentStatus::Succeeded => AttemptStatus::Charged,
            PayuPaymentStatus::Failed => AttemptStatus::Failure,
            PayuPaymentStatus::Processing => AttemptStatus::Authorizing,
        }
    }
}

/// PayU's refund-status vocabulary, with the same default.
#[derive(Clone, Copy, Debug, PartialEq, Eq, Structural)]
pub enum PayuRefundStatus {
    Succeeded,
    Failed,
    Processing,
}

/// The canonical refund status each PayU refund status translates to.
pub open spec fn payu_refund_status_of(item: PayuRefundStatus) -> enums::RefundStatus {
    match item {
        PayuRefundStatus::Succeeded => enums::RefundStatus::Success,
        PayuRefundStatus::Failed => enums::RefundStatus::Failure,
        PayuRefundStatus::Processing => enums::RefundStatus::Pending,
    }
}

impl PayuRefundStatus {
    /// Translate PayU's refund status into the canonical refund status.
    pub fn refund_status(self) -> (r: enums::RefundStatus)
        ensures
            r == payu_refund_status_of(self),
    {
        match self {
            PayuRefundStatus::Succeeded => enums::RefundStatus::Success,
            PayuRefundStatus::Failed => enums::RefundStatus::Failure,
            PayuRefundStatus::Processing => enums::RefundStatus::Pending,
        }
    }
}

/// The payment status a reply's status token stands for.
pub open spec fn payu_status_of_token(tok: Option<Seq<char>>) -> PayuPaymentStatus {
    match tok {
        Some(t) => if t == "succeeded"@ {
            PayuPaymentStatus::Succeeded
        } else if t == "failed"@ {
            PayuPaymentStatus::Failed
        } else {
            PayuPaymentStatus::Processing
        },
        None => PayuPaymentStatus::Processing,
    }
}

/// The refund status a reply's status token stands for.
pub open spec fn payu_refund_status_of_token(tok: Option<Seq<char>>) -> PayuRefundStatus {
    match tok {
        Some(t) => if t == "succeeded"@ {
            PayuRefundStatus::Succeeded
        } else if t == "failed"@ {
            PayuRefundStatus::Failed
        } else {
            PayuRefundStatus::Processing
        },
        None => PayuRefundStatus::Processing,
    }
}

/// Map a reply's status token to the payment status it stands for.
pub fn payment_status_from_token(tok: &Option<String>) -> (r: PayuPaymentStatus)
    ensures
        r == payu_status_of_token(opt_text_view(*tok)),
{
    match tok {
        Some(t) => {
            if str_eq(t.as_str(), "succeeded") {
                PayuPaymentStatus::Succeeded
            } else if str_eq(t.as_str(), "failed") {
                PayuPaymentStatus::Failed
            } else {
                PayuPaymentStatus::Processing
            }
        },
        None => PayuPaymentStatus::Processing,
    }
}

/// Map a reply's status token to the refund status it stands for.
pub fn refund_status_from_token(tok: &Option<String>) -> (r: PayuRefundStatus)
    ensures
        r == payu_refund_status_of_token(opt_text_view(*tok)),
{
    match tok {
        Some(t) => {
            if str_eq(t.as_str(), "succeeded") {
                PayuRefundStatus::Succeeded
            } else if str_eq(t.as_str(), "failed") {
                PayuRefundStatus::Failed
            } else {
                PayuRefundStatus::Processing
            }
        },
        None => PayuRefundStatus::Processing,
    }
}

/// Law: every value of PayU's payment-status vocabulary translates to
/// exactly one canonical attempt status, by the declared table.
pub proof fn lemma_payu_attempt_status_translation_total(s: PayuPaymentStatus)
    ensures
        s == PayuPaymentStatus::Succeeded ==> payu_attempt_status_of(s) == AttemptStatus::Charged,
        s == PayuPaymentStatus::Failed ==> payu_attempt_status_of(s) == AttemptStatus::Failure,
        s == PayuPaymentStatus::Processing ==> payu_attempt_status_of(s)
            == AttemptStatus::Authorizing,
{
}

/// Law: every value of PayU's refund-status vocabulary translates to
/// exactly one canonical refund status, by the declared table.
pub proof fn lemma_payu_refund_status_translation_total(s: PayuRefundStatus)
    ensures
        s == PayuRefundStatus::Succeeded ==> payu_refund_status_of(s)
            == enums::RefundStatus::Success,
        s == PayuRefundStatus::Failed ==> payu_refund_status_of(s) == enums::RefundStatus::Failure,
        s == PayuRefundStatus::Processing ==> payu_refund_status_of(s)
            == enums::RefundStatus::Pending,
{
}

/// Law: a reply whose status token is absent, or carries a word outside
/// the declared vocabulary, lands on the `Processing` default, and from
/// there on `Authorizing` for attempts and `Pending` for refunds.
pub proof fn lemma_payu_unknown_status_defaults(tok: Option<Seq<char>>)
    requires
        tok is None || (tok matches Some(t) && t != "succeeded"@ && t != "failed"@),
    ensures
        payu_status_of_token(tok) == PayuPaymentStatus::Processing,
        payu_refund_status_of_token(tok) == PayuRefundStatus::Processing,
        payu_attempt_status_of(payu_status_of_token(tok)) == AttemptStatus::Authorizing,
        payu_refund_status_of(payu_refund_status_of_token(tok)) == enums::RefundStatus::Pending,
{
}

/// Card section of PayU's payment request.
pub struct PayuCard {
    pub number: crate::masked::CardNumber,
    pub expiry_month: Masked,
    pub expiry_year: Masked,
    pub cvc: Masked,
    pub complete: bool,
}

/// PayU's authorize-request wire shape.
pub struct PayuPaymentsRequest {
    pub amount: i64,
    pub card: PayuCard,
}

impl PayuPaymentsRequest {
    /// Build the wire request from the canonical authorize envelope. `Ok`
    /// exactly when the payment method is a card; any other payment method
    /// is answered with `NotImplemented` for payment methods.
    pub fn try_from(item: &PaymentsAuthorizeRouterData) -> (r: Result<
        PayuPaymentsRequest,
        ConnectorError,
    >)
        ensures
            (item.request.payment_method_data matches PaymentMethodData::Card(_)) <==> r is Ok,
            r matches Ok(v) ==> {
                &&& item.request.payment_method_data matches PaymentMethodData::Card(c)
                    && v.card.number@ == c.card_number@ && v.card.expiry_month@ == c.card_exp_month@
                    && v.card.expiry_year@ == c.card_exp_year@ && v.card.cvc@ == c.card_cvc@
                &&& v.amount == item.request.amount
                &&& v.card.complete == (item.request.capture_method is None
                    || item.request.capture_method == Some(CaptureMethod::Automatic))
            },
            r matches Err(e) ==> e@ == ConnectorErrorView::NotImplemented(Feature::PaymentMethods),
    {
        match &item.request.payment_method_data {
            PaymentMethodData::Card(req_card) => {
                let card = PayuCard {
                    number: req_card.card_number.clone(),
                    expiry_month: req_card.card_exp_month.clone(),
                    expiry_year: req_card.card_exp_year.clone(),
                    cvc: req_card.card_cvc.clone(),
                    complete: item.request.is_auto_capture(),
                };
                Ok(PayuPaymentsRequest { amount: item.request.amount, card })
            },
            _ => Err(ConnectorError::NotImplemented(Feature::PaymentMethods)),
        }
    }

    /// Serialize the wire request into its canonical text; a secret field
    /// that cannot stand in a wire string is a request-encoding failure.
    pub fn encode(&self) -> (r: Result<String, ConnectorError>)
        ensures
            (clean_text(self.card.number@) && clean_text(self.card.expiry_month@) && clean_text(
                self.card.expiry_year@,
            ) && clean_text(self.card.cvc@)) <==> r is Ok,
            r matches Ok(t) ==> t@ == card_request_wire(
                self.amount as int,
                self.card.number@,
                self.card.expiry_month@,
                self.card.expiry_year@,
                self.card.cvc@,
                self.card.complete,
            ),
            r matches Err(e) ==> e@ == ConnectorErrorView::RequestEncodingFailed,
    {
        let number = self.card.number.expose();
        let em = self.card.expiry_month.expose();
        let ey = self.card.expiry_year.expose();
        let cvc = self.card.cvc.expose();
        if is_clean_str(number.as_str()) && is_clean_str(em.as_str()) && is_clean_str(cvc.as_str())
            && is_clean_str(ey.as_str()) {
            Ok(
                build_card_request_text(
                    self.amount,
                    number.as_str(),
                    em.as_str(),
                    ey.as_str(),
                    cvc.as_str(),
                    self.card.complete,
                ),
            )
        } else {
            Err(ConnectorError::RequestEncodingFailed)
        }
    }
}

/// PayU's capture-request wire shape: the transaction id and the amount, a
/// pure structural mapping.
pub struct PayuPaymentsCaptureRequest {
    pub transaction_id: String,
    pub amount: i64,
}

impl PayuPaymentsCaptureRequest {
    /// Build the capture wire request; a pure structural mapping that can
    /// not fail.
    pub fn try_from(item: &PaymentsCaptureRouterData) -> (r: Result<
        PayuPaymentsCaptureRequest,
        ConnectorError,
    >)
        ensures
            r matches Ok(v) && v.transaction_id@ == item.request.connector_transaction_id@
                && v.amount == item.request.amount_to_capture,
    {
        Ok(
            PayuPaymentsCaptureRequest {
                transaction_id: item.request.connector_transaction_id.clone(),
                amount: item.request.amount_to_capture,
            },
        )
    }

    /// Serialize the capture wire request into its canonical text; a
    /// transaction id that cannot stand in a wire string is a
    /// request-encoding failure.
    pub fn encode(&self) -> (r: Result<String, ConnectorError>)
        ensures
            clean_text(self.transaction_id@) <==> r is Ok,
            r matches Ok(t) ==> t@ == capture_request_wire(self.transaction_id@, self.amount as int),
            r matches Err(e) ==> e@ == ConnectorErrorView::RequestEncodingFailed,
    {
        if is_clean_str(self.transaction_id.as_str()) {
            Ok(build_capture_request_text(self.transaction_id.as_str(), self.amount))
        } else {
            Err(ConnectorError::RequestEncodingFailed)
        }
    }
}

/// PayU's refund-request wire shape: the amount alone.
pub struct PayuRefundRequest {
    pub amount: i64,
}

impl PayuRefundRequest {
    /// Build the refund wire request; a pure structural mapping that can
    /// not fail.
    pub fn try_from(item: &RefundsRouterData<Execute>) -> (r: Result<
        PayuRefundRequest,
        ConnectorError,
    >)
        ensures
            r matches Ok(v) && v.amount == item.request.refund_amount,
    {
        Ok(PayuRefundRequest { amount: item.request.refund_amount })
    }

    /// Serialize the refund wire request into its canonical text.
    pub fn encode(&self) -> (r: String)
        ensures
            r@ == amount_request_wire(self.amount as int),
    {
        build_amount_request_text(self.amount)
    }
}

/// PayU's payments-response wire shape, shared by the payment flows.
pub struct PayuPaymentsResponse {
    pub status: PayuPaymentStatus,
    pub id: String,
}

impl PayuPaymentsResponse {
    /// Decode a reply body into the payments-response wire shape. `Ok`
    /// exactly when the body passes the acceptance gate and reads as a
    /// payments-response object; any other body is a deserialization
    /// failure that keeps the bytes.
    pub fn decode(body: Vec<u8>) -> (r: Result<PayuPaymentsResponse, ConnectorError>)
        ensures
            (decodable_body(body@) && payments_response_read(body_text(body@)) is Some) <==> r
                is Ok,
            r matches Ok(v) ==> (payments_response_read(body_text(body@)) matches Some((tok, id))
                && v.id@ == id && v.status == payu_status_of_token(tok)),
            r matches Err(e) ==> e@ == ConnectorErrorView::ResponseDeserializationFailed(body@),
    {
        match body_to_text(&body) {
            Some(t) => match parse_payments_response(t.as_str()) {
                Some((tok, id)) => Ok(
                    PayuPaymentsResponse { status: payment_status_from_token(&tok), id },
                ),
                None => Err(ConnectorError::ResponseDeserializationFailed(body)),
            },
            None => Err(ConnectorError::ResponseDeserializationFailed(body)),
        }
    }
}

/// PayU's refund-response wire shape.
pub struct RefundResponse {
    pub id: String,
    pub status: PayuRefundStatus,
}

impl RefundResponse {
    /// Decode a reply body into the refund-response wire shape, under the
    /// same acceptance gate as the payments path.
    pub fn decode(body: Vec<u8>) -> (r: Result<RefundResponse, ConnectorError>)
        ensures
            (decodable_body(body@) && refund_response_read(body_text(body@)) is Some) <==> r
                is Ok,
            r matches Ok(v) ==> (refund_response_read(body_text(body@)) matches Some((id, tok))
                && v.id@ == id && v.status == payu_refund_status_of_token(tok)),
            r matches Err(e) ==> e@ == ConnectorErrorView::ResponseDeserializationFailed(body@),
    {
        match body_to_text(&body) {
            Some(t) => match parse_refund_response(t.as_str()) {
                Some((id, tok)) => Ok(RefundResponse { id, status: refund_status_from_token(&tok) }),
                None => Err(ConnectorError::ResponseDeserializationFailed(body)),
            },
            None => Err(ConnectorError::ResponseDeserializationFailed(body)),
        }
    }
}

/// PayU's status section of an error reply.
pub struct PayuErrorStatus {
    pub status_code: String,
    pub status_desc: String,
    pub code_literal: Option<String>,
}

/// PayU's error wire shape: one status object.
pub struct PayuErrorResponse {
    pub status: PayuErrorStatus,
}

impl PayuErrorResponse {
    /// Decode raw error bytes into PayU's error wire shape. `Ok` exactly
    /// when the bytes pass the acceptance gate and read as the declared
    /// error object; anything else is a deserialization failure that keeps
    /// the bytes.
    pub fn decode(body: Vec<u8>) -> (r: Result<PayuErrorResponse, ConnectorError>)
        ensures
            (decodable_body(body@) && status_error_read(body_text(body@)) is Some) <==> r is Ok,
            r matches Ok(v) ==> (status_error_read(body_text(body@)) matches Some(
                (code, desc, lit),
            ) && v.status.status_code@ == code && v.status.status_desc@ == desc && opt_text_view(
                v.status.code_literal,
            ) == lit),
            r matches Err(e) ==> e@ == ConnectorErrorView::ResponseDeserializationFailed(body@),
    {
        match body_to_text(&body) {
            Some(t) => match parse_status_error(t.as_str()) {
                Some((code, desc, lit)) => Ok(
                    PayuErrorResponse {
                        status: PayuErrorStatus {
                            status_code: code,
                            status_desc: desc,
                            code_literal: lit,
                        },
                    },
                ),
                None => Err(ConnectorError::ResponseDeserializationFailed(body)),
            },
            None => Err(ConnectorError::ResponseDeserializationFailed(body)),
        }
    }
}

/// Fold a decoded PayU payments response back into the envelope, exactly
/// as the per-flow response transformer contract asks: translated status,
/// taken-over transaction id, explicitly absent optional fields, and every
/// other envelope field carried over unchanged.
pub fn payments_router_data<F, Req>(
    item: ResponseRouterData<F, PayuPaymentsResponse, Req, PaymentsResponseData>,
) -> (r: Result<RouterData<F, Req, PaymentsResponseData>, ConnectorError>)
    ensures
        r is Ok,
        r matches Ok(v) ==> {
            &&& v.status == payu_attempt_status_of(item.response.status)
            &&& v.response matches Ok(PaymentsResponseData::TransactionResponse {
                resource_id: ResponseId::ConnectorTransactionId(id),
                redirection_data: None,
                mandate_reference: None,
                connector_metadata: None,
                network_txn_id: None,
                connector_response_reference_id: None,
                incremental_authorization_allowed: None,
            }) && id == item.response.id
            &&& same_call_identity(v, item.data)
        },
{
    let ResponseRouterData { response, data, http_code: _ } = item;
    Ok(
        RouterData {
            status: response.status.attempt_status(),
            response: Ok(
                PaymentsResponseData::TransactionResponse {
                    resource_id: ResponseId::ConnectorTransactionId(response.id),
                    redirection_data: None,
                    mandate_reference: None,
                    connector_metadata: None,
                    network_txn_id: None,
                    connector_response_reference_id: None,
                    incremental_authorization_allowed: None,
                },
            ),
            ..data
        },
    )
}

/// Fold a decoded PayU refund response back into the envelope: refund id
/// and translated refund status into the response slot, everything else
/// carried over, the attempt status included.
pub fn refunds_router_data<F>(
    item: ResponseRouterData<F, RefundResponse, RefundsData, RefundsResponseData>,
) -> (r: Result<RouterData<F, RefundsData, RefundsResponseData>, ConnectorError>)
    ensures
        r is Ok,
        r matches Ok(v) ==> {
            &&& v.response matches Ok(rr) && rr.connector_refund_id == item.response.id
                && rr.refund_status == payu_refund_status_of(item.response.status)
            &&& v.status == item.data.status
            &&& same_call_identity(v, item.data)
        },
{
    let ResponseRouterData { response, data, http_code: _ } = item;
    Ok(
        RouterData {
            response: Ok(
                RefundsResponseData {
                    connector_refund_id: response.id,
                    refund_status: response.status.refund_status(),
                },
            ),
            ..data
        },
    )
}

} // verus!
