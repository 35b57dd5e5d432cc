//! Transformers between the canonical flow payloads and Mifinity's wire
//! DTOs, and the translators from Mifinity's status vocabulary into the
//! canonical state sets.

use vstd::prelude::*;

use crate::enums;
use crate::enums::{AttemptStatus, CaptureMethod, Currency, CurrencyUnit};
use crate::errors::{ConnectorError, ConnectorErrorView, Feature};
use crate::masked::{CardNumber, Masked};
use crate::codec::{
    amount_request_wire, body_text, body_to_text, build_amount_request_text,
    build_card_request_text, card_request_wire, decodable_body, flat_error_read, parse_flat_error,
    parse_payments_response, parse_refund_response, payments_response_read, refund_response_read,
};
use crate::wire::{clean_text, is_clean_str, opt_text_view, str_eq};
use crate::types::{
    PaymentMethodData, PaymentsAuthorizeRouterData, PaymentsResponseData, ResponseId,
    ResponseRouterData, RouterData, ConnectorAuthType, Execute, RSync, RefundsData,
    RefundsResponseData, RefundsRouterData, same_call_identity,
};

verus! {

/// The envelope-amount pairing handed to every Mifinity transformer: the
/// amount in the shape this connector accepts beside the canonical data.
/// Currency-unit-aware rescaling would live here; today the amount passes
/// through unchanged.
pub struct MifinityRouterData<T> {
    pub amount: i64,
    pub router_data: T,
}

impl<T> MifinityRouterData<T> {
    /// Pair an amount with the canonical call data. A pure adaptation
    /// point: the amount is caller-validated and carried through unchanged.
    pub fn try_from(value: (&CurrencyUnit, Currency, i64, T)) -> (r: Result<
        MifinityRouterData<T>,
        ConnectorError,
    >)
        ensures
            r matches Ok(v) && v.amount == value.2 && v.router_data == value.3,
    {
        let (_currency_unit, _currency, amount, item) = value;
        Ok(MifinityRouterData { amount, router_data: item })
    }
}

/// Card section of Mifinity's payment request: the canonical card copied
/// verbatim, plus the auto-capture flag the connector calls `complete`.
pub struct MifinityCard {
    pub number: CardNumber,
    pub expiry_month: Masked,
    pub expiry_year: Masked,
    pub cvc: Masked,
    pub complete: bool,
}

/// Mifinity's authorize-request wire shape.
pub struct MifinityPaymentsRequest {
    pub amount: i64,
    pub card: MifinityCard,
}

impl MifinityPaymentsRequest {
    /// Build the wire request from the canonical authorize envelope. Only
    /// card payments are supported on this connector: the result is `Ok`
    /// exactly when the payment method is a card, and any other payment
    /// method is answered with `NotImplemented` for payment methods.
    pub fn try_from(item: &MifinityRouterData<&PaymentsAuthorizeRouterData>) -> (r: Result<
        MifinityPaymentsRequest,
        ConnectorError,
    >)
        ensures
            (item.router_data.request.payment_method_data matches PaymentMethodData::Card(_))
                <==> r is Ok,
            r matches Ok(v) ==> {
                &&& item.router_data.request.payment_method_data matches PaymentMethodData::Card(c)
                    && v.card.number@ == c.card_number@ && v.card.expiry_month@ == c.card_exp_month@
                    && v.card.expiry_year@ == c.card_exp_year@ && v.card.cvc@ == c.card_cvc@
                &&& v.amount == item.amount
                &&& v.card.complete == (item.router_data.request.capture_method is None
                    || item.router_data.request.capture_method == Some(CaptureMethod::Automatic))
            },
            r matches Err(e) ==> e@ == ConnectorErrorView::NotImplemented(Feature::PaymentMethods),
    {
        match &item.router_data.request.payment_method_data {
            PaymentMethodData::Card(req_card) => {
                let card = MifinityCard {
                    number: req_card.card_number.clone(),
                    expiry_month: req_card.card_exp_month.clone(),
                    expiry_year: req_card.card_exp_year.clone(),
                    cvc: req_card.card_cvc.clone(),
                    complete: item.router_data.request.is_auto_capture(),
                };
                Ok(MifinityPaymentsRequest { amount: item.amount, card })
            },
            _ => Err(ConnectorError::NotImplemented(Feature::PaymentMethods)),
        }
    }
}

/// Mifinity's credential shape: a single API key sent in a header.
pub struct MifinityAuthType {
    pub api_key: Masked,
}

impl MifinityAuthType {
    /// Project the stored credential variant onto what Mifinity
    /// understands. `Ok` exactly for a `HeaderKey`; every other variant is
    /// a credential mismatch.
    pub fn try_from(auth_type: &ConnectorAuthType) -> (r: Result<MifinityAuthType, ConnectorError>)
        ensures
            (auth_type matches ConnectorAuthType::HeaderKey { .. }) <==> r is Ok,
            r matches Ok(v) ==> auth_type matches ConnectorAuthType::HeaderKey { api_key }
                && v.api_key@ == api_key@,
            r matches Err(e) ==> e@ == ConnectorErrorView::FailedToObtainAuthType,
    {
        match auth_type {
            ConnectorAuthType::HeaderKey { api_key } => Ok(
                MifinityAuthType { api_key: api_key.clone() },
            ),
            _ => Err(ConnectorError::FailedToObtainAuthType),
        }
    }
}

/// Mifinity's payment-status vocabulary. `Processing` is the declared
/// default: a reply whose status field is absent, or carries a value this
/// enumeration does not know, lands there instead of failing the call.
#[derive(Clone, Copy, Debug, PartialEq, Eq, Structural)]
pub enum MifinityPaymentStatus {
    Succeeded,
    Failed,
    Processing,
}

/// The canonical attempt status each Mifinity payment status translates to.
pub open spec fn attempt_status_of(item: MifinityPaymentStatus) -> AttemptStatus {
    match item {
        MifinityPaymentStatus::Succeeded => AttemptStatus::Charged,
        MifinityPaymentStatus::Failed => AttemptStatus::Failure,
        MifinityPaymentStatus::Processing => AttemptStatus::Authorizing,
    }
}

impl AttemptStatus {
    /// Translate Mifinity's payment status into the canonical attempt
    /// status.
    pub fn from(item: MifinityPaymentStatus) -> (r: AttemptStatus)
        ensures
            r == attempt_status_of(item),
    {
        match item {
            MifinityPaymentStatus::Succeeded => AttemptStatus::Charged,
            MifinityPaymentStatus::Failed => AttemptStatus::Failure,
            MifinityPaymentStatus::Processing => AttemptStatus::Authorizing,
        }
    }
}

/// Mifinity's payments-response wire shape.
#[derive(Debug)]
pub struct MifinityPaymentsResponse {
    pub status: MifinityPaymentStatus,
    pub id: String,
}

impl<F, Req> RouterData<F, Req, PaymentsResponseData> {
    /// Fold a decoded Mifinity payments response back into the envelope:
    /// the attempt status is translated, the transaction id is taken over,
    /// the connector-dependent optional fields are explicitly absent, and
    /// every other envelope field is carried over unchanged.
    pub fn try_from(
        item: ResponseRouterData<F, MifinityPaymentsResponse, Req, PaymentsResponseData>,
    ) -> (r: Result<RouterData<F, Req, PaymentsResponseData>, ConnectorError>)
        ensures
            r is Ok,
            r matches Ok(v) ==> {
                &&& v.status == attempt_status_of(item.response.status)
                &&& v.response matches Ok(PaymentsResponseData::TransactionResponse {
                    resource_id: ResponseId::ConnectorTransactionId(id),
                    redirection_data: None,
                    mandate_reference: None,
                    connector_metadata: None,
                    network_txn_id: None,
                    connector_response_reference_id: None,
                    incremental_authorization_allowed: None,
                }) && id == item.response.id
                &&& same_call_identity(v, item.data)
            },
    {
        let ResponseRouterData { response, data, http_code: _ } = item;
        Ok(
            RouterData {
                status: AttemptStatus::from(response.status),
                response: Ok(
                    PaymentsResponseData::TransactionResponse {
                        resource_id: ResponseId::ConnectorTransactionId(response.id),
                        redirection_data: None,
                        mandate_reference: None,
                        connector_metadata: None,
                        network_txn_id: None,
                        connector_response_reference_id: None,
                        incremental_authorization_allowed: None,
                    },
                ),
                ..data
            },
        )
    }
}

/// Mifinity's refund-request wire shape: the amount alone.
pub struct MifinityRefundRequest {
    pub amount: i64,
}

impl MifinityRefundRequest {
    /// Build the refund wire request: a pure structural mapping that can
    /// not fail.
    pub fn try_from<F>(item: &MifinityRouterData<&RefundsRouterData<F>>) -> (r: Result<
        MifinityRefundRequest,
        ConnectorError,
    >)
        ensures
            r matches Ok(v) && v.amount == item.amount,
    {
        Ok(MifinityRefundRequest { amount: item.amount })
    }
}

/// Mifinity's refund-status vocabulary, with the same `Processing` default
/// as the payment statuses.
#[derive(Clone, Copy, Debug, PartialEq, Eq, Structural)]
pub enum RefundStatus {
    Succeeded,
    Failed,
    Processing,
}

/// The canonical refund status each Mifinity refund status translates to.
pub open spec fn refund_status_of(item: RefundStatus) -> enums::RefundStatus {
    match item {
        RefundStatus::Succeeded => enums::RefundStatus::Success,
        RefundStatus::Failed => enums::RefundStatus::Failure,
        RefundStatus::Processing => enums::RefundStatus::Pending,
    }
}

impl enums::RefundStatus {
    /// Translate Mifinity's refund status into the canonical refund status.
    pub fn from(item: RefundStatus) -> (r: enums::RefundStatus)
        ensures
            r == refund_status_of(item),
    {
        match item {
            RefundStatus::Succeeded => enums::RefundStatus::Success,
            RefundStatus::Failed => enums::RefundStatus::Failure,
            RefundStatus::Processing => enums::RefundStatus::Pending,
        }
    }
}

/// Mifinity's refund-response wire shape.
#[derive(Debug)]
pub struct RefundResponse {
    pub id: String,
    pub status: RefundStatus,
}

impl RouterData<Execute, RefundsData, RefundsResponseData> {
    /// Fold a decoded refund-execute response back into the envelope: the
    /// refund id and the translated refund status fill the response slot,
    /// and everything else, the attempt status included, is carried over.
    pub fn try_from(
        item: ResponseRouterData<Execute, RefundResponse, RefundsData, RefundsResponseData>,
    ) -> (r: Result<RouterData<Execute, RefundsData, RefundsResponseData>, ConnectorError>)
        ensures
            r is Ok,
            r matches Ok(v) ==> {
                &&& v.response matches Ok(rr) && rr.connector_refund_id == item.response.id
                    && rr.refund_status == refund_status_of(item.response.status)
                &&& v.status == item.data.status
                &&& same_call_identity(v, item.data)
            },
    {
        let ResponseRouterData { response, data, http_code: _ } = item;
        Ok(
            RouterData {
                response: Ok(
                    RefundsResponseData {
                        connector_refund_id: response.id,
                        refund_status: enums::RefundStatus::from(response.status),
                    },
                ),
                ..data
            },
        )
    }
}

impl RouterData<RSync, RefundsData, RefundsResponseData> {
    /// Fold a decoded refund-sync response back into the envelope, exactly
    /// as the refund-execute path does.
    pub fn try_from(
        item: ResponseRouterData<RSync, RefundResponse, RefundsData, RefundsResponseData>,
    ) -> (r: Result<RouterData<RSync, RefundsData, RefundsResponseData>, ConnectorError>)
        ensures
            r is Ok,
            r matches Ok(v) ==> {
                &&& v.response matches Ok(rr) && rr.connector_refund_id == item.response.id
                    && rr.refund_status == refund_status_of(item.response.status)
                &&& v.status == item.data.status
                &&& same_call_identity(v, item.data)
            },
    {
        let ResponseRouterData { response, data, http_code: _ } = item;
        Ok(
            RouterData {
                response: Ok(
                    RefundsResponseData {
                        connector_refund_id: response.id,
                        refund_status: enums::RefundStatus::from(response.status),
                    },
                ),
                ..data
            },
        )
    }
}

/// Mifinity's error wire shape, normalized from raw error bytes.
#[derive(Debug)]
pub struct MifinityErrorResponse {
    pub status_code: u16,
    pub code: String,
    pub message: String,
    pub reason: Option<String>,
}

/// The payment status a reply's status token stands for: the two known
/// words map to their statuses, everything else, the absent token
/// included, falls to the `Processing` default.
pub open spec fn mifinity_status_of_token(tok: Option<Seq<char>>) -> MifinityPaymentStatus {
    match tok {
        Some(t) => if t == "succeeded"@ {
            MifinityPaymentStatus::Succeeded
        } else if t == "failed"@ {
            MifinityPaymentStatus::Failed
        } else {
            MifinityPaymentStatus::Processing
        },
        None => MifinityPaymentStatus::Processing,
    }
}

/// The refund status a reply's status token stands for, with the same
/// `Processing` default.
pub open spec fn mifinity_refund_status_of_token(tok: Option<Seq<char>>) -> RefundStatus {
    match tok {
        Some(t) => if t == "succeeded"@ {
            RefundStatus::Succeeded
        } else if t == "failed"@ {
            RefundStatus::Failed
        } else {
            RefundStatus::Processing
        },
        None => RefundStatus::Processing,
    }
}

/// Map a reply's status token to the payment status it stands for.
pub fn payment_status_from_token(tok: &Option<String>) -> (r: MifinityPaymentStatus)
    ensures
        r == mifinity_status_of_token(opt_text_view(*tok)),
{
    match tok {
        Some(t) => {
            if str_eq(t.as_str(), "succeeded") {
                MifinityPaymentStatus::Succeeded
            } else if str_eq(t.as_str(), "failed") {
                MifinityPaymentStatus::Failed
            } else {
                MifinityPaymentStatus::Processing
            }
        },
        None => MifinityPaymentStatus::Processing,
    }
}

/// Map a reply's status token to the refund status it stands for.
pub fn refund_status_from_token(tok: &Option<String>) -> (r: RefundStatus)
    ensures
        r == mifinity_refund_status_of_token(opt_text_view(*tok)),
{
    match tok {
        Some(t) => {
            if str_eq(t.as_str(), "succeeded") {
                RefundStatus::Succeeded
            } else if str_eq(t.as_str(), "failed") {
                RefundStatus::Failed
            } else {
                RefundStatus::Processing
            }
        },
        None => RefundStatus::Processing,
    }
}

impl MifinityPaymentsResponse {
    /// Decode a reply body into the payments-response wire shape. `Ok`
    /// exactly when the body passes the acceptance gate and reads as a
    /// payments-response object; any other body is a deserialization
    /// failure that keeps the bytes.
    pub fn decode(body: Vec<u8>) -> (r: Result<MifinityPaymentsResponse, ConnectorError>)
        ensures
            (decodable_body(body@) && payments_response_read(body_text(body@)) is Some) <==> r
                is Ok,
            r matches Ok(v) ==> (payments_response_read(body_text(body@)) matches Some((tok, id))
                && v.id@ == id && v.status == mifinity_status_of_token(tok)),
            r matches Err(e) ==> e@ == ConnectorErrorView::ResponseDeserializationFailed(body@),
    {
        match body_to_text(&body) {
            Some(t) => match parse_payments_response(t.as_str()) {
                Some((tok, id)) => Ok(
                    MifinityPaymentsResponse { status: payment_status_from_token(&tok), id },
                ),
                None => Err(ConnectorError::ResponseDeserializationFailed(body)),
            },
            None => Err(ConnectorError::ResponseDeserializationFailed(body)),
        }
    }
}

impl RefundResponse {
    /// Decode a reply body into the refund-response wire shape, under the
    /// same acceptance gate as the payments path.
    pub fn decode(body: Vec<u8>) -> (r: Result<RefundResponse, ConnectorError>)
        ensures
            (decodable_body(body@) && refund_response_read(body_text(body@)) is Some) <==> r
                is Ok,
            r matches Ok(v) ==> (refund_response_read(body_text(body@)) matches Some((id, tok))
                && v.id@ == id && v.status == mifinity_refund_status_of_token(tok)),
            r matches Err(e) ==> e@ == ConnectorErrorView::ResponseDeserializationFailed(body@),
    {
        match body_to_text(&body) {
            Some(t) => match parse_refund_response(t.as_str()) {
                Some((id, tok)) => Ok(RefundResponse { id, status: refund_status_from_token(&tok) }),
                None => Err(ConnectorError::ResponseDeserializationFailed(body)),
            },
            None => Err(ConnectorError::ResponseDeserializationFailed(body)),
        }
    }
}

impl MifinityErrorResponse {
    /// Decode raw error bytes into Mifinity's error wire shape. `Ok`
    /// exactly when the bytes pass the acceptance gate and read as the
    /// declared error object; anything else is a deserialization failure
    /// that keeps the bytes.
    pub fn decode(body: Vec<u8>) -> (r: Result<MifinityErrorResponse, ConnectorError>)
        ensures
            (decodable_body(body@) && flat_error_read(body_text(body@)) is Some) <==> r is Ok,
            r matches Ok(v) ==> (flat_error_read(body_text(body@)) matches Some(
                (sc, code, msg, rsn),
            ) && v.status_code == sc && v.code@ == code && v.message@ == msg && (match (
                v.reason,
                rsn,
            ) {
                (Some(a), Some(b)) => a@ == b,
                (None, None) => true,
                _ => false,
            })),
            r matches Err(e) ==> e@ == ConnectorErrorView::ResponseDeserializationFailed(body@),
    {
        match body_to_text(&body) {
            Some(t) => match parse_flat_error(t.as_str()) {
                Some((sc, code, msg, rsn)) => Ok(
                    MifinityErrorResponse { status_code: sc, code, message: msg, reason: rsn },
                ),
                None => Err(ConnectorError::ResponseDeserializationFailed(body)),
            },
            None => Err(ConnectorError::ResponseDeserializationFailed(body)),
        }
    }
}

impl MifinityPaymentsRequest {
    /// Serialize the wire request into its canonical text. The secret
    /// card fields are opened here and nowhere else; a field that cannot
    /// stand in a wire string is a request-encoding failure.
    pub fn encode(&self) -> (r: Result<String, ConnectorError>)
        ensures
            (clean_text(self.card.number@) && clean_text(self.card.expiry_month@) && clean_text(
                self.card.expiry_year@,
            ) && clean_text(self.card.cvc@)) <==> r is Ok,
            r matches Ok(t) ==> t@ == card_request_wire(
                self.amount as int,
                self.card.number@,
                self.card.expiry_month@,
                self.card.expiry_year@,
                self.card.cvc@,
                self.card.complete,
            ),
            r matches Err(e) ==> e@ == ConnectorErrorView::RequestEncodingFailed,
    {
        let number = self.card.number.expose();
        let em = self.card.expiry_month.expose();
        let ey = self.card.expiry_year.expose();
        let cvc = self.card.cvc.expose();
        if is_clean_str(number.as_str()) && is_clean_str(em.as_str()) && is_clean_str(cvc.as_str())
            && is_clean_str(ey.as_str()) {
            Ok(
                build_card_request_text(
                    self.amount,
                    number.as_str(),
                    em.as_str(),
                    ey.as_str(),
                    cvc.as_str(),
                    self.card.complete,
                ),
            )
        } else {
            Err(ConnectorError::RequestEncodingFailed)
        }
    }
}

impl MifinityRefundRequest {
    /// Serialize the refund wire request into its canonical text; an
    /// amount always frames, so this cannot fail.
    pub fn encode(&self) -> (r: String)
        ensures
            r@ == amount_request_wire(self.amount as int),
    {
        build_amount_request_text(self.amount)
    }
}

/// Law: every value of Mifinity's payment-status vocabulary translates to
/// exactly one canonical attempt status, by the declared table.
pub proof fn lemma_attempt_status_translation_total(s: MifinityPaymentStatus)
    ensures
        s == MifinityPaymentStatus::Succeeded ==> attempt_status_of(s) == AttemptStatus::Charged,
        s == MifinityPaymentStatus::Failed ==> attempt_status_of(s) == AttemptStatus::Failure,
        s == MifinityPaymentStatus::Processing ==> attempt_status_of(s)
            == AttemptStatus::Authorizing,
{
}

/// Law: every value of Mifinity's refund-status vocabulary translates to
/// exactly one canonical refund status, by the declared table.
pub proof fn lemma_refund_status_translation_total(s: RefundStatus)
    ensures
        s == RefundStatus::Succeeded ==> refund_status_of(s) == enums::RefundStatus::Success,
        s == RefundStatus::Failed ==> refund_status_of(s) == enums::RefundStatus::Failure,
        s == RefundStatus::Processing ==> refund_status_of(s) == enums::RefundStatus::Pending,
{
}

/// Law: a reply whose status token is absent, or carries a word outside
/// the declared vocabulary, lands on the `Processing` default, and from
/// there on `Authorizing` for attempts and `Pending` for refunds — upstream
/// API evolution degrades to "still in flight", never to a hard error.
pub proof fn lemma_unknown_status_defaults(tok: Option<Seq<char>>)
    requires
        tok is None || (tok matches Some(t) && t != "succeeded"@ && t != "failed"@),
    ensures
        mifinity_status_of_token(tok) == MifinityPaymentStatus::Processing,
        mifinity_refund_status_of_token(tok) == RefundStatus::Processing,
        attempt_status_of(mifinity_status_of_token(tok)) == AttemptStatus::Authorizing,
        refund_status_of(mifinity_refund_status_of_token(tok)) == enums::RefundStatus::Pending,
{
}

} // verus!
