//! The PayU connector: its wire DTOs and its implementation of the
//! connector integration contract, one impl per flow.

pub mod transformers;

use vstd::prelude::*;
use vstd::string::StringExecFns;

use crate::codec::{
    body_text, decodable_body, payments_response_read, refund_response_read, status_error_read,
};
use crate::errors::{ConnectorError, ConnectorErrorView, ErrorResponse, Feature};
use crate::headers;
use crate::services::{
    body_view, headers_view, CallConnectorAction, Connectors, ConnectorCommon, ConnectorCommonExt,
    ConnectorIntegration, ConnectorRedirectResponse, IncomingWebhook, IncomingWebhookEvent, Method,
    Payment, PaymentAuthorize, PaymentCapture, PaymentSession, PaymentSync, PaymentVoid, PreVerify,
    Refund, RefundExecute, RefundSync, Request, RequestBuilder,
};
use crate::types::{
    same_call_identity, Authorize, Capture, ConnectorAuthType, Execute, PSync,
    PaymentsAuthorizeData, PaymentsCancelData, PaymentsCaptureData, PaymentsResponseData,
    PaymentsSessionData, PaymentsSyncData, RSync, RefundsData, RefundsResponseData, Response,
    ResponseId, ResponseRouterData, RouterData, Session, Verify, VerifyRequestData, Void,
};
use crate::types::PaymentMethodData;
use crate::enums::CaptureMethod;
use crate::codec::{amount_request_wire, capture_request_wire, card_request_wire};
use crate::wire::{clean_text, opt_text_view};
use transformers as payu;

verus! {

/// The PayU connector.
#[derive(Clone, Copy, Debug)]
pub struct Payu;

/// The headers of every PayU call: the content type, then the API key the
/// auth resolver extracts; a credential mismatch fails the header build.
pub open spec fn payu_headers_of<F, Req, Res>(req: &RouterData<F, Req, Res>) -> Result<
    Seq<(Seq<char>, Seq<char>)>,
    ConnectorErrorView,
> {
    match req.connector_auth_type {
        ConnectorAuthType::HeaderKey { api_key } => Ok(
            seq![("Content-Type"@, "application/json"@), ("Authorization"@, api_key@)],
        ),
        _ => Err(ConnectorErrorView::FailedToObtainAuthType),
    }
}

/// The exact error-normalization contract of PayU: error bytes that are
/// accepted and read as PayU's error object normalize into the canonical
/// error response, the status code as the code, the description as the
/// message, and the code literal as the optional reason; any other bytes
/// are a deserialization failure that keeps them.
pub open spec fn payu_error_ensures(res: Seq<u8>, r: Result<ErrorResponse, ConnectorError>) -> bool {
    (match status_error_read(body_text(res)) {
        Some((code, desc, lit)) => decodable_body(res) ==> (r matches Ok(er) && er.code@ == code
            && er.message@ == desc && opt_text_view(er.reason) == lit),
        None => true,
    }) && (!(decodable_body(res) && status_error_read(body_text(res)) is Some) ==> (r matches Err(
        e,
    ) && e@ == ConnectorErrorView::ResponseDeserializationFailed(res)))
}

/// The exact reply-folding contract of PayU's payment flows: a body that
/// is accepted and reads as a payments response updates the envelope
/// through the status translator; any other body is a deserialization
/// failure that keeps the bytes.
pub open spec fn payu_payments_handle_ensures<F, Req>(
    data: RouterData<F, Req, PaymentsResponseData>,
    res: Response,
    r: Result<RouterData<F, Req, PaymentsResponseData>, ConnectorError>,
) -> bool {
    (match payments_response_read(body_text(res.response@)) {
        Some((tok, id)) => decodable_body(res.response@) ==> (r matches Ok(v) && {
            &&& v.status == payu::payu_attempt_status_of(payu::payu_status_of_token(tok))
            &&& v.response matches Ok(PaymentsResponseData::TransactionResponse {
                resource_id: ResponseId::ConnectorTransactionId(rid),
                redirection_data: None,
                mandate_reference: None,
                connector_metadata: None,
                network_txn_id: None,
                connector_response_reference_id: None,
                incremental_authorization_allowed: None,
            }) && rid@ == id
            &&& same_call_identity(v, data)
        }),
        None => true,
    }) && (!(decodable_body(res.response@) && payments_response_read(body_text(res.response@))
        is Some) ==> (r matches Err(e) && e@ == ConnectorErrorView::ResponseDeserializationFailed(
        res.response@,
    )))
}

/// The exact reply-folding contract of PayU's refund flows.
pub open spec fn payu_refunds_handle_ensures<F>(
    data: RouterData<F, RefundsData, RefundsResponseData>,
    res: Response,
    r: Result<RouterData<F, RefundsData, RefundsResponseData>, ConnectorError>,
) -> bool {
    (match refund_response_read(body_text(res.response@)) {
        Some((id, tok)) => decodable_body(res.response@) ==> (r matches Ok(v) && {
            &&& v.response matches Ok(rr) && rr.connector_refund_id@ == id && rr.refund_status
                == payu::payu_refund_status_of(payu::payu_refund_status_of_token(tok))
            &&& v.status == data.status
            &&& same_call_identity(v, data)
        }),
        None => true,
    }) && (!(decodable_body(res.response@) && refund_response_read(body_text(res.response@))
        is Some) ==> (r matches Err(e) && e@ == ConnectorErrorView::ResponseDeserializationFailed(
        res.response@,
    )))
}

impl ConnectorCommon for Payu {
    open spec fn id_spec(&self) -> Seq<char> {
        "payu"@
    }

    open spec fn content_type_spec(&self) -> Seq<char> {
        "application/json"@
    }

    open spec fn base_url_spec(&self, connectors: &Connectors) -> Seq<char> {
        connectors.payu.base_url@
    }

    open spec fn auth_header_ensures(
        &self,
        auth_type: &ConnectorAuthType,
        r: Result<Vec<(String, String)>, ConnectorError>,
    ) -> bool {
        match auth_type {
            ConnectorAuthType::HeaderKey { api_key } => r matches Ok(h) && headers_view(h@)
                == seq![("Authorization"@, api_key@)],
            _ => r matches Err(e) && e@ == ConnectorErrorView::FailedToObtainAuthType,
        }
    }

    open spec fn error_response_ensures(
        &self,
        res: Seq<u8>,
        r: Result<ErrorResponse, ConnectorError>,
    ) -> bool {
        payu_error_ensures(res, r)
    }

    fn id(&self) -> (r: &'static str) {
        "payu"
    }

    fn common_get_content_type(&self) -> (r: &'static str) {
        "application/json"
    }

    fn base_url<'a>(&self, connectors: &'a Connectors) -> (r: &'a str) {
        connectors.payu.base_url.as_str()
    }

    fn get_auth_header(&self, auth_type: &ConnectorAuthType) -> (r: Result<
        Vec<(String, String)>,
        ConnectorError,
    >) {
        let auth = payu::PayuAuthType::try_from(auth_type)?;
        let mut h: Vec<(String, String)> = Vec::new();
        h.push((headers::authorization().to_owned(), auth.api_key.expose().clone()));
        proof {
            assert(headers_view(h@) =~= seq![("Authorization"@, auth.api_key@)]);
        }
        Ok(h)
    }

    /// Normalize raw error bytes into the canonical error response: PayU's
    /// status code becomes the code, its description the message, and its
    /// code literal the optional reason.
    fn build_error_response(&self, res: Vec<u8>) -> (r: Result<ErrorResponse, ConnectorError>) {
        let response = payu::PayuErrorResponse::decode(res)?;
        Ok(
            ErrorResponse {
                code: response.status.status_code,
                message: response.status.status_desc,
                reason: response.status.code_literal,
            },
        )
    }
}

impl<Flow, Req, Res> ConnectorCommonExt<Flow, Req, Res> for Payu {
    open spec fn build_headers_ensures(
        &self,
        req: &RouterData<Flow, Req, Res>,
        connectors: &Connectors,
        r: Result<Vec<(String, String)>, ConnectorError>,
    ) -> bool {
        match (r, payu_headers_of(req)) {
            (Ok(h), Ok(sh)) => headers_view(h@) == sh,
            (Err(e), Err(se)) => e@ == se,
            _ => false,
        }
    }

    fn build_headers(&self, req: &RouterData<Flow, Req, Res>, connectors: &Connectors) -> (r:
        Result<Vec<(String, String)>, ConnectorError>) {
        let mut header: Vec<(String, String)> = Vec::new();
        header.push((headers::content_type().to_owned(), self.common_get_content_type().to_owned()));
        let ghost head0 = header@;
        let mut api_key = self.get_auth_header(&req.connector_auth_type)?;
        let ghost akv = api_key@;
        header.append(&mut api_key);
        proof {
            assert(header@ == head0 + akv);
            if payu_headers_of(req) is Ok {
                let sh = payu_headers_of(req)->Ok_0;
                assert(headers_view(akv).len() == akv.len());
                assert(akv.len() == 1);
                assert(head0.len() == 1);
                assert(header@.len() == 2);
                assert(header@[1] == akv[0]);
                assert(headers_view(akv)[0] == sh[1]);
                assert(headers_view(header@)[0] == sh[0]);
                assert(headers_view(header@)[1] == headers_view(akv)[0]);
                assert(headers_view(header@) =~= sh);
            }
        }
        Ok(header)
    }
}

impl Payment for Payu {

}

impl PreVerify for Payu {

}

impl ConnectorIntegration<Verify, VerifyRequestData, PaymentsResponseData> for Payu {
    open spec fn flow_content_type_spec(&self) -> Seq<char> {
        "application/json"@
    }

    open spec fn error_ensures(&self, res: Seq<u8>, r: Result<ErrorResponse, ConnectorError>) -> bool {
        payu_error_ensures(res, r)
    }

    open spec fn method_spec(&self) -> Method {
        Method::Get
    }

    open spec fn headers_spec(
        &self,
        req: &RouterData<Verify, VerifyRequestData, PaymentsResponseData>,
        connectors: &Connectors,
    ) -> Result<Seq<(Seq<char>, Seq<char>)>, ConnectorErrorView> {
        Err(ConnectorErrorView::NotImplemented(Feature::VerifyFlow))
    }

    open spec fn url_spec(
        &self,
        req: &RouterData<Verify, VerifyRequestData, PaymentsResponseData>,
        connectors: &Connectors,
    ) -> Result<Seq<char>, ConnectorErrorView> {
        Err(ConnectorErrorView::NotImplemented(Feature::VerifyFlow))
    }

    open spec fn body_spec(
        &self,
        req: &RouterData<Verify, VerifyRequestData, PaymentsResponseData>,
    ) -> Result<Option<Seq<char>>, ConnectorErrorView> {
        Err(ConnectorErrorView::NotImplemented(Feature::VerifyFlow))
    }

    open spec fn handle_ensures(
        &self,
        data: RouterData<Verify, VerifyRequestData, PaymentsResponseData>,
        res: Response,
        r: Result<RouterData<Verify, VerifyRequestData, PaymentsResponseData>, ConnectorError>,
    ) -> bool {
        r matches Err(e) && e@ == ConnectorErrorView::NotImplemented(Feature::VerifyFlow)
    }

    fn get_headers(
        &self,
        req: &RouterData<Verify, VerifyRequestData, PaymentsResponseData>,
        connectors: &Connectors,
    ) -> (r: Result<Vec<(String, String)>, ConnectorError>) {
        Err(ConnectorError::NotImplemented(Feature::VerifyFlow))
    }

    fn get_content_type(&self) -> (r: &'static str) {
        self.common_get_content_type()
    }

    fn get_url(
        &self,
        req: &RouterData<Verify, VerifyRequestData, PaymentsResponseData>,
        connectors: &Connectors,
    ) -> (r: Result<String, ConnectorError>) {
        Err(ConnectorError::NotImplemented(Feature::VerifyFlow))
    }

    fn get_request_body(
        &self,
        req: &RouterData<Verify, VerifyRequestData, PaymentsResponseData>,
    ) -> (r: Result<Option<String>, ConnectorError>) {
        Err(ConnectorError::NotImplemented(Feature::VerifyFlow))
    }

    fn build_request(
        &self,
        req: &RouterData<Verify, VerifyRequestData, PaymentsResponseData>,
        connectors: &Connectors,
    ) -> (r: Result<Option<Request>, ConnectorError>) {
        Err(ConnectorError::NotImplemented(Feature::VerifyFlow))
    }

    fn handle_response(
        &self,
        data: RouterData<Verify, VerifyRequestData, PaymentsResponseData>,
        res: Response,
    ) -> (r: Result<RouterData<Verify, VerifyRequestData, PaymentsResponseData>, ConnectorError>) {
        Err(ConnectorError::NotImplemented(Feature::VerifyFlow))
    }

    fn get_error_response(&self, res: Vec<u8>) -> (r: Result<ErrorResponse, ConnectorError>) {
        self.build_error_response(res)
    }
}

impl PaymentSession for Payu {

}

impl ConnectorIntegration<Session, PaymentsSessionData, PaymentsResponseData> for Payu {
    open spec fn flow_content_type_spec(&self) -> Seq<char> {
        "application/json"@
    }

    open spec fn error_ensures(&self, res: Seq<u8>, r: Result<ErrorResponse, ConnectorError>) -> bool {
        payu_error_ensures(res, r)
    }

    open spec fn method_spec(&self) -> Method {
        Method::Get
    }

    open spec fn headers_spec(
        &self,
        req: &RouterData<Session, PaymentsSessionData, PaymentsResponseData>,
        connectors: &Connectors,
    ) -> Result<Seq<(Seq<char>, Seq<char>)>, ConnectorErrorView> {
        Err(ConnectorErrorView::NotImplemented(Feature::SessionFlow))
    }

    open spec fn url_spec(
        &self,
        req: &RouterData<Session, PaymentsSessionData, PaymentsResponseData>,
        connectors: &Connectors,
    ) -> Result<Seq<char>, ConnectorErrorView> {
        Err(ConnectorErrorView::NotImplemented(Feature::SessionFlow))
    }

    open spec fn body_spec(
        &self,
        req: &RouterData<Session, PaymentsSessionData, PaymentsResponseData>,
    ) -> Result<Option<Seq<char>>, ConnectorErrorView> {
        Err(ConnectorErrorView::NotImplemented(Feature::SessionFlow))
    }

    open spec fn handle_ensures(
        &self,
        data: RouterData<Session, PaymentsSessionData, PaymentsResponseData>,
        res: Response,
        r: Result<RouterData<Session, PaymentsSessionData, PaymentsResponseData>, ConnectorError>,
    ) -> bool {
        r matches Err(e) && e@ == ConnectorErrorView::NotImplemented(Feature::SessionFlow)
    }

    fn get_headers(
        &self,
        req: &RouterData<Session, PaymentsSessionData, PaymentsResponseData>,
        connectors: &Connectors,
    ) -> (r: Result<Vec<(String, String)>, ConnectorError>) {
        Err(ConnectorError::NotImplemented(Feature::SessionFlow))
    }

    fn get_content_type(&self) -> (r: &'static str) {
        self.common_get_content_type()
    }

    fn get_url(
        &self,
        req: &RouterData<Session, PaymentsSessionData, PaymentsResponseData>,
        connectors: &Connectors,
    ) -> (r: Result<String, ConnectorError>) {
        Err(ConnectorError::NotImplemented(Feature::SessionFlow))
    }

    fn get_request_body(
        &self,
        req: &RouterData<Session, PaymentsSessionData, PaymentsResponseData>,
    ) -> (r: Result<Option<String>, ConnectorError>) {
        Err(ConnectorError::NotImplemented(Feature::SessionFlow))
    }

    fn build_request(
        &self,
        req: &RouterData<Session, PaymentsSessionData, PaymentsResponseData>,
        connectors: &Connectors,
    ) -> (r: Result<Option<Request>, ConnectorError>) {
        Err(ConnectorError::NotImplemented(Feature::SessionFlow))
    }

    fn handle_response(
        &self,
        data: RouterData<Session, PaymentsSessionData, PaymentsResponseData>,
        res: Response,
    ) -> (r: Result<RouterData<Session, PaymentsSessionData, PaymentsResponseData>, ConnectorError>) {
        Err(ConnectorError::NotImplemented(Feature::SessionFlow))
    }

    fn get_error_response(&self, res: Vec<u8>) -> (r: Result<ErrorResponse, ConnectorError>) {
        self.build_error_response(res)
    }
}

impl PaymentVoid for Payu {

}

impl ConnectorIntegration<Void, PaymentsCancelData, PaymentsResponseData> for Payu {
    open spec fn flow_content_type_spec(&self) -> Seq<char> {
        "application/json"@
    }

    open spec fn error_ensures(&self, res: Seq<u8>, r: Result<ErrorResponse, ConnectorError>) -> bool {
        payu_error_ensures(res, r)
    }

    open spec fn method_spec(&self) -> Method {
        Method::Delete
    }

    open spec fn headers_spec(
        &self,
        req: &RouterData<Void, PaymentsCancelData, PaymentsResponseData>,
        connectors: &Connectors,
    ) -> Result<Seq<(Seq<char>, Seq<char>)>, ConnectorErrorView> {
        payu_headers_of(req)
    }

    open spec fn url_spec(
        &self,
        req: &RouterData<Void, PaymentsCancelData, PaymentsResponseData>,
        connectors: &Connectors,
    ) -> Result<Seq<char>, ConnectorErrorView> {
        match req.request.connector_transaction_id {
            Some(id) => Ok(connectors.payu.base_url@ + "v2_1/orders/"@ + id@),
            None => Err(ConnectorErrorView::MissingConnectorTransactionID),
        }
    }

    open spec fn body_spec(
        &self,
        req: &RouterData<Void, PaymentsCancelData, PaymentsResponseData>,
    ) -> Result<Option<Seq<char>>, ConnectorErrorView> {
        Ok(None)
    }

    open spec fn handle_ensures(
        &self,
        data: RouterData<Void, PaymentsCancelData, PaymentsResponseData>,
        res: Response,
        r: Result<RouterData<Void, PaymentsCancelData, PaymentsResponseData>, ConnectorError>,
    ) -> bool {
        payu_payments_handle_ensures(data, res, r)
    }

    fn get_headers(
        &self,
        req: &RouterData<Void, PaymentsCancelData, PaymentsResponseData>,
        connectors: &Connectors,
    ) -> (r: Result<Vec<(String, String)>, ConnectorError>) {
        self.build_headers(req, connectors)
    }

    fn get_content_type(&self) -> (r: &'static str) {
        self.common_get_content_type()
    }

    fn get_url(
        &self,
        req: &RouterData<Void, PaymentsCancelData, PaymentsResponseData>,
        connectors: &Connectors,
    ) -> (r: Result<String, ConnectorError>) {
        match &req.request.connector_transaction_id {
            Some(connector_payment_id) => {
                let mut url = self.base_url(connectors).to_owned();
                url.append("v2_1/orders/");
                url.append(connector_payment_id.as_str());
                Ok(url)
            },
            None => Err(ConnectorError::MissingConnectorTransactionID),
        }
    }

    fn get_request_body(
        &self,
        req: &RouterData<Void, PaymentsCancelData, PaymentsResponseData>,
    ) -> (r: Result<Option<String>, ConnectorError>) {
        Ok(None)
    }

    fn build_request(
        &self,
        req: &RouterData<Void, PaymentsCancelData, PaymentsResponseData>,
        connectors: &Connectors,
    ) -> (r: Result<Option<Request>, ConnectorError>) {
        let url = self.get_url(req, connectors)?;
        let hdrs = self.get_headers(req, connectors)?;
        let request = RequestBuilder::new().method(Method::Delete).url(url.as_str()).headers(
            hdrs,
        ).build();
        Ok(Some(request))
    }

    fn handle_response(
        &self,
        data: RouterData<Void, PaymentsCancelData, PaymentsResponseData>,
        res: Response,
    ) -> (r: Result<RouterData<Void, PaymentsCancelData, PaymentsResponseData>, ConnectorError>) {
        let Response { status_code, response: body } = res;
        let response = payu::PayuPaymentsResponse::decode(body)?;
        payu::payments_router_data(ResponseRouterData { response, data, http_code: status_code })
    }

    fn get_error_response(&self, res: Vec<u8>) -> (r: Result<ErrorResponse, ConnectorError>) {
        self.build_error_response(res)
    }
}

impl PaymentSync for Payu {

}

impl ConnectorIntegration<PSync, PaymentsSyncData, PaymentsResponseData> for Payu {
    open spec fn flow_content_type_spec(&self) -> Seq<char> {
        "application/json"@
    }

    open spec fn error_ensures(&self, res: Seq<u8>, r: Result<ErrorResponse, ConnectorError>) -> bool {
        payu_error_ensures(res, r)
    }

    open spec fn method_spec(&self) -> Method {
        Method::Get
    }

    open spec fn headers_spec(
        &self,
        req: &RouterData<PSync, PaymentsSyncData, PaymentsResponseData>,
        connectors: &Connectors,
    ) -> Result<Seq<(Seq<char>, Seq<char>)>, ConnectorErrorView> {
        payu_headers_of(req)
    }

    open spec fn url_spec(
        &self,
        req: &RouterData<PSync, PaymentsSyncData, PaymentsResponseData>,
        connectors: &Connectors,
    ) -> Result<Seq<char>, ConnectorErrorView> {
        match req.request.connector_transaction_id {
            ResponseId::ConnectorTransactionId(id) => Ok(
                connectors.payu.base_url@ + "v2_1/orders/"@ + id@,
            ),
            _ => Err(ConnectorErrorView::MissingConnectorTransactionID),
        }
    }

    open spec fn body_spec(
        &self,
        req: &RouterData<PSync, PaymentsSyncData, PaymentsResponseData>,
    ) -> Result<Option<Seq<char>>, ConnectorErrorView> {
        Ok(None)
    }

    open spec fn handle_ensures(
        &self,
        data: RouterData<PSync, PaymentsSyncData, PaymentsResponseData>,
        res: Response,
        r: Result<RouterData<PSync, PaymentsSyncData, PaymentsResponseData>, ConnectorError>,
    ) -> bool {
        payu_payments_handle_ensures(data, res, r)
    }

    fn get_headers(
        &self,
        req: &RouterData<PSync, PaymentsSyncData, PaymentsResponseData>,
        connectors: &Connectors,
    ) -> (r: Result<Vec<(String, String)>, ConnectorError>) {
        self.build_headers(req, connectors)
    }

    fn get_content_type(&self) -> (r: &'static str) {
        self.common_get_content_type()
    }

    fn get_url(
        &self,
        req: &RouterData<PSync, PaymentsSyncData, PaymentsResponseData>,
        connectors: &Connectors,
    ) -> (r: Result<String, ConnectorError>) {
        let connector_payment_id = req.request.connector_transaction_id
            .get_connector_transaction_id()?;
        let mut url = self.base_url(connectors).to_owned();
        url.append("v2_1/orders/");
        url.append(connector_payment_id.as_str());
        Ok(url)
    }

    fn get_request_body(
        &self,
        req: &RouterData<PSync, PaymentsSyncData, PaymentsResponseData>,
    ) -> (r: Result<Option<String>, ConnectorError>) {
        Ok(None)
    }

    fn build_request(
        &self,
        req: &RouterData<PSync, PaymentsSyncData, PaymentsResponseData>,
        connectors: &Connectors,
    ) -> (r: Result<Option<Request>, ConnectorError>) {
        let url = self.get_url(req, connectors)?;
        let hdrs = self.get_headers(req, connectors)?;
        Ok(
            Some(
                RequestBuilder::new().method(Method::Get).url(url.as_str()).headers(hdrs).build(),
            ),
        )
    }

    fn handle_response(
        &self,
        data: RouterData<PSync, PaymentsSyncData, PaymentsResponseData>,
        res: Response,
    ) -> (r: Result<RouterData<PSync, PaymentsSyncData, PaymentsResponseData>, ConnectorError>) {
        let Response { status_code, response: body } = res;
        let response = payu::PayuPaymentsResponse::decode(body)?;
        payu::payments_router_data(ResponseRouterData { response, data, http_code: status_code })
    }

    fn get_error_response(&self, res: Vec<u8>) -> (r: Result<ErrorResponse, ConnectorError>) {
        self.build_error_response(res)
    }
}

impl PaymentCapture for Payu {

}

impl ConnectorIntegration<Capture, PaymentsCaptureData, PaymentsResponseData> for Payu {
    open spec fn flow_content_type_spec(&self) -> Seq<char> {
        "application/json"@
    }

    open spec fn error_ensures(&self, res: Seq<u8>, r: Result<ErrorResponse, ConnectorError>) -> bool {
        payu_error_ensures(res, r)
    }

    open spec fn method_spec(&self) -> Method {
        Method::Put
    }

    open spec fn headers_spec(
        &self,
        req: &RouterData<Capture, PaymentsCaptureData, PaymentsResponseData>,
        connectors: &Connectors,
    ) -> Result<Seq<(Seq<char>, Seq<char>)>, ConnectorErrorView> {
        payu_headers_of(req)
    }

    open spec fn url_spec(
        &self,
        req: &RouterData<Capture, PaymentsCaptureData, PaymentsResponseData>,
        connectors: &Connectors,
    ) -> Result<Seq<char>, ConnectorErrorView> {
        Ok(
            connectors.payu.base_url@ + "v2_1/orders/"@ + req.request.connector_transaction_id@
                + "/status"@,
        )
    }

    open spec fn body_spec(
        &self,
        req: &RouterData<Capture, PaymentsCaptureData, PaymentsResponseData>,
    ) -> Result<Option<Seq<char>>, ConnectorErrorView> {
        if clean_text(req.request.connector_transaction_id@) {
            Ok(
                Some(
                    capture_request_wire(
                        req.request.connector_transaction_id@,
                        req.request.amount_to_capture as int,
                    ),
                ),
            )
        } else {
            Err(ConnectorErrorView::RequestEncodingFailed)
        }
    }

    open spec fn handle_ensures(
        &self,
        data: RouterData<Capture, PaymentsCaptureData, PaymentsResponseData>,
        res: Response,
        r: Result<RouterData<Capture, PaymentsCaptureData, PaymentsResponseData>, ConnectorError>,
    ) -> bool {
        payu_payments_handle_ensures(data, res, r)
    }

    fn get_headers(
        &self,
        req: &RouterData<Capture, PaymentsCaptureData, PaymentsResponseData>,
        connectors: &Connectors,
    ) -> (r: Result<Vec<(String, String)>, ConnectorError>) {
        self.build_headers(req, connectors)
    }

    fn get_content_type(&self) -> (r: &'static str) {
        self.common_get_content_type()
    }

    fn get_url(
        &self,
        req: &RouterData<Capture, PaymentsCaptureData, PaymentsResponseData>,
        connectors: &Connectors,
    ) -> (r: Result<String, ConnectorError>) {
        let mut url = self.base_url(connectors).to_owned();
        url.append("v2_1/orders/");
        url.append(req.request.connector_transaction_id.as_str());
        url.append("/status");
        Ok(url)
    }

    fn get_request_body(
        &self,
        req: &RouterData<Capture, PaymentsCaptureData, PaymentsResponseData>,
    ) -> (r: Result<Option<String>, ConnectorError>) {
        let payu_req = payu::PayuPaymentsCaptureRequest::try_from(req)?;
        let text = payu_req.encode()?;
        Ok(Some(text))
    }

    fn build_request(
        &self,
        req: &RouterData<Capture, PaymentsCaptureData, PaymentsResponseData>,
        connectors: &Connectors,
    ) -> (r: Result<Option<Request>, ConnectorError>) {
        let url = self.get_url(req, connectors)?;
        let hdrs = self.get_headers(req, connectors)?;
        let body = self.get_request_body(req)?;
        Ok(
            Some(
                RequestBuilder::new().method(Method::Put).url(url.as_str()).headers(hdrs).body(
                    body,
                ).build(),
            ),
        )
    }

    fn handle_response(
        &self,
        data: RouterData<Capture, PaymentsCaptureData, PaymentsResponseData>,
        res: Response,
    ) -> (r: Result<RouterData<Capture, PaymentsCaptureData, PaymentsResponseData>, ConnectorError>) {
        let Response { status_code, response: body } = res;
        let response = payu::PayuPaymentsResponse::decode(body)?;
        payu::payments_router_data(ResponseRouterData { response, data, http_code: status_code })
    }

    fn get_error_response(&self, res: Vec<u8>) -> (r: Result<ErrorResponse, ConnectorError>) {
        self.build_error_response(res)
    }
}

impl PaymentAuthorize for Payu {

}

impl ConnectorIntegration<Authorize, PaymentsAuthorizeData, PaymentsResponseData> for Payu {
    open spec fn flow_content_type_spec(&self) -> Seq<char> {
        "application/json"@
    }

    open spec fn error_ensures(&self, res: Seq<u8>, r: Result<ErrorResponse, ConnectorError>) -> bool {
        payu_error_ensures(res, r)
    }

    open spec fn method_spec(&self) -> Method {
        Method::Post
    }

    open spec fn headers_spec(
        &self,
        req: &RouterData<Authorize, PaymentsAuthorizeData, PaymentsResponseData>,
        connectors: &Connectors,
    ) -> Result<Seq<(Seq<char>, Seq<char>)>, ConnectorErrorView> {
        payu_headers_of(req)
    }

    open spec fn url_spec(
        &self,
        req: &RouterData<Authorize, PaymentsAuthorizeData, PaymentsResponseData>,
        connectors: &Connectors,
    ) -> Result<Seq<char>, ConnectorErrorView> {
        Ok(connectors.payu.base_url@ + "v2_1/orders"@)
    }

    open spec fn body_spec(
        &self,
        req: &RouterData<Authorize, PaymentsAuthorizeData, PaymentsResponseData>,
    ) -> Result<Option<Seq<char>>, ConnectorErrorView> {
        match req.request.payment_method_data {
            PaymentMethodData::Card(c) => if clean_text(c.card_number@) && clean_text(
                c.card_exp_month@,
            ) && clean_text(c.card_exp_year@) && clean_text(c.card_cvc@) {
                Ok(
                    Some(
                        card_request_wire(
                            req.request.amount as int,
                            c.card_number@,
                            c.card_exp_month@,
                            c.card_exp_year@,
                            c.card_cvc@,
                            req.request.capture_method is None || req.request.capture_method
                                == Some(CaptureMethod::Automatic),
                        ),
                    ),
                )
            } else {
                Err(ConnectorErrorView::RequestEncodingFailed)
            },
            _ => Err(ConnectorErrorView::NotImplemented(Feature::PaymentMethods)),
        }
    }

    open spec fn handle_ensures(
        &self,
        data: RouterData<Authorize, PaymentsAuthorizeData, PaymentsResponseData>,
        res: Response,
        r: Result<
            RouterData<Authorize, PaymentsAuthorizeData, PaymentsResponseData>,
            ConnectorError,
        >,
    ) -> bool {
        payu_payments_handle_ensures(data, res, r)
    }

    fn get_headers(
        &self,
        req: &RouterData<Authorize, PaymentsAuthorizeData, PaymentsResponseData>,
        connectors: &Connectors,
    ) -> (r: Result<Vec<(String, String)>, ConnectorError>) {
        self.build_headers(req, connectors)
    }

    fn get_content_type(&self) -> (r: &'static str) {
        self.common_get_content_type()
    }

    fn get_url(
        &self,
        req: &RouterData<Authorize, PaymentsAuthorizeData, PaymentsResponseData>,
        connectors: &Connectors,
    ) -> (r: Result<String, ConnectorError>) {
        let mut url = self.base_url(connectors).to_owned();
        url.append("v2_1/orders");
        Ok(url)
    }

    fn get_request_body(
        &self,
        req: &RouterData<Authorize, PaymentsAuthorizeData, PaymentsResponseData>,
    ) -> (r: Result<Option<String>, ConnectorError>) {
        let payu_req = payu::PayuPaymentsRequest::try_from(req)?;
        let text = payu_req.encode()?;
        Ok(Some(text))
    }

    fn build_request(
        &self,
        req: &RouterData<Authorize, PaymentsAuthorizeData, PaymentsResponseData>,
        connectors: &Connectors,
    ) -> (r: Result<Option<Request>, ConnectorError>) {
        let url = self.get_url(req, connectors)?;
        let hdrs = self.get_headers(req, connectors)?;
        let body = self.get_request_body(req)?;
        Ok(
            Some(
                RequestBuilder::new().method(Method::Post).url(url.as_str()).headers(hdrs).body(
                    body,
                ).build(),
            ),
        )
    }

    fn handle_response(
        &self,
        data: RouterData<Authorize, PaymentsAuthorizeData, PaymentsResponseData>,
        res: Response,
    ) -> (r: Result<
        RouterData<Authorize, PaymentsAuthorizeData, PaymentsResponseData>,
        ConnectorError,
    >) {
        let Response { status_code, response: body } = res;
        let response = payu::PayuPaymentsResponse::decode(body)?;
        payu::payments_router_data(ResponseRouterData { response, data, http_code: status_code })
    }

    fn get_error_response(&self, res: Vec<u8>) -> (r: Result<ErrorResponse, ConnectorError>) {
        self.build_error_response(res)
    }
}

impl Refund for Payu {

}

impl RefundExecute for Payu {

}

impl RefundSync for Payu {

}

impl ConnectorIntegration<Execute, RefundsData, RefundsResponseData> for Payu {
    open spec fn flow_content_type_spec(&self) -> Seq<char> {
        "application/json"@
    }

    open spec fn error_ensures(&self, res: Seq<u8>, r: Result<ErrorResponse, ConnectorError>) -> bool {
        payu_error_ensures(res, r)
    }

    open spec fn method_spec(&self) -> Method {
        Method::Post
    }

    open spec fn headers_spec(
        &self,
        req: &RouterData<Execute, RefundsData, RefundsResponseData>,
        connectors: &Connectors,
    ) -> Result<Seq<(Seq<char>, Seq<char>)>, ConnectorErrorView> {
        payu_headers_of(req)
    }

    open spec fn url_spec(
        &self,
        req: &RouterData<Execute, RefundsData, RefundsResponseData>,
        connectors: &Connectors,
    ) -> Result<Seq<char>, ConnectorErrorView> {
        Ok(
            connectors.payu.base_url@ + "v2_1/orders/"@ + req.request.connector_transaction_id@
                + "/refund"@,
        )
    }

    open spec fn body_spec(&self, req: &RouterData<Execute, RefundsData, RefundsResponseData>) -> Result<
        Option<Seq<char>>,
        ConnectorErrorView,
    > {
        Ok(Some(amount_request_wire(req.request.refund_amount as int)))
    }

    open spec fn handle_ensures(
        &self,
        data: RouterData<Execute, RefundsData, RefundsResponseData>,
        res: Response,
        r: Result<RouterData<Execute, RefundsData, RefundsResponseData>, ConnectorError>,
    ) -> bool {
        payu_refunds_handle_ensures(data, res, r)
    }

    fn get_headers(
        &self,
        req: &RouterData<Execute, RefundsData, RefundsResponseData>,
        connectors: &Connectors,
    ) -> (r: Result<Vec<(String, String)>, ConnectorError>) {
        self.build_headers(req, connectors)
    }

    fn get_content_type(&self) -> (r: &'static str) {
        self.common_get_content_type()
    }

    fn get_url(
        &self,
        req: &RouterData<Execute, RefundsData, RefundsResponseData>,
        connectors: &Connectors,
    ) -> (r: Result<String, ConnectorError>) {
        let mut url = self.base_url(connectors).to_owned();
        url.append("v2_1/orders/");
        url.append(req.request.connector_transaction_id.as_str());
        url.append("/refund");
        Ok(url)
    }

    fn get_request_body(&self, req: &RouterData<Execute, RefundsData, RefundsResponseData>) -> (r:
        Result<Option<String>, ConnectorError>) {
        let payu_req = payu::PayuRefundRequest::try_from(req)?;
        Ok(Some(payu_req.encode()))
    }

    fn build_request(
        &self,
        req: &RouterData<Execute, RefundsData, RefundsResponseData>,
        connectors: &Connectors,
    ) -> (r: Result<Option<Request>, ConnectorError>) {
        let url = self.get_url(req, connectors)?;
        let hdrs = self.get_headers(req, connectors)?;
        let body = self.get_request_body(req)?;
        let request = RequestBuilder::new().method(Method::Post).url(url.as_str()).headers(
            hdrs,
        ).body(body).build();
        Ok(Some(request))
    }

    fn handle_response(
        &self,
        data: RouterData<Execute, RefundsData, RefundsResponseData>,
        res: Response,
    ) -> (r: Result<RouterData<Execute, RefundsData, RefundsResponseData>, ConnectorError>) {
        let Response { status_code, response: body } = res;
        let response = payu::RefundResponse::decode(body)?;
        payu::refunds_router_data(ResponseRouterData { response, data, http_code: status_code })
    }

    fn get_error_response(&self, res: Vec<u8>) -> (r: Result<ErrorResponse, ConnectorError>) {
        self.build_error_response(res)
    }
}

impl ConnectorIntegration<RSync, RefundsData, RefundsResponseData> for Payu {
    open spec fn flow_content_type_spec(&self) -> Seq<char> {
        "application/json"@
    }

    open spec fn error_ensures(&self, res: Seq<u8>, r: Result<ErrorResponse, ConnectorError>) -> bool {
        payu_error_ensures(res, r)
    }

    open spec fn method_spec(&self) -> Method {
        Method::Get
    }

    open spec fn headers_spec(
        &self,
        req: &RouterData<RSync, RefundsData, RefundsResponseData>,
        connectors: &Connectors,
    ) -> Result<Seq<(Seq<char>, Seq<char>)>, ConnectorErrorView> {
        payu_headers_of(req)
    }

    open spec fn url_spec(
        &self,
        req: &RouterData<RSync, RefundsData, RefundsResponseData>,
        connectors: &Connectors,
    ) -> Result<Seq<char>, ConnectorErrorView> {
        Ok(
            connectors.payu.base_url@ + "v2_1/orders/"@ + req.request.connector_transaction_id@
                + "/refunds"@,
        )
    }

    open spec fn body_spec(&self, req: &RouterData<RSync, RefundsData, RefundsResponseData>) -> Result<
        Option<Seq<char>>,
        ConnectorErrorView,
    > {
        Ok(None)
    }

    open spec fn handle_ensures(
        &self,
        data: RouterData<RSync, RefundsData, RefundsResponseData>,
        res: Response,
        r: Result<RouterData<RSync, RefundsData, RefundsResponseData>, ConnectorError>,
    ) -> bool {
        payu_refunds_handle_ensures(data, res, r)
    }

    fn get_headers(
        &self,
        req: &RouterData<RSync, RefundsData, RefundsResponseData>,
        connectors: &Connectors,
    ) -> (r: Result<Vec<(String, String)>, ConnectorError>) {
        self.build_headers(req, connectors)
    }

    fn get_content_type(&self) -> (r: &'static str) {
        self.common_get_content_type()
    }

    fn get_url(
        &self,
        req: &RouterData<RSync, RefundsData, RefundsResponseData>,
        connectors: &Connectors,
    ) -> (r: Result<String, ConnectorError>) {
        let mut url = self.base_url(connectors).to_owned();
        url.append("v2_1/orders/");
        url.append(req.request.connector_transaction_id.as_str());
        url.append("/refunds");
        Ok(url)
    }

    fn get_request_body(&self, req: &RouterData<RSync, RefundsData, RefundsResponseData>) -> (r:
        Result<Option<String>, ConnectorError>) {
        Ok(None)
    }

    fn build_request(
        &self,
        req: &RouterData<RSync, RefundsData, RefundsResponseData>,
        connectors: &Connectors,
    ) -> (r: Result<Option<Request>, ConnectorError>) {
        let url = self.get_url(req, connectors)?;
        let hdrs = self.get_headers(req, connectors)?;
        Ok(
            Some(
                RequestBuilder::new().method(Method::Get).url(url.as_str()).headers(hdrs).build(),
            ),
        )
    }

    fn handle_response(
        &self,
        data: RouterData<RSync, RefundsData, RefundsResponseData>,
        res: Response,
    ) -> (r: Result<RouterData<RSync, RefundsData, RefundsResponseData>, ConnectorError>) {
        let Response { status_code, response: body } = res;
        let response = payu::RefundResponse::decode(body)?;
        payu::refunds_router_data(ResponseRouterData { response, data, http_code: status_code })
    }

    fn get_error_response(&self, res: Vec<u8>) -> (r: Result<ErrorResponse, ConnectorError>) {
        self.build_error_response(res)
    }
}

/// Law: a void or a payment sync without a connector transaction id builds
/// no URL: the hook is owed exactly the missing-transaction-id error.
pub proof fn lemma_missing_transaction_id_rejected(
    void_req: &RouterData<Void, PaymentsCancelData, PaymentsResponseData>,
    sync_req: &RouterData<PSync, PaymentsSyncData, PaymentsResponseData>,
    connectors: &Connectors,
)
    requires
        void_req.request.connector_transaction_id is None,
        !(sync_req.request.connector_transaction_id is ConnectorTransactionId),
    ensures
        <Payu as ConnectorIntegration<Void, PaymentsCancelData, PaymentsResponseData>>::url_spec(
            &Payu,
            void_req,
            connectors,
        ) == Err::<Seq<char>, ConnectorErrorView>(
            ConnectorErrorView::MissingConnectorTransactionID,
        ),
        <Payu as ConnectorIntegration<PSync, PaymentsSyncData, PaymentsResponseData>>::url_spec(
            &Payu,
            sync_req,
            connectors,
        ) == Err::<Seq<char>, ConnectorErrorView>(
            ConnectorErrorView::MissingConnectorTransactionID,
        ),
{
}

/// Law: a refund-execute round trip. The canonical refund request always
/// frames (the body hook is owed the amount-only text), and a reply built
/// for a refund id folds back by the status table: `succeeded` to
/// `Success`, `failed` to `Failure`, and an omitted status to `Pending`.
#[verifier::rlimit(50)]
pub proof fn lemma_refund_round_trip(
    req: &RouterData<Execute, RefundsData, RefundsResponseData>,
    id: Seq<char>,
    connectors: &Connectors,
)
    requires
        clean_text(id),
    ensures
        <Payu as ConnectorIntegration<Execute, RefundsData, RefundsResponseData>>::body_spec(
            &Payu,
            req,
        ) == Ok::<Option<Seq<char>>, ConnectorErrorView>(
            Some(amount_request_wire(req.request.refund_amount as int)),
        ),
        refund_response_read(crate::codec::refund_response_wire(id, Some("succeeded"@))) == Some(
            (id, Some("succeeded"@)),
        ),
        payu::payu_refund_status_of(payu::payu_refund_status_of_token(Some("succeeded"@)))
            == crate::enums::RefundStatus::Success,
        refund_response_read(crate::codec::refund_response_wire(id, Some("failed"@))) == Some(
            (id, Some("failed"@)),
        ),
        payu::payu_refund_status_of(payu::payu_refund_status_of_token(Some("failed"@)))
            == crate::enums::RefundStatus::Failure,
        refund_response_read(crate::codec::refund_response_wire(id, None)) == Some(
            (id, None::<Seq<char>>),
        ),
        payu::payu_refund_status_of(payu::payu_refund_status_of_token(None))
            == crate::enums::RefundStatus::Pending,
{
    reveal_strlit("succeeded");
    reveal_strlit("failed");
    crate::codec::lemma_refund_response_round_trip(id, Some("succeeded"@));
    crate::codec::lemma_refund_response_round_trip(id, Some("failed"@));
    crate::codec::lemma_refund_response_round_trip(id, None);
}

/// Law: the error normalizer is a pure function of the raw bytes. Two
/// normalizations of identical bytes agree, field for field, on success
/// and on failure alike.
pub proof fn lemma_error_normalizer_deterministic(
    res: Seq<u8>,
    r1: Result<ErrorResponse, ConnectorError>,
    r2: Result<ErrorResponse, ConnectorError>,
)
    requires
        <Payu as ConnectorCommon>::error_response_ensures(&Payu, res, r1),
        <Payu as ConnectorCommon>::error_response_ensures(&Payu, res, r2),
    ensures
        r1 is Ok <==> r2 is Ok,
        (r1 is Ok && r2 is Ok) ==> (r1->Ok_0)@ == (r2->Ok_0)@,
        (r1 is Err && r2 is Err) ==> (r1->Err_0)@ == (r2->Err_0)@,
{
}

impl IncomingWebhook for Payu {
    open spec fn webhooks_supported(&self) -> bool {
        false
    }

    fn get_webhook_object_reference_id(&self, body: &[u8]) -> (r: Result<String, ConnectorError>) {
        Err(ConnectorError::WebhooksNotImplemented)
    }

    fn get_webhook_event_type(&self, body: &[u8]) -> (r: Result<
        IncomingWebhookEvent,
        ConnectorError,
    >) {
        Err(ConnectorError::WebhooksNotImplemented)
    }

    fn get_webhook_resource_object(&self, body: &[u8]) -> (r: Result<Vec<u8>, ConnectorError>) {
        Err(ConnectorError::WebhooksNotImplemented)
    }
}

impl ConnectorRedirectResponse for Payu {
    open spec fn flow_type_spec(&self, query_params: Seq<char>) -> Result<
        CallConnectorAction,
        ConnectorErrorView,
    > {
        Ok(CallConnectorAction::Trigger)
    }

    fn get_flow_type(&self, query_params: &str) -> (r: Result<CallConnectorAction, ConnectorError>) {
        Ok(CallConnectorAction::Trigger)
    }
}

} // verus!
