//! The connector integration contract: the transport-ready request value,
//! its builder, and the polymorphic interfaces every connector implements
//! per flow.

use vstd::prelude::*;

use crate::errors::{ConnectorError, ConnectorErrorView, ErrorResponse};
use crate::types::{ConnectorAuthType, Response, RouterData};

verus! {

/// HTTP method of an assembled request.
#[derive(Clone, Copy, Debug, PartialEq, Eq, Structural)]
pub enum Method {
    Get,
    Post,
    Put,
    Delete,
}

/// What the orchestration engine does with a redirect callback.
#[derive(Clone, Copy, Debug, PartialEq, Eq, Structural)]
pub enum CallConnectorAction {
    Trigger,
    Avoid,
}

/// The kind of event an incoming webhook announces.
#[derive(Clone, Copy, Debug, PartialEq, Eq, Structural)]
pub enum IncomingWebhookEvent {
    PaymentSuccess,
    PaymentFailure,
    EventNotSupported,
}

/// A transport-ready request value: method, absolute URL, ordered header
/// list, optional textual body. Immutable once built; executing it is the
/// external transport's business.
#[derive(Debug)]
pub struct Request {
    pub method: Method,
    pub url: String,
    pub headers: Vec<(String, String)>,
    pub body: Option<String>,
}

/// The view of a header list: each name/value pair as character sequences.
pub open spec fn headers_view(h: Seq<(String, String)>) -> Seq<(Seq<char>, Seq<char>)> {
    Seq::new(h.len(), |i: int| (h[i].0@, h[i].1@))
}

/// The view of an optional textual body.
pub open spec fn body_view(b: Option<String>) -> Option<Seq<char>> {
    match b {
        Some(t) => Some(t@),
        None => None,
    }
}

/// Step-by-step builder of a `Request`. A missing body (GET/DELETE calls)
/// and an empty header list are both tolerated: the builder starts from an
/// empty GET request and each step replaces one part.
pub struct RequestBuilder {
    pub method: Method,
    pub url: String,
    pub headers: Vec<(String, String)>,
    pub body: Option<String>,
}

impl RequestBuilder {
    /// A fresh builder: a GET request with an empty URL, no headers and no
    /// body.
    pub fn new() -> (r: RequestBuilder)
        ensures
            r.method == Method::Get,
            r.url@ == Seq::<char>::empty(),
            r.headers@ == Seq::<(String, String)>::empty(),
            r.body is None,
    {
        RequestBuilder { method: Method::Get, url: String::new(), headers: Vec::new(), body: None }
    }

    /// Replace the method.
    pub fn method(self, method: Method) -> (r: RequestBuilder)
        ensures
            r.method == method,
            r.url == self.url,
            r.headers == self.headers,
            r.body == self.body,
    {
        RequestBuilder { method, ..self }
    }

    /// Replace the URL.
    pub fn url(self, url: &str) -> (r: RequestBuilder)
        ensures
            r.method == self.method,
            r.url@ == url@,
            r.headers == self.headers,
            r.body == self.body,
    {
        RequestBuilder { url: url.to_owned(), ..self }
    }

    /// Replace the header list.
    pub fn headers(self, headers: Vec<(String, String)>) -> (r: RequestBuilder)
        ensures
            r.method == self.method,
            r.url == self.url,
            r.headers == headers,
            r.body == self.body,
    {
        RequestBuilder { headers, ..self }
    }

    /// Replace the body.
    pub fn body(self, body: Option<String>) -> (r: RequestBuilder)
        ensures
            r.method == self.method,
            r.url == self.url,
            r.headers == self.headers,
            r.body == body,
    {
        RequestBuilder { body, ..self }
    }

    /// The assembled request, part for part.
    pub fn build(self) -> (r: Request)
        ensures
            r.method == self.method,
            r.url == self.url,
            r.headers == self.headers,
            r.body == self.body,
    {
        Request { method: self.method, url: self.url, headers: self.headers, body: self.body }
    }
}

/// Read-only connector configuration of one connector: its base URL.
pub struct ConnectorParams {
    pub base_url: String,
}

/// Read-only configuration of every connector the platform speaks to.
pub struct Connectors {
    pub payu: ConnectorParams,
}

/// What every connector offers independently of any flow: its identity,
/// its content type, its base URL, its auth-header resolution and its
/// error normalization. Each specification-level function is fixed by the
/// implementing connector, so a caller that knows the connector knows the
/// exact contract.
pub trait ConnectorCommon where Self: Sized {
    /// The connector's name on the platform.
    spec fn id_spec(&self) -> Seq<char>;

    /// The content type of this connector's calls.
    spec fn content_type_spec(&self) -> Seq<char>;

    /// The base URL taken out of the configuration.
    spec fn base_url_spec(&self, connectors: &Connectors) -> Seq<char>;

    /// The exact auth-resolution contract: which credential variants the
    /// connector accepts and which headers they turn into.
    spec fn auth_header_ensures(
        &self,
        auth_type: &ConnectorAuthType,
        r: Result<Vec<(String, String)>, ConnectorError>,
    ) -> bool;

    /// The exact error-normalization contract: which bytes normalize into
    /// which canonical error response.
    spec fn error_response_ensures(
        &self,
        res: Seq<u8>,
        r: Result<ErrorResponse, ConnectorError>,
    ) -> bool;

    fn id(&self) -> (r: &'static str)
        ensures
            r@ == self.id_spec(),
    ;

    fn common_get_content_type(&self) -> (r: &'static str)
        ensures
            r@ == self.content_type_spec(),
    ;

    fn base_url<'a>(&self, connectors: &'a Connectors) -> (r: &'a str)
        ensures
            r@ == self.base_url_spec(connectors),
    ;

    fn get_auth_header(&self, auth_type: &ConnectorAuthType) -> (r: Result<
        Vec<(String, String)>,
        ConnectorError,
    >)
        ensures
            self.auth_header_ensures(auth_type, r),
    ;

    fn build_error_response(&self, res: Vec<u8>) -> (r: Result<ErrorResponse, ConnectorError>)
        ensures
            self.error_response_ensures(res@, r),
    ;
}

/// The per-flow integration contract: the hooks the orchestration engine
/// invokes in a fixed order to assemble one transport-ready request and to
/// fold the connector's reply back into the envelope. The
/// specification-level functions are fixed per (connector, flow) pair.
pub trait ConnectorIntegration<Flow, Req, Res> where Self: Sized {
    /// The method of the assembled request.
    spec fn method_spec(&self) -> Method;

    /// The content type of this flow's calls.
    spec fn flow_content_type_spec(&self) -> Seq<char>;

    /// The exact error-normalization contract of this flow's error path.
    spec fn error_ensures(&self, res: Seq<u8>, r: Result<ErrorResponse, ConnectorError>) -> bool;

    /// The headers, or the error the header build ends in.
    spec fn headers_spec(&self, req: &RouterData<Flow, Req, Res>, connectors: &Connectors) -> Result<
        Seq<(Seq<char>, Seq<char>)>,
        ConnectorErrorView,
    >;

    /// The absolute URL, or the error the URL build ends in.
    spec fn url_spec(&self, req: &RouterData<Flow, Req, Res>, connectors: &Connectors) -> Result<
        Seq<char>,
        ConnectorErrorView,
    >;

    /// The textual body, absent for body-less calls, or the error the
    /// request transformation ends in.
    spec fn body_spec(&self, req: &RouterData<Flow, Req, Res>) -> Result<
        Option<Seq<char>>,
        ConnectorErrorView,
    >;

    /// The exact contract of folding a reply into the envelope.
    spec fn handle_ensures(
        &self,
        data: RouterData<Flow, Req, Res>,
        res: Response,
        r: Result<RouterData<Flow, Req, Res>, ConnectorError>,
    ) -> bool;

    fn get_headers(&self, req: &RouterData<Flow, Req, Res>, connectors: &Connectors) -> (r: Result<
        Vec<(String, String)>,
        ConnectorError,
    >)
        ensures
            (match (r, self.headers_spec(req, connectors)) {
                (Ok(h), Ok(sh)) => headers_view(h@) == sh,
                (Err(e), Err(se)) => e@ == se,
                _ => false,
            }),
    ;

    fn get_content_type(&self) -> (r: &'static str)
        ensures
            r@ == self.flow_content_type_spec(),
    ;

    fn get_url(&self, req: &RouterData<Flow, Req, Res>, connectors: &Connectors) -> (r: Result<
        String,
        ConnectorError,
    >)
        ensures
            (match (r, self.url_spec(req, connectors)) {
                (Ok(u), Ok(su)) => u@ == su,
                (Err(e), Err(se)) => e@ == se,
                _ => false,
            }),
    ;

    fn get_request_body(&self, req: &RouterData<Flow, Req, Res>) -> (r: Result<
        Option<String>,
        ConnectorError,
    >)
        ensures
            (match (r, self.body_spec(req)) {
                (Ok(b), Ok(sb)) => body_view(b) == sb,
                (Err(e), Err(se)) => e@ == se,
                _ => false,
            }),
    ;

    /// Assemble method, URL, headers and body into one request. The first
    /// failing hook decides the error: URL, then headers, then body.
    fn build_request(&self, req: &RouterData<Flow, Req, Res>, connectors: &Connectors) -> (r:
        Result<Option<Request>, ConnectorError>)
        ensures
            (match self.url_spec(req, connectors) {
                Err(e) => r matches Err(re) && re@ == e,
                Ok(u) => match self.headers_spec(req, connectors) {
                    Err(e) => r matches Err(re) && re@ == e,
                    Ok(h) => match self.body_spec(req) {
                        Err(e) => r matches Err(re) && re@ == e,
                        Ok(b) => r matches Ok(Some(q)) && q.method == self.method_spec() && q.url@
                            == u && headers_view(q.headers@) == h && body_view(q.body) == b,
                    },
                },
            }),
    ;

    fn handle_response(&self, data: RouterData<Flow, Req, Res>, res: Response) -> (r: Result<
        RouterData<Flow, Req, Res>,
        ConnectorError,
    >)
        ensures
            self.handle_ensures(data, res, r),
    ;

    fn get_error_response(&self, res: Vec<u8>) -> (r: Result<ErrorResponse, ConnectorError>)
        ensures
            self.error_ensures(res@, r),
    ;
}

/// The shared header-building step above the per-flow hooks: the content
/// type first, then whatever the connector's auth resolution adds.
pub trait ConnectorCommonExt<Flow, Req, Res>: ConnectorCommon {
    /// The exact contract of the shared header build.
    spec fn build_headers_ensures(
        &self,
        req: &RouterData<Flow, Req, Res>,
        connectors: &Connectors,
        r: Result<Vec<(String, String)>, ConnectorError>,
    ) -> bool;

    fn build_headers(&self, req: &RouterData<Flow, Req, Res>, connectors: &Connectors) -> (r:
        Result<Vec<(String, String)>, ConnectorError>)
        ensures
            self.build_headers_ensures(req, connectors, r),
    ;
}

/// The webhook capability stub: reference extraction, event classification
/// and resource extraction. A connector without webhook support answers
/// every call with `WebhooksNotImplemented`.
pub trait IncomingWebhook where Self: Sized {
    /// Whether this connector supports incoming webhooks.
    spec fn webhooks_supported(&self) -> bool;

    fn get_webhook_object_reference_id(&self, body: &[u8]) -> (r: Result<String, ConnectorError>)
        ensures
            !self.webhooks_supported() ==> (r matches Err(e) && e@
                == ConnectorErrorView::WebhooksNotImplemented),
    ;

    fn get_webhook_event_type(&self, body: &[u8]) -> (r: Result<
        IncomingWebhookEvent,
        ConnectorError,
    >)
        ensures
            !self.webhooks_supported() ==> (r matches Err(e) && e@
                == ConnectorErrorView::WebhooksNotImplemented),
    ;

    fn get_webhook_resource_object(&self, body: &[u8]) -> (r: Result<Vec<u8>, ConnectorError>)
        ensures
            !self.webhooks_supported() ==> (r matches Err(e) && e@
                == ConnectorErrorView::WebhooksNotImplemented),
    ;
}

/// The redirect-callback capability: what to do with raw query parameters
/// from a redirect. The default posture of a connector is to trigger the
/// connector call.
pub trait ConnectorRedirectResponse where Self: Sized {
    /// The action owed for given query parameters.
    spec fn flow_type_spec(&self, query_params: Seq<char>) -> Result<
        CallConnectorAction,
        ConnectorErrorView,
    >;

    fn get_flow_type(&self, query_params: &str) -> (r: Result<CallConnectorAction, ConnectorError>)
        ensures
            (match (r, self.flow_type_spec(query_params@)) {
                (Ok(a), Ok(sa)) => a == sa,
                (Err(e), Err(se)) => e@ == se,
                _ => false,
            }),
    ;
}

/// Marker capability: the connector handles payments.
pub trait Payment {

}

/// Marker capability: the connector handles pre-verification.
pub trait PreVerify {

}

/// Marker capability: the connector voids payments.
pub trait PaymentVoid {

}

/// Marker capability: the connector synchronizes payments.
pub trait PaymentSync {

}

/// Marker capability: the connector captures payments.
pub trait PaymentCapture {

}

/// Marker capability: the connector offers sessions.
pub trait PaymentSession {

}

/// Marker capability: the connector authorizes payments.
pub trait PaymentAuthorize {

}

/// Marker capability: the connector handles refunds.
pub trait Refund {

}

/// Marker capability: the connector executes refunds.
pub trait RefundExecute {

}

/// Marker capability: the connector synchronizes refunds.
pub trait RefundSync {

}

} // verus!
