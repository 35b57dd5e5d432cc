//! The error taxonomy of the adapter and the canonical error-response shape
//! every connector's error path is normalized into.

use vstd::prelude::*;

verus! {

/// The capability a connector was asked for and does not offer.
#[derive(Clone, Copy, Debug, PartialEq, Eq, Structural)]
pub enum Feature {
    PaymentMethods,
    SessionFlow,
    VerifyFlow,
}

impl Feature {
    /// Human-readable name of the missing capability, as it is surfaced to
    /// the orchestration engine.
    pub fn text(&self) -> (r: String)
        ensures
            *self == Feature::PaymentMethods ==> r@ == "Payment methods"@,
            *self == Feature::SessionFlow ==> r@ == "Session flow"@,
            *self == Feature::VerifyFlow ==> r@ == "Verify flow"@,
    {
        match self {
            Feature::PaymentMethods => "Payment methods".to_owned(),
            Feature::SessionFlow => "Session flow".to_owned(),
            Feature::VerifyFlow => "Verify flow".to_owned(),
        }
    }
}

/// A structural/integration failure of one adapter step.
///
/// `ResponseDeserializationFailed` keeps the raw bytes that could not be
/// decoded, so the failure stays diagnosable downstream.
#[derive(Clone, Debug)]
pub enum ConnectorError {
    NotImplemented(Feature),
    FailedToObtainAuthType,
    RequestEncodingFailed,
    ResponseDeserializationFailed(Vec<u8>),
    ResponseHandlingFailed,
    MissingConnectorTransactionID,
    WebhooksNotImplemented,
}

/// Mathematical image of a `ConnectorError`: the same tag, with retained
/// bytes abstracted to a sequence.
pub enum ConnectorErrorView {
    NotImplemented(Feature),
    FailedToObtainAuthType,
    RequestEncodingFailed,
    ResponseDeserializationFailed(Seq<u8>),
    ResponseHandlingFailed,
    MissingConnectorTransactionID,
    WebhooksNotImplemented,
}

impl View for ConnectorError {
    type V = ConnectorErrorView;

    open spec fn view(&self) -> ConnectorErrorView {
        match self {
            ConnectorError::NotImplemented(f) => ConnectorErrorView::NotImplemented(*f),
            ConnectorError::FailedToObtainAuthType => ConnectorErrorView::FailedToObtainAuthType,
            ConnectorError::RequestEncodingFailed => ConnectorErrorView::RequestEncodingFailed,
            ConnectorError::ResponseDeserializationFailed(b) => (
                ConnectorErrorView::ResponseDeserializationFailed(b@)
            ),
            ConnectorError::ResponseHandlingFailed => ConnectorErrorView::ResponseHandlingFailed,
            ConnectorError::MissingConnectorTransactionID => (
                ConnectorErrorView::MissingConnectorTransactionID
            ),
            ConnectorError::WebhooksNotImplemented => ConnectorErrorView::WebhooksNotImplemented,
        }
    }
}

/// The canonical error response every connector's error bytes normalize
/// into: code and message are mandatory, the reason is optional.
#[derive(Clone, Debug)]
pub struct ErrorResponse {
    pub code: String,
    pub message: String,
    pub reason: Option<String>,
}

/// Mathematical image of an `ErrorResponse`.
pub struct ErrorResponseView {
    pub code: Seq<char>,
    pub message: Seq<char>,
    pub reason: Option<Seq<char>>,
}

impl View for ErrorResponse {
    type V = ErrorResponseView;

    open spec fn view(&self) -> ErrorResponseView {
        ErrorResponseView {
            code: self.code@,
            message: self.message@,
            reason: match self.reason {
                Some(ref r) => Some(r@),
                None => None,
            },
        }
    }
}

impl PartialEq for ErrorResponse {
    fn eq(&self, other: &ErrorResponse) -> (r: bool) {
        let code_eq = self.code == other.code;
        let message_eq = self.message == other.message;
        let reason_eq = match (&self.reason, &other.reason) {
            (Some(a), Some(b)) => a.eq(b),
            (None, None) => true,
            _ => false,
        };
        code_eq && message_eq && reason_eq
    }
}

impl vstd::std_specs::cmp::PartialEqSpecImpl for ErrorResponse {
    open spec fn obeys_eq_spec() -> bool {
        true
    }

    open spec fn eq_spec(&self, other: &ErrorResponse) -> bool {
        self@.code == other@.code && self@.message == other@.message && self@.reason
            == other@.reason
    }
}

} // verus!
