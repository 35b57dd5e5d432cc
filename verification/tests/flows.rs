use std::marker::PhantomData;

use connector_adapter::enums::{AttemptStatus, CaptureMethod, Currency, PaymentMethod, RefundStatus};
use connector_adapter::errors::{ConnectorError, Feature};
use connector_adapter::masked::{CardNumber, Masked};
use connector_adapter::payu::Payu;
use connector_adapter::services::{
    CallConnectorAction, ConnectorCommon, ConnectorIntegration, ConnectorRedirectResponse,
    Connectors, ConnectorParams, IncomingWebhook, Method, RequestBuilder,
};
use connector_adapter::types::{
    Authorize, Capture, Card, ConnectorAuthType, Execute, PSync, PaymentMethodData,
    PaymentsAuthorizeData, PaymentsAuthorizeRouterData, PaymentsCancelData,
    PaymentsCancelRouterData, PaymentsCaptureData, PaymentsCaptureRouterData,
    PaymentsResponseData, PaymentsSessionData, PaymentsSyncData, PaymentsSyncRouterData, RSync,
    RefundsData, RefundsResponseData, RefundsRouterData, Response, ResponseId, RouterData, Session,
    Void,
};

fn test_card() -> Card {
    Card {
        card_number: CardNumber::new("4111111111111111".to_string()),
        card_exp_month: Masked::new("10".to_string()),
        card_exp_year: Masked::new("2027".to_string()),
        card_cvc: Masked::new("123".to_string()),
    }
}

fn connectors() -> Connectors {
    Connectors { payu: ConnectorParams { base_url: "https://secure.payu.example/".to_string() } }
}

fn authorize_envelope(
    pmd: PaymentMethodData,
    capture_method: Option<CaptureMethod>,
) -> PaymentsAuthorizeRouterData {
    RouterData {
        flow: PhantomData,
        merchant_id: "merchant_1".to_string(),
        connector: "payu".to_string(),
        payment_id: "pay_1".to_string(),
        attempt_id: Some("att_1".to_string()),
        status: AttemptStatus::Started,
        return_url: None,
        connector_auth_type: ConnectorAuthType::HeaderKey {
            api_key: Masked::new("SECRET-REDACTED".to_string()),
        },
        payment_method: PaymentMethod::Card,
        description: Some("flow test".to_string()),
        amount_captured: None,
        connector_metadata: None,
        request: PaymentsAuthorizeData {
            amount: 1000,
            currency: Currency::Usd,
            payment_method_data: pmd,
            capture_method,
        },
        response: Err(connector_adapter::errors::ErrorResponse {
            code: "none".to_string(),
            message: "not yet called".to_string(),
            reason: None,
        }),
    }
}

fn refund_envelope() -> RefundsRouterData<Execute> {
    RouterData {
        flow: PhantomData,
        merchant_id: "merchant_1".to_string(),
        connector: "payu".to_string(),
        payment_id: "pay_1".to_string(),
        attempt_id: Some("att_1".to_string()),
        status: AttemptStatus::Charged,
        return_url: None,
        connector_auth_type: ConnectorAuthType::HeaderKey {
            api_key: Masked::new("SECRET-REDACTED".to_string()),
        },
        payment_method: PaymentMethod::Card,
        description: None,
        amount_captured: Some(1000),
        connector_metadata: None,
        request: RefundsData {
            refund_id: "ref_1".to_string(),
            connector_transaction_id: "TXN1".to_string(),
            refund_amount: 1000,
            currency: Currency::Usd,
        },
        response: Err(connector_adapter::errors::ErrorResponse {
            code: "none".to_string(),
            message: "not yet called".to_string(),
            reason: None,
        }),
    }
}

#[test]
fn authorize_card_auto_capture_end_to_end() {
    let payu = Payu;
    let conn = connectors();
    let env = authorize_envelope(PaymentMethodData::Card(test_card()), Some(CaptureMethod::Automatic));

    let body = <Payu as ConnectorIntegration<Authorize, PaymentsAuthorizeData, PaymentsResponseData>>::get_request_body(&payu, &env)
        .expect("card authorize must build a body")
        .expect("authorize carries a body");
    assert_eq!(
        body,
        "{\"amount\":1000,\"card\":{\"number\":\"4111111111111111\",\"expiry_month\":\"10\",\"expiry_year\":\"2027\",\"cvc\":\"123\",\"complete\":true}}"
    );

    let request = <Payu as ConnectorIntegration<Authorize, PaymentsAuthorizeData, PaymentsResponseData>>::build_request(&payu, &env, &conn)
        .expect("request assembly succeeds")
        .expect("authorize builds a request");
    assert_eq!(request.method, Method::Post);
    assert_eq!(request.url, "https://secure.payu.example/v2_1/orders");
    assert_eq!(request.headers.len(), 2);
    assert_eq!(request.headers[0].0, "Content-Type");
    assert_eq!(request.headers[0].1, "application/json");
    assert_eq!(request.headers[1].0, "Authorization");
    assert_eq!(request.headers[1].1, "SECRET-REDACTED");

    let reply = Response { status_code: 200, response: b"{\"status\":\"succeeded\",\"id\":\"TXN1\"}".to_vec() };
    let updated = <Payu as ConnectorIntegration<Authorize, PaymentsAuthorizeData, PaymentsResponseData>>::handle_response(&payu, env, reply)
        .expect("a well-formed reply folds into the envelope");
    assert_eq!(updated.status, AttemptStatus::Charged);
    assert_eq!(updated.merchant_id, "merchant_1");
    assert_eq!(updated.payment_id, "pay_1");
    match updated.response {
        Ok(PaymentsResponseData::TransactionResponse { resource_id, redirection_data, mandate_reference, .. }) => {
            match resource_id {
                ResponseId::ConnectorTransactionId(id) => assert_eq!(id, "TXN1"),
                _ => panic!("expected a connector transaction id"),
            }
            assert!(redirection_data.is_none());
            assert!(mandate_reference.is_none());
        }
        Err(e) => panic!("expected a success payload, got {e:?}"),
    }
}

#[test]
fn authorize_non_card_is_not_implemented() {
    let payu = Payu;
    let env = authorize_envelope(PaymentMethodData::Wallet, Some(CaptureMethod::Automatic));
    let r = <Payu as ConnectorIntegration<Authorize, PaymentsAuthorizeData, PaymentsResponseData>>::get_request_body(&payu, &env);
    match r {
        Err(ConnectorError::NotImplemented(f)) => assert_eq!(f, Feature::PaymentMethods),
        other => panic!("expected the payment-methods capability gate, got {other:?}"),
    }
    assert_eq!(Feature::PaymentMethods.text(), "Payment methods");
}

#[test]
fn manual_capture_authorize_sets_complete_false() {
    let payu = Payu;
    let env = authorize_envelope(PaymentMethodData::Card(test_card()), Some(CaptureMethod::Manual));
    let body = <Payu as ConnectorIntegration<Authorize, PaymentsAuthorizeData, PaymentsResponseData>>::get_request_body(&payu, &env)
        .unwrap()
        .unwrap();
    assert!(body.ends_with("\"complete\":false}}"));
}

#[test]
fn refund_execute_round_trip_statuses() {
    let payu = Payu;
    let env = refund_envelope();
    let body = <Payu as ConnectorIntegration<Execute, RefundsData, RefundsResponseData>>::get_request_body(&payu, &env)
        .unwrap()
        .unwrap();
    assert_eq!(body, "{\"amount\":1000}");

    let succeeded = Response { status_code: 200, response: b"{\"id\":\"R1\",\"status\":\"succeeded\"}".to_vec() };
    let updated = <Payu as ConnectorIntegration<Execute, RefundsData, RefundsResponseData>>::handle_response(&payu, refund_envelope(), succeeded).unwrap();
    let rr = updated.response.as_ref().unwrap();
    assert_eq!(rr.refund_status, RefundStatus::Success);

    let failed = Response { status_code: 200, response: b"{\"id\":\"R1\",\"status\":\"failed\"}".to_vec() };
    let updated = <Payu as ConnectorIntegration<Execute, RefundsData, RefundsResponseData>>::handle_response(&payu, refund_envelope(), failed).unwrap();
    let rr = updated.response.as_ref().unwrap();
    assert_eq!(rr.connector_refund_id, "R1");
    assert_eq!(rr.refund_status, RefundStatus::Failure);

    let omitted = Response { status_code: 200, response: b"{\"id\":\"R1\"}".to_vec() };
    let updated = <Payu as ConnectorIntegration<Execute, RefundsData, RefundsResponseData>>::handle_response(&payu, refund_envelope(), omitted).unwrap();
    let rr = updated.response.as_ref().unwrap();
    assert_eq!(rr.refund_status, RefundStatus::Pending);
}

#[test]
fn refund_failed_reply_end_to_end() {
    let payu = Payu;
    let reply = Response { status_code: 200, response: b"{\"id\":\"R1\",\"status\":\"failed\"}".to_vec() };
    let updated = <Payu as ConnectorIntegration<Execute, RefundsData, RefundsResponseData>>::handle_response(&payu, refund_envelope(), reply).unwrap();
    assert_eq!(updated.status, AttemptStatus::Charged);
    assert_eq!(updated.merchant_id, "merchant_1");
    let rr = updated.response.unwrap();
    assert_eq!(rr.connector_refund_id, "R1");
    assert_eq!(rr.refund_status, RefundStatus::Failure);
}

#[test]
fn malformed_error_bytes_keep_context() {
    let payu = Payu;
    let bytes = b"definitely not the declared error schema".to_vec();
    let r = payu.build_error_response(bytes.clone());
    match r {
        Err(ConnectorError::ResponseDeserializationFailed(kept)) => assert_eq!(kept, bytes),
        other => panic!("expected a deserialization failure, got {other:?}"),
    }
}

#[test]
fn error_normalizer_is_idempotent_on_identical_bytes() {
    let payu = Payu;
    let bytes = b"{\"status\":{\"status_code\":\"ERR_400\",\"status_desc\":\"card declined\",\"code_literal\":\"DECLINED\"}}".to_vec();
    let first = payu.build_error_response(bytes.clone()).expect("well-formed error bytes normalize");
    let second = payu.build_error_response(bytes).expect("well-formed error bytes normalize");
    assert_eq!(first, second);
    assert_eq!(first.code, "ERR_400");
    assert_eq!(first.message, "card declined");
    assert_eq!(first.reason.as_deref(), Some("DECLINED"));
}

#[test]
fn error_normalizer_without_code_literal_has_no_reason() {
    let payu = Payu;
    let bytes = b"{\"status\":{\"status_code\":\"ERR_500\",\"status_desc\":\"oops\"}}".to_vec();
    let er = payu.build_error_response(bytes).unwrap();
    assert_eq!(er.code, "ERR_500");
    assert_eq!(er.message, "oops");
    assert!(er.reason.is_none());
}

#[test]
fn void_without_transaction_id_is_missing_id() {
    let payu = Payu;
    let conn = connectors();
    let env: PaymentsCancelRouterData = RouterData {
        flow: PhantomData,
        merchant_id: "merchant_1".to_string(),
        connector: "payu".to_string(),
        payment_id: "pay_1".to_string(),
        attempt_id: None,
        status: AttemptStatus::Authorizing,
        return_url: None,
        connector_auth_type: ConnectorAuthType::HeaderKey {
            api_key: Masked::new("SECRET-REDACTED".to_string()),
        },
        payment_method: PaymentMethod::Card,
        description: None,
        amount_captured: None,
        connector_metadata: None,
        request: PaymentsCancelData { connector_transaction_id: None },
        response: Err(connector_adapter::errors::ErrorResponse {
            code: "none".to_string(),
            message: "not yet called".to_string(),
            reason: None,
        }),
    };
    let r = <Payu as ConnectorIntegration<Void, PaymentsCancelData, PaymentsResponseData>>::get_url(&payu, &env, &conn);
    assert!(matches!(r, Err(ConnectorError::MissingConnectorTransactionID)));
    let b = <Payu as ConnectorIntegration<Void, PaymentsCancelData, PaymentsResponseData>>::build_request(&payu, &env, &conn);
    assert!(matches!(b, Err(ConnectorError::MissingConnectorTransactionID)));
}

#[test]
fn void_with_transaction_id_builds_delete_request() {
    let payu = Payu;
    let conn = connectors();
    let env: PaymentsCancelRouterData = RouterData {
        flow: PhantomData,
        merchant_id: "merchant_1".to_string(),
        connector: "payu".to_string(),
        payment_id: "pay_1".to_string(),
        attempt_id: None,
        status: AttemptStatus::Authorizing,
        return_url: None,
        connector_auth_type: ConnectorAuthType::HeaderKey {
            api_key: Masked::new("SECRET-REDACTED".to_string()),
        },
        payment_method: PaymentMethod::Card,
        description: None,
        amount_captured: None,
        connector_metadata: None,
        request: PaymentsCancelData { connector_transaction_id: Some("TXN9".to_string()) },
        response: Err(connector_adapter::errors::ErrorResponse {
            code: "none".to_string(),
            message: "not yet called".to_string(),
            reason: None,
        }),
    };
    let request = <Payu as ConnectorIntegration<Void, PaymentsCancelData, PaymentsResponseData>>::build_request(&payu, &env, &conn)
        .unwrap()
        .unwrap();
    assert_eq!(request.method, Method::Delete);
    assert_eq!(request.url, "https://secure.payu.example/v2_1/orders/TXN9");
    assert!(request.body.is_none());
}

#[test]
fn sync_without_transaction_id_is_missing_id() {
    let payu = Payu;
    let conn = connectors();
    let env: PaymentsSyncRouterData = RouterData {
        flow: PhantomData,
        merchant_id: "merchant_1".to_string(),
        connector: "payu".to_string(),
        payment_id: "pay_1".to_string(),
        attempt_id: None,
        status: AttemptStatus::Authorizing,
        return_url: None,
        connector_auth_type: ConnectorAuthType::HeaderKey {
            api_key: Masked::new("SECRET-REDACTED".to_string()),
        },
        payment_method: PaymentMethod::Card,
        description: None,
        amount_captured: None,
        connector_metadata: None,
        request: PaymentsSyncData { connector_transaction_id: ResponseId::NoResponseId },
        response: Err(connector_adapter::errors::ErrorResponse {
            code: "none".to_string(),
            message: "not yet called".to_string(),
            reason: None,
        }),
    };
    let r = <Payu as ConnectorIntegration<PSync, PaymentsSyncData, PaymentsResponseData>>::get_url(&payu, &env, &conn);
    assert!(matches!(r, Err(ConnectorError::MissingConnectorTransactionID)));
}

#[test]
fn wrong_credential_variant_fails_auth_resolution() {
    let payu = Payu;
    let auth = ConnectorAuthType::BodyKey {
        api_key: Masked::new("SECRET-REDACTED".to_string()),
        key1: Masked::new("SECRET-REDACTED".to_string()),
    };
    let r = payu.get_auth_header(&auth);
    assert!(matches!(r, Err(ConnectorError::FailedToObtainAuthType)));
}

#[test]
fn quoted_card_field_fails_request_encoding() {
    let payu = Payu;
    let card = Card {
        card_number: CardNumber::new("4111\"1111".to_string()),
        card_exp_month: Masked::new("10".to_string()),
        card_exp_year: Masked::new("2027".to_string()),
        card_cvc: Masked::new("123".to_string()),
    };
    let env = authorize_envelope(PaymentMethodData::Card(card), None);
    let r = <Payu as ConnectorIntegration<Authorize, PaymentsAuthorizeData, PaymentsResponseData>>::get_request_body(&payu, &env);
    assert!(matches!(r, Err(ConnectorError::RequestEncodingFailed)));
}

#[test]
fn unsupported_flows_and_webhooks_signal_clearly() {
    let payu = Payu;
    let conn = connectors();
    let env: RouterData<Session, PaymentsSessionData, PaymentsResponseData> = RouterData {
        flow: PhantomData,
        merchant_id: "merchant_1".to_string(),
        connector: "payu".to_string(),
        payment_id: "pay_1".to_string(),
        attempt_id: None,
        status: AttemptStatus::Started,
        return_url: None,
        connector_auth_type: ConnectorAuthType::HeaderKey {
            api_key: Masked::new("SECRET-REDACTED".to_string()),
        },
        payment_method: PaymentMethod::Card,
        description: None,
        amount_captured: None,
        connector_metadata: None,
        request: PaymentsSessionData { amount: 1, currency: Currency::Usd },
        response: Err(connector_adapter::errors::ErrorResponse {
            code: "none".to_string(),
            message: "not yet called".to_string(),
            reason: None,
        }),
    };
    let r = <Payu as ConnectorIntegration<Session, PaymentsSessionData, PaymentsResponseData>>::build_request(&payu, &env, &conn);
    match r {
        Err(ConnectorError::NotImplemented(f)) => assert_eq!(f, Feature::SessionFlow),
        other => panic!("expected a not-implemented signal, got {other:?}"),
    }
    assert!(matches!(
        payu.get_webhook_object_reference_id(b"ignored"),
        Err(ConnectorError::WebhooksNotImplemented)
    ));
    assert!(matches!(
        payu.get_webhook_event_type(b"ignored"),
        Err(ConnectorError::WebhooksNotImplemented)
    ));
    assert!(matches!(
        payu.get_webhook_resource_object(b"ignored"),
        Err(ConnectorError::WebhooksNotImplemented)
    ));
}

#[test]
fn capture_builds_put_request_and_folds_reply() {
    let payu = Payu;
    let conn = connectors();
    let env: PaymentsCaptureRouterData = RouterData {
        flow: PhantomData,
        merchant_id: "merchant_1".to_string(),
        connector: "payu".to_string(),
        payment_id: "pay_1".to_string(),
        attempt_id: None,
        status: AttemptStatus::Authorizing,
        return_url: None,
        connector_auth_type: ConnectorAuthType::HeaderKey {
            api_key: Masked::new("SECRET-REDACTED".to_string()),
        },
        payment_method: PaymentMethod::Card,
        description: None,
        amount_captured: None,
        connector_metadata: None,
        request: PaymentsCaptureData {
            amount_to_capture: 900,
            currency: Currency::Usd,
            connector_transaction_id: "TXN7".to_string(),
        },
        response: Err(connector_adapter::errors::ErrorResponse {
            code: "none".to_string(),
            message: "not yet called".to_string(),
            reason: None,
        }),
    };
    let request = <Payu as ConnectorIntegration<Capture, PaymentsCaptureData, PaymentsResponseData>>::build_request(&payu, &env, &conn)
        .unwrap()
        .unwrap();
    assert_eq!(request.method, Method::Put);
    assert_eq!(request.url, "https://secure.payu.example/v2_1/orders/TXN7/status");
    assert_eq!(request.body.as_deref(), Some("{\"transaction_id\":\"TXN7\",\"amount\":900}"));

    let reply = Response { status_code: 200, response: b"{\"status\":\"succeeded\",\"id\":\"TXN7\"}".to_vec() };
    let updated = <Payu as ConnectorIntegration<Capture, PaymentsCaptureData, PaymentsResponseData>>::handle_response(&payu, env, reply).unwrap();
    assert_eq!(updated.status, AttemptStatus::Charged);
}

#[test]
fn refund_flows_build_the_documented_urls() {
    let payu = Payu;
    let conn = connectors();
    let env = refund_envelope();
    let url = <Payu as ConnectorIntegration<Execute, RefundsData, RefundsResponseData>>::get_url(&payu, &env, &conn).unwrap();
    assert_eq!(url, "https://secure.payu.example/v2_1/orders/TXN1/refund");

    let sync_env: RefundsRouterData<RSync> = RouterData {
        flow: PhantomData,
        merchant_id: "merchant_1".to_string(),
        connector: "payu".to_string(),
        payment_id: "pay_1".to_string(),
        attempt_id: None,
        status: AttemptStatus::Charged,
        return_url: None,
        connector_auth_type: ConnectorAuthType::HeaderKey {
            api_key: Masked::new("SECRET-REDACTED".to_string()),
        },
        payment_method: PaymentMethod::Card,
        description: None,
        amount_captured: Some(1000),
        connector_metadata: None,
        request: RefundsData {
            refund_id: "ref_1".to_string(),
            connector_transaction_id: "TXN1".to_string(),
            refund_amount: 1000,
            currency: Currency::Usd,
        },
        response: Err(connector_adapter::errors::ErrorResponse {
            code: "none".to_string(),
            message: "not yet called".to_string(),
            reason: None,
        }),
    };
    let request = <Payu as ConnectorIntegration<RSync, RefundsData, RefundsResponseData>>::build_request(&payu, &sync_env, &conn)
        .unwrap()
        .unwrap();
    assert_eq!(request.method, Method::Get);
    assert_eq!(request.url, "https://secure.payu.example/v2_1/orders/TXN1/refunds");
    assert!(request.body.is_none());
}

#[test]
fn request_builder_tolerates_missing_parts() {
    let request = RequestBuilder::new().build();
    assert_eq!(request.method, Method::Get);
    assert_eq!(request.url, "");
    assert!(request.headers.is_empty());
    assert!(request.body.is_none());

    let request = RequestBuilder::new()
        .method(Method::Post)
        .url("https://example.invalid/x")
        .body(Some("{}".to_string()))
        .build();
    assert_eq!(request.method, Method::Post);
    assert_eq!(request.url, "https://example.invalid/x");
    assert!(request.headers.is_empty());
    assert_eq!(request.body.as_deref(), Some("{}"));
}

#[test]
fn redirect_response_defaults_to_trigger() {
    let payu = Payu;
    let r = payu.get_flow_type("status=ok&order=1").unwrap();
    assert_eq!(r, CallConnectorAction::Trigger);
}

#[test]
fn connector_identity_and_content_type() {
    let payu = Payu;
    let conn = connectors();
    assert_eq!(payu.id(), "payu");
    assert_eq!(payu.common_get_content_type(), "application/json");
    assert_eq!(payu.base_url(&conn), "https://secure.payu.example/");
}
