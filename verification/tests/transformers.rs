use std::marker::PhantomData;

use connector_adapter::enums;
use connector_adapter::enums::{AttemptStatus, CaptureMethod, Currency, CurrencyUnit, PaymentMethod};
use connector_adapter::errors::{ConnectorError, ErrorResponse, Feature};
use connector_adapter::masked::{CardNumber, Masked};
use connector_adapter::mifinity::transformers::{
    MifinityAuthType, MifinityErrorResponse, MifinityPaymentStatus, MifinityPaymentsRequest,
    MifinityPaymentsResponse, MifinityRefundRequest, MifinityRouterData, RefundResponse,
    RefundStatus,
};
use connector_adapter::types::{
    Card, ConnectorAuthType, Execute, PaymentMethodData, PaymentsAuthorizeData,
    PaymentsAuthorizeRouterData, PaymentsResponseData, RefundsData, RefundsRouterData, ResponseId,
    ResponseRouterData, RouterData,
};

fn test_card() -> Card {
    Card {
        card_number: CardNumber::new("4111111111111111".to_string()),
        card_exp_month: Masked::new("10".to_string()),
        card_exp_year: Masked::new("2027".to_string()),
        card_cvc: Masked::new("123".to_string()),
    }
}

fn authorize_envelope(
    pmd: PaymentMethodData,
    capture_method: Option<CaptureMethod>,
) -> PaymentsAuthorizeRouterData {
    RouterData {
        flow: PhantomData,
        merchant_id: "merchant_1".to_string(),
        connector: "mifinity".to_string(),
        payment_id: "pay_1".to_string(),
        attempt_id: None,
        status: AttemptStatus::Started,
        return_url: None,
        connector_auth_type: ConnectorAuthType::HeaderKey {
            api_key: Masked::new("SECRET-REDACTED".to_string()),
        },
        payment_method: PaymentMethod::Card,
        description: None,
        amount_captured: None,
        connector_metadata: None,
        request: PaymentsAuthorizeData {
            amount: 1000,
            currency: Currency::Usd,
            payment_method_data: pmd,
            capture_method,
        },
        response: Err(ErrorResponse {
            code: "none".to_string(),
            message: "not yet called".to_string(),
            reason: None,
        }),
    }
}

fn refund_envelope() -> RefundsRouterData<Execute> {
    RouterData {
        flow: PhantomData,
        merchant_id: "merchant_1".to_string(),
        connector: "mifinity".to_string(),
        payment_id: "pay_1".to_string(),
        attempt_id: None,
        status: AttemptStatus::Charged,
        return_url: None,
        connector_auth_type: ConnectorAuthType::HeaderKey {
            api_key: Masked::new("SECRET-REDACTED".to_string()),
        },
        payment_method: PaymentMethod::Card,
        description: None,
        amount_captured: Some(1000),
        connector_metadata: None,
        request: RefundsData {
            refund_id: "ref_1".to_string(),
            connector_transaction_id: "TXN1".to_string(),
            refund_amount: 250,
            currency: Currency::Usd,
        },
        response: Err(ErrorResponse {
            code: "none".to_string(),
            message: "not yet called".to_string(),
            reason: None,
        }),
    }
}

#[test]
fn router_data_wrapper_passes_amount_through() {
    let env = authorize_envelope(PaymentMethodData::Card(test_card()), None);
    let wrapped =
        MifinityRouterData::try_from((&CurrencyUnit::Minor, Currency::Usd, 777, &env)).unwrap();
    assert_eq!(wrapped.amount, 777);
    assert_eq!(wrapped.router_data.payment_id, "pay_1");
}

#[test]
fn payments_request_copies_card_verbatim_with_auto_capture() {
    let env = authorize_envelope(PaymentMethodData::Card(test_card()), Some(CaptureMethod::Automatic));
    let wrapped =
        MifinityRouterData::try_from((&CurrencyUnit::Minor, Currency::Usd, 1000, &env)).unwrap();
    let req = MifinityPaymentsRequest::try_from(&wrapped).unwrap();
    assert_eq!(req.amount, 1000);
    assert!(req.card.complete);
    assert_eq!(req.card.number.expose(), "4111111111111111");
    assert_eq!(req.card.expiry_month.expose(), "10");
    assert_eq!(req.card.expiry_year.expose(), "2027");
    assert_eq!(req.card.cvc.expose(), "123");
    let text = req.encode().unwrap();
    assert_eq!(
        text,
        "{\"amount\":1000,\"card\":{\"number\":\"4111111111111111\",\"expiry_month\":\"10\",\"expiry_year\":\"2027\",\"cvc\":\"123\",\"complete\":true}}"
    );
}

#[test]
fn payments_request_absent_capture_method_means_auto() {
    let env = authorize_envelope(PaymentMethodData::Card(test_card()), None);
    let wrapped =
        MifinityRouterData::try_from((&CurrencyUnit::Minor, Currency::Usd, 1000, &env)).unwrap();
    let req = MifinityPaymentsRequest::try_from(&wrapped).unwrap();
    assert!(req.card.complete);
}

#[test]
fn payments_request_rejects_non_card_methods() {
    for pmd in [PaymentMethodData::Wallet, PaymentMethodData::BankRedirect] {
        let env = authorize_envelope(pmd, Some(CaptureMethod::Automatic));
        let wrapped =
            MifinityRouterData::try_from((&CurrencyUnit::Minor, Currency::Usd, 1000, &env)).unwrap();
        let r = MifinityPaymentsRequest::try_from(&wrapped);
        match r {
            Err(ConnectorError::NotImplemented(f)) => assert_eq!(f, Feature::PaymentMethods),
            _ => panic!("expected the payment-methods capability signal"),
        }
    }
}

#[test]
fn auth_type_accepts_header_key_only() {
    let ok = MifinityAuthType::try_from(&ConnectorAuthType::HeaderKey {
        api_key: Masked::new("SECRET-REDACTED".to_string()),
    })
    .unwrap();
    assert_eq!(ok.api_key.expose(), "SECRET-REDACTED");

    let bad = MifinityAuthType::try_from(&ConnectorAuthType::SignatureKey {
        api_key: Masked::new("SECRET-REDACTED".to_string()),
        key1: Masked::new("SECRET-REDACTED".to_string()),
        api_secret: Masked::new("SECRET-REDACTED".to_string()),
    });
    assert!(matches!(bad, Err(ConnectorError::FailedToObtainAuthType)));
}

#[test]
fn attempt_status_translation_table() {
    assert_eq!(AttemptStatus::from(MifinityPaymentStatus::Succeeded), AttemptStatus::Charged);
    assert_eq!(AttemptStatus::from(MifinityPaymentStatus::Failed), AttemptStatus::Failure);
    assert_eq!(AttemptStatus::from(MifinityPaymentStatus::Processing), AttemptStatus::Authorizing);
}

#[test]
fn refund_status_translation_table() {
    assert_eq!(enums::RefundStatus::from(RefundStatus::Succeeded), enums::RefundStatus::Success);
    assert_eq!(enums::RefundStatus::from(RefundStatus::Failed), enums::RefundStatus::Failure);
    assert_eq!(enums::RefundStatus::from(RefundStatus::Processing), enums::RefundStatus::Pending);
}

#[test]
fn payments_response_decodes_and_folds_into_envelope() {
    let decoded =
        MifinityPaymentsResponse::decode(b"{\"status\":\"succeeded\",\"id\":\"TXN1\"}".to_vec())
            .unwrap();
    assert_eq!(decoded.status, MifinityPaymentStatus::Succeeded);
    assert_eq!(decoded.id, "TXN1");

    let env = authorize_envelope(PaymentMethodData::Card(test_card()), None);
    let updated = PaymentsAuthorizeRouterData::try_from(ResponseRouterData {
        response: decoded,
        data: env,
        http_code: 200,
    })
    .unwrap();
    assert_eq!(updated.status, AttemptStatus::Charged);
    assert_eq!(updated.merchant_id, "merchant_1");
    match updated.response.unwrap() {
        PaymentsResponseData::TransactionResponse { resource_id, connector_metadata, .. } => {
            assert!(matches!(resource_id, ResponseId::ConnectorTransactionId(id) if id == "TXN1"));
            assert!(connector_metadata.is_none());
        }
    }
}

#[test]
fn payments_response_with_unknown_status_stays_in_flight() {
    let decoded =
        MifinityPaymentsResponse::decode(b"{\"status\":\"challenged\",\"id\":\"T2\"}".to_vec())
            .unwrap();
    assert_eq!(decoded.status, MifinityPaymentStatus::Processing);
    let decoded = MifinityPaymentsResponse::decode(b"{\"id\":\"T3\"}".to_vec()).unwrap();
    assert_eq!(decoded.status, MifinityPaymentStatus::Processing);
    assert_eq!(AttemptStatus::from(decoded.status), AttemptStatus::Authorizing);
}

#[test]
fn refund_request_carries_amount_only() {
    let env = refund_envelope();
    let wrapped =
        MifinityRouterData::try_from((&CurrencyUnit::Minor, Currency::Usd, 250, &env)).unwrap();
    let req = MifinityRefundRequest::try_from(&wrapped).unwrap();
    assert_eq!(req.amount, 250);
    assert_eq!(req.encode(), "{\"amount\":250}");
}

#[test]
fn refund_response_round_trip_by_status() {
    let succeeded = RefundResponse::decode(b"{\"id\":\"R1\",\"status\":\"succeeded\"}".to_vec()).unwrap();
    assert_eq!(enums::RefundStatus::from(succeeded.status), enums::RefundStatus::Success);

    let failed = RefundResponse::decode(b"{\"id\":\"R1\",\"status\":\"failed\"}".to_vec()).unwrap();
    assert_eq!(failed.id, "R1");
    assert_eq!(enums::RefundStatus::from(failed.status), enums::RefundStatus::Failure);

    let omitted = RefundResponse::decode(b"{\"id\":\"R1\"}".to_vec()).unwrap();
    assert_eq!(enums::RefundStatus::from(omitted.status), enums::RefundStatus::Pending);

    let env = refund_envelope();
    let updated = RefundsRouterData::<Execute>::try_from(ResponseRouterData {
        response: failed,
        data: env,
        http_code: 200,
    })
    .unwrap();
    assert_eq!(updated.status, AttemptStatus::Charged);
    let rr = updated.response.unwrap();
    assert_eq!(rr.connector_refund_id, "R1");
    assert_eq!(rr.refund_status, enums::RefundStatus::Failure);
}

#[test]
fn error_response_decodes_all_fields() {
    let er = MifinityErrorResponse::decode(
        b"{\"status_code\":400,\"code\":\"E_CARD\",\"message\":\"card declined\",\"reason\":\"insufficient funds\"}"
            .to_vec(),
    )
    .unwrap();
    assert_eq!(er.status_code, 400);
    assert_eq!(er.code, "E_CARD");
    assert_eq!(er.message, "card declined");
    assert_eq!(er.reason.as_deref(), Some("insufficient funds"));

    let no_reason = MifinityErrorResponse::decode(
        b"{\"status_code\":65535,\"code\":\"E\",\"message\":\"m\"}".to_vec(),
    )
    .unwrap();
    assert_eq!(no_reason.status_code, 65535);
    assert!(no_reason.reason.is_none());
}

#[test]
fn amount_framing_handles_extreme_values() {
    assert_eq!(MifinityRefundRequest { amount: -45 }.encode(), "{\"amount\":-45}");
    assert_eq!(MifinityRefundRequest { amount: 0 }.encode(), "{\"amount\":0}");
    assert_eq!(
        MifinityRefundRequest { amount: i64::MIN }.encode(),
        "{\"amount\":-9223372036854775808}"
    );
    assert_eq!(
        MifinityRefundRequest { amount: i64::MAX }.encode(),
        "{\"amount\":9223372036854775807}"
    );
}

#[test]
fn error_response_tolerates_leading_zero_status_code() {
    let er = MifinityErrorResponse::decode(
        b"{\"status_code\":007,\"code\":\"E\",\"message\":\"m\"}".to_vec(),
    )
    .unwrap();
    assert_eq!(er.status_code, 7);
}

#[test]
fn error_response_rejects_oversized_status_code() {
    let bytes = b"{\"status_code\":65536,\"code\":\"E\",\"message\":\"m\"}".to_vec();
    let r = MifinityErrorResponse::decode(bytes.clone());
    match r {
        Err(ConnectorError::ResponseDeserializationFailed(kept)) => assert_eq!(kept, bytes),
        other => panic!("expected a deserialization failure, got {other:?}"),
    }
}

#[test]
fn decode_rejects_malformed_and_non_utf8_bodies() {
    for bytes in [
        b"".to_vec(),
        b"{}".to_vec(),
        b"{\"id\":\"unterminated}".to_vec(),
        b"{\"id\":\"back\\\\slash\"}".to_vec(),
        vec![0xff, 0xfe, 0x01],
    ] {
        let r = RefundResponse::decode(bytes.clone());
        match r {
            Err(ConnectorError::ResponseDeserializationFailed(kept)) => assert_eq!(kept, bytes),
            other => panic!("expected a deserialization failure, got {other:?}"),
        }
    }
}

#[test]
fn get_connector_transaction_id_by_variant() {
    let id = ResponseId::ConnectorTransactionId("TXN4".to_string());
    assert_eq!(id.get_connector_transaction_id().unwrap(), "TXN4");
    let missing = ResponseId::NoResponseId.get_connector_transaction_id();
    assert!(matches!(missing, Err(ConnectorError::MissingConnectorTransactionID)));
    let encoded = ResponseId::EncodedData("blob".to_string()).get_connector_transaction_id();
    assert!(matches!(encoded, Err(ConnectorError::MissingConnectorTransactionID)));
}
