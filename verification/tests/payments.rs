use fib_payments::http::{HttpMethod, PlanBody, RequestPlan};
use fib_payments::models::{
    interpret_payment_status, parse_payment_status, CreatePaymentRequest, DecimalAmount,
    MonetaryValue, PaymentStatus, RawPaymentStatus,
};
use fib_payments::{Error, FibClient, FibConfig, FibPaymentRepository, PaymentRepository};

fn config() -> FibConfig {
    FibConfig::new(
        "https://fib.example.com".to_string(),
        "my-client".to_string(),
        "my-secret".to_string(),
        None,
        None,
        None,
    )
}

#[test]
fn config_fills_documented_defaults() {
    let cfg = config();
    assert_eq!(cfg.refundable_for, "P7D");
    assert_eq!(cfg.currency, "IQD");
    let explicit = FibConfig::new(
        "https://fib.example.com".to_string(),
        "id".to_string(),
        "secret".to_string(),
        Some("https://cb.example.com/hook".to_string()),
        Some("P30D".to_string()),
        Some("USD".to_string()),
    );
    assert_eq!(explicit.refundable_for, "P30D");
    assert_eq!(explicit.currency, "USD");
    assert_eq!(
        explicit.callback_url,
        Some("https://cb.example.com/hook".to_string())
    );
}

#[test]
fn derived_endpoints_resolve_against_the_base() {
    let cfg = config();
    assert_eq!(
        cfg.auth_url().unwrap(),
        "https://fib.example.com/auth/realms/fib-online-shop/protocol/openid-connect/token"
    );
    assert_eq!(cfg.api_url().unwrap(), "https://fib.example.com/protected/v1/");
}

#[test]
fn create_payment_posts_the_defaulted_body() {
    // Creating a payment of 1000.0 IQD with every optional left out.
    let client = FibClient::new(config());
    let amount = DecimalAmount { mantissa: 10000, scale: 1 };
    let plan = client
        .create_payment("tok-123", amount, None, None, None, None)
        .expect("a valid base URL must yield a plan");
    assert_eq!(plan.method, HttpMethod::Post);
    assert_eq!(plan.url, "https://fib.example.com/protected/v1/payments");
    assert_eq!(plan.headers.len(), 3);
    assert_eq!(plan.headers[0].0, "Authorization");
    assert_eq!(plan.headers[0].1, "Bearer tok-123");
    assert_eq!(plan.headers[1].0, "Content-Type");
    assert_eq!(plan.headers[1].1, "application/json");
    assert_eq!(plan.headers[2].0, "User-Agent");
    assert_eq!(plan.headers[2].1, "FibPaymentsSDK-Rust");
    match plan.body {
        PlanBody::PaymentJson(req) => {
            assert_eq!(req.monetary_value.amount, DecimalAmount { mantissa: 10000, scale: 1 });
            assert_eq!(req.monetary_value.currency, "IQD");
            assert_eq!(req.status_callback_url, None);
            assert_eq!(req.description, None);
            assert_eq!(req.refundable_for, "P7D");
        }
        _ => panic!("a creation carries the payment body"),
    }
}

#[test]
fn create_payment_keeps_caller_supplied_values() {
    let client = FibClient::new(config());
    let amount = DecimalAmount { mantissa: 250, scale: 2 };
    let plan = client
        .create_payment(
            "tok",
            amount,
            Some("USD".to_string()),
            Some("https://cb.example.com/hook".to_string()),
            Some("coffee".to_string()),
            Some("P1D".to_string()),
        )
        .unwrap();
    match plan.body {
        PlanBody::PaymentJson(req) => {
            assert_eq!(req.monetary_value.currency, "USD");
            assert_eq!(
                req.status_callback_url,
                Some("https://cb.example.com/hook".to_string())
            );
            assert_eq!(req.description, Some("coffee".to_string()));
            assert_eq!(req.refundable_for, "P1D");
        }
        _ => panic!("a creation carries the payment body"),
    }
}

#[test]
fn status_poll_is_a_get_on_the_status_path() {
    let client = FibClient::new(config());
    let plan = client.get_payment_status("tok", "abc123").unwrap();
    assert_eq!(plan.method, HttpMethod::Get);
    assert_eq!(
        plan.url,
        "https://fib.example.com/protected/v1/payments/abc123/status"
    );
    assert!(matches!(plan.body, PlanBody::Empty));
}

#[test]
fn refund_and_cancel_are_posts_on_their_paths() {
    let client = FibClient::new(config());
    let refund = client.refund_payment("tok", "abc123").unwrap();
    assert_eq!(refund.method, HttpMethod::Post);
    assert_eq!(
        refund.url,
        "https://fib.example.com/protected/v1/payments/abc123/refund"
    );
    assert!(matches!(refund.body, PlanBody::Empty));
    let cancel = client.cancel_payment("tok", "abc123").unwrap();
    assert_eq!(cancel.method, HttpMethod::Post);
    assert_eq!(
        cancel.url,
        "https://fib.example.com/protected/v1/payments/abc123/cancel"
    );
    assert!(matches!(cancel.body, PlanBody::Empty));
}

#[test]
fn paid_status_report_interprets_to_paid() {
    let raw = RawPaymentStatus {
        payment_id: "abc123".to_string(),
        status: "PAID".to_string(),
        paid_at: Some("2024-05-01T10:00:00Z".to_string()),
        amount: MonetaryValue {
            amount: DecimalAmount { mantissa: 10000, scale: 1 },
            currency: "IQD".to_string(),
        },
        declining_reason: None,
        declined_at: None,
        paid_by: None,
    };
    let report = interpret_payment_status(raw).expect("PAID is a known status");
    assert_eq!(report.payment_id, "abc123");
    assert_eq!(report.status, PaymentStatus::Paid);
    assert!(report.paid_at.is_some());
    assert_eq!(report.paid_at, Some("2024-05-01T10:00:00Z".to_string()));
    assert_eq!(report.amount.currency, "IQD");
}

#[test]
fn unknown_status_is_a_serialization_failure() {
    let raw = RawPaymentStatus {
        payment_id: "abc123".to_string(),
        status: "SOMETHING_ELSE".to_string(),
        paid_at: None,
        amount: MonetaryValue {
            amount: DecimalAmount { mantissa: 0, scale: 0 },
            currency: "IQD".to_string(),
        },
        declining_reason: None,
        declined_at: None,
        paid_by: None,
    };
    match interpret_payment_status(raw) {
        Err(Error::Serialization(m)) => {
            assert_eq!(m, "unknown payment status: SOMETHING_ELSE")
        }
        _ => panic!("an unknown status must fail as a serialization error"),
    }
}

/// A test double for the repository interface: it answers every operation
/// with a canned plan against a fixed host, as a stub back end would.
struct StubRepository;

impl PaymentRepository for StubRepository {
    fn spec_config(&self) -> FibConfig {
        FibConfig::new(
            "https://stub.example.com".to_string(),
            "stub".to_string(),
            "stub".to_string(),
            None,
            None,
            None,
        )
    }

    fn create_payment(
        &self,
        _token: &str,
        request: CreatePaymentRequest,
    ) -> Result<RequestPlan, Error> {
        Ok(RequestPlan {
            method: HttpMethod::Post,
            url: "https://stub.example.com/protected/v1/payments".to_string(),
            headers: Vec::new(),
            body: PlanBody::PaymentJson(request),
        })
    }

    fn get_payment_status(&self, _token: &str, payment_id: &str) -> Result<RequestPlan, Error> {
        Ok(RequestPlan {
            method: HttpMethod::Get,
            url: format!("https://stub.example.com/protected/v1/payments/{}/status", payment_id),
            headers: Vec::new(),
            body: PlanBody::Empty,
        })
    }

    fn refund_payment(&self, _token: &str, _payment_id: &str) -> Result<RequestPlan, Error> {
        Err(Error::Api("refunds are not stubbed".to_string()))
    }

    fn cancel_payment(&self, _token: &str, _payment_id: &str) -> Result<RequestPlan, Error> {
        Err(Error::Api("cancellations are not stubbed".to_string()))
    }
}

fn plan_status_poll<R: PaymentRepository>(repo: &R, id: &str) -> Result<RequestPlan, Error> {
    repo.get_payment_status("tok", id)
}

#[test]
fn the_interface_admits_a_test_double() {
    let stub = StubRepository;
    let plan = plan_status_poll(&stub, "abc123").unwrap();
    assert_eq!(plan.method, HttpMethod::Get);
    assert_eq!(plan.url, "https://stub.example.com/protected/v1/payments/abc123/status");
    let production = FibPaymentRepository::new(config());
    let plan = plan_status_poll(&production, "abc123").unwrap();
    assert_eq!(plan.url, "https://fib.example.com/protected/v1/payments/abc123/status");
}

#[test]
fn every_status_parses_from_its_wire_spelling() {
    let all = [
        (PaymentStatus::Unpaid, "UNPAID"),
        (PaymentStatus::Paid, "PAID"),
        (PaymentStatus::RefundRequested, "REFUND_REQUESTED"),
        (PaymentStatus::RefundInProgress, "REFUND_IN_PROGRESS"),
        (PaymentStatus::Refunded, "REFUNDED"),
        (PaymentStatus::Declined, "DECLINED"),
    ];
    for (status, wire) in all {
        assert_eq!(status.wire_name(), wire);
        assert_eq!(parse_payment_status(wire), Some(status));
    }
    assert_eq!(parse_payment_status("paid"), None);
    assert_eq!(parse_payment_status(""), None);
}
