use vstd::prelude::*;
use vstd::string::StringExecFns;
use crate::error::Error;

verus! {

broadcast use vstd::string::group_string_axioms;

/// A decimal monetary amount, `mantissa / 10^scale`.
///
/// The client never computes with amounts; it forwards what the caller
/// supplied and reports what the service returned, so an exact decimal pair
/// is all it has to carry.
#[derive(Clone, Copy, PartialEq, Eq, Structural, Debug)]
pub struct DecimalAmount {
    pub mantissa: u64,
    pub scale: u8,
}

/// An amount together with its currency code.
#[derive(Debug)]
pub struct MonetaryValue {
    pub amount: DecimalAmount,
    pub currency: String,
}

/// The body of a payment-creation call.
#[derive(Debug)]
pub struct CreatePaymentRequest {
    pub monetary_value: MonetaryValue,
    pub status_callback_url: Option<String>,
    pub description: Option<String>,
    pub refundable_for: String,
}

/// What the service returns for a created (or refunded, or cancelled)
/// payment. Timestamps are carried as the wire text.
#[derive(Debug)]
pub struct PaymentResponse {
    pub payment_id: String,
    pub readable_code: String,
    pub qr_code: String,
    pub valid_until: String,
    pub personal_app_link: String,
    pub business_app_link: String,
    pub corporate_app_link: String,
}

/// Who paid, as reported by the service.
#[derive(Debug)]
pub struct PaidBy {
    pub name: String,
    pub iban: String,
}

/// Remote-service payment state. The client never transitions this value
/// itself; it only reports what the service said.
#[derive(Clone, Copy, PartialEq, Eq, Structural, Debug)]
pub enum PaymentStatus {
    Unpaid,
    Paid,
    RefundRequested,
    RefundInProgress,
    Refunded,
    Declined,
}

/// The status report for one payment.
#[derive(Debug)]
pub struct PaymentStatusResponse {
    pub payment_id: String,
    pub status: PaymentStatus,
    pub paid_at: Option<String>,
    pub amount: MonetaryValue,
    pub declining_reason: Option<String>,
    pub declined_at: Option<String>,
    pub paid_by: Option<PaidBy>,
}

/// A status report as it stands on the wire, before the status text has been
/// checked against the known states.
#[derive(Debug)]
pub struct RawPaymentStatus {
    pub payment_id: String,
    pub status: String,
    pub paid_at: Option<String>,
    pub amount: MonetaryValue,
    pub declining_reason: Option<String>,
    pub declined_at: Option<String>,
    pub paid_by: Option<PaidBy>,
}

/// One entry of a structured error body.
#[derive(Debug)]
pub struct ApiError {
    pub code: String,
    pub title: String,
    pub detail: String,
}

/// The structured error body the service sends with non-2xx responses.
#[derive(Debug)]
pub struct ApiErrorResponse {
    pub trace_id: String,
    pub errors: Vec<ApiError>,
}

/// The body of a successful client-credentials exchange.
#[derive(Debug)]
pub struct TokenResponse {
    pub access_token: String,
    pub token_type: String,
    pub expires_in: i32,
}

/// The wire spelling of each payment status.
pub open spec fn spec_status_wire_name(s: PaymentStatus) -> Seq<char> {
    match s {
        PaymentStatus::Unpaid => "UNPAID"@,
        PaymentStatus::Paid => "PAID"@,
        PaymentStatus::RefundRequested => "REFUND_REQUESTED"@,
        PaymentStatus::RefundInProgress => "REFUND_IN_PROGRESS"@,
        PaymentStatus::Refunded => "REFUNDED"@,
        PaymentStatus::Declined => "DECLINED"@,
    }
}

/// Which payment status a wire string denotes, if any.
pub open spec fn spec_parse_payment_status(s: Seq<char>) -> Option<PaymentStatus> {
    if s == "UNPAID"@ {
        Some(PaymentStatus::Unpaid)
    } else if s == "PAID"@ {
        Some(PaymentStatus::Paid)
    } else if s == "REFUND_REQUESTED"@ {
        Some(PaymentStatus::RefundRequested)
    } else if s == "REFUND_IN_PROGRESS"@ {
        Some(PaymentStatus::RefundInProgress)
    } else if s == "REFUNDED"@ {
        Some(PaymentStatus::Refunded)
    } else if s == "DECLINED"@ {
        Some(PaymentStatus::Declined)
    } else {
        None
    }
}

fn str_eq(a: &str, b: &str) -> (r: bool)
    ensures
        r == (a@ == b@),
{
    let sa: String = a.to_owned();
    let sb: String = b.to_owned();
    sa == sb
}

impl PaymentStatus {
    /// The spelling this status has on the wire.
    pub fn wire_name(&self) -> (r: &'static str)
        ensures
            r@ == spec_status_wire_name(*self),
    {
        match self {
            PaymentStatus::Unpaid => "UNPAID",
            PaymentStatus::Paid => "PAID",
            PaymentStatus::RefundRequested => "REFUND_REQUESTED",
            PaymentStatus::RefundInProgress => "REFUND_IN_PROGRESS",
            PaymentStatus::Refunded => "REFUNDED",
            PaymentStatus::Declined => "DECLINED",
        }
    }
}

/// Maps a wire status string to the status it denotes; `None` for anything
/// outside the closed set of states.
pub fn parse_payment_status(s: &str) -> (r: Option<PaymentStatus>)
    ensures
        r == spec_parse_payment_status(s@),
{
    if str_eq(s, "UNPAID") {
        Some(PaymentStatus::Unpaid)
    } else if str_eq(s, "PAID") {
        Some(PaymentStatus::Paid)
    } else if str_eq(s, "REFUND_REQUESTED") {
        Some(PaymentStatus::RefundRequested)
    } else if str_eq(s, "REFUND_IN_PROGRESS") {
        Some(PaymentStatus::RefundInProgress)
    } else if str_eq(s, "REFUNDED") {
        Some(PaymentStatus::Refunded)
    } else if str_eq(s, "DECLINED") {
        Some(PaymentStatus::Declined)
    } else {
        None
    }
}

/// The two wire mappings invert each other: every status parses back from its
/// own wire spelling.
pub proof fn lemma_status_wire_round_trip(s: PaymentStatus)
    ensures
        spec_parse_payment_status(spec_status_wire_name(s)) == Some(s),
{
    reveal_strlit("UNPAID");
    reveal_strlit("PAID");
    reveal_strlit("REFUND_REQUESTED");
    reveal_strlit("REFUND_IN_PROGRESS");
    reveal_strlit("REFUNDED");
    reveal_strlit("DECLINED");
    assert("UNPAID"@.len() == 6);
    assert("PAID"@.len() == 4);
    assert("REFUND_REQUESTED"@.len() == 16);
    assert("REFUND_IN_PROGRESS"@.len() == 18);
    assert("REFUNDED"@.len() == 8);
    assert("DECLINED"@.len() == 8);
    assert("DECLINED"@ != "REFUNDED"@) by {
        assert("DECLINED"@[0] == 'D' && "REFUNDED"@[0] == 'R');
    }
}

/// Checks the status text of a wire report against the known states: a known
/// status yields the typed report with every other field carried over
/// unchanged, an unknown one is a deserialization failure naming the text.
pub fn interpret_payment_status(raw: RawPaymentStatus) -> (r: Result<
    PaymentStatusResponse,
    Error,
>)
    ensures
        match spec_parse_payment_status(raw.status@) {
            Some(st) => r matches Ok(p) && p == (PaymentStatusResponse {
                payment_id: raw.payment_id,
                status: st,
                paid_at: raw.paid_at,
                amount: raw.amount,
                declining_reason: raw.declining_reason,
                declined_at: raw.declined_at,
                paid_by: raw.paid_by,
            }),
            None => r matches Err(e) && e matches Error::Serialization(m) && m@
                == "unknown payment status: "@ + raw.status@,
        },
{
    match parse_payment_status(raw.status.as_str()) {
        Some(st) => Ok(
            PaymentStatusResponse {
                payment_id: raw.payment_id,
                status: st,
                paid_at: raw.paid_at,
                amount: raw.amount,
                declining_reason: raw.declining_reason,
                declined_at: raw.declined_at,
                paid_by: raw.paid_by,
            },
        ),
        None => {
            let mut m: String = "unknown payment status: ".to_owned();
            m.append(raw.status.as_str());
            Err(Error::Serialization(m))
        },
    }
}

} // verus!
