use vstd::prelude::*;
use crate::config::FibConfig;
use crate::error::Error;
use crate::http::HttpMethod;
use crate::http::PlanBody;
use crate::http::RequestPlan;
use crate::models::CreatePaymentRequest;
use crate::models::DecimalAmount;
use crate::models::MonetaryValue;
use crate::repository::FibPaymentRepository;
use crate::repository::PaymentRepository;
use crate::repository::spec_api_resolve;
use crate::repository::spec_auth_headers;

verus! {

/// The payment-creation body the facade builds: caller-supplied values win,
/// and the configuration fills in the default currency, callback URL and
/// refund window where the caller gave none.
pub open spec fn spec_defaulted_request(
    config: FibConfig,
    amount: DecimalAmount,
    currency: Option<String>,
    callback_url: Option<String>,
    description: Option<String>,
    refundable_for: Option<String>,
    req: CreatePaymentRequest,
) -> bool {
    &&& req.monetary_value.amount == amount
    &&& req.monetary_value.currency == (match currency {
        Some(c) => c,
        None => config.currency,
    })
    &&& req.status_callback_url == (match callback_url {
        Some(c) => Some(c),
        None => config.callback_url,
    })
    &&& req.description == description
    &&& req.refundable_for == (match refundable_for {
        Some(r) => r,
        None => config.refundable_for,
    })
}

/// Public entry point: a payment repository together with the default field
/// values of its configuration.
#[derive(Debug)]
pub struct FibClient {
    pub repository: FibPaymentRepository,
}

impl FibClient {
    /// A client over the given settings.
    pub fn new(config: FibConfig) -> (c: FibClient)
        ensures
            c.repository.config == config,
    {
        FibClient { repository: FibPaymentRepository::new(config) }
    }

    /// Builds the payment-creation body from the caller's values and the
    /// configured defaults.
    pub fn build_payment_request(
        &self,
        amount: DecimalAmount,
        currency: Option<String>,
        callback_url: Option<String>,
        description: Option<String>,
        refundable_for: Option<String>,
    ) -> (req: CreatePaymentRequest)
        ensures
            spec_defaulted_request(
                self.repository.config,
                amount,
                currency,
                callback_url,
                description,
                refundable_for,
                req,
            ),
    {
        let config = &self.repository.config;
        let currency: String = match currency {
            Some(c) => c,
            None => config.currency.clone(),
        };
        let status_callback_url: Option<String> = match callback_url {
            Some(c) => Some(c),
            None => config.callback_url.clone(),
        };
        let refundable_for: String = match refundable_for {
            Some(r) => r,
            None => config.refundable_for.clone(),
        };
        CreatePaymentRequest {
            monetary_value: MonetaryValue { amount, currency },
            status_callback_url,
            description,
            refundable_for,
        }
    }

    /// Plans a payment creation: POST `payments` whose JSON body is the
    /// defaulted request.
    pub fn create_payment(
        &self,
        token: &str,
        amount: DecimalAmount,
        currency: Option<String>,
        callback_url: Option<String>,
        description: Option<String>,
        refundable_for: Option<String>,
    ) -> (r: Result<RequestPlan, Error>)
        ensures
            match r {
                Ok(p) => {
                    &&& p.method == HttpMethod::Post
                    &&& spec_api_resolve(self.repository.config.base_url@, "payments"@) == Some(
                        p.url@,
                    )
                    &&& spec_auth_headers(token@, p.headers@)
                    &&& p.body matches PlanBody::PaymentJson(req) && spec_defaulted_request(
                        self.repository.config,
                        amount,
                        currency,
                        callback_url,
                        description,
                        refundable_for,
                        req,
                    )
                },
                Err(e) => e matches Error::InvalidUrl(_) && spec_api_resolve(
                    self.repository.config.base_url@,
                    "payments"@,
                ) is None,
            },
    {
        let req = self.build_payment_request(
            amount,
            currency,
            callback_url,
            description,
            refundable_for,
        );
        self.repository.create_payment(token, req)
    }

    /// Plans a status poll for the given payment.
    pub fn get_payment_status(&self, token: &str, payment_id: &str) -> (r: Result<
        RequestPlan,
        Error,
    >)
        ensures
            match r {
                Ok(p) => {
                    &&& p.method == HttpMethod::Get
                    &&& spec_api_resolve(
                        self.repository.config.base_url@,
                        "payments/"@ + payment_id@ + "/status"@,
                    ) == Some(p.url@)
                    &&& spec_auth_headers(token@, p.headers@)
                    &&& p.body is Empty
                },
                Err(e) => e matches Error::InvalidUrl(_) && spec_api_resolve(
                    self.repository.config.base_url@,
                    "payments/"@ + payment_id@ + "/status"@,
                ) is None,
            },
    {
        self.repository.get_payment_status(token, payment_id)
    }

    /// Plans a refund of the given payment.
    pub fn refund_payment(&self, token: &str, payment_id: &str) -> (r: Result<RequestPlan, Error>)
        ensures
            match r {
                Ok(p) => {
                    &&& p.method == HttpMethod::Post
                    &&& spec_api_resolve(
                        self.repository.config.base_url@,
                        "payments/"@ + payment_id@ + "/refund"@,
                    ) == Some(p.url@)
                    &&& spec_auth_headers(token@, p.headers@)
                    &&& p.body is Empty
                },
                Err(e) => e matches Error::InvalidUrl(_) && spec_api_resolve(
                    self.repository.config.base_url@,
                    "payments/"@ + payment_id@ + "/refund"@,
                ) is None,
            },
    {
        self.repository.refund_payment(token, payment_id)
    }

    /// Plans a cancellation of the given payment.
    pub fn cancel_payment(&self, token: &str, payment_id: &str) -> (r: Result<RequestPlan, Error>)
        ensures
            match r {
                Ok(p) => {
                    &&& p.method == HttpMethod::Post
                    &&& spec_api_resolve(
                        self.repository.config.base_url@,
                        "payments/"@ + payment_id@ + "/cancel"@,
                    ) == Some(p.url@)
                    &&& spec_auth_headers(token@, p.headers@)
                    &&& p.body is Empty
                },
                Err(e) => e matches Error::InvalidUrl(_) && spec_api_resolve(
                    self.repository.config.base_url@,
                    "payments/"@ + payment_id@ + "/cancel"@,
                ) is None,
            },
    {
        self.repository.cancel_payment(token, payment_id)
    }
}

} // verus!
