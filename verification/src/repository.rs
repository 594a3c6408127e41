use vstd::prelude::*;
use vstd::string::StringExecFns;
use crate::config::FibConfig;
use crate::config::url_resolve;
use crate::error::Error;
use crate::http::HttpMethod;
use crate::http::PlanBody;
use crate::http::RequestPlan;
use crate::models::CreatePaymentRequest;

verus! {

broadcast use vstd::string::group_string_axioms;

/// The URL of an API operation: `rel` resolved against the API root, which
/// is itself `protected/v1/` resolved against the base URL.
pub open spec fn spec_api_resolve(base: Seq<char>, rel: Seq<char>) -> Option<Seq<char>> {
    match url_resolve(base, "protected/v1/"@) {
        Some(api) => url_resolve(api, rel),
        None => None,
    }
}

/// The headers every authenticated call carries: the bearer token, a JSON
/// content type, and the SDK's user agent.
pub open spec fn spec_auth_headers(token: Seq<char>, hs: Seq<(String, String)>) -> bool {
    &&& hs.len() == 3
    &&& hs[0].0@ == "Authorization"@ && hs[0].1@ == "Bearer "@ + token
    &&& hs[1].0@ == "Content-Type"@ && hs[1].1@ == "application/json"@
    &&& hs[2].0@ == "User-Agent"@ && hs[2].1@ == "FibPaymentsSDK-Rust"@
}

/// The domain operations a payment back end offers, each answered as a fully
/// specified request plan against that back end's configured gateway.
pub trait PaymentRepository {
    /// The settings the plans are built against.
    spec fn spec_config(&self) -> FibConfig;

    /// Plans the payment-creation call: POST `payments` with the request as
    /// its JSON body.
    fn create_payment(&self, token: &str, request: CreatePaymentRequest) -> (r: Result<
        RequestPlan,
        Error,
    >)
        ensures
            match r {
                Ok(p) => {
                    &&& p.method == HttpMethod::Post
                    &&& spec_api_resolve(self.spec_config().base_url@, "payments"@) == Some(p.url@)
                    &&& spec_auth_headers(token@, p.headers@)
                    &&& p.body == (PlanBody::PaymentJson(request))
                },
                Err(e) => e matches Error::InvalidUrl(_) && spec_api_resolve(
                    self.spec_config().base_url@,
                    "payments"@,
                ) is None,
            },
    ;

    /// Plans the status poll: GET `payments/{id}/status` with no body.
    fn get_payment_status(&self, token: &str, payment_id: &str) -> (r: Result<RequestPlan, Error>)
        ensures
            match r {
                Ok(p) => {
                    &&& p.method == HttpMethod::Get
                    &&& spec_api_resolve(
                        self.spec_config().base_url@,
                        "payments/"@ + payment_id@ + "/status"@,
                    ) == Some(p.url@)
                    &&& spec_auth_headers(token@, p.headers@)
                    &&& p.body is Empty
                },
                Err(e) => e matches Error::InvalidUrl(_) && spec_api_resolve(
                    self.spec_config().base_url@,
                    "payments/"@ + payment_id@ + "/status"@,
                ) is None,
            },
    ;

    /// Plans a refund: POST `payments/{id}/refund` with no body.
    fn refund_payment(&self, token: &str, payment_id: &str) -> (r: Result<RequestPlan, Error>)
        ensures
            match r {
                Ok(p) => {
                    &&& p.method == HttpMethod::Post
                    &&& spec_api_resolve(
                        self.spec_config().base_url@,
                        "payments/"@ + payment_id@ + "/refund"@,
                    ) == Some(p.url@)
                    &&& spec_auth_headers(token@, p.headers@)
                    &&& p.body is Empty
                },
                Err(e) => e matches Error::InvalidUrl(_) && spec_api_resolve(
                    self.spec_config().base_url@,
                    "payments/"@ + payment_id@ + "/refund"@,
                ) is None,
            },
    ;

    /// Plans a cancellation: POST `payments/{id}/cancel` with no body.
    fn cancel_payment(&self, token: &str, payment_id: &str) -> (r: Result<RequestPlan, Error>)
        ensures
            match r {
                Ok(p) => {
                    &&& p.method == HttpMethod::Post
                    &&& spec_api_resolve(
                        self.spec_config().base_url@,
                        "payments/"@ + payment_id@ + "/cancel"@,
                    ) == Some(p.url@)
                    &&& spec_auth_headers(token@, p.headers@)
                    &&& p.body is Empty
                },
                Err(e) => e matches Error::InvalidUrl(_) && spec_api_resolve(
                    self.spec_config().base_url@,
                    "payments/"@ + payment_id@ + "/cancel"@,
                ) is None,
            },
    ;
}

/// The production repository: it maps each domain operation to an
/// authenticated request plan against the configured gateway.
#[derive(Debug)]
pub struct FibPaymentRepository {
    pub config: FibConfig,
}

impl FibPaymentRepository {
    /// A repository over the given settings.
    pub fn new(config: FibConfig) -> (r: FibPaymentRepository)
        ensures
            r.config == config,
    {
        FibPaymentRepository { config }
    }

    /// The headers of an authenticated call carrying `token`.
    pub fn create_headers(&self, token: &str) -> (hs: Vec<(String, String)>)
        ensures
            spec_auth_headers(token@, hs@),
    {
        let mut bearer: String = "Bearer ".to_owned();
        bearer.append(token);
        let mut hs: Vec<(String, String)> = Vec::new();
        hs.push(("Authorization".to_owned(), bearer));
        hs.push(("Content-Type".to_owned(), "application/json".to_owned()));
        hs.push(("User-Agent".to_owned(), "FibPaymentsSDK-Rust".to_owned()));
        hs
    }

    /// Plans one authenticated API call: `rel` resolved against the API
    /// root, with the standard headers and the given method and body.
    fn plan_api_request(&self, token: &str, method: HttpMethod, rel: &str, body: PlanBody) -> (r:
        Result<RequestPlan, Error>)
        ensures
            match r {
                Ok(p) => {
                    &&& p.method == method
                    &&& spec_api_resolve(self.config.base_url@, rel@) == Some(p.url@)
                    &&& spec_auth_headers(token@, p.headers@)
                    &&& p.body == body
                },
                Err(e) => e matches Error::InvalidUrl(_) && spec_api_resolve(
                    self.config.base_url@,
                    rel@,
                ) is None,
            },
    {
        let api = match self.config.api_url() {
            Ok(u) => u,
            Err(e) => {
                return Err(e);
            },
        };
        let url = match crate::config::resolve_url(api.as_str(), rel) {
            Some(u) => u,
            None => {
                return Err(
                    Error::InvalidUrl(
                        "could not resolve the request path against the API root".to_owned(),
                    ),
                );
            },
        };
        let headers = self.create_headers(token);
        Ok(RequestPlan { method, url, headers, body })
    }
}

impl PaymentRepository for FibPaymentRepository {
    open spec fn spec_config(&self) -> FibConfig {
        self.config
    }

    fn create_payment(&self, token: &str, request: CreatePaymentRequest) -> (r: Result<
        RequestPlan,
        Error,
    >) {
        self.plan_api_request(token, HttpMethod::Post, "payments", PlanBody::PaymentJson(request))
    }

    fn get_payment_status(&self, token: &str, payment_id: &str) -> (r: Result<RequestPlan, Error>) {
        let rel = payment_path(payment_id, "/status");
        self.plan_api_request(token, HttpMethod::Get, rel.as_str(), PlanBody::Empty)
    }

    fn refund_payment(&self, token: &str, payment_id: &str) -> (r: Result<RequestPlan, Error>) {
        let rel = payment_path(payment_id, "/refund");
        self.plan_api_request(token, HttpMethod::Post, rel.as_str(), PlanBody::Empty)
    }

    fn cancel_payment(&self, token: &str, payment_id: &str) -> (r: Result<RequestPlan, Error>) {
        let rel = payment_path(payment_id, "/cancel");
        self.plan_api_request(token, HttpMethod::Post, rel.as_str(), PlanBody::Empty)
    }
}

/// `payments/{id}{suffix}`, the path segment of one payment operation.
fn payment_path(payment_id: &str, suffix: &str) -> (r: String)
    ensures
        r@ == "payments/"@ + payment_id@ + suffix@,
{
    let mut p: String = "payments/".to_owned();
    p.append(payment_id);
    p.append(suffix);
    p
}

} // verus!
