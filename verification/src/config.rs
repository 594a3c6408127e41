use vstd::prelude::*;
use crate::error::Error;

verus! {

broadcast use vstd::string::group_string_axioms;

/// The URL that resolving `rel` against the base URL text `base` yields,
/// following the WHATWG URL standard; `None` when `base` does not parse as
/// an absolute URL or the resolution fails. A function of the two strings
/// alone.
pub uninterp spec fn url_resolve(base: Seq<char>, rel: Seq<char>) -> Option<Seq<char>>;

/// Relies on url::Url::parse and url::Url::join: parsing `base` and
/// resolving `rel` against it is deterministic in the two strings, and the
/// serialization of the joined URL is what `String::from` returns for it.
#[verifier::external_body]
pub(crate) fn resolve_url(base: &str, rel: &str) -> (r: Option<String>)
    ensures
        r matches Some(s) ==> url_resolve(base@, rel@) == Some(s@),
        r is None <==> url_resolve(base@, rel@) is None,
{
    match url::Url::parse(base) {
        Ok(u) => match u.join(rel) {
            Ok(joined) => Some(String::from(joined)),
            Err(_) => None,
        },
        Err(_) => None,
    }
}

/// Immutable connection and authentication settings, fixed at construction.
#[derive(Clone, Debug)]
pub struct FibConfig {
    /// Base URL of the gateway, as absolute URL text.
    pub base_url: String,
    pub client_id: String,
    pub client_secret: String,
    /// Default callback URL for payment-status notifications, if any.
    pub callback_url: Option<String>,
    /// Default refund window, an ISO-8601 duration string.
    pub refundable_for: String,
    /// Default currency code.
    pub currency: String,
}

impl FibConfig {
    /// Builds a configuration from caller-supplied settings, filling the two
    /// optional defaults: refund window `P7D` and currency `IQD`.
    pub fn new(
        base_url: String,
        client_id: String,
        client_secret: String,
        callback_url: Option<String>,
        refundable_for: Option<String>,
        currency: Option<String>,
    ) -> (r: FibConfig)
        ensures
            r.base_url == base_url,
            r.client_id == client_id,
            r.client_secret == client_secret,
            r.callback_url == callback_url,
            match refundable_for {
                Some(s) => r.refundable_for == s,
                None => r.refundable_for@ == "P7D"@,
            },
            match currency {
                Some(s) => r.currency == s,
                None => r.currency@ == "IQD"@,
            },
    {
        let refundable_for: String = match refundable_for {
            Some(s) => s,
            None => "P7D".to_owned(),
        };
        let currency: String = match currency {
            Some(s) => s,
            None => "IQD".to_owned(),
        };
        FibConfig { base_url, client_id, client_secret, callback_url, refundable_for, currency }
    }

    /// The authorization endpoint: the token path of the gateway's identity
    /// realm, resolved against the base URL.
    pub fn auth_url(&self) -> (r: Result<String, Error>)
        ensures
            match r {
                Ok(u) => url_resolve(
                    self.base_url@,
                    "/auth/realms/fib-online-shop/protocol/openid-connect/token"@,
                ) == Some(u@),
                Err(e) => {
                    &&& url_resolve(
                        self.base_url@,
                        "/auth/realms/fib-online-shop/protocol/openid-connect/token"@,
                    ) is None
                    &&& e matches Error::InvalidUrl(m) && m@
                        == "could not resolve the authorization URL against the base URL"@
                },
            },
    {
        match resolve_url(
            self.base_url.as_str(),
            "/auth/realms/fib-online-shop/protocol/openid-connect/token",
        ) {
            Some(u) => Ok(u),
            None => Err(
                Error::InvalidUrl(
                    "could not resolve the authorization URL against the base URL".to_owned(),
                ),
            ),
        }
    }

    /// The API root, `protected/v1/`, resolved against the base URL.
    pub fn api_url(&self) -> (r: Result<String, Error>)
        ensures
            match r {
                Ok(u) => url_resolve(self.base_url@, "protected/v1/"@) == Some(u@),
                Err(e) => {
                    &&& url_resolve(self.base_url@, "protected/v1/"@) is None
                    &&& e matches Error::InvalidUrl(m) && m@
                        == "could not resolve the API root against the base URL"@
                },
            },
    {
        match resolve_url(self.base_url.as_str(), "protected/v1/") {
            Some(u) => Ok(u),
            None => Err(
                Error::InvalidUrl("could not resolve the API root against the base URL".to_owned()),
            ),
        }
    }
}

} // verus!
