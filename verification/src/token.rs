use vstd::prelude::*;
use crate::config::FibConfig;
use crate::config::url_resolve;
use crate::error::Error;
use crate::http::HttpMethod;
use crate::http::PlanBody;
use crate::http::RequestPlan;
use crate::models::TokenResponse;

verus! {

broadcast use vstd::string::group_string_axioms;

/// The `application/x-www-form-urlencoded` encoding of a sequence of
/// key/value pairs, in their given order. A function of the pairs alone.
pub uninterp spec fn form_urlencoded_of(pairs: Seq<(Seq<char>, Seq<char>)>) -> Seq<char>;

/// Relies on serde_urlencoded::to_string: encoding a slice of string pairs
/// keeps their order and depends on the pairs alone, and it cannot fail —
/// the serializer's only error paths are unsupported value shapes and
/// non-UTF-8 byte values, neither reachable from string pairs.
#[verifier::external_body]
fn form_urlencode(pairs: &Vec<(String, String)>) -> (r: Option<String>)
    ensures
        r is Some,
        r matches Some(s) ==> s@ == form_urlencoded_of(
            pairs@.map_values(|p: (String, String)| (p.0@, p.1@)),
        ),
{
    serde_urlencoded::to_string(pairs.as_slice()).ok()
}

/// The single optional bearer-token slot. Its owner serializes access (the
/// embedding program holds it under one mutual-exclusion lock), so the
/// operations here describe what happens inside the critical section: a
/// populated slot answers from memory, an empty one directs a fetch, and the
/// slot transitions at most once from empty to populated.
#[derive(Debug)]
pub struct TokenCache {
    slot: Option<String>,
}

impl TokenCache {
    /// The token held, if any.
    pub closed spec fn spec_token(&self) -> Option<Seq<char>> {
        match self.slot {
            Some(t) => Some(t@),
            None => None,
        }
    }

    /// An empty slot.
    pub fn new() -> (c: TokenCache)
        ensures
            c.spec_token() is None,
    {
        TokenCache { slot: None }
    }

    /// The fetch-or-return step: a copy of the cached token when the slot is
    /// populated — no network call is directed — and `None` when a
    /// client-credentials exchange is owed.
    pub fn lookup(&self) -> (r: Option<String>)
        ensures
            match r {
                Some(t) => self.spec_token() == Some(t@),
                None => self.spec_token() is None,
            },
    {
        match &self.slot {
            Some(t) => Some(t.clone()),
            None => None,
        }
    }

    /// Completes a fetch: stores the access token of a successful exchange
    /// and hands it back. A failed fetch never reaches this point, so the
    /// slot stays empty for the next caller to retry.
    pub fn store(&mut self, response: TokenResponse) -> (t: String)
        requires
            old(self).spec_token() is None,
        ensures
            final(self).spec_token() == Some(response.access_token@),
            t == response.access_token,
    {
        let t = response.access_token;
        self.slot = Some(t.clone());
        t
    }

    /// The completion of the fetch-or-return operation, still under the
    /// caller's lock: a successful exchange populates the slot and hands back
    /// its token; a failed one is handed back unchanged and leaves the slot
    /// empty, so the next caller re-attempts the fetch.
    pub fn finish_fetch(&mut self, fetched: Result<TokenResponse, Error>) -> (r: Result<
        String,
        Error,
    >)
        requires
            old(self).spec_token() is None,
        ensures
            match fetched {
                Ok(resp) => {
                    &&& r matches Ok(t) && t == resp.access_token
                    &&& final(self).spec_token() == Some(resp.access_token@)
                },
                Err(e) => {
                    &&& r matches Err(e2) && e2 == e
                    &&& final(self).spec_token() is None
                },
            },
    {
        match fetched {
            Ok(resp) => Ok(self.store(resp)),
            Err(e) => Err(e),
        }
    }
}

/// Once one caller's fetch has populated the slot, every later lookup is
/// answered from memory: any two results the lookup contract admits on a
/// populated cache are that same token, and neither directs a fetch.
pub proof fn lemma_token_cache_idempotent(c: TokenCache, r1: Option<String>, r2: Option<String>)
    requires
        c.spec_token() matches Some(_),
        match r1 {
            Some(s) => c.spec_token() == Some(s@),
            None => c.spec_token() is None,
        },
        match r2 {
            Some(s) => c.spec_token() == Some(s@),
            None => c.spec_token() is None,
        },
    ensures
        r1 matches Some(a) && r2 matches Some(b) && a@ == b@,
{
}

/// The serialized fetch-or-return operation at the specification level: what
/// one caller holding the lock does to the slot. `fetched` is what the
/// caller's exchange would yield were one issued: `Some` token, or `None`
/// when that exchange would fail. The step gives the new slot, the token the
/// caller receives (`None`: it receives its exchange's failure), and whether
/// it issued a fetch.
pub open spec fn spec_get_token_step(slot: Option<Seq<char>>, fetched: Option<Seq<char>>) -> (
    Option<Seq<char>>,
    Option<Seq<char>>,
    bool,
) {
    match slot {
        Some(t) => (Some(t), Some(t), false),
        None => match fetched {
            Some(t) => (Some(t), Some(t), true),
            None => (None, None, true),
        },
    }
}

/// What each of a line of serialized callers receives, and whether it
/// fetched: caller `i` runs the fetch-or-return operation on the slot the
/// caller before it left behind.
pub open spec fn spec_token_outcomes(
    slot: Option<Seq<char>>,
    fetches: Seq<Option<Seq<char>>>,
) -> Seq<(Option<Seq<char>>, bool)>
    decreases fetches.len(),
{
    if fetches.len() == 0 {
        Seq::empty()
    } else {
        let step = spec_get_token_step(slot, fetches[0]);
        seq![(step.1, step.2)] + spec_token_outcomes(step.0, fetches.skip(1))
    }
}

/// The slot a line of serialized callers leaves behind.
pub open spec fn spec_slot_after(
    slot: Option<Seq<char>>,
    fetches: Seq<Option<Seq<char>>>,
) -> Option<Seq<char>>
    decreases fetches.len(),
{
    if fetches.len() == 0 {
        slot
    } else {
        spec_slot_after(spec_get_token_step(slot, fetches[0]).0, fetches.skip(1))
    }
}

proof fn lemma_populated_run(t: Seq<char>, fetches: Seq<Option<Seq<char>>>)
    ensures
        spec_token_outcomes(Some(t), fetches).len() == fetches.len(),
        forall|i: int|
            0 <= i < fetches.len() ==> #[trigger] spec_token_outcomes(Some(t), fetches)[i] == (
            Some(t),
            false,
            ),
        spec_slot_after(Some(t), fetches) == Some(t),
    decreases fetches.len(),
{
    if fetches.len() > 0 {
        lemma_populated_run(t, fetches.skip(1));
        assert forall|i: int| 0 <= i < fetches.len() implies #[trigger] spec_token_outcomes(
            Some(t),
            fetches,
        )[i] == (Some(t), false) by {
            if i > 0 {
                assert(spec_token_outcomes(Some(t), fetches)[i] == spec_token_outcomes(
                    Some(t),
                    fetches.skip(1),
                )[i - 1]);
            }
        }
    }
}

/// The success half of the cache's promise. Any number of callers serialized
/// on the slot, starting from an empty one, the first one's exchange
/// succeeding: exactly the first issues an authorization fetch, every caller
/// receives the token that fetch yielded, and the slot holds it from then on.
pub proof fn lemma_single_fetch_same_token(fetches: Seq<Option<Seq<char>>>)
    requires
        fetches.len() > 0,
        fetches[0] is Some,
    ensures
        spec_token_outcomes(None, fetches).len() == fetches.len(),
        spec_token_outcomes(None, fetches)[0] == (fetches[0], true),
        forall|i: int|
            1 <= i < fetches.len() ==> #[trigger] spec_token_outcomes(None, fetches)[i] == (
            fetches[0],
            false,
            ),
        spec_slot_after(None, fetches) == fetches[0],
{
    let t = fetches[0]->Some_0;
    lemma_populated_run(t, fetches.skip(1));
    assert forall|i: int| 1 <= i < fetches.len() implies #[trigger] spec_token_outcomes(
        None,
        fetches,
    )[i] == (fetches[0], false) by {
        assert(spec_token_outcomes(None, fetches)[i] == spec_token_outcomes(
            Some(t),
            fetches.skip(1),
        )[i - 1]);
    }
}

/// The failure half of the cache's promise. While every exchange fails, each
/// serialized caller issues its own fetch, receives that failure, and the
/// slot stays empty throughout, so a later caller re-attempts the fetch.
pub proof fn lemma_failed_fetches_leave_slot_empty(fetches: Seq<Option<Seq<char>>>)
    requires
        forall|i: int| 0 <= i < fetches.len() ==> #[trigger] fetches[i] is None,
    ensures
        spec_token_outcomes(None, fetches).len() == fetches.len(),
        forall|i: int|
            0 <= i < fetches.len() ==> #[trigger] spec_token_outcomes(None, fetches)[i] == (
            None::<Seq<char>>,
            true,
            ),
        spec_slot_after(None, fetches) is None,
    decreases fetches.len(),
{
    if fetches.len() > 0 {
        assert forall|i: int| 0 <= i < fetches.skip(1).len() implies #[trigger] fetches.skip(
            1,
        )[i] is None by {
            assert(fetches.skip(1)[i] == fetches[i + 1]);
        }
        lemma_failed_fetches_leave_slot_empty(fetches.skip(1));
        assert forall|i: int| 0 <= i < fetches.len() implies #[trigger] spec_token_outcomes(
            None,
            fetches,
        )[i] == (None::<Seq<char>>, true) by {
            if i > 0 {
                assert(spec_token_outcomes(None, fetches)[i] == spec_token_outcomes(
                    None,
                    fetches.skip(1),
                )[i - 1]);
            }
        }
    }
}

/// The pairs of the client-credentials form, in order.
pub open spec fn spec_credentials_form(config: FibConfig) -> Seq<(Seq<char>, Seq<char>)> {
    seq![
        ("grant_type"@, "client_credentials"@),
        ("client_id"@, config.client_id@),
        ("client_secret"@, config.client_secret@),
    ]
}

/// Plans the client-credentials exchange: a form-encoded POST of
/// `grant_type`, `client_id` and `client_secret` to the authorization
/// endpoint.
pub fn build_token_request(config: &FibConfig) -> (r: Result<RequestPlan, Error>)
    ensures
        match r {
            Ok(p) => {
                &&& p.method == HttpMethod::Post
                &&& url_resolve(
                    config.base_url@,
                    "/auth/realms/fib-online-shop/protocol/openid-connect/token"@,
                ) == Some(p.url@)
                &&& p.headers@.len() == 1
                &&& p.headers@[0].0@ == "Content-Type"@
                &&& p.headers@[0].1@ == "application/x-www-form-urlencoded"@
                &&& p.body matches PlanBody::Form(b) && b@ == form_urlencoded_of(
                    spec_credentials_form(*config),
                )
            },
            Err(e) => {
                &&& url_resolve(
                    config.base_url@,
                    "/auth/realms/fib-online-shop/protocol/openid-connect/token"@,
                ) is None
                &&& e matches Error::InvalidUrl(m) && m@
                    == "could not resolve the authorization URL against the base URL"@
            },
        },
{
    let url = match config.auth_url() {
        Ok(u) => u,
        Err(e) => {
            return Err(e);
        },
    };
    let mut pairs: Vec<(String, String)> = Vec::new();
    pairs.push(("grant_type".to_owned(), "client_credentials".to_owned()));
    pairs.push(("client_id".to_owned(), config.client_id.clone()));
    pairs.push(("client_secret".to_owned(), config.client_secret.clone()));
    proof {
        assert(pairs@.map_values(|p: (String, String)| (p.0@, p.1@)) =~= spec_credentials_form(
            *config,
        ));
    }
    let body = form_urlencode(&pairs).unwrap();
    let mut headers: Vec<(String, String)> = Vec::new();
    headers.push(("Content-Type".to_owned(), "application/x-www-form-urlencoded".to_owned()));
    Ok(RequestPlan { method: HttpMethod::Post, url, headers, body: PlanBody::Form(body) })
}

} // verus!
