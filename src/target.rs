//! Where a session connects and with which credential, from a URL and token,
//! from a URL that carries its token, or from a configuration.
use vstd::prelude::*;
use vstd::string::StringExecFns;

use crate::url_parts::{
    encode_query, encoded_query, has_prefix, pairs_view, parse_url, parsed_url, replace_query,
    parts_view, strip_prefix, text_view, url_with_query, UrlParts,
};

verus! {

/// The endpoint to connect to, and the bearer token to present, if any.
pub struct ConnectParams {
    pub endpoint: String,
    pub credential: Option<String>,
}

/// A client configuration: a URL and an optional auth token.
pub struct Config {
    pub url: String,
    pub auth_token: Option<String>,
}

/// Why a connection target could not be worked out.
#[derive(Debug, PartialEq, Eq)]
pub enum TargetError {
    /// The text is not a URL, or rewriting its scheme gave none.
    Url,
}

/// The model of `ConnectParams`.
pub open spec fn params_view(p: ConnectParams) -> (Seq<char>, Option<Seq<char>>) {
    (p.endpoint@, match p.credential {
        Some(t) => Some(t@),
        None => None,
    })
}

/// An empty token means no authentication at all.
pub open spec fn credential_of(token: Seq<char>) -> Option<Seq<char>> {
    if token.len() == 0 {
        None
    } else {
        Some(token)
    }
}

/// Creates the connection parameters for `url` and `token`.
pub fn connect_params(url: String, token: String) -> (r: ConnectParams)
    ensures
        params_view(r) == (url@, credential_of(token@)),
{
    let credential = if token.as_str().is_empty() {
        None
    } else {
        Some(token)
    };
    ConnectParams { endpoint: url, credential }
}

/// Creates the connection parameters of a configuration; no token is an
/// empty one.
pub fn params_from_config(config: Config) -> (r: ConnectParams)
    ensures
        params_view(r) == (config.url@, match config.auth_token {
            Some(t) => credential_of(t@),
            None => None,
        }),
{
    let token = match config.auth_token {
        Some(t) => t,
        None => String::new(),
    };
    connect_params(config.url, token)
}

pub open spec fn jwt_key() -> Seq<char> {
    seq!['j', 'w', 't']
}

/// The value of the first query pair whose key is `jwt`, or the empty text.
pub open spec fn jwt_of(query: Seq<(Seq<char>, Seq<char>)>) -> Seq<char>
    decreases query.len(),
{
    if query.len() == 0 {
        Seq::empty()
    } else if query[0].0 == jwt_key() {
        query[0].1
    } else {
        jwt_of(query.skip(1))
    }
}

/// Finds the token that `query` carries under `jwt`, or the empty text.
pub fn find_jwt(query: &Vec<(String, String)>) -> (r: String)
    ensures
        r@ == jwt_of(query@.map_values(|kv: (String, String)| (kv.0@, kv.1@))),
{
    let ghost q = query@.map_values(|kv: (String, String)| (kv.0@, kv.1@));
    let key = "jwt".to_owned();
    proof {
        reveal_strlit("jwt");
        assert(key@ =~= jwt_key());
    }
    assert(q.skip(0) =~= q);
    let mut i: usize = 0;
    while i < query.len()
        invariant
            i <= query.len(),
            key@ == jwt_key(),
            q == query@.map_values(|kv: (String, String)| (kv.0@, kv.1@)),
            jwt_of(q) == jwt_of(q.skip(i as int)),
        decreases query.len() - i,
    {
        assert(q.skip(i as int)[0] == q[i as int]);
        assert(q.skip(i as int).skip(1) =~= q.skip(i + 1));
        if query[i].0 == key {
            return query[i].1.clone();
        }
        i = i + 1;
    }
    assert(q.skip(i as int).len() == 0);
    String::new()
}

pub open spec fn libsql_scheme() -> Seq<char> {
    seq!['l', 'i', 'b', 's', 'q', 'l']
}

pub open spec fn libsql_prefix() -> Seq<char> {
    libsql_scheme() + seq![':', '/', '/']
}

pub open spec fn wss_prefix() -> Seq<char> {
    seq!['w', 's', 's', ':', '/', '/']
}

/// The query pairs whose key is not `jwt`, in order.
pub open spec fn without_jwt(query: Seq<(Seq<char>, Seq<char>)>) -> Seq<(Seq<char>, Seq<char>)>
    decreases query.len(),
{
    if query.len() == 0 {
        query
    } else {
        let kept = without_jwt(query.drop_last());
        if query.last().0 == jwt_key() {
            kept
        } else {
            kept.push(query.last())
        }
    }
}

/// The query that the endpoint keeps: the pairs other than `jwt`, encoded,
/// or no query at all where none is left.
pub open spec fn endpoint_query(query: Seq<(Seq<char>, Seq<char>)>) -> Option<Seq<char>> {
    if without_jwt(query).len() == 0 {
        None
    } else {
        Some(encoded_query(without_jwt(query)))
    }
}

/// The URL text that the endpoint is made from: a `libsql://` URL with the
/// scheme `wss://` in its place, any other one as it is.
pub open spec fn endpoint_base(p: (Seq<char>, Seq<char>, Seq<(Seq<char>, Seq<char>)>)) -> Option<
    Seq<char>,
> {
    if p.0 != libsql_scheme() {
        Some(p.1)
    } else if !has_prefix(p.1, libsql_prefix()) {
        None
    } else {
        Some(wss_prefix() + p.1.skip(libsql_prefix().len() as int))
    }
}

/// How the endpoint is finished from a URL text.
pub enum EndpointStep {
    /// The text is the endpoint as it is.
    Ready(String),
    /// The text is parsed again, and its serialization is the endpoint.
    Reparse(String),
    /// The text's query is replaced by this one (removed for `None`).
    SetQuery(String, Option<String>),
}

/// The model of `EndpointStep`.
pub enum EndpointStepView {
    Ready(Seq<char>),
    Reparse(Seq<char>),
    SetQuery(Seq<char>, Option<Seq<char>>),
}

impl View for EndpointStep {
    type V = EndpointStepView;

    open spec fn view(&self) -> EndpointStepView {
        match self {
            EndpointStep::Ready(t) => EndpointStepView::Ready(t@),
            EndpointStep::Reparse(t) => EndpointStepView::Reparse(t@),
            EndpointStep::SetQuery(t, q) => EndpointStepView::SetQuery(t@, text_view(*q)),
        }
    }
}

/// What a parsed URL leaves to do: how to finish the endpoint, and the token.
pub struct UrlPlan {
    pub step: EndpointStep,
    pub token: String,
}

/// `query` holds no `jwt` pair: none is left out of it.
pub open spec fn jwt_free(query: Seq<(Seq<char>, Seq<char>)>) -> bool {
    without_jwt(query).len() == query.len()
}

/// How the endpoint is finished from a parsed URL: a URL without a `jwt`
/// pair is taken as it is (a `libsql` one, with `wss` for its scheme, is
/// parsed again); otherwise its query is replaced by the pairs other than
/// `jwt`. `None` where a `libsql` URL has no `libsql://` to rewrite.
pub open spec fn planned_step(p: (Seq<char>, Seq<char>, Seq<(Seq<char>, Seq<char>)>)) -> Option<
    EndpointStepView,
> {
    match endpoint_base(p) {
        None => None,
        Some(base) => if !jwt_free(p.2) {
            Some(EndpointStepView::SetQuery(base, endpoint_query(p.2)))
        } else if p.0 != libsql_scheme() {
            Some(EndpointStepView::Ready(base))
        } else {
            Some(EndpointStepView::Reparse(base))
        },
    }
}

/// The endpoint that a step gives, or `None` where its text does not parse.
pub open spec fn finished(step: EndpointStepView) -> Option<Seq<char>> {
    match step {
        EndpointStepView::Ready(t) => Some(t),
        EndpointStepView::Reparse(t) => match parsed_url(t) {
            Some(w) => Some(w.1),
            None => None,
        },
        EndpointStepView::SetQuery(t, q) => url_with_query(t, q),
    }
}

/// The endpoint and credential that a URL text names: `libsql://` becomes
/// `wss://`, any other scheme is kept, the first `jwt` query value is the
/// token, and the endpoint's query holds the other pairs only. A URL
/// without a `jwt` pair keeps its query as it is. `None` where the text is
/// no URL or the rewritten one does not parse.
pub open spec fn target_of_url(text: Seq<char>) -> Option<(Seq<char>, Option<Seq<char>>)> {
    match parsed_url(text) {
        None => None,
        Some(p) => match planned_step(p) {
            None => None,
            Some(step) => match finished(step) {
                None => None,
                Some(endpoint) => Some((endpoint, credential_of(jwt_of(p.2)))),
            },
        },
    }
}

/// Leaving the `jwt` pairs out never lengthens a query.
proof fn lemma_without_jwt_len(query: Seq<(Seq<char>, Seq<char>)>)
    ensures
        without_jwt(query).len() <= query.len(),
    decreases query.len(),
{
    if query.len() > 0 {
        lemma_without_jwt_len(query.drop_last());
    }
}

/// The pairs of `query` whose key is not `jwt`, in order.
fn drop_jwt(query: &Vec<(String, String)>) -> (r: Vec<(String, String)>)
    ensures
        pairs_view(r@) == without_jwt(pairs_view(query@)),
{
    let key = "jwt".to_owned();
    proof {
        reveal_strlit("jwt");
        assert(key@ =~= jwt_key());
        assert(pairs_view(query@.take(0)) =~= Seq::empty());
    }
    let mut kept: Vec<(String, String)> = Vec::new();
    let mut i: usize = 0;
    while i < query.len()
        invariant
            i <= query.len(),
            key@ == jwt_key(),
            pairs_view(kept@) == without_jwt(pairs_view(query@.take(i as int))),
        decreases query.len() - i,
    {
        let ghost before = kept@;
        proof {
            let next = pairs_view(query@.take(i + 1));
            assert(next.drop_last() =~= pairs_view(query@.take(i as int)));
            assert(next.last() == (query@[i as int].0@, query@[i as int].1@));
        }
        if query[i].0 != key {
            kept.push((query[i].0.clone(), query[i].1.clone()));
            proof {
                assert(pairs_view(kept@) =~= pairs_view(before).push(
                    (query@[i as int].0@, query@[i as int].1@),
                ));
            }
        }
        i = i + 1;
    }
    proof {
        assert(query@.take(query@.len() as int) =~= query@);
    }
    kept
}

/// Works out, from a parsed URL, how to finish its endpoint and which
/// token it carries.
pub fn endpoint_plan(parts: &UrlParts) -> (r: Result<UrlPlan, TargetError>)
    ensures
        r matches Ok(plan) ==> planned_step(parts_view(*parts)) == Some(plan.step@)
            && plan.token@ == jwt_of(parts_view(*parts).2),
        r is Err ==> planned_step(parts_view(*parts)) is None,
{
    let token = find_jwt(&parts.query);
    let kept = drop_jwt(&parts.query);
    let scheme = "libsql".to_owned();
    proof {
        reveal_strlit("libsql");
        reveal_strlit("libsql://");
        reveal_strlit("wss://");
        assert(scheme@ =~= libsql_scheme());
        assert("libsql://"@ =~= libsql_prefix());
    }
    let is_libsql = parts.scheme == scheme;
    let base = if !is_libsql {
        parts.text.clone()
    } else {
        let rest = match strip_prefix(parts.text.as_str(), "libsql://") {
            Some(rest) => rest,
            None => return Err(TargetError::Url),
        };
        let mut wss = "wss://".to_owned();
        wss.append(rest.as_str());
        proof {
            assert(wss@ =~= wss_prefix() + parts.text@.skip(libsql_prefix().len() as int));
        }
        wss
    };
    let ghost b = base@;
    proof {
        assert(endpoint_base(parts_view(*parts)) == Some(b));
        lemma_without_jwt_len(parts_view(*parts).2);
        assert(!jwt_free(parts_view(*parts).2) == (kept@.len() < parts.query@.len()));
        assert(pairs_view(kept@).len() == kept@.len());
        assert(pairs_view(parts.query@).len() == parts.query@.len());
    }
    let step = if kept.len() < parts.query.len() {
        let query = if kept.len() == 0 {
            None
        } else {
            Some(encode_query(&kept))
        };
        assert(text_view(query) == endpoint_query(parts_view(*parts).2));
        let step = EndpointStep::SetQuery(base, query);
        assert(step@ == EndpointStepView::SetQuery(b, endpoint_query(parts_view(*parts).2)));
        step
    } else if !is_libsql {
        EndpointStep::Ready(base)
    } else {
        EndpointStep::Reparse(base)
    };
    assert(planned_step(parts_view(*parts)) == Some(step@));
    Ok(UrlPlan { step, token })
}

/// Creates the connection parameters that the URL `text` names.
pub fn params_from_url(text: &str) -> (r: Result<ConnectParams, TargetError>)
    ensures
        r matches Ok(p) ==> target_of_url(text@) == Some(params_view(p)),
        r is Err ==> target_of_url(text@) is None,
{
    let parts = match parse_url(text) {
        Some(p) => p,
        None => return Err(TargetError::Url),
    };
    let plan = endpoint_plan(&parts)?;
    let endpoint = match plan.step {
        EndpointStep::Ready(t) => t,
        EndpointStep::Reparse(t) => match parse_url(t.as_str()) {
            Some(w) => w.text,
            None => return Err(TargetError::Url),
        },
        EndpointStep::SetQuery(t, q) => match replace_query(t.as_str(), q) {
            Some(e) => e,
            None => return Err(TargetError::Url),
        },
    };
    Ok(connect_params(endpoint, plan.token))
}

/// A query without a `jwt` pair carries the empty token.
pub proof fn lemma_jwt_absent(query: Seq<(Seq<char>, Seq<char>)>)
    requires
        forall|i: int| 0 <= i < query.len() ==> (#[trigger] query[i]).0 != jwt_key(),
    ensures
        jwt_of(query) == Seq::<char>::empty(),
    decreases query.len(),
{
    if query.len() > 0 {
        assert(query[0].0 != jwt_key());
        assert forall|i: int| 0 <= i < query.skip(1).len() implies (#[trigger] query.skip(1)[i]).0
            != jwt_key() by {
            assert(query.skip(1)[i] == query[i + 1]);
        }
        lemma_jwt_absent(query.skip(1));
    }
}

/// An empty token and a URL without a `jwt` query pair both connect without
/// authentication: neither names a credential.
pub proof fn lemma_empty_credential_equivalence(text: Seq<char>)
    requires
        parsed_url(text) matches Some(p) && forall|i: int|
            0 <= i < p.2.len() ==> (#[trigger] p.2[i]).0 != jwt_key(),
    ensures
        credential_of(Seq::empty()) is None,
        target_of_url(text) matches Some(t) ==> t.1 == credential_of(Seq::empty()),
{
    lemma_jwt_absent(parsed_url(text).unwrap().2);
}

} // verus!
