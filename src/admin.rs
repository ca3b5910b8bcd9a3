//! The admin surface: the token gate and the routing of requests under `/_proxy`.

use vstd::prelude::*;
use vstd::string::*;
use crate::recorder::pairs_view;
use crate::text::{is_prefix, same_text, starts_with};

verus! {

/// What an admin request asks for.
#[derive(Clone, Copy, Debug, PartialEq, Eq, Structural)]
pub enum AdminRoute {
    /// The token is missing or wrong.
    Unauthorized,
    /// The UI entry document.
    Ui,
    /// The current configuration.
    GetConfig,
    /// A configuration update.
    UpdateConfig,
    /// The transaction log.
    GetLogs,
    /// Clearing the transaction log.
    ClearLogs,
    /// A static asset.
    Asset,
    /// Nothing known.
    NotFound,
}

/// The pairs of a form-urlencoded query, in order, names and values decoded.
pub uninterp spec fn form_pairs(q: Seq<char>) -> Seq<(Seq<char>, Seq<char>)>;

/// Relies on url's `form_urlencoded::parse` (with `into_owned`): the decoded
/// name/value pairs of a query, in order; an empty query has none.
#[verifier::external_body]
fn query_pairs(q: &str) -> (r: Vec<(String, String)>)
    ensures
        pairs_view(r@) == form_pairs(q@),
        q@.len() == 0 ==> r@.len() == 0,
{
    url::form_urlencoded::parse(q.as_bytes()).into_owned().collect()
}

/// The value of the last pair named `key`: what a map built from the pairs, in
/// order, holds under `key`.
pub open spec fn last_value(pairs: Seq<(Seq<char>, Seq<char>)>, key: Seq<char>) -> Option<Seq<char>>
    decreases pairs.len(),
{
    if pairs.len() == 0 {
        None
    } else if pairs.last().0 == key {
        Some(pairs.last().1)
    } else {
        last_value(pairs.drop_last(), key)
    }
}

/// The prefix of every admin path.
pub open spec fn admin_prefix() -> Seq<char> {
    "/_proxy"@
}

/// The prefix of asset paths, which need no token.
pub open spec fn assets_prefix() -> Seq<char> {
    "/_proxy/assets/"@
}

/// The route of an admin request with method `method`, path `path` and query pairs
/// `pairs`, where the access token is `token`.
pub open spec fn admin_route(
    method: Seq<char>,
    path: Seq<char>,
    pairs: Seq<(Seq<char>, Seq<char>)>,
    token: Seq<char>,
) -> AdminRoute {
    if !is_prefix(assets_prefix(), path) && last_value(pairs, "token"@) != Some(token) {
        AdminRoute::Unauthorized
    } else if method == "GET"@ && (path == "/_proxy"@ || path == "/_proxy/"@) {
        AdminRoute::Ui
    } else if method == "GET"@ && path == "/_proxy/api/config"@ {
        AdminRoute::GetConfig
    } else if method == "POST"@ && path == "/_proxy/api/config"@ {
        AdminRoute::UpdateConfig
    } else if method == "GET"@ && path == "/_proxy/api/logs"@ {
        AdminRoute::GetLogs
    } else if method == "DELETE"@ && path == "/_proxy/api/logs"@ {
        AdminRoute::ClearLogs
    } else if method == "GET"@ && is_prefix(assets_prefix(), path) {
        AdminRoute::Asset
    } else {
        AdminRoute::NotFound
    }
}

/// The status that a route answers with whatever else holds, if any.
pub open spec fn route_status(r: AdminRoute) -> Option<u16> {
    match r {
        AdminRoute::Unauthorized => Some(401),
        AdminRoute::NotFound => Some(404),
        _ => None,
    }
}

impl AdminRoute {
    /// The status that this route answers with whatever else holds, if any.
    pub fn fixed_status(&self) -> (r: Option<u16>)
        ensures
            r == route_status(*self),
    {
        match self {
            AdminRoute::Unauthorized => Some(401),
            AdminRoute::NotFound => Some(404),
            _ => None,
        }
    }
}

/// Whether a request path belongs to the admin surface.
pub fn is_admin_path(path: &str) -> (r: bool)
    ensures
        r == is_prefix(admin_prefix(), path@),
{
    starts_with(path, "/_proxy")
}

/// The value of the last pair named `token`.
pub fn provided_token(pairs: &Vec<(String, String)>) -> (r: Option<String>)
    ensures
        (match r { Some(t) => Some(t@), None => None }) == last_value(pairs_view(pairs@), "token"@),
{
    let n = pairs.len();
    let mut found: Option<String> = None;
    let mut i: usize = 0;
    while i < n
        invariant
            i <= n,
            n == pairs@.len(),
            (match found { Some(t) => Some(t@), None => None }) == last_value(pairs_view(pairs@.subrange(0, i as int)), "token"@),
        decreases n - i,
    {
        assert(pairs_view(pairs@.subrange(0, i + 1)).drop_last() =~= pairs_view(pairs@.subrange(0, i as int)));
        if same_text(pairs[i].0.as_str(), "token") {
            found = Some(pairs[i].1.clone());
        }
        i += 1;
    }
    assert(pairs@.subrange(0, n as int) =~= pairs@);
    found
}

/// Routes an admin request, given its query pairs.
pub fn route_with_pairs(method: &str, path: &str, pairs: &Vec<(String, String)>, token: &str) -> (r: AdminRoute)
    ensures
        r == admin_route(method@, path@, pairs_view(pairs@), token@),
{
    let is_asset = starts_with(path, "/_proxy/assets/");
    if !is_asset {
        let provided = provided_token(pairs);
        let ok = match &provided {
            Some(t) => same_text(t.as_str(), token),
            None => false,
        };
        if !ok {
            return AdminRoute::Unauthorized;
        }
    }
    let get = same_text(method, "GET");
    if get && (same_text(path, "/_proxy") || same_text(path, "/_proxy/")) {
        AdminRoute::Ui
    } else if get && same_text(path, "/_proxy/api/config") {
        AdminRoute::GetConfig
    } else if same_text(method, "POST") && same_text(path, "/_proxy/api/config") {
        AdminRoute::UpdateConfig
    } else if get && same_text(path, "/_proxy/api/logs") {
        AdminRoute::GetLogs
    } else if same_text(method, "DELETE") && same_text(path, "/_proxy/api/logs") {
        AdminRoute::ClearLogs
    } else if get && is_asset {
        AdminRoute::Asset
    } else {
        AdminRoute::NotFound
    }
}

/// Routes an admin request: method, path, and the query string (without `?`).
pub fn route_admin(method: &str, path: &str, query: &str, token: &str) -> (r: AdminRoute)
    ensures
        r == admin_route(method@, path@, form_pairs(query@), token@),
{
    let pairs = query_pairs(query);
    route_with_pairs(method, path, &pairs, token)
}

/// The path of an asset relative to the embedded files: the request path without
/// its `/_proxy/` prefix.
pub fn asset_path(path: &str) -> (r: String)
    ensures
        is_prefix("/_proxy/"@, path@) ==> r@ == path@.subrange(8, path@.len() as int),
        !is_prefix("/_proxy/"@, path@) ==> r@ == path@,
{
    proof {
        reveal_strlit("/_proxy/");
    }
    if starts_with(path, "/_proxy/") {
        path.substring_char(8, path.unicode_len()).to_string()
    } else {
        path.to_string()
    }
}

/// An admin request to a path other than an asset, whose query does not carry the
/// access token as its `token`, is answered 401.
pub proof fn lemma_missing_token_unauthorized(
    method: Seq<char>,
    path: Seq<char>,
    query: Seq<char>,
    token: Seq<char>,
)
    requires
        !is_prefix(assets_prefix(), path),
        last_value(form_pairs(query), "token"@) != Some(token),
    ensures
        admin_route(method, path, form_pairs(query), token) == AdminRoute::Unauthorized,
        route_status(admin_route(method, path, form_pairs(query), token)) == Some(401u16),
{
}

} // verus!
