//! The address to which a login sends the user: the identity provider's
//! authorization endpoint with the parameters of the request.

use vstd::prelude::*;
use vstd::string::StringExecFns;
use crate::models::optional_text;

verus! {

/// The authorization endpoint of the identity provider.
pub const AUTHORIZATION_ENDPOINT: &'static str = "https://accounts.google.com/o/oauth2/v2/auth";

/// The scope that a login asks for.
pub const LOGIN_SCOPE: &'static str = "openid email profile";

/// The serialisation of the URL that `url::Url::parse_with_params` returns
/// for `endpoint` and the query parameters `pairs`; `None` where it returns
/// an error.
pub uninterp spec fn url_with_params(endpoint: Seq<char>, pairs: Seq<(Seq<char>, Seq<char>)>) -> Option<Seq<char>>;

/// The names and values of query parameters as mathematical values.
pub open spec fn pairs_view(pairs: Seq<(String, String)>) -> Seq<(Seq<char>, Seq<char>)> {
    pairs.map_values(|p: (String, String)| (p.0@, p.1@))
}

/// Calls `url::Url::parse_with_params`, which parses `endpoint` as an
/// absolute URL and appends each pair to its query in
/// `application/x-www-form-urlencoded` form, and returns the serialisation
/// of the URL.
///
/// The contract claims that the outcome is a function of the endpoint and
/// the pairs. The crate counts positions in 32 bits and panics where a
/// position that it records does not fit. It records where the query starts,
/// so long endpoints are left out; and where the fragment starts, once the
/// query was extended, so endpoints with a fragment are left out.
#[verifier::external_body]
fn parse_with_params(endpoint: &str, pairs: &Vec<(String, String)>) -> (r: Option<String>)
    requires
        endpoint@.len() <= 0xffff,
        !endpoint@.contains('#'),
    ensures
        optional_text(r) == url_with_params(endpoint@, pairs_view(pairs@)),
{
    url::Url::parse_with_params(endpoint, pairs).ok().map(String::from)
}

/// The query parameters of an authorization request, in the order in which
/// they are appended.
pub open spec fn authorization_pairs(client_id: Seq<char>, redirect_uri: Seq<char>, state: Seq<char>) -> Seq<
    (Seq<char>, Seq<char>),
> {
    seq![
        ("client_id"@, client_id),
        ("redirect_uri"@, redirect_uri),
        ("response_type"@, "code"@),
        ("scope"@, LOGIN_SCOPE@),
        ("state"@, state),
    ]
}

/// The address of an authorization request: the provider's endpoint with the
/// parameters of [`authorization_pairs`]. `None` where no URL can be built.
pub open spec fn authorization_address(client_id: Seq<char>, redirect_uri: Seq<char>, state: Seq<char>) -> Option<
    Seq<char>,
> {
    url_with_params(AUTHORIZATION_ENDPOINT@, authorization_pairs(client_id, redirect_uri, state))
}

/// The authorization endpoint is short and holds no `#`, so it has no
/// fragment.
proof fn lemma_endpoint_has_no_fragment()
    ensures
        AUTHORIZATION_ENDPOINT@.len() == 44,
        !AUTHORIZATION_ENDPOINT@.contains('#'),
{
    reveal_strlit("https://accounts.google.com/o/oauth2/v2/auth");
    let s = AUTHORIZATION_ENDPOINT@;
    assert(s.len() == 44);
    assert forall|i: int| 0 <= i < s.len() implies s[i] != '#' by {}
}

/// Builds the address to which a login redirects: the provider's
/// authorization endpoint, asking for a code on behalf of `client_id`, to be
/// delivered to `redirect_uri` together with `state`.
pub fn authorization_url(client_id: &str, redirect_uri: &str, state: &str) -> (r: Option<String>)
    ensures
        optional_text(r) == authorization_address(client_id@, redirect_uri@, state@),
{
    let mut pairs: Vec<(String, String)> = Vec::new();
    pairs.push((String::from_str("client_id"), String::from_str(client_id)));
    pairs.push((String::from_str("redirect_uri"), String::from_str(redirect_uri)));
    pairs.push((String::from_str("response_type"), String::from_str("code")));
    pairs.push((String::from_str("scope"), String::from_str(LOGIN_SCOPE)));
    pairs.push((String::from_str("state"), String::from_str(state)));
    proof {
        lemma_endpoint_has_no_fragment();
        assert(pairs_view(pairs@) =~= authorization_pairs(client_id@, redirect_uri@, state@));
    }
    parse_with_params(AUTHORIZATION_ENDPOINT, &pairs)
}

} // verus!
