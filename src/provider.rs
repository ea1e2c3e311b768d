use vstd::prelude::*;

use crate::model::ClientData;

verus! {

/// What `url::Url::parse` makes of the text: the serialization of the
/// parsed URL, or `None` where the text is not an absolute URL.
pub uninterp spec fn parsed_url(s: Seq<char>) -> Option<Seq<char>>;

/// Whether `url::Url::parse` accepts the text as an absolute URL.
pub open spec fn url_parses(s: Seq<char>) -> bool {
    parsed_url(s) is Some
}

/// The percent-decoded name/value pairs of the query of the URL written `s`,
/// in the order in which they appear.
pub uninterp spec fn query_pairs_of(s: Seq<char>) -> Seq<(Seq<char>, Seq<char>)>;

pub open spec fn pairs_view(v: Seq<(String, String)>) -> Seq<(Seq<char>, Seq<char>)> {
    v.map_values(|p: (String, String)| (p.0@, p.1@))
}

/// The words of `s` separated by single spaces.
pub open spec fn join_spaces(s: Seq<Seq<char>>) -> Seq<char>
    decreases s.len(),
{
    if s.len() == 0 {
        Seq::empty()
    } else if s.len() == 1 {
        s[0]
    } else {
        join_spaces(s.drop_last()) + " "@ + s.last()
    }
}

pub open spec fn string_views(v: Seq<String>) -> Seq<Seq<char>> {
    v.map_values(|s: String| s@)
}

/// The provider's authorization endpoint, up to its query.
pub open spec fn authorize_endpoint() -> Seq<char> {
    "https://id.twitch.tv/oauth2/authorize?"@
}

/// The decoded query of the authorization URL for client `client_id`,
/// redirect URL `redirect` (as serialized), state `state` and `scopes`.
pub open spec fn authorize_query(
    client_id: Seq<char>,
    redirect: Seq<char>,
    state: Seq<char>,
    scopes: Seq<Seq<char>>,
) -> Seq<(Seq<char>, Seq<char>)> {
    let base = seq![
        ("response_type"@, "code"@),
        ("client_id"@, client_id),
        ("redirect_uri"@, redirect),
        ("state"@, state),
    ];
    if scopes.len() == 0 {
        base
    } else {
        base.push(("scope"@, join_spaces(scopes)))
    }
}

/// Relies on `twitch_oauth2::UserTokenBuilder::generate_url`, on a builder made
/// from the client and the scopes (the redirect URL read by `url::Url::parse`):
/// it draws a fresh state (16 random bytes in standard base64, so 24
/// characters) and returns the provider's authorization URL together with
/// the state. The URL is the authorize endpoint with the query
/// `response_type=code`, `client_id`, `redirect_uri`, `state` and, where
/// scopes are asked for, `scope` (the scopes joined by spaces). `None`
/// where the redirect URL does not parse.
#[verifier::external_body]
pub(crate) fn authorization_url(client: &ClientData, scopes: &Vec<String>) -> (r: Option<
    (String, String),
>)
    ensures
        r is Some <==> url_parses(client.redirect_url@),
        r matches Some((url, state)) ==> {
            &&& authorize_endpoint().is_prefix_of(url@)
            &&& query_pairs_of(url@) == authorize_query(
                client.client_id@,
                parsed_url(client.redirect_url@).unwrap(),
                state@,
                string_views(scopes@),
            )
            &&& state@.len() == 24
        },
{
    let redirect = twitch_oauth2::url::Url::parse(&client.redirect_url).ok()?;
    let mut builder = twitch_oauth2::UserTokenBuilder::new(
        twitch_oauth2::ClientId::new(client.client_id.clone()),
        twitch_oauth2::ClientSecret::new(client.client_secret.clone()),
        redirect,
    ).set_scopes(scopes.iter().map(|s| twitch_oauth2::Scope::from(s.clone())).collect());
    let (url, csrf) = builder.generate_url();
    Some((url.to_string(), csrf.secret().to_string()))
}

/// Relies on `url::Url::parse` and `Url::query_pairs`: the decoded pairs of
/// the URL's query, in order; `None` where the text is not a URL.
#[verifier::external_body]
pub(crate) fn query_pairs(url: &str) -> (r: Option<Vec<(String, String)>>)
    ensures
        r is Some <==> url_parses(url@),
        r matches Some(v) ==> pairs_view(v@) == query_pairs_of(url@),
{
    let parsed = twitch_oauth2::url::Url::parse(url).ok()?;
    Some(parsed.query_pairs().map(|(k, v)| (k.into_owned(), v.into_owned())).collect())
}

/// Relies on `chrono::Utc::now`: the current time in milliseconds since the
/// Unix epoch. Nothing is known of the value.
#[verifier::external_body]
pub(crate) fn utc_now_millis() -> (r: i64) {
    chrono::Utc::now().timestamp_millis()
}

/// The current time in milliseconds since the Unix epoch, as an unsigned
/// count.
pub fn clock_now() -> (r: u64) {
    let t = utc_now_millis();
    if t < 0 {
        0
    } else {
        t as u64
    }
}

} // verus!
