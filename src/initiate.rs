use vstd::prelude::*;

use crate::model::{BeginError, ClientData, PendingAuthorization};
use crate::correlate::last_value;
use crate::provider::{
    authorization_url, authorize_endpoint, authorize_query, join_spaces, parsed_url,
    query_pairs_of, string_views, url_parses,
};
use crate::store::{deadline, Pending, PendingStore};

verus! {

/// The pending authorization that a request with state `token`, opened at
/// `now`, records.
pub open spec fn opened(token: String, client: ClientData, scopes: Vec<String>, now: u64) -> PendingAuthorization {
    PendingAuthorization { correlation_token: token, client, scopes, created_at: now as i64 }
}

/// What the provider URL of a request with state `token` says: it is the
/// authorize endpoint, its decoded query is the one built for the client,
/// its redirect URL, `token` and `scopes`, and the state has 24 characters.
pub open spec fn carries(url: String, client: ClientData, scopes: Vec<String>, token: String) -> bool {
    &&& authorize_endpoint().is_prefix_of(url@)
    &&& query_pairs_of(url@) == authorize_query(
        client.client_id@,
        parsed_url(client.redirect_url@).unwrap(),
        token@,
        string_views(scopes@),
    )
    &&& token@.len() == 24
}

/// The authorization URL names each parameter once: `state` is the drawn
/// state, `client_id` and `redirect_uri` the client's, `response_type` is
/// `code`, `scope` the requested scopes joined by spaces (absent where none
/// are asked for), and there is no `client_secret` parameter.
pub proof fn lemma_authorize_query_values(
    client_id: Seq<char>,
    redirect: Seq<char>,
    state: Seq<char>,
    scopes: Seq<Seq<char>>,
)
    ensures
        last_value(authorize_query(client_id, redirect, state, scopes), "state"@) == Some(state),
        last_value(authorize_query(client_id, redirect, state, scopes), "client_id"@) == Some(
            client_id,
        ),
        last_value(authorize_query(client_id, redirect, state, scopes), "redirect_uri"@) == Some(
            redirect,
        ),
        last_value(authorize_query(client_id, redirect, state, scopes), "response_type"@) == Some(
            "code"@,
        ),
        last_value(authorize_query(client_id, redirect, state, scopes), "scope"@) == (if scopes.len()
            == 0 {
            None
        } else {
            Some(join_spaces(scopes))
        }),
        last_value(authorize_query(client_id, redirect, state, scopes), "client_secret"@) is None,
{
    reveal_with_fuel(last_value, 6);
    reveal_strlit("state");
    reveal_strlit("scope");
    reveal_strlit("client_id");
    reveal_strlit("redirect_uri");
    reveal_strlit("response_type");
    reveal_strlit("client_secret");
    reveal_strlit("code");
    let q = authorize_query(client_id, redirect, state, scopes);
    let base = seq![
        ("response_type"@, "code"@),
        ("client_id"@, client_id),
        ("redirect_uri"@, redirect),
        ("state"@, state),
    ];
    assert("state"@[1] != "scope"@[1]);
    assert("client_id"@.len() == 9 && "redirect_uri"@.len() == 12 && "state"@.len() == 5);
    assert("response_type"@.len() == 13 && "scope"@.len() == 5 && "client_secret"@.len() == 13);
    assert("response_type"@[0] != "client_secret"@[0]);
    assert("client_id"@ != "redirect_uri"@ && "client_id"@ != "state"@ && "client_id"@ != "scope"@);
    assert("response_type"@ != "redirect_uri"@ && "response_type"@ != "state"@ && "response_type"@
        != "scope"@ && "response_type"@ != "client_id"@);
    assert(base.drop_last() =~= seq![
        ("response_type"@, "code"@),
        ("client_id"@, client_id),
        ("redirect_uri"@, redirect),
    ]);
    assert(base.drop_last().drop_last() =~= seq![
        ("response_type"@, "code"@),
        ("client_id"@, client_id),
    ]);
    assert(base.drop_last().drop_last().drop_last() =~= seq![("response_type"@, "code"@)]);
    assert(base.drop_last().drop_last().drop_last().drop_last() =~= Seq::<
        (Seq<char>, Seq<char>),
    >::empty());
    if scopes.len() > 0 {
        assert(q.drop_last() =~= base);
    }
}

/// Draws a fresh state and builds the provider URL that carries it, with the
/// pending authorization that awaits its callback. Nothing is recorded yet.
pub fn prepare_request(client: ClientData, scopes: Vec<String>, now: u64) -> (r: Result<
    (String, PendingAuthorization),
    BeginError,
>)
    requires
        now <= i64::MAX,
    ensures
        r is Err <==> !url_parses(client.redirect_url@),
        r is Err ==> r == Err::<(String, PendingAuthorization), BeginError>(
            BeginError::InvalidRedirect,
        ),
        r matches Ok((url, auth)) ==> auth == opened(auth.correlation_token, client, scopes, now)
            && carries(url, client, scopes, auth.correlation_token),
{
    match authorization_url(&client, &scopes) {
        None => Err(BeginError::InvalidRedirect),
        Some((url, token)) => Ok(
            (url, PendingAuthorization { correlation_token: token, client, scopes, created_at: now as i64 }),
        ),
    }
}

/// Records a prepared authorization until its callback takes it (or `ttl`
/// milliseconds pass) and hands back the provider URL and the state.
/// Refused, leaving the store as it was, where the state is still pending.
pub fn open_request(
    store: &mut PendingStore,
    url: String,
    auth: PendingAuthorization,
    ttl: Option<u64>,
    now: u64,
) -> (r: Result<(String, String), BeginError>)
    requires
        old(store).wf(),
    ensures
        final(store).wf(),
        old(store).live(auth.correlation_token@, now) ==> r == Err::<(String, String), BeginError>(
            BeginError::StateCollision,
        ) && final(store)@ == old(store)@,
        !old(store).live(auth.correlation_token@, now) ==> r == Ok::<(String, String), BeginError>(
            (url, auth.correlation_token),
        ) && final(store)@ == old(store)@.insert(
            auth.correlation_token@,
            Pending { auth, expires_at: deadline(now, ttl) },
        ),
{
    let token = auth.correlation_token.clone();
    match store.put(auth, ttl, now) {
        Ok(()) => Ok((url, token)),
        Err(_) => Err(BeginError::StateCollision),
    }
}

/// Starts an authorization on one store: draws a fresh state, builds the
/// provider URL that carries it, and records the request. Returns the URL
/// and the state.
pub fn begin(
    store: &mut PendingStore,
    client: ClientData,
    scopes: Vec<String>,
    ttl: Option<u64>,
    now: u64,
) -> (r: Result<(String, String), BeginError>)
    requires
        old(store).wf(),
        now <= i64::MAX,
    ensures
        final(store).wf(),
        r == Err::<(String, String), BeginError>(BeginError::InvalidRedirect) <==> !url_parses(
            client.redirect_url@,
        ),
        r is Err ==> final(store)@ == old(store)@,
        r == Err::<(String, String), BeginError>(BeginError::StateCollision) ==> exists|k: Seq<
            char,
        >| old(store).live(k, now),
        r matches Ok((url, token)) ==> !old(store).live(token@, now) && final(store)@ == old(
            store,
        )@.insert(
            token@,
            Pending { auth: opened(token, client, scopes, now), expires_at: deadline(now, ttl) },
        ) && carries(url, client, scopes, token) && last_value(query_pairs_of(url@), "state"@)
            == Some(token@),
{
    match prepare_request(client, scopes, now) {
        Err(e) => Err(e),
        Ok((url, auth)) => {
            let ghost token = auth.correlation_token;
            let r = open_request(store, url, auth, ttl, now);
            proof {
                lemma_authorize_query_values(
                    client.client_id@,
                    parsed_url(client.redirect_url@).unwrap(),
                    token@,
                    string_views(scopes@),
                );
                if r is Err {
                    assert(old(store).live(token@, now));
                }
            }
            r
        },
    }
}

} // verus!
