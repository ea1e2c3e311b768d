use vstd::prelude::*;

use crate::model::{AuthError, CallbackParams, PendingAuthorization};
use crate::provider::{pairs_view, query_pairs, query_pairs_of, url_parses};
use crate::store::{live_in, Pending, PendingStore};

verus! {

/// The value of the last pair named `key`, if any: a later pair overrides
/// an earlier one.
pub open spec fn last_value(pairs: Seq<(Seq<char>, Seq<char>)>, key: Seq<char>) -> Option<
    Seq<char>,
>
    decreases pairs.len(),
{
    if pairs.len() == 0 {
        None
    } else if pairs.last().0 == key {
        Some(pairs.last().1)
    } else {
        last_value(pairs.drop_last(), key)
    }
}

pub open spec fn opt_view(o: Option<String>) -> Option<Seq<char>> {
    match o {
        None => None,
        Some(s) => Some(s@),
    }
}

/// The callback parameters that the query pairs `pairs` carry.
pub open spec fn params_of(pairs: Seq<(Seq<char>, Seq<char>)>, p: CallbackParams) -> bool {
    &&& opt_view(p.code) == last_value(pairs, "code"@)
    &&& opt_view(p.scope) == last_value(pairs, "scope"@)
    &&& opt_view(p.state) == last_value(pairs, "state"@)
}

/// The value of the last pair named `key`.
fn last_value_of(pairs: &Vec<(String, String)>, key: &String) -> (r: Option<String>)
    ensures
        opt_view(r) == last_value(pairs_view(pairs@), key@),
{
    let ghost pv = pairs_view(pairs@);
    let mut found: Option<String> = None;
    let mut i: usize = 0;
    while i < pairs.len()
        invariant
            i <= pairs@.len(),
            pv == pairs_view(pairs@),
            opt_view(found) == last_value(pv.subrange(0, i as int), key@),
        decreases pairs@.len() - i,
    {
        assert(pv.subrange(0, i + 1).drop_last() =~= pv.subrange(0, i as int));
        if pairs[i].0 == *key {
            found = Some(pairs[i].1.clone());
        }
        i = i + 1;
    }
    assert(pv.subrange(0, i as int) =~= pv);
    found
}

impl CallbackParams {
    /// Reads `code`, `scope` and `state` from decoded query pairs; where a
    /// name repeats, its last value counts.
    pub fn from_pairs(pairs: &Vec<(String, String)>) -> (r: CallbackParams)
        ensures
            params_of(pairs_view(pairs@), r),
    {
        let code = last_value_of(pairs, &String::from_str("code"));
        let scope = last_value_of(pairs, &String::from_str("scope"));
        let state = last_value_of(pairs, &String::from_str("state"));
        CallbackParams { code, scope, state }
    }
}

/// Reads the callback parameters from the full URL of a callback request;
/// `None` where the text is not a URL.
pub fn parse_callback(url: &str) -> (r: Option<CallbackParams>)
    ensures
        r is Some <==> url_parses(url@),
        r matches Some(p) ==> params_of(query_pairs_of(url@), p),
{
    match query_pairs(url) {
        None => None,
        Some(pairs) => Some(CallbackParams::from_pairs(&pairs)),
    }
}

/// The outcome of correlating `params` against store contents `m` at `now`:
/// the contents left behind and the result handed out.
pub open spec fn correlate_outcome(m: Map<Seq<char>, Pending>, params: CallbackParams, now: u64) -> (
    Map<Seq<char>, Pending>,
    Result<(PendingAuthorization, String), AuthError>,
) {
    if !params.complete() {
        (m, Err(AuthError::MalformedCallback))
    } else {
        let state = params.state.unwrap()@;
        if live_in(m, state, now) {
            (m.remove(state), Ok((m[state].auth, params.code.unwrap())))
        } else {
            (m.remove(state), Err(AuthError::UnknownOrExpiredState))
        }
    }
}

/// Matches a callback to its pending authorization and consumes it: the
/// authorization and the code go on to the exchange, and the state can never
/// be used again.
pub fn correlate(store: &mut PendingStore, params: CallbackParams, now: u64) -> (r: Result<
    (PendingAuthorization, String),
    AuthError,
>)
    requires
        old(store).wf(),
    ensures
        final(store).wf(),
        (final(store)@, r) == correlate_outcome(old(store)@, params, now),
{
    match (params.code, params.scope, params.state) {
        (Some(code), Some(_scope), Some(state)) => match store.take(&state, now) {
            Some(auth) => Ok((auth, code)),
            None => Err(AuthError::UnknownOrExpiredState),
        },
        _ => Err(AuthError::MalformedCallback),
    }
}

/// A state that is not pending is always refused, and the store then holds
/// no entry under it.
pub proof fn lemma_unknown_state_rejected(
    m: Map<Seq<char>, Pending>,
    params: CallbackParams,
    now: u64,
)
    requires
        params.complete(),
        !m.contains_key(params.state.unwrap()@),
    ensures
        correlate_outcome(m, params, now).1 == Err::<(PendingAuthorization, String), AuthError>(
            AuthError::UnknownOrExpiredState,
        ),
        correlate_outcome(m, params, now).0 == m,
{
    assert(m.remove(params.state.unwrap()@) =~= m);
}

/// A replayed callback is refused: the first correlation of a live state
/// succeeds, and a second one with the same state, at any instant,
/// yields `UnknownOrExpiredState`.
pub proof fn lemma_replay_rejected(
    m: Map<Seq<char>, Pending>,
    params: CallbackParams,
    first: u64,
    second: u64,
)
    requires
        params.complete(),
        live_in(m, params.state.unwrap()@, first),
    ensures
        correlate_outcome(m, params, first).1 == Ok::<(PendingAuthorization, String), AuthError>(
            (m[params.state.unwrap()@].auth, params.code.unwrap()),
        ),
        correlate_outcome(correlate_outcome(m, params, first).0, params, second).1 == Err::<
            (PendingAuthorization, String),
            AuthError,
        >(AuthError::UnknownOrExpiredState),
{
}

/// A callback that lacks `code`, `scope` or `state` is refused as malformed
/// and leaves the store as it was.
pub proof fn lemma_incomplete_callback_untouched(
    m: Map<Seq<char>, Pending>,
    params: CallbackParams,
    now: u64,
)
    requires
        params.code is None || params.scope is None || params.state is None,
    ensures
        correlate_outcome(m, params, now) == (
            m,
            Err::<(PendingAuthorization, String), AuthError>(AuthError::MalformedCallback),
        ),
{
}

} // verus!
