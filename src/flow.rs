use vstd::prelude::*;

use crate::correlate::{correlate, correlate_outcome};
use crate::model::{AuthError, CallbackParams, PendingAuthorization};
use crate::provider::utc_now_millis;
use crate::store::PendingStore;

verus! {

/// The token pair that a successful exchange yields, ready to be stored.
#[derive(Clone, Debug, PartialEq, Eq)]
pub struct UserToken {
    /// Milliseconds since the Unix epoch at which the record was made.
    pub created_at: i64,
    pub user_id: String,
    pub code: String,
    pub access_token: String,
    /// Empty where the provider issued none.
    pub refresh_token: String,
    pub login: String,
}

pub open spec fn refresh_view(r: Option<String>) -> Seq<char> {
    match r {
        None => Seq::<char>::empty(),
        Some(s) => s@,
    }
}

impl UserToken {
    /// A record stamped with the current time.
    pub fn new(
        user_id: String,
        code: String,
        access_token: String,
        refresh_token: String,
        login: String,
    ) -> (r: UserToken)
        ensures
            r.user_id == user_id,
            r.code == code,
            r.access_token == access_token,
            r.refresh_token == refresh_token,
            r.login == login,
    {
        UserToken {
            created_at: utc_now_millis(),
            user_id,
            code,
            access_token,
            refresh_token,
            login,
        }
    }

    /// The record of an exchange made at `created_at`; a missing refresh
    /// token is stored as the empty string.
    pub fn from_exchange(
        created_at: i64,
        user_id: String,
        code: String,
        access_token: String,
        refresh_token: Option<String>,
        login: String,
    ) -> (r: UserToken)
        ensures
            r.created_at == created_at,
            r.user_id == user_id,
            r.code == code,
            r.access_token == access_token,
            r.refresh_token@ == refresh_view(refresh_token),
            r.login == login,
    {
        let refresh_token = match refresh_token {
            None => String::new(),
            Some(s) => s,
        };
        UserToken { created_at, user_id, code, access_token, refresh_token, login }
    }
}

/// What the outside world reports back to an authorization attempt.
#[derive(Clone, Debug, PartialEq, Eq)]
pub enum Event {
    /// The provider exchanged the code for tokens at instant `at`.
    Exchanged {
        user_id: String,
        access_token: String,
        refresh_token: Option<String>,
        login: String,
        at: i64,
    },
    /// The provider could not be reached.
    TransportFailed,
    /// The provider refused the exchange.
    Rejected,
    /// The sink stored the record.
    Persisted,
    /// The sink did not store the record.
    PersistFailed,
}

/// One authorization attempt after its callback arrived. The state says
/// what is to be done next: exchange the code, store the record, or reply.
#[derive(Clone, Debug, PartialEq, Eq)]
pub enum Attempt {
    /// The code is to be exchanged; the state sent along is the
    /// authorization's correlation token.
    Exchanging { auth: PendingAuthorization, code: String },
    /// The record is to be handed to the sink.
    Persisting { record: UserToken },
    Done,
    Failed { error: AuthError },
}

/// The transition relation: `next` may follow `a` on `e`.
pub open spec fn follows(a: Attempt, e: Event, next: Attempt) -> bool {
    match a {
        Attempt::Exchanging { auth, code } => match e {
            Event::Exchanged { user_id, access_token, refresh_token, login, at } => match next {
                Attempt::Persisting { record } => {
                    &&& record.created_at == at
                    &&& record.user_id == user_id
                    &&& record.code == code
                    &&& record.access_token == access_token
                    &&& record.refresh_token@ == refresh_view(refresh_token)
                    &&& record.login == login
                },
                _ => false,
            },
            Event::TransportFailed => next == Attempt::Failed { error: AuthError::TransportError },
            Event::Rejected => next == Attempt::Failed { error: AuthError::ProviderRejected },
            _ => next == a,
        },
        Attempt::Persisting { record } => match e {
            Event::Persisted => next == Attempt::Done,
            Event::PersistFailed => next == Attempt::Failed { error: AuthError::PersistenceError },
            _ => next == a,
        },
        _ => next == a,
    }
}

/// Whether an attempt needs nothing more done.
pub open spec fn is_terminal(a: Attempt) -> bool {
    a is Done || a is Failed
}

impl Attempt {
    /// Opens the attempt for a callback: a callback that correlates goes on
    /// to the exchange, any other ends with the correlation's error.
    pub fn start(store: &mut PendingStore, params: CallbackParams, now: u64) -> (r: Attempt)
        requires
            old(store).wf(),
        ensures
            final(store).wf(),
            final(store)@ == correlate_outcome(old(store)@, params, now).0,
            r == match correlate_outcome(old(store)@, params, now).1 {
                Ok((auth, code)) => Attempt::Exchanging { auth, code },
                Err(error) => Attempt::Failed { error },
            },
    {
        match correlate(store, params, now) {
            Ok((auth, code)) => Attempt::Exchanging { auth, code },
            Err(error) => Attempt::Failed { error },
        }
    }

    /// The state that follows on `e`. An event that does not concern the
    /// current state leaves it as it is.
    pub fn advance(self, e: Event) -> (r: Attempt)
        ensures
            follows(self, e, r),
    {
        match self {
            Attempt::Exchanging { auth, code } => match e {
                Event::Exchanged { user_id, access_token, refresh_token, login, at } => {
                    Attempt::Persisting {
                        record: UserToken::from_exchange(
                            at,
                            user_id,
                            code,
                            access_token,
                            refresh_token,
                            login,
                        ),
                    }
                },
                Event::TransportFailed => Attempt::Failed { error: AuthError::TransportError },
                Event::Rejected => Attempt::Failed { error: AuthError::ProviderRejected },
                _ => Attempt::Exchanging { auth, code },
            },
            Attempt::Persisting { record } => match e {
                Event::Persisted => Attempt::Done,
                Event::PersistFailed => Attempt::Failed { error: AuthError::PersistenceError },
                _ => Attempt::Persisting { record },
            },
            other => other,
        }
    }

    /// The status and body of the reply to the end user once the attempt is
    /// over; `None` while work remains. The body never names a token.
    pub fn reply(&self) -> (r: Option<(u16, &'static str)>)
        ensures
            !is_terminal(*self) <==> r is None,
            *self is Done ==> r == Some((200u16, "You can close this tab now")),
            *self == (Attempt::Failed { error: AuthError::MalformedCallback }) ==> r == Some(
                (400u16, "Invalid URL"),
            ),
            *self == (Attempt::Failed { error: AuthError::UnknownOrExpiredState }) ==> r == Some(
                (500u16, "Error getting token builders"),
            ),
            *self == (Attempt::Failed { error: AuthError::TransportError }) || *self == (
            Attempt::Failed { error: AuthError::ProviderRejected }) ==> r == Some(
                (500u16, "Error getting user token"),
            ),
            *self == (Attempt::Failed { error: AuthError::PersistenceError }) ==> r == Some(
                (500u16, "Error inserting user token"),
            ),
    {
        match self {
            Attempt::Exchanging { .. } => None,
            Attempt::Persisting { .. } => None,
            Attempt::Done => Some((200, "You can close this tab now")),
            Attempt::Failed { error } => match error {
                AuthError::MalformedCallback => Some((400, "Invalid URL")),
                AuthError::UnknownOrExpiredState => Some((500, "Error getting token builders")),
                AuthError::TransportError => Some((500, "Error getting user token")),
                AuthError::ProviderRejected => Some((500, "Error getting user token")),
                AuthError::PersistenceError => Some((500, "Error inserting user token")),
            },
        }
    }
}

/// `states` is a run of attempts driven by `events`: each state follows the
/// one before it on the event between them.
pub open spec fn is_run(states: Seq<Attempt>, events: Seq<Event>) -> bool {
    &&& states.len() == events.len() + 1
    &&& forall|i: int|
        0 <= i < events.len() ==> #[trigger] follows(states[i], events[i], states[i + 1])
}

proof fn lemma_failed_stays(states: Seq<Attempt>, events: Seq<Event>, error: AuthError, k: int)
    requires
        is_run(states, events),
        1 <= k < states.len(),
        states[1] == (Attempt::Failed { error }),
    ensures
        states[k] == (Attempt::Failed { error }),
    decreases k,
{
    if k > 1 {
        lemma_failed_stays(states, events, error, k - 1);
        let j = k - 1;
        assert(follows(states[j], events[j], states[j + 1]));
    }
}

/// A failed exchange never reaches the sink: once the provider refuses the
/// code or cannot be reached, every later state of the attempt is that
/// failure, so no record is ever handed on to be stored.
pub proof fn lemma_failed_exchange_never_persists(states: Seq<Attempt>, events: Seq<Event>)
    requires
        is_run(states, events),
        states[0] is Exchanging,
        events.len() > 0,
        events[0] is Rejected || events[0] is TransportFailed,
    ensures
        forall|k: int|
            1 <= k < states.len() ==> !(#[trigger] states[k] is Persisting) && states[k] is Failed,
{
    let z: int = 0;
    assert(follows(states[z], events[z], states[z + 1]));
    let error = if events[0] is Rejected {
        AuthError::ProviderRejected
    } else {
        AuthError::TransportError
    };
    assert forall|k: int| 1 <= k < states.len() implies !(#[trigger] states[k] is Persisting)
        && states[k] is Failed by {
        lemma_failed_stays(states, events, error, k);
    }
}

/// A record is only ever built from a consumed authorization and a
/// successful exchange: in a run that does not start with a record, every
/// state that holds one comes after an exchange that succeeded.
pub proof fn lemma_record_follows_exchange(states: Seq<Attempt>, events: Seq<Event>, k: int)
    requires
        is_run(states, events),
        !(states[0] is Persisting),
        0 <= k < states.len(),
        states[k] is Persisting,
    ensures
        exists|j: int|
            0 <= j < k && #[trigger] states[j] is Exchanging && events[j] is Exchanged,
    decreases k,
{
    let j = k - 1;
    assert(follows(states[j], events[j], states[j + 1]));
    if !(states[j] is Persisting) {
        assert(states[j] is Exchanging && events[j] is Exchanged);
    } else {
        lemma_record_follows_exchange(states, events, j);
    }
}

/// The scopes requested when an authorization starts.
pub fn default_scopes() -> (r: Vec<String>)
    ensures
        r@.len() == 6,
        r@[0]@ == "bits:read"@,
        r@[1]@ == "channel:moderate"@,
        r@[2]@ == "moderator:manage:banned_users"@,
        r@[3]@ == "channel:bot"@,
        r@[4]@ == "user:read:chat"@,
        r@[5]@ == "user:bot"@,
{
    let mut v: Vec<String> = Vec::new();
    v.push(String::from_str("bits:read"));
    v.push(String::from_str("channel:moderate"));
    v.push(String::from_str("moderator:manage:banned_users"));
    v.push(String::from_str("channel:bot"));
    v.push(String::from_str("user:read:chat"));
    v.push(String::from_str("user:bot"));
    v
}

} // verus!
