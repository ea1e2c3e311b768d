use oauth_gate::correlate::{correlate, parse_callback};
use oauth_gate::flow::{default_scopes, Attempt, Event, UserToken};
use oauth_gate::initiate::{begin, open_request, prepare_request};
use oauth_gate::model::{AuthError, BeginError, CallbackParams, ClientData, PendingAuthorization};
use oauth_gate::provider::clock_now;
use oauth_gate::store::PendingStore;

fn client() -> ClientData {
    ClientData {
        client_id: "myid".to_string(),
        client_secret: "mysecret".to_string(),
        redirect_url: "http://localhost:8080/".to_string(),
    }
}

fn params(code: Option<&str>, scope: Option<&str>, state: Option<&str>) -> CallbackParams {
    CallbackParams {
        code: code.map(|s| s.to_string()),
        scope: scope.map(|s| s.to_string()),
        state: state.map(|s| s.to_string()),
    }
}

fn pending(token: &str) -> PendingAuthorization {
    PendingAuthorization {
        correlation_token: token.to_string(),
        client: client(),
        scopes: vec!["scopeA".to_string()],
        created_at: 100,
    }
}

fn opened(store: &mut PendingStore, token: &str) {
    let r = open_request(store, "https://example.com/".to_string(), pending(token), None, 100);
    assert_eq!(r, Ok(("https://example.com/".to_string(), token.to_string())));
}

#[test]
fn unknown_state_is_rejected() {
    let mut s = PendingStore::new();
    opened(&mut s, "known");
    let r = correlate(&mut s, params(Some("abc"), Some("x"), Some("forged")), 100);
    assert_eq!(r, Err(AuthError::UnknownOrExpiredState));
}

#[test]
fn replayed_state_is_rejected() {
    let mut s = PendingStore::new();
    opened(&mut s, "st");
    let first = correlate(&mut s, params(Some("abc"), Some("x"), Some("st")), 100);
    assert!(first.is_ok());
    let second = correlate(&mut s, params(Some("abc"), Some("x"), Some("st")), 100);
    assert_eq!(second, Err(AuthError::UnknownOrExpiredState));
}

#[test]
fn missing_parameter_is_malformed_and_keeps_store() {
    let mut s = PendingStore::new();
    opened(&mut s, "st");
    let cases = [
        params(None, Some("x"), Some("st")),
        params(Some("abc"), None, Some("st")),
        params(Some("abc"), Some("x"), None),
        params(None, None, None),
    ];
    for p in cases {
        assert_eq!(correlate(&mut s, p, 100), Err(AuthError::MalformedCallback));
    }
    let r = correlate(&mut s, params(Some("abc"), Some("x"), Some("st")), 100);
    assert_eq!(r.unwrap().1, "abc".to_string());
}

#[test]
fn open_request_refuses_pending_state() {
    let mut s = PendingStore::new();
    opened(&mut s, "st");
    let r = open_request(&mut s, "https://example.com/".to_string(), pending("st"), None, 200);
    assert_eq!(r, Err(BeginError::StateCollision));
}

#[test]
fn begin_rejects_bad_redirect() {
    let mut s = PendingStore::new();
    let mut c = client();
    c.redirect_url = "not a url".to_string();
    assert_eq!(begin(&mut s, c, default_scopes(), None, 100), Err(BeginError::InvalidRedirect));
}

#[test]
fn begin_builds_provider_url_with_state() {
    let mut s = PendingStore::new();
    let (url, token) = begin(&mut s, client(), vec!["scopeA".to_string()], None, 100).unwrap();
    assert!(!token.is_empty());
    assert!(url.starts_with("https://id.twitch.tv/oauth2/authorize?"));
    assert!(url.contains("client_id=myid"));
    assert!(url.contains("scope=scopeA"));
    let back = parse_callback(&url).unwrap();
    assert_eq!(back.state, Some(token.clone()));
    assert_eq!(back.scope, Some("scopeA".to_string()));
    assert_eq!(back.code, None);
}

#[test]
fn round_trip_persists_one_record() {
    let mut s = PendingStore::new();
    let (_url, token) = begin(&mut s, client(), vec!["scopeA".to_string()], None, 100).unwrap();
    let p = params(Some("abc123"), Some("scopeA"), Some(&token));
    let (auth, code) = correlate(&mut s, p.clone(), 150).unwrap();
    assert_eq!(
        auth,
        PendingAuthorization {
            correlation_token: token.clone(),
            client: client(),
            scopes: vec!["scopeA".to_string()],
            created_at: 100,
        }
    );
    assert_eq!(code, "abc123".to_string());

    let mut sink: Vec<UserToken> = Vec::new();
    let mut s2 = PendingStore::new();
    let (_u, t2) = begin(&mut s2, client(), vec!["scopeA".to_string()], None, 100).unwrap();
    let mut a = Attempt::start(&mut s2, params(Some("abc123"), Some("scopeA"), Some(&t2)), 150);
    let mut events = vec![
        Event::Exchanged {
            user_id: "42".to_string(),
            access_token: "tok1".to_string(),
            refresh_token: None,
            login: "alice".to_string(),
            at: 7,
        },
        Event::Persisted,
    ]
    .into_iter();
    while a.reply().is_none() {
        if let Attempt::Persisting { record } = &a {
            sink.push(record.clone());
        }
        a = a.advance(events.next().unwrap());
    }
    assert_eq!(a, Attempt::Done);
    assert_eq!(a.reply(), Some((200, "You can close this tab now")));
    assert_eq!(sink.len(), 1);
    assert_eq!(sink[0].login, "alice".to_string());
    assert_eq!(sink[0].access_token, "tok1".to_string());
    assert_eq!(sink[0].code, "abc123".to_string());
    assert_eq!(sink[0].refresh_token, String::new());
    assert_eq!(sink[0].created_at, 7);
}

#[test]
fn rejected_exchange_never_reaches_sink() {
    let mut s = PendingStore::new();
    opened(&mut s, "st");
    let mut a = Attempt::start(&mut s, params(Some("abc"), Some("x"), Some("st")), 100);
    assert!(matches!(a, Attempt::Exchanging { .. }));
    a = a.advance(Event::Rejected);
    assert_eq!(a, Attempt::Failed { error: AuthError::ProviderRejected });
    a = a.advance(Event::Persisted);
    assert_eq!(a, Attempt::Failed { error: AuthError::ProviderRejected });
    assert_eq!(a.reply(), Some((500, "Error getting user token")));
}

#[test]
fn transport_failure_is_terminal() {
    let mut s = PendingStore::new();
    opened(&mut s, "st");
    let a = Attempt::start(&mut s, params(Some("abc"), Some("x"), Some("st")), 100);
    let a = a.advance(Event::TransportFailed);
    assert_eq!(a, Attempt::Failed { error: AuthError::TransportError });
}

#[test]
fn persistence_failure_is_reported() {
    let mut s = PendingStore::new();
    opened(&mut s, "st");
    let a = Attempt::start(&mut s, params(Some("abc"), Some("x"), Some("st")), 100);
    let a = a.advance(Event::Exchanged {
        user_id: "1".to_string(),
        access_token: "a".to_string(),
        refresh_token: Some("r".to_string()),
        login: "bob".to_string(),
        at: 3,
    });
    match &a {
        Attempt::Persisting { record } => assert_eq!(record.refresh_token, "r".to_string()),
        _ => panic!("expected a record to persist"),
    }
    let a = a.advance(Event::PersistFailed);
    assert_eq!(a, Attempt::Failed { error: AuthError::PersistenceError });
    assert_eq!(a.reply(), Some((500, "Error inserting user token")));
}

#[test]
fn replies_by_outcome() {
    assert_eq!(
        Attempt::Failed { error: AuthError::MalformedCallback }.reply(),
        Some((400, "Invalid URL"))
    );
    assert_eq!(
        Attempt::Failed { error: AuthError::UnknownOrExpiredState }.reply(),
        Some((500, "Error getting token builders"))
    );
    let mut s = PendingStore::new();
    let a = Attempt::start(&mut s, params(Some("abc"), Some("x"), Some("none")), 0);
    assert_eq!(a, Attempt::Failed { error: AuthError::UnknownOrExpiredState });
}

#[test]
fn parse_callback_reads_decoded_parameters() {
    let p = parse_callback("http://localhost:8080/?code=abc123&scope=a%3Ab+c&state=x%2By%3D").unwrap();
    assert_eq!(p.code, Some("abc123".to_string()));
    assert_eq!(p.scope, Some("a:b c".to_string()));
    assert_eq!(p.state, Some("x+y=".to_string()));
}

#[test]
fn parse_callback_last_value_wins() {
    let p = parse_callback("http://h/?state=one&state=two&code=c").unwrap();
    assert_eq!(p.state, Some("two".to_string()));
    assert_eq!(p.code, Some("c".to_string()));
    assert_eq!(p.scope, None);
}

#[test]
fn parse_callback_rejects_non_url() {
    assert_eq!(parse_callback("no url here"), None);
}

#[test]
fn from_pairs_picks_named_values() {
    let pairs = vec![
        ("scope".to_string(), "s".to_string()),
        ("other".to_string(), "o".to_string()),
        ("code".to_string(), "c1".to_string()),
        ("code".to_string(), "c2".to_string()),
    ];
    assert_eq!(CallbackParams::from_pairs(&pairs), params(Some("c2"), Some("s"), None));
}

#[test]
fn user_token_new_keeps_fields() {
    let t = UserToken::new(
        "1".to_string(),
        "c".to_string(),
        "a".to_string(),
        "r".to_string(),
        "l".to_string(),
    );
    assert_eq!(t.user_id, "1");
    assert_eq!(t.code, "c");
    assert_eq!(t.access_token, "a");
    assert_eq!(t.refresh_token, "r");
    assert_eq!(t.login, "l");
    assert!(t.created_at > 1_600_000_000_000);
}

#[test]
fn from_exchange_without_refresh_is_empty() {
    let t = UserToken::from_exchange(
        9,
        "1".to_string(),
        "c".to_string(),
        "a".to_string(),
        None,
        "l".to_string(),
    );
    assert_eq!(t.refresh_token, "");
    assert_eq!(t.created_at, 9);
}

#[test]
fn default_scope_list() {
    assert_eq!(
        default_scopes(),
        vec![
            "bits:read".to_string(),
            "channel:moderate".to_string(),
            "moderator:manage:banned_users".to_string(),
            "channel:bot".to_string(),
            "user:read:chat".to_string(),
            "user:bot".to_string(),
        ]
    );
}

#[test]
fn clock_reads_current_time() {
    assert!(clock_now() > 1_600_000_000_000);
}

#[test]
fn prepare_request_draws_fresh_states() {
    let (url1, a1) = prepare_request(client(), default_scopes(), 5).unwrap();
    let (_url2, a2) = prepare_request(client(), default_scopes(), 5).unwrap();
    assert_ne!(a1.correlation_token, a2.correlation_token);
    assert_eq!(a1.client, client());
    assert_eq!(a1.scopes, default_scopes());
    assert_eq!(a1.created_at, 5);
    let back = parse_callback(&url1).unwrap();
    assert_eq!(back.state, Some(a1.correlation_token.clone()));
    assert!(url1.contains("redirect_uri=http%3A%2F%2Flocalhost%3A8080%2F"));
}

#[test]
fn prepare_request_rejects_bad_redirect() {
    let mut c = client();
    c.redirect_url = "/relative/only".to_string();
    assert_eq!(prepare_request(c, vec![], 5), Err(BeginError::InvalidRedirect));
}

#[test]
fn authorization_url_names_each_parameter() {
    let mut s = PendingStore::new();
    let (url, token) = begin(&mut s, client(), default_scopes(), None, 100).unwrap();
    assert_eq!(token.chars().count(), 24);
    let parsed = twitch_oauth2::url::Url::parse(&url).unwrap();
    let pairs: Vec<(String, String)> =
        parsed.query_pairs().map(|(k, v)| (k.into_owned(), v.into_owned())).collect();
    assert_eq!(
        pairs,
        vec![
            ("response_type".to_string(), "code".to_string()),
            ("client_id".to_string(), "myid".to_string()),
            ("redirect_uri".to_string(), "http://localhost:8080/".to_string()),
            ("state".to_string(), token.clone()),
            (
                "scope".to_string(),
                "bits:read channel:moderate moderator:manage:banned_users channel:bot user:read:chat user:bot"
                    .to_string()
            ),
        ]
    );
    assert!(!url.contains("mysecret"));
}

#[test]
fn authorization_url_without_scopes_has_no_scope() {
    let (url, auth) = prepare_request(client(), vec![], 5).unwrap();
    let p = parse_callback(&url).unwrap();
    assert_eq!(p.scope, None);
    assert_eq!(p.state, Some(auth.correlation_token));
}
