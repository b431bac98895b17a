use spotifyd_rest::server::{
    PollAction, PollEvent, Progress, RestServer, Stage, TokenReply, CLIENT_ID, SCOPE,
};
use spotifyd_rest::token::{
    api_token, needs_token, token_needed, ApiToken, Timestamp, EXPIRY_MARGIN, MAX_SECS, MIN_SECS,
};

type Action = PollAction<String, u32>;
type Event = PollEvent<String, u32>;

const NOW: Timestamp = Timestamp { secs: 1_700_000_000, nanos: 123_456_789 };

fn server() -> RestServer<String> {
    RestServer::new("radio".to_string())
}

fn step(server: &mut RestServer<String>, event: Event) -> Action {
    assert!(server.can_take(&event));
    server.poll(event)
}

fn checked(needs_token: bool) -> Event {
    PollEvent::TokenChecked { needs_token }
}

fn grant(name: &str) -> Event {
    PollEvent::RequestPolled(TokenReply::Granted {
        access_token: name.to_string(),
        expires_in: 3600,
        now: NOW,
    })
}

fn token(name: &str) -> ApiToken<String> {
    ApiToken {
        access_token: name.to_string(),
        expires_in: 3600,
        expires_at: Some(Timestamp { secs: 1_700_003_600, nanos: 123_456_789 }),
    }
}

fn requesting() -> RestServer<String> {
    let mut s = server();
    step(&mut s, PollEvent::Begin);
    step(&mut s, checked(true));
    step(&mut s, PollEvent::ClientIdRead(None));
    step(&mut s, PollEvent::Acknowledged);
    s
}

fn serving() -> RestServer<String> {
    let mut s = requesting();
    step(&mut s, PollEvent::Begin);
    step(&mut s, checked(true));
    step(&mut s, grant("a"));
    step(&mut s, PollEvent::Acknowledged);
    step(&mut s, PollEvent::ServerPolled(Progress::Pending));
    s
}

#[test]
fn new_server_serves_nothing() {
    let s = server();
    assert_eq!(s.device_name, "radio");
    assert!(!s.token_request && !s.rest_future && !s.event_tx);
    assert_eq!(s.stage, Stage::Idle);
}

#[test]
fn first_poll_asks_for_a_token() {
    let mut s = server();
    assert_eq!(step(&mut s, PollEvent::Begin), PollAction::CheckToken);
    let action: Action = s.check_token(None);
    assert_eq!(action, PollAction::ReadClientId);
    assert_eq!(
        step(&mut s, PollEvent::ClientIdRead(None)),
        PollAction::StartRequest { client_id: CLIENT_ID.to_string(), scope: SCOPE.to_string() }
    );
    assert_eq!(
        step(&mut s, PollEvent::Acknowledged),
        PollAction::Return(Progress::Pending)
    );
    assert!(s.token_request);
}

#[test]
fn client_id_can_be_given() {
    let mut s = server();
    step(&mut s, PollEvent::Begin);
    step(&mut s, checked(true));
    assert_eq!(
        step(&mut s, PollEvent::ClientIdRead(Some("mine".to_string()))),
        PollAction::StartRequest { client_id: "mine".to_string(), scope: SCOPE.to_string() }
    );
}

#[test]
fn scope_and_client_id() {
    assert_eq!(CLIENT_ID, "2c1ea588dfbc4a989e2426f8385297c3");
    let scopes: Vec<&str> = SCOPE.split(',').collect();
    assert_eq!(scopes.len(), 15);
    assert_eq!(scopes[0], "user-read-playback-state");
    assert_eq!(scopes[2], "user-read-email");
    assert_eq!(scopes[14], "user-read-recently-played");
    assert!(!SCOPE.contains(' '));
}

#[test]
fn pending_request_is_polled_again() {
    let mut s = requesting();
    assert_eq!(step(&mut s, PollEvent::Begin), PollAction::CheckToken);
    assert_eq!(step(&mut s, checked(true)), PollAction::PollRequest);
    assert_eq!(
        step(&mut s, PollEvent::RequestPolled(TokenReply::Pending)),
        PollAction::Return(Progress::Pending)
    );
    assert!(s.token_request);
}

#[test]
fn first_token_starts_the_server() {
    let mut s = requesting();
    step(&mut s, PollEvent::Begin);
    step(&mut s, checked(true));
    assert_eq!(
        step(&mut s, grant("a")),
        PollAction::StartServer { token: token("a"), device_name: "radio".to_string() }
    );
    assert_eq!(step(&mut s, PollEvent::Acknowledged), PollAction::PollServer);
    assert_eq!(
        step(&mut s, PollEvent::ServerPolled(Progress::Pending)),
        PollAction::Return(Progress::Pending)
    );
    assert!(s.rest_future && s.event_tx && !s.token_request);
}

#[test]
fn refused_token_ends_the_server() {
    let mut s = requesting();
    step(&mut s, PollEvent::Begin);
    step(&mut s, checked(true));
    assert_eq!(
        step(&mut s, PollEvent::RequestPolled(TokenReply::Failed)),
        PollAction::Return(Progress::Ready)
    );
    assert!(!s.token_request);
}

#[test]
fn valid_token_is_used() {
    let mut s = serving();
    assert_eq!(step(&mut s, PollEvent::Begin), PollAction::PollEvents);
    assert_eq!(step(&mut s, PollEvent::EventsPolled(Some(7))), PollAction::ForwardEvent(7));
    assert_eq!(step(&mut s, PollEvent::Acknowledged), PollAction::CheckToken);
    assert_eq!(step(&mut s, checked(false)), PollAction::PollServer);
    assert_eq!(
        step(&mut s, PollEvent::ServerPolled(Progress::Ready)),
        PollAction::Return(Progress::Ready)
    );
}

#[test]
fn expired_token_is_not_used() {
    let mut s = serving();
    step(&mut s, PollEvent::Begin);
    assert_eq!(step(&mut s, PollEvent::EventsPolled(None)), PollAction::CheckToken);
    assert_eq!(step(&mut s, checked(true)), PollAction::ReadClientId);
    step(&mut s, PollEvent::ClientIdRead(None));
    assert_eq!(
        step(&mut s, PollEvent::Acknowledged),
        PollAction::Return(Progress::Pending)
    );
}

#[test]
fn nothing_is_served_while_a_token_is_asked_for() {
    let mut s = serving();
    step(&mut s, PollEvent::Begin);
    step(&mut s, PollEvent::EventsPolled(None));
    step(&mut s, checked(true));
    step(&mut s, PollEvent::ClientIdRead(None));
    step(&mut s, PollEvent::Acknowledged);
    step(&mut s, PollEvent::Begin);
    step(&mut s, PollEvent::EventsPolled(None));
    assert_eq!(step(&mut s, checked(false)), PollAction::Return(Progress::Pending));
}

#[test]
fn new_token_replaces_the_old_one() {
    let mut s = serving();
    step(&mut s, PollEvent::Begin);
    step(&mut s, PollEvent::EventsPolled(None));
    step(&mut s, checked(true));
    step(&mut s, PollEvent::ClientIdRead(None));
    step(&mut s, PollEvent::Acknowledged);
    step(&mut s, PollEvent::Begin);
    step(&mut s, PollEvent::EventsPolled(None));
    step(&mut s, checked(true));
    assert_eq!(step(&mut s, grant("b")), PollAction::StoreToken { token: token("b") });
    assert_eq!(step(&mut s, PollEvent::Acknowledged), PollAction::PollServer);
}

#[test]
fn events_out_of_turn_are_not_taken() {
    let s = server();
    assert!(s.can_take(&Event::Begin));
    assert!(!s.can_take(&Event::EventsPolled(Some(7))));
    assert!(!s.can_take(&Event::Acknowledged));
    assert!(!s.can_take(&Event::ServerPolled(Progress::Ready)));
    let mut s = requesting();
    step(&mut s, PollEvent::Begin);
    step(&mut s, checked(true));
    assert!(!s.can_take(&Event::RequestPolled(TokenReply::Granted {
        access_token: String::new(),
        expires_in: 1,
        now: Timestamp { secs: MAX_SECS, nanos: 0 },
    })));
}

#[test]
fn tokens_at_the_ends_of_time() {
    let last = Timestamp { secs: MAX_SECS, nanos: 999_999_999 };
    assert!(last.fits(0) && !last.fits(1));
    assert_eq!(api_token(String::new(), 0, last).expires_at, Some(last));
    let first = Timestamp { secs: MIN_SECS, nanos: 0 };
    assert_eq!(
        api_token(String::new(), u32::MAX, first).expires_at,
        Some(Timestamp { secs: MIN_SECS + u32::MAX as i64, nanos: 0 })
    );
    assert!(chrono::DateTime::from_timestamp(MAX_SECS + 1, 0).is_none());
    assert!(chrono::DateTime::from_timestamp(MIN_SECS - 1, 0).is_none());
    assert!(!Timestamp { secs: MIN_SECS - 1, nanos: 0 }.fits(0));
    assert!(!Timestamp { secs: 0, nanos: 1_000_000_000 }.fits(0));
}

#[test]
fn tokens_in_leap_seconds() {
    let leap = Timestamp { secs: 1_483_228_799, nanos: 1_500_000_000 };
    assert!(leap.fits(1));
    assert!(chrono::DateTime::from_timestamp(leap.secs, leap.nanos).is_some());
    assert_eq!(api_token(String::new(), 0, leap).expires_at, Some(leap));
    assert_eq!(
        api_token(String::new(), 1, leap).expires_at,
        Some(Timestamp { secs: 1_483_228_800, nanos: 500_000_000 })
    );
    assert_eq!(
        api_token(String::new(), 60, leap).expires_at,
        Some(Timestamp { secs: 1_483_228_859, nanos: 500_000_000 })
    );
    assert!(needs_token(Some(Some(leap))));
    let before_1970 = Timestamp { secs: -1, nanos: 1_999_999_999 };
    assert!(before_1970.fits(0));
    assert!(needs_token(Some(Some(before_1970))));
    let last = Timestamp { secs: MAX_SECS, nanos: 1_999_999_999 };
    assert!(last.fits(0));
    assert!(!needs_token(Some(Some(last))));
    assert!(!Timestamp { secs: 1_483_228_799, nanos: 2_000_000_000 }.fits(0));
    assert!(!Timestamp { secs: 1_483_228_800, nanos: 1_500_000_000 }.fits(0));
    assert!(!Timestamp { secs: -2, nanos: 1_500_000_000 }.fits(0));
}

/// Polls the server once with a valid token, and returns the report that was handed on.
fn poll_once(s: &mut RestServer<String>, queue: &mut Vec<u32>) -> Option<u32> {
    let mut forwarded = None;
    let mut action = step(s, PollEvent::Begin);
    loop {
        let event = match action {
            PollAction::PollEvents if queue.is_empty() => PollEvent::EventsPolled(None),
            PollAction::PollEvents => PollEvent::EventsPolled(Some(queue.remove(0))),
            PollAction::ForwardEvent(report) => {
                assert_eq!(forwarded, None);
                forwarded = Some(report);
                PollEvent::Acknowledged
            }
            PollAction::CheckToken => checked(false),
            PollAction::PollServer => PollEvent::ServerPolled(Progress::Pending),
            PollAction::Return(_) => return forwarded,
            other => panic!("unexpected {other:?}"),
        };
        action = step(s, event);
    }
}

#[test]
fn reports_wait_for_the_server() {
    let mut queue = vec![1, 2];
    let mut s = requesting();
    assert_eq!(poll_once(&mut s, &mut queue), None);
    assert_eq!(queue, vec![1, 2]);
    let mut s = serving();
    assert_eq!(poll_once(&mut s, &mut queue), Some(1));
    assert_eq!(queue, vec![2]);
    queue.push(3);
    assert_eq!(poll_once(&mut s, &mut queue), Some(2));
    assert_eq!(poll_once(&mut s, &mut queue), Some(3));
    assert_eq!(poll_once(&mut s, &mut queue), None);
}

#[test]
fn token_lasts_as_long_as_granted() {
    assert_eq!(api_token("a".to_string(), 3600, NOW), token("a"));
}

#[test]
fn need_for_a_token_depends_on_the_clock() {
    let now = chrono::Utc::now().timestamp();
    let at = |secs: i64| Some(Some(Timestamp { secs, nanos: 0 }));
    assert!(needs_token(None));
    assert!(needs_token(Some(None)));
    assert!(needs_token(at(0)));
    assert!(needs_token(at(10)));
    assert!(needs_token(at(now - 1)));
    assert!(needs_token(at(now + 5)));
    assert!(needs_token(at(now + EXPIRY_MARGIN as i64)));
    assert!(!needs_token(at(now + EXPIRY_MARGIN as i64 + 300)));
    assert!(!needs_token(at(now + 3600)));
}

#[test]
fn held_token_is_checked() {
    let mut s = serving();
    step(&mut s, PollEvent::Begin);
    step(&mut s, PollEvent::EventsPolled(None));
    let far = Timestamp { secs: chrono::Utc::now().timestamp() + 3600, nanos: 0 };
    let action: Action = s.check_token(Some(Some(far)));
    assert_eq!(action, PollAction::PollServer);
}

#[test]
fn token_is_needed_unless_a_valid_one_is_at_hand() {
    assert!(token_needed(None));
    assert!(token_needed(Some(true)));
    assert!(!token_needed(Some(false)));
}
