use pocketbase_sdk::client::{PocketBase, SubscribeStep};
use pocketbase_sdk::errors::Error;
use pocketbase_sdk::realtime::{Event, LoopAction, LoopInput, PocketBaseRealtime, PollOutcome, SseFrame};
use pocketbase_sdk::user::{User, UserRecord, UserTypes};

fn sample_record() -> UserRecord {
    UserRecord {
        id: "r1".to_string(),
        collection_id: "c1".to_string(),
        collection_name: "users".to_string(),
        created: String::new(),
        updated: String::new(),
        username: "u".to_string(),
        verified: true,
        email_visibility: false,
        email: "u@example.com".to_string(),
        name: "U".to_string(),
        avatar: String::new(),
    }
}

fn authed_client() -> PocketBase<u8> {
    let mut pb = PocketBase::<u8>::new("http://example.com/").unwrap();
    pb.user = Some(User::new_user("tok".to_string(), UserTypes::User, sample_record()));
    pb
}

fn handshake(id: &str) -> LoopInput {
    LoopInput::Frame(SseFrame::Event(Event {
        event_type: "PB_CONNECT".to_string(),
        id: Some(id.to_string()),
        data: String::new(),
    }))
}

#[test]
fn two_subscribes_then_one_handshake_registration_with_both_topics() {
    let mut pb = authed_client();
    let first = pb.subscribe("users", "*", 1).unwrap();
    assert!(matches!(first, SubscribeStep::Connect { timeout_ms: 3000 }));
    // The connection exists but has no handshake yet: no submission happens.
    let second = pb.subscribe("posts", "*", 2).unwrap();
    assert!(matches!(second, SubscribeStep::Pending));
    // The handshake triggers the one registration submission, carrying both
    // topics and the handshake id.
    let topics = pb.subscription.snapshot_topics();
    let rt = pb.realtime.as_mut().unwrap();
    let act = rt.step(handshake("abc123"), &topics);
    match act {
        LoopAction::SubmitRegistration { client_id, body } => {
            assert_eq!(client_id, "abc123");
            assert_eq!(body, "{\"clientId\":\"abc123\",\"subscriptions\":[\"users\",\"posts\"]}");
        },
        _ => panic!("the handshake must ask for a registration submission"),
    }
    assert_eq!(rt.get_conenction_id(), "abc123");
}

#[test]
fn subscribe_with_established_connection_submits_an_update() {
    let mut pb = authed_client();
    pb.subscribe("users", "*", 1).unwrap();
    pb.realtime.as_mut().unwrap().id = "abc123".to_string();
    let step = pb.subscribe("posts", "*", 2).unwrap();
    match step {
        SubscribeStep::SubmitUpdate { body } => {
            assert_eq!(body, "{\"clientId\":\"abc123\",\"subscriptions\":[\"users\",\"posts\"]}");
        },
        _ => panic!("an established connection must submit an update"),
    }
}

#[test]
fn handshake_needs_a_nonempty_id() {
    let mut pb = authed_client();
    pb.subscribe("users", "*", 1).unwrap();
    let topics = pb.subscription.snapshot_topics();
    let rt = pb.realtime.as_mut().unwrap();
    let act = rt.step(handshake(""), &topics);
    assert!(matches!(act, LoopAction::Dispatch(_)));
    assert_eq!(rt.get_conenction_id(), "");
}

#[test]
fn non_handshake_events_are_dispatched_and_comments_logged() {
    let url = url::Url::parse("http://example.com/api/realtime").unwrap();
    let mut rt = PocketBaseRealtime::new(url, "tok".to_string());
    let topics: Vec<String> = Vec::new();
    let act = rt.step(
        LoopInput::Frame(SseFrame::Event(Event {
            event_type: "users/abc".to_string(),
            id: Some("m1".to_string()),
            data: "{}".to_string(),
        })),
        &topics,
    );
    match act {
        LoopAction::Dispatch(e) => assert_eq!(e.event_type, "users/abc"),
        _ => panic!("a data event must be dispatched"),
    }
    let act = rt.step(LoopInput::Frame(SseFrame::Comment("keepalive".to_string())), &topics);
    assert!(matches!(act, LoopAction::LogComment(c) if c == "keepalive"));
    let act = rt.step(LoopInput::Shutdown, &topics);
    assert!(matches!(act, LoopAction::Exit));
}

#[test]
fn timeout_shuts_down_and_no_registration_can_follow() {
    let mut pb = authed_client();
    pb.subscribe("users", "*", 1).unwrap();
    {
        let rt = pb.realtime.as_mut().unwrap();
        // Polling before the timeout keeps waiting while no handshake came.
        assert!(matches!(rt.ensure_connected_poll(0, 3000), PollOutcome::Wait));
        assert!(matches!(rt.ensure_connected_poll(2990, 3000), PollOutcome::Wait));
        // Once the timeout has elapsed the wait fails and shuts down.
        assert!(matches!(rt.ensure_connected_poll(3000, 3000), PollOutcome::TimedOut));
        assert!(rt.shutdown_requested);
        // The id is still empty afterwards.
        assert_eq!(rt.get_conenction_id(), "");
    }
    // With no handshake id, no registration submission is prepared.
    assert!(matches!(pb.prepare_submit_subscriptions(), Err(Error::SSEClientNotExist)));
    // Even a handshake frame already read when the shutdown landed is not
    // acted on: the loop just exits.
    let topics = pb.subscription.snapshot_topics();
    let rt = pb.realtime.as_mut().unwrap();
    let act = rt.step(handshake("late"), &topics);
    assert!(matches!(act, LoopAction::Exit));
    assert_eq!(rt.get_conenction_id(), "");
}

#[test]
fn poll_succeeds_once_the_handshake_stored_an_id() {
    let url = url::Url::parse("http://example.com/api/realtime").unwrap();
    let mut rt = PocketBaseRealtime::new(url, "tok".to_string());
    let topics: Vec<String> = Vec::new();
    rt.step(handshake("xyz"), &topics);
    match rt.ensure_connected_poll(10, 3000) {
        PollOutcome::Ready(id) => assert_eq!(id, "xyz"),
        _ => panic!("the poll must succeed after the handshake"),
    }
}

#[test]
fn unsubscribe_removes_one_topic_and_keeps_the_rest() {
    let mut pb = authed_client();
    pb.subscribe("users", "*", 1).unwrap();
    pb.subscribe("posts", "*", 2).unwrap();
    pb.realtime.as_mut().unwrap().id = "abc123".to_string();
    let body = pb.unsubscribe("users", "").unwrap();
    assert_eq!(pb.subscription.snapshot_topics(), vec!["posts".to_string()]);
    assert_eq!(body, "{\"clientId\":\"abc123\",\"subscriptions\":[\"posts\"]}");
}

#[test]
fn unsubscribe_with_an_empty_topic_clears_everything() {
    let mut pb = authed_client();
    pb.subscribe("users", "*", 1).unwrap();
    pb.subscribe("posts", "*", 2).unwrap();
    pb.realtime.as_mut().unwrap().id = "abc123".to_string();
    let body = pb.unsubscribe("", "").unwrap();
    assert_eq!(pb.subscription.len(), 0);
    assert_eq!(body, "{\"clientId\":\"abc123\",\"subscriptions\":[]}");
}

#[test]
fn unsubscribe_without_a_connection_still_updates_the_registry() {
    let mut pb = authed_client();
    pb.subscribe("users", "*", 1).unwrap();
    pb.subscribe("posts", "*", 2).unwrap();
    // Forget the connection: the submission must fail, the registry change
    // must stay.
    pb.realtime = None;
    let r = pb.unsubscribe("users", "");
    assert!(matches!(r, Err(Error::SSEClientNotExist)));
    assert_eq!(pb.subscription.snapshot_topics(), vec!["posts".to_string()]);
}

#[test]
fn get_sse_id_reports_a_missing_client() {
    let pb = authed_client();
    assert!(matches!(pb.get_sse_id(), Err(Error::SSEClientNotExist)));
}

#[test]
fn auth_store_is_invalid_without_a_user() {
    let pb = PocketBase::<u8>::new("http://example.com/").unwrap();
    assert!(!pb.is_auth_store_valid());
    // A user whose token is not a JWT is invalid too.
    let mut pb = authed_client();
    assert!(!pb.is_auth_store_valid());
    pb.user = None;
    assert!(!pb.is_auth_store_valid());
}

#[test]
fn new_rejects_an_invalid_url() {
    match PocketBase::<u8>::new("not a url") {
        Err(Error::InvalidParameter(_)) => {},
        _ => panic!("an unparseable base URL must be rejected"),
    }
}
