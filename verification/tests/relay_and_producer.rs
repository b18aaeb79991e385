use valihuuto::producer::{begin, step, Action, Cycle, Outcome, Phase, PAUSE_MILLIS};
use valihuuto::relay::{relay_start, relay_step, RelayAction, RelayEvent, RelayState};
use valihuuto::social_media::{classify, post_outcome, post_text, record_request, send_to_bluesky, session_request, session_token, MessageType, PostAction, PostError, PostStep};
use valihuuto::time::Timestamp;

#[test]
fn json_body_with_link_is_a_memo() {
    let m = classify("{\"title\":\"T\",\"link\":\"L\",\"description\":\"D\"}");
    assert_eq!(m, MessageType::Memo { title: "T".to_string(), link: "L".to_string() });
    assert_eq!(post_text(&m), "Huudan välihuudot pöytäkirjasta: T - L");
}

#[test]
fn plain_text_body_is_a_shout() {
    let m = classify("Hyvä!");
    assert_eq!(m, MessageType::Shout { content: "Hyvä!".to_string() });
    assert_eq!(post_text(&m), "Hyvä!");
}

#[test]
fn classification_goes_by_the_link_member() {
    assert_eq!(classify("{\"title\":\"T\"}"), MessageType::Shout { content: "{\"title\":\"T\"}".to_string() });
    assert_eq!(classify("{\"link\":5}"), MessageType::Memo { title: "".to_string(), link: "".to_string() });
    assert_eq!(classify("{\"link\":null,\"title\":[1]}"), MessageType::Memo { title: "".to_string(), link: "".to_string() });
    assert_eq!(classify("[\"link\"]"), MessageType::Shout { content: "[\"link\"]".to_string() });
    assert_eq!(classify("42"), MessageType::Shout { content: "42".to_string() });
    assert_eq!(classify(""), MessageType::Shout { content: "".to_string() });
}

#[test]
fn session_request_carries_identifier_and_password() {
    let r = session_request("s3cr\"et");
    assert_eq!(r.url, "https://bsky.social/xrpc/com.atproto.server.createSession");
    assert_eq!(r.authorization, None);
    assert_eq!(r.body, "{\"identifier\":\"valihuutobot.bsky.social\",\"password\":\"s3cr\\\"et\"}");
}

#[test]
fn session_token_is_the_access_jwt() {
    assert_eq!(session_token("{\"accessJwt\":\"abc\",\"did\":\"x\"}"), Ok("abc".to_string()));
    assert_eq!(session_token("{\"did\":\"x\"}"), Err(PostError::Session));
    assert_eq!(session_token("{\"accessJwt\":5}"), Err(PostError::Session));
    assert_eq!(session_token("oops"), Err(PostError::Session));
}

#[test]
fn record_request_posts_text_and_time() {
    let m = MessageType::Shout { content: "Hyvä!".to_string() };
    let r = record_request("abc", &m, 1704067200).unwrap();
    assert_eq!(r.url, "https://bsky.social/xrpc/com.atproto.repo.createRecord");
    assert_eq!(r.authorization, Some("Bearer abc".to_string()));
    assert_eq!(
        r.body,
        "{\"collection\":\"app.bsky.feed.post\",\"record\":{\"createdAt\":\"2024-01-01T00:00:00Z\",\"text\":\"Hyvä!\"},\"repo\":\"valihuutobot.bsky.social\"}"
    );
    let memo = MessageType::Memo { title: "T".to_string(), link: "L".to_string() };
    let r2 = record_request("abc", &memo, 1704067261).unwrap();
    assert!(r2.body.contains("\"text\":\"Huudan välihuudot pöytäkirjasta: T - L\""));
    assert!(r2.body.contains("\"createdAt\":\"2024-01-01T00:01:01Z\""));
    assert_eq!(record_request("abc", &m, i64::MAX).err(), Some(PostError::Clock));
}

#[test]
fn post_outcome_goes_by_status() {
    assert_eq!(post_outcome(200, "ok".to_string()), Ok(()));
    assert_eq!(post_outcome(299, "".to_string()), Ok(()));
    assert_eq!(post_outcome(400, "bad".to_string()), Err(PostError::Rejected("bad".to_string())));
    assert_eq!(post_outcome(199, "x".to_string()), Err(PostError::Rejected("x".to_string())));
    assert_eq!(post_outcome(300, "y".to_string()), Err(PostError::Rejected("y".to_string())));
}

fn message(body: &str) -> RelayEvent {
    RelayEvent::Message { body: Some(body.to_string()), receipt_handle: Some("rh".to_string()) }
}

#[test]
fn relay_deletes_after_a_successful_post() {
    let (s, a) = relay_step(relay_start(), message("Hyvä!"));
    assert_eq!(s, RelayState::Posting { receipt_handle: Some("rh".to_string()) });
    assert_eq!(a, RelayAction::Post { message: MessageType::Shout { content: "Hyvä!".to_string() } });
    let (s, a) = relay_step(s, RelayEvent::Posted(Ok(())));
    assert_eq!(s, RelayState::Acknowledged);
    assert_eq!(a, RelayAction::Delete { receipt_handle: Some("rh".to_string()) });
    let (s, a) = relay_step(s, RelayEvent::NoMessage);
    assert_eq!(s, RelayState::Acknowledged);
    assert_eq!(a, RelayAction::Stop);
}

#[test]
fn relay_leaves_the_message_after_a_failed_post() {
    let (s, _) = relay_step(relay_start(), message("{\"link\":\"L\",\"title\":\"T\"}"));
    let (s, a) = relay_step(s, RelayEvent::Posted(Err(PostError::Rejected("no".to_string()))));
    assert_eq!(s, RelayState::Failed);
    assert_eq!(a, RelayAction::Fail { error: Some(PostError::Rejected("no".to_string())) });
    let (s, a) = relay_step(s, RelayEvent::Posted(Ok(())));
    assert_eq!(s, RelayState::Failed);
    assert_eq!(a, RelayAction::Fail { error: None });
}

#[test]
fn relay_does_nothing_without_a_message_or_a_body() {
    assert_eq!(relay_step(relay_start(), RelayEvent::NoMessage), (RelayState::Finished, RelayAction::Stop));
    let bodyless = RelayEvent::Message { body: None, receipt_handle: Some("rh".to_string()) };
    assert_eq!(relay_step(relay_start(), bodyless), (RelayState::Finished, RelayAction::Stop));
}

#[test]
fn relay_never_deletes_out_of_turn() {
    let (s, a) = relay_step(relay_start(), RelayEvent::Posted(Ok(())));
    assert_eq!((s, a), (RelayState::Failed, RelayAction::Fail { error: None }));
    let posting = RelayState::Posting { receipt_handle: None };
    let (s, a) = relay_step(posting, message("x"));
    assert_eq!((s, a), (RelayState::Failed, RelayAction::Fail { error: None }));
    let (s, a) = relay_step(RelayState::Finished, RelayEvent::Posted(Ok(())));
    assert_eq!((s, a), (RelayState::Finished, RelayAction::Stop));
}

fn cycle() -> Cycle {
    begin(Timestamp::new(100, 0, 0), Timestamp::new(500, 0, 0))
}

#[test]
fn empty_feed_ends_the_cycle_with_the_cursor_unchanged() {
    let (c, a) = step(cycle(), Outcome::Feed { entries: 0 });
    assert_eq!(c.phase, Phase::Done);
    assert_eq!(a, Action::Finish);
    assert_eq!(c.cursor, Timestamp::new(100, 0, 0));
}

#[test]
fn cycle_publishes_entry_by_entry_and_then_moves_the_cursor() {
    let mut seen = Vec::new();
    let (mut c, mut a) = step(cycle(), Outcome::Feed { entries: 2 });
    seen.push(a);
    let script = [
        Outcome::Transcript { messages: 3 },
        Outcome::Sent,
        Outcome::Sent,
        Outcome::Sent,
        Outcome::Paused,
        Outcome::Transcript { messages: 0 },
        Outcome::CursorWritten,
    ];
    for o in script {
        assert_eq!(c.cursor, Timestamp::new(100, 0, 0));
        (c, a) = step(c, o);
        seen.push(a);
    }
    assert_eq!(
        seen,
        vec![
            Action::FetchTranscript { index: 0 },
            Action::Send { index: 0, message: 0 },
            Action::Send { index: 0, message: 1 },
            Action::Send { index: 0, message: 2 },
            Action::Pause { millis: 500 },
            Action::FetchTranscript { index: 1 },
            Action::WriteCursor { value: Timestamp::new(500, 0, 0) },
            Action::Finish,
        ]
    );
    assert_eq!(PAUSE_MILLIS, 500);
    assert_eq!(c.phase, Phase::Done);
    assert_eq!(c.cursor, Timestamp::new(500, 0, 0));
    assert_eq!(step(c, Outcome::Failure), (c, Action::Finish));
}

#[test]
fn failure_at_any_step_leaves_the_cursor() {
    let prefixes: Vec<Vec<Outcome>> = vec![
        vec![],
        vec![Outcome::Feed { entries: 1 }],
        vec![Outcome::Feed { entries: 1 }, Outcome::Transcript { messages: 2 }],
        vec![Outcome::Feed { entries: 1 }, Outcome::Transcript { messages: 2 }, Outcome::Sent],
        vec![Outcome::Feed { entries: 1 }, Outcome::Transcript { messages: 1 }, Outcome::Sent],
        vec![Outcome::Feed { entries: 2 }, Outcome::Transcript { messages: 1 }, Outcome::Sent],
    ];
    for prefix in prefixes {
        let mut c = cycle();
        for o in prefix {
            c = step(c, o).0;
        }
        let (c, a) = step(c, Outcome::Failure);
        assert_eq!(c.phase, Phase::Failed);
        assert_eq!(a, Action::Abort);
        assert_eq!(c.cursor, Timestamp::new(100, 0, 0));
        let (c, a) = step(c, Outcome::CursorWritten);
        assert_eq!(c.phase, Phase::Failed);
        assert_eq!(a, Action::Abort);
        assert_eq!(c.cursor, Timestamp::new(100, 0, 0));
    }
}

#[test]
fn an_outcome_out_of_turn_fails_the_cycle() {
    let (c, a) = step(cycle(), Outcome::CursorWritten);
    assert_eq!(c.phase, Phase::Failed);
    assert_eq!(a, Action::Abort);
    assert_eq!(c.cursor, Timestamp::new(100, 0, 0));
}

#[test]
fn posting_goes_from_session_to_post_to_done() {
    let m = MessageType::Memo { title: "T".to_string(), link: "L".to_string() };
    let first = send_to_bluesky(&m, PostStep::Begin { password: "pw".to_string() });
    assert_eq!(first, PostAction::OpenSession(session_request("pw")));
    let second = send_to_bluesky(
        &m,
        PostStep::Session { answer: "{\"accessJwt\":\"abc\"}".to_string(), now_secs: 1704067200 },
    );
    assert_eq!(second, PostAction::Post(record_request("abc", &m, 1704067200).unwrap()));
    let third = send_to_bluesky(&m, PostStep::Posted { status: 200, answer: "".to_string() });
    assert_eq!(third, PostAction::Done);
}

#[test]
fn posting_fails_without_a_token_or_on_a_refusal() {
    let m = MessageType::Shout { content: "x".to_string() };
    let no_token = send_to_bluesky(&m, PostStep::Session { answer: "{}".to_string(), now_secs: 0 });
    assert_eq!(no_token, PostAction::Failed(PostError::Session));
    let no_clock = send_to_bluesky(
        &m,
        PostStep::Session { answer: "{\"accessJwt\":\"abc\"}".to_string(), now_secs: i64::MIN },
    );
    assert_eq!(no_clock, PostAction::Failed(PostError::Clock));
    let refused = send_to_bluesky(&m, PostStep::Posted { status: 401, answer: "no".to_string() });
    assert_eq!(refused, PostAction::Failed(PostError::Rejected("no".to_string())));
}
