use theater_mcp_server::theater::backoff::RetryPolicy;
use theater_mcp_server::theater::connection::Connection;
use theater_mcp_server::theater::exchange::{Action, Event, Exchange, Phase, Reply};
use theater_mcp_server::theater::frame::encode_header;
use theater_mcp_server::theater::types::{Fault, SendError};

type Act = Action<String>;
type Ev = Event<u32, String>;

fn ok_body(text: &str) -> Ev {
    Event::BodyRead(Ok(Reply::Success(text.to_string())))
}

fn sleeps(actions: &[Act]) -> Vec<u64> {
    actions
        .iter()
        .filter_map(|a| match a {
            Action::Sleep(ms) => Some(*ms),
            _ => None,
        })
        .collect()
}

fn count(actions: &[Act], wanted: &Act) -> usize {
    actions.iter().filter(|a| *a == wanted).count()
}

#[test]
fn a_clean_round_trip_writes_once_and_reads_once() {
    let mut conn = Connection::with_handle(1u32);
    let (mut x, first): (Exchange, Act) =
        Exchange::start(RetryPolicy::standard(), b"ping".to_vec(), &mut conn);
    let mut actions = vec![first];
    actions.push(x.step(&mut conn, Ev::Probed(true)));
    assert_eq!(x.frame(), vec![0, 0, 0, 4, b'p', b'i', b'n', b'g']);
    actions.push(x.step(&mut conn, Ev::Written(Ok(()))));
    actions.push(x.step(&mut conn, Ev::HeaderRead(Ok(encode_header(4)))));
    actions.push(x.step(&mut conn, ok_body("pong")));
    assert_eq!(
        actions,
        vec![
            Action::Probe,
            Action::Write,
            Action::ReadHeader,
            Action::ReadBody(4),
            Action::Done(Ok("pong".to_string())),
        ]
    );
    assert_eq!(count(&actions, &Action::Write), 1);
    assert_eq!(count(&actions, &Action::ReadHeader), 1);
    assert!(sleeps(&actions).is_empty());
    assert!(x.is_finished());
    assert_eq!(x.attempt(), 1);
    assert_eq!(conn.clear(), Some(1));
}

#[test]
fn a_clean_round_trip_on_an_empty_slot_dials_first() {
    let mut conn: Connection<u32> = Connection::empty();
    let (mut x, first): (Exchange, Act) =
        Exchange::start(RetryPolicy::standard(), vec![], &mut conn);
    assert_eq!(first, Action::Dial);
    assert!(conn.is_reconnecting());
    assert_eq!(x.step(&mut conn, Ev::Dialed(Ok(9))), Action::Write);
    assert!(!conn.is_reconnecting());
    assert_eq!(x.frame(), vec![0, 0, 0, 0]);
    assert_eq!(x.step(&mut conn, Ev::Written(Ok(()))), Action::ReadHeader);
    assert_eq!(x.step(&mut conn, Ev::HeaderRead(Ok([0, 0, 1, 0]))), Action::ReadBody(256));
    assert_eq!(x.phase(), Phase::ReadingBody(256));
    assert_eq!(x.step(&mut conn, ok_body("r")), Action::Done(Ok("r".to_string())));
    assert_eq!(conn.clear(), Some(9));
}

#[test]
fn two_failed_writes_then_success_follow_the_backoff() {
    let mut conn = Connection::with_handle(1u32);
    let (mut x, first): (Exchange, Act) =
        Exchange::start(RetryPolicy::standard(), b"c".to_vec(), &mut conn);
    let mut actions = vec![first];
    actions.push(x.step(&mut conn, Ev::Probed(true)));
    actions.push(x.step(&mut conn, Ev::Written(Err("broken pipe".to_string()))));
    assert!(!conn.is_connected());
    actions.push(x.step(&mut conn, Ev::Slept));
    actions.push(x.step(&mut conn, Ev::Dialed(Ok(2))));
    actions.push(x.step(&mut conn, Ev::Written(Err("reset".to_string()))));
    assert!(!conn.is_connected());
    actions.push(x.step(&mut conn, Ev::Slept));
    actions.push(x.step(&mut conn, Ev::Dialed(Ok(3))));
    actions.push(x.step(&mut conn, Ev::Written(Ok(()))));
    actions.push(x.step(&mut conn, Ev::HeaderRead(Ok(encode_header(2)))));
    actions.push(x.step(&mut conn, ok_body("ok")));
    assert_eq!(
        actions,
        vec![
            Action::Probe,
            Action::Write,
            Action::Sleep(500),
            Action::Dial,
            Action::Write,
            Action::Sleep(1000),
            Action::Dial,
            Action::Write,
            Action::ReadHeader,
            Action::ReadBody(2),
            Action::Done(Ok("ok".to_string())),
        ]
    );
    assert_eq!(sleeps(&actions), vec![500, 1000]);
    assert_eq!(x.attempt(), 3);
    assert_eq!(conn.clear(), Some(3));
}

#[test]
fn failing_every_attempt_exhausts_the_budget() {
    let mut conn = Connection::with_handle(1u32);
    let (mut x, first): (Exchange, Act) =
        Exchange::start(RetryPolicy::standard(), b"c".to_vec(), &mut conn);
    assert_eq!(first, Action::Probe);
    // attempt 1: the write fails
    assert_eq!(x.step(&mut conn, Ev::Probed(true)), Action::Write);
    assert_eq!(x.step(&mut conn, Ev::Written(Err("w".to_string()))), Action::Sleep(500));
    // attempt 2: the header cannot be read
    assert_eq!(x.step(&mut conn, Ev::Slept), Action::Dial);
    assert_eq!(x.step(&mut conn, Ev::Dialed(Ok(2))), Action::Write);
    assert_eq!(x.step(&mut conn, Ev::Written(Ok(()))), Action::ReadHeader);
    assert_eq!(x.step(&mut conn, Ev::HeaderRead(Err("h".to_string()))), Action::Sleep(1000));
    assert!(!conn.is_connected());
    // attempt 3: the body cannot be read
    assert_eq!(x.step(&mut conn, Ev::Slept), Action::Dial);
    assert_eq!(x.step(&mut conn, Ev::Dialed(Ok(3))), Action::Write);
    assert_eq!(x.step(&mut conn, Ev::Written(Ok(()))), Action::ReadHeader);
    assert_eq!(x.step(&mut conn, Ev::HeaderRead(Ok(encode_header(9)))), Action::ReadBody(9));
    assert_eq!(
        x.step(&mut conn, Ev::BodyRead(Err("eof".to_string()))),
        Action::Done(Err(SendError::AttemptsExhausted {
            attempts: 3,
            last_cause: Some(Fault::ReadBody("eof".to_string())),
        }))
    );
    assert!(x.is_finished());
    assert!(!conn.is_connected());
    assert!(!conn.is_reconnecting());
    assert_eq!(x.step(&mut conn, Ev::Slept), Action::Idle);
}

#[test]
fn a_server_error_is_final_even_on_the_first_attempt() {
    let mut conn = Connection::with_handle(1u32);
    let (mut x, _first): (Exchange, Act) =
        Exchange::start(RetryPolicy::standard(), b"c".to_vec(), &mut conn);
    x.step(&mut conn, Ev::Probed(true));
    x.step(&mut conn, Ev::Written(Ok(())));
    x.step(&mut conn, Ev::HeaderRead(Ok(encode_header(3))));
    let ended = x.step(&mut conn, Ev::BodyRead(Ok(Reply::Error("no such actor".to_string()))));
    assert_eq!(ended, Action::Done(Err(SendError::Server("no such actor".to_string()))));
    assert_eq!(x.attempt(), 1);
    assert!(x.is_finished());
    assert!(conn.is_connected());
    assert_eq!(x.step(&mut conn, Ev::Slept), Action::Idle);
    assert_eq!(x.step(&mut conn, Ev::Probed(true)), Action::Idle);
    assert_eq!(x.pending::<String>(), Action::Idle);
}

#[test]
fn an_unreachable_server_is_dialed_three_times_over_1500_ms() {
    let mut conn: Connection<u32> = Connection::empty();
    let (mut x, first): (Exchange, Act) =
        Exchange::start(RetryPolicy::standard(), b"c".to_vec(), &mut conn);
    let mut actions = vec![first];
    loop {
        let next = match actions.last().unwrap() {
            Action::Dial => x.step(&mut conn, Ev::Dialed(Err("connection refused".to_string()))),
            Action::Sleep(_) => x.step(&mut conn, Ev::Slept),
            _ => break,
        };
        actions.push(next);
    }
    assert_eq!(count(&actions, &Action::Dial), 3);
    assert_eq!(sleeps(&actions), vec![500, 1000]);
    assert_eq!(sleeps(&actions).iter().sum::<u64>(), 1500);
    assert_eq!(
        actions.last(),
        Some(&Action::Done(Err(SendError::AttemptsExhausted {
            attempts: 3,
            last_cause: Some(Fault::Dial("connection refused".to_string())),
        })))
    );
    assert_eq!(actions.len(), 6);
    assert!(!conn.is_reconnecting());
}

#[test]
fn a_malformed_response_is_retried_on_the_same_connection() {
    let mut conn = Connection::with_handle(1u32);
    let (mut x, _first): (Exchange, Act) =
        Exchange::start(RetryPolicy::standard(), b"c".to_vec(), &mut conn);
    x.step(&mut conn, Ev::Probed(true));
    x.step(&mut conn, Ev::Written(Ok(())));
    x.step(&mut conn, Ev::HeaderRead(Ok(encode_header(1))));
    assert_eq!(
        x.step(&mut conn, Ev::BodyRead(Ok(Reply::Malformed("expected value".to_string())))),
        Action::Sleep(500)
    );
    assert!(conn.is_connected());
    assert_eq!(x.step(&mut conn, Ev::Slept), Action::Probe);
    assert_eq!(x.attempt(), 2);
}

#[test]
fn a_busy_flag_costs_an_attempt() {
    let mut conn: Connection<u32> = Connection::empty();
    conn.ensure_connected();
    let (mut x, first): (Exchange, Act) =
        Exchange::start(RetryPolicy::new(2, 10, 2), b"c".to_vec(), &mut conn);
    assert_eq!(first, Action::Sleep(10));
    assert_eq!(
        x.step(&mut conn, Ev::Slept),
        Action::Done(Err(SendError::AttemptsExhausted {
            attempts: 2,
            last_cause: Some(Fault::ReconnectInProgress),
        }))
    );
}

#[test]
fn no_attempt_allowed_ends_at_once() {
    let mut conn = Connection::with_handle(1u32);
    let (mut x, first): (Exchange, Act) =
        Exchange::start(RetryPolicy::new(0, 500, 2), b"c".to_vec(), &mut conn);
    assert_eq!(
        first,
        Action::Done(Err(SendError::AttemptsExhausted { attempts: 0, last_cause: None }))
    );
    assert!(x.is_finished());
    assert_eq!(x.step(&mut conn, Ev::Probed(true)), Action::Idle);
    assert!(conn.is_connected());
}

#[test]
fn an_event_that_is_not_awaited_changes_nothing() {
    let mut conn = Connection::with_handle(1u32);
    let (mut x, first): (Exchange, Act) =
        Exchange::start(RetryPolicy::standard(), b"c".to_vec(), &mut conn);
    assert_eq!(first, Action::Probe);
    assert_eq!(x.step(&mut conn, Ev::Written(Ok(()))), Action::Idle);
    assert_eq!(x.step(&mut conn, Ev::Slept), Action::Idle);
    assert_eq!(x.step(&mut conn, ok_body("early")), Action::Idle);
    assert_eq!(x.phase(), Phase::Probing);
    assert_eq!(x.pending::<String>(), Action::Probe);
    assert_eq!(x.attempt(), 1);
    assert!(conn.is_connected());
}

#[test]
fn a_dead_connection_is_replaced_within_the_attempt() {
    let mut conn = Connection::with_handle(1u32);
    let (mut x, first): (Exchange, Act) =
        Exchange::start(RetryPolicy::standard(), b"c".to_vec(), &mut conn);
    assert_eq!(first, Action::Probe);
    assert_eq!(x.step(&mut conn, Ev::Probed(false)), Action::Dial);
    assert_eq!(x.step(&mut conn, Ev::Dialed(Ok(2))), Action::Write);
    assert_eq!(x.attempt(), 1);
    assert_eq!(conn.clear(), Some(2));
}
