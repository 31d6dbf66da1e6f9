use theater_mcp_server::theater::connection::{Connection, Ensure};
use theater_mcp_server::theater::types::Fault;

#[test]
fn an_empty_slot_is_dialed_and_the_handle_is_kept() {
    let mut conn: Connection<u32> = Connection::empty();
    assert!(!conn.is_connected());
    assert!(!conn.is_reconnecting());
    assert_eq!(conn.ensure_connected(), Ensure::Dial);
    assert!(conn.is_reconnecting());
    assert_eq!(conn.dial_finished(Ok(7)), Ensure::Ready);
    assert!(conn.is_connected());
    assert!(!conn.is_reconnecting());
    assert_eq!(conn.handle_mut(), Some(&mut 7));
}

#[test]
fn a_held_handle_is_probed_before_it_is_used() {
    let mut conn = Connection::with_handle(7u32);
    assert_eq!(conn.ensure_connected(), Ensure::Probe);
    assert_eq!(conn.probe_finished(true), (Ensure::Ready, None));
    assert!(conn.is_connected());
    assert!(!conn.is_reconnecting());
}

#[test]
fn a_dead_handle_is_dropped_and_replaced() {
    let mut conn = Connection::with_handle(7u32);
    assert_eq!(conn.ensure_connected(), Ensure::Probe);
    assert_eq!(conn.probe_finished(false), (Ensure::Dial, Some(7)));
    assert!(!conn.is_connected());
    assert!(conn.is_reconnecting());
    assert_eq!(conn.dial_finished(Ok(8)), Ensure::Ready);
    assert_eq!(conn.handle_mut(), Some(&mut 8));
}

#[test]
fn a_failed_dial_leaves_the_slot_empty_and_releases_the_flag() {
    let mut conn: Connection<u32> = Connection::empty();
    assert_eq!(conn.ensure_connected(), Ensure::Dial);
    assert_eq!(
        conn.dial_finished(Err("refused".to_string())),
        Ensure::Failed(Fault::Dial("refused".to_string()))
    );
    assert!(!conn.is_connected());
    assert!(!conn.is_reconnecting());
    assert_eq!(conn.ensure_connected(), Ensure::Dial);
}

#[test]
fn a_second_caller_fails_fast_while_the_first_is_dialing() {
    let mut conn: Connection<u32> = Connection::empty();
    // first caller
    assert_eq!(conn.ensure_connected(), Ensure::Dial);
    // second caller, before the first dial has finished
    assert_eq!(conn.ensure_connected(), Ensure::Failed(Fault::ReconnectInProgress));
    assert_eq!(conn.ensure_connected(), Ensure::Failed(Fault::ReconnectInProgress));
    assert!(conn.is_reconnecting());
    assert!(!conn.is_connected());
    // first caller's dial finishes
    assert_eq!(conn.dial_finished(Ok(1)), Ensure::Ready);
    // second caller tries again: it reuses the connection and does not dial
    assert_eq!(conn.ensure_connected(), Ensure::Probe);
    assert_eq!(conn.probe_finished(true), (Ensure::Ready, None));
}

#[test]
fn a_dead_handle_found_while_another_caller_dials_fails_fast() {
    let mut conn = Connection::with_handle(3u32);
    assert_eq!(conn.ensure_connected(), Ensure::Probe);
    assert_eq!(conn.clear(), Some(3));
    assert_eq!(conn.ensure_connected(), Ensure::Dial);
    // the prober reports late, on a slot that another caller is refilling
    assert_eq!(
        conn.probe_finished(false),
        (Ensure::Failed(Fault::ReconnectInProgress), None)
    );
}

#[test]
fn clear_empties_the_slot_and_keeps_the_flag() {
    let mut conn = Connection::with_handle(1u32);
    assert_eq!(conn.clear(), Some(1));
    assert_eq!(conn.clear(), None);
    assert!(!conn.is_connected());
    assert!(!conn.is_reconnecting());
    assert_eq!(conn.handle_mut(), None);
}

#[test]
fn the_handle_can_be_changed_in_place() {
    let mut conn = Connection::with_handle(1u32);
    if let Some(handle) = conn.handle_mut() {
        *handle = 2;
    }
    assert_eq!(conn.clear(), Some(2));
}
