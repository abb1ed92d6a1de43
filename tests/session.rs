use litespeed_client::access::path_access;
use litespeed_client::access::Access;
use litespeed_client::context::RuntimeContext;
use litespeed_client::protocol::ProtocolStatus;
use litespeed_client::protocol::RequestType;
use litespeed_client::protocol::Role;
use litespeed_client::session::ConnectPolicy;
use litespeed_client::session::ConnectStep;
use litespeed_client::session::ConnectionEvent;
use litespeed_client::session::ConnectionState;
use litespeed_client::session::Reply;

#[test]
fn polling_gives_up_once_the_budget_is_spent() {
    let policy = ConnectPolicy::new(200, 10);
    let mut elapsed = 0u64;
    let mut attempts = 0u32;
    loop {
        attempts += 1;
        match policy.after_refusal(elapsed) {
            ConnectStep::RetryAfter(ms) => {
                assert_eq!(ms, 10);
                elapsed += ms;
            }
            ConnectStep::GiveUp => break,
        }
        assert!(attempts < 1000);
    }
    assert_eq!(elapsed, 210);
    assert_eq!(attempts, 22);
}

#[test]
fn default_policy() {
    let policy = ConnectPolicy::default();
    assert_eq!(policy.timeout_ms, 5000);
    assert_eq!(policy.interval_ms, 10);
    assert_eq!(policy.after_refusal(5000), ConnectStep::RetryAfter(10));
    assert_eq!(policy.after_refusal(5001), ConnectStep::GiveUp);
}

#[test]
fn exchange_cycle() {
    let mut s = ConnectionState::Disconnected;
    for (event, expected) in [
        (ConnectionEvent::Begin, ConnectionState::Connecting),
        (ConnectionEvent::Established, ConnectionState::Connected),
        (ConnectionEvent::Send, ConnectionState::Sending),
        (ConnectionEvent::Written, ConnectionState::Receiving),
        (ConnectionEvent::ReplyComplete, ConnectionState::Connected),
        (ConnectionEvent::Send, ConnectionState::Sending),
        (ConnectionEvent::TransportFailed, ConnectionState::Connected),
        (ConnectionEvent::Close, ConnectionState::Closed),
    ] {
        s = s.next(event).unwrap();
        assert_eq!(s, expected);
    }
    assert_eq!(s.next(ConnectionEvent::Close), None);
}

#[test]
fn no_second_send_while_one_is_in_flight() {
    assert_eq!(ConnectionState::Sending.next(ConnectionEvent::Send), None);
    assert_eq!(ConnectionState::Receiving.next(ConnectionEvent::Send), None);
    assert_eq!(ConnectionState::Connecting.next(ConnectionEvent::Send), None);
    assert_eq!(
        ConnectionState::Connecting.next(ConnectionEvent::TimedOut),
        Some(ConnectionState::Closed)
    );
}

#[test]
fn reply_gathers_chunks_until_an_empty_read() {
    let mut reply = Reply::new();
    assert!(!reply.absorb(b"abc"));
    assert!(!reply.absorb(b"de"));
    assert!(!reply.complete());
    assert!(reply.absorb(b""));
    assert!(reply.complete());
    assert_eq!(reply.into_bytes(), b"abcde".to_vec());
}

#[test]
fn protected_paths_are_forbidden() {
    assert_eq!(path_access("/wp-content/plugins/x.php"), Ok(Access::Forbidden));
    assert_eq!(path_access("/wp-includes/load.php"), Ok(Access::Forbidden));
    assert_eq!(path_access("/config.ini"), Ok(Access::Forbidden));
    assert_eq!(path_access("/composer.json"), Ok(Access::Forbidden));
    assert_eq!(path_access("/index.php"), Ok(Access::Allowed));
    assert_eq!(path_access("/wp-content/uploads/a.png"), Ok(Access::Allowed));
}

#[test]
fn runtime_context_holds_both_values() {
    let context = RuntimeContext::new("/index.php", "/var/task");
    assert_eq!(context.script_name(), "/index.php");
    assert_eq!(context.document_root(), "/var/task");
}

#[test]
fn fastcgi_codes() {
    assert_eq!(Role::Responder.code(), 1);
    assert_eq!(Role::Filter.code(), 3);
    assert_eq!(RequestType::Params.code(), 4);
    assert_eq!(RequestType::GetValuesResult.code(), 10);
    assert_eq!(ProtocolStatus::Overloaded.code(), 2);
}
