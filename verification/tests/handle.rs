use remix_mcp::error::Error;
use remix_mcp::osc::client::{Action, Operation, Phase};
use remix_mcp::osc::handle::Access;
use remix_mcp::osc::{OscClient, OscHandle, OscValue};

#[test]
fn handle_new_does_not_connect() {
    let handle = OscHandle::new();
    assert!(!handle.initialized());
}

#[test]
fn default_handle_does_not_connect() {
    let handle = OscHandle::default();
    assert!(!handle.initialized());
}

fn deferred<T: std::fmt::Debug>(first: Result<T, (Access, Vec<OscValue>)>) -> (Access, Vec<OscValue>) {
    match first {
        Err(back) => back,
        Ok(begun) => panic!("expected to be put off, but began {:?}", begun),
    }
}

#[test]
fn first_operation_is_told_to_create() {
    let mut handle = OscHandle::new();
    let (answer, args) = deferred(handle.send("/live/test", vec![OscValue::Int(1)]));
    assert_eq!(answer, Access::Create);
    assert_eq!(args, vec![OscValue::Int(1)]);
    assert!(!handle.initialized());

    let mut handle = OscHandle::new();
    assert_eq!(deferred(handle.query("/live/test", vec![])).0, Access::Create);

    let mut handle = OscHandle::new();
    assert_eq!(deferred(handle.query_all("/live/test", vec![])).0, Access::Create);

    let mut handle = OscHandle::new();
    assert!(matches!(handle.test_connection(), Err(Access::Create)));
    assert!(!handle.initialized());
}

#[test]
fn operations_during_creation_are_told_to_wait() {
    let mut handle = OscHandle::new();
    assert_eq!(deferred(handle.send("/a", vec![])).0, Access::Create);
    let (answer, args) = deferred(handle.query("/b", vec![OscValue::Int(2)]));
    assert_eq!(answer, Access::Wait);
    assert_eq!(args, vec![OscValue::Int(2)]);
    assert_eq!(deferred(handle.query_all("/c", vec![])).0, Access::Wait);
    assert_eq!(deferred(handle.send("/d", vec![])).0, Access::Wait);
    assert!(matches!(handle.test_connection(), Err(Access::Wait)));
    assert_eq!(handle.client(), Access::Wait);
    assert!(!handle.initialized());
    handle.created(Ok(OscClient::new(50010))).unwrap();
    assert!(handle.query("/b", args).is_ok());
}

#[test]
fn operation_after_failed_creation_is_told_to_create_again() {
    let mut handle = OscHandle::new();
    assert_eq!(deferred(handle.send("/a", vec![])).0, Access::Create);
    assert!(handle.created(Err(Error::NotConnected)).is_err());
    assert_eq!(deferred(handle.send("/a", vec![])).0, Access::Create);
}

#[test]
fn first_access_is_told_to_create() {
    let mut handle = OscHandle::new();
    assert_eq!(handle.client(), Access::Create);
    assert!(!handle.initialized());
}

#[test]
fn accesses_during_creation_are_told_to_wait() {
    let mut handle = OscHandle::new();
    assert_eq!(handle.client(), Access::Create);
    assert_eq!(handle.client(), Access::Wait);
    assert_eq!(handle.client(), Access::Wait);
    assert!(!handle.initialized());
}

#[test]
fn handle_lazily_connects_on_first_access() {
    let mut handle = OscHandle::new();
    assert!(!handle.initialized());
    assert_eq!(handle.client(), Access::Create);
    let installed = handle.created(Ok(OscClient::new(50001))).unwrap();
    assert_eq!(installed.local_port(), 50001);
    assert!(handle.initialized());
    assert_eq!(handle.client(), Access::Ready(OscClient::new(50001)));
}

#[test]
fn handle_returns_same_client_on_repeated_access() {
    let mut handle = OscHandle::new();
    handle.client();
    handle.created(Ok(OscClient::new(50002))).unwrap();
    let port = |access: Access| match access {
        Access::Ready(client) => client.local_port(),
        other => panic!("expected the client, got {:?}", other),
    };
    let first = port(handle.client());
    let second = port(handle.client());
    assert_eq!(first, second);
    assert_eq!(first, 50002);
    assert!(handle.initialized());
}

#[test]
fn a_second_creation_does_not_replace_the_client() {
    let mut handle = OscHandle::new();
    handle.client();
    handle.created(Ok(OscClient::new(50003))).unwrap();
    let kept = handle.created(Ok(OscClient::new(50004))).unwrap();
    assert_eq!(kept.local_port(), 50003);
    let kept = handle.created(Err(Error::NotConnected)).unwrap();
    assert_eq!(kept.local_port(), 50003);
    assert_eq!(handle.client(), Access::Ready(OscClient::new(50003)));
}

#[test]
fn failed_creation_leaves_the_handle_empty() {
    let mut handle = OscHandle::new();
    assert_eq!(handle.client(), Access::Create);
    let failure = std::io::Error::new(std::io::ErrorKind::AddrInUse, "in use".to_string());
    let result = handle.created(Err(Error::Network(failure)));
    assert!(matches!(result, Err(Error::Network(_))));
    assert!(!handle.initialized());
    assert_eq!(handle.client(), Access::Create);
    handle.created(Ok(OscClient::new(50005))).unwrap();
    assert!(handle.initialized());
}

#[test]
fn independent_handles_hold_independent_clients() {
    let mut one = OscHandle::new();
    let mut two = OscHandle::new();
    assert_eq!(one.client(), Access::Create);
    assert_eq!(two.client(), Access::Create);
    one.created(Ok(OscClient::new(50006))).unwrap();
    assert!(one.initialized());
    assert!(!two.initialized());
    two.created(Ok(OscClient::new(50007))).unwrap();
    assert_eq!(one.client(), Access::Ready(OscClient::new(50006)));
    assert_eq!(two.client(), Access::Ready(OscClient::new(50007)));
}

#[test]
fn handle_send_delegates_to_client() {
    let mut handle = OscHandle::new();
    // The first use finds no client: the send itself sets the creation going.
    let (answer, args) = deferred(handle.send("/live/test", vec![OscValue::Int(1)]));
    assert_eq!(answer, Access::Create);
    handle.created(Ok(OscClient::new(50008))).unwrap();
    assert!(handle.initialized());

    let (exchange, action) = handle.send("/live/test", args).unwrap();
    assert_eq!(exchange.operation(), Operation::Send);
    assert_eq!(exchange.phase(), Phase::Encoding);
    match action {
        Action::Encode(message) => {
            assert_eq!(message.addr, "/live/test");
            assert_eq!(message.args, vec![OscValue::Int(1)]);
        }
        other => panic!("expected an encode, got {:?}", other),
    }
    assert!(handle.initialized());

    let (exchange, _) = handle.query("/live/test", vec![]).unwrap();
    assert_eq!(exchange.operation(), Operation::Query);
    assert_eq!(exchange.phase(), Phase::Flushing);

    let (exchange, _) = handle.query_all("/live/test", vec![]).unwrap();
    assert_eq!(exchange.operation(), Operation::QueryAll);
    assert_eq!(exchange.phase(), Phase::Flushing);

    let (exchange, _) = handle.test_connection().unwrap();
    assert_eq!(exchange.operation(), Operation::Query);
    assert_eq!(handle.client(), Access::Ready(OscClient::new(50008)));
}
