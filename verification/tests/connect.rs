use opcua_client::message::{AcknowledgeMessage, Message, ReverseHelloMessage};
use opcua_client::status::{
    StatusCode, BAD_COMMUNICATION_ERROR, BAD_CONNECTION_CLOSED, BAD_INVALID_ARGUMENT,
    BAD_TCP_ENDPOINT_URL_INVALID, BAD_TIMEOUT,
};
use opcua_client::transport::connect::{
    ConnectAction, ConnectEvent, EndpointUrlVerifier, Handshake, ReverseHelloVerifier,
    ReverseTcpConnector, TcpConnector, TcpConnectorReceiver,
};
use opcua_client::transport::tcp::TransportConfiguration;
use opcua_core::comms::tcp_types::HelloMessage;
use opcua_types::{EndpointDescription, SimpleBinaryEncodable};

type Reverse<V> = ReverseTcpConnector<&'static str, u16, V>;

struct Fixed(Result<(), StatusCode>);

impl ReverseHelloVerifier for Fixed {
    fn verify(&self, endpoint_url: &str, server_url: &str) -> Result<(), StatusCode> {
        assert_eq!(endpoint_url, "opc.tcp://server");
        assert_eq!(server_url, "urn:server");
        self.0
    }
}

fn config() -> TransportConfiguration {
    TransportConfiguration {
        send_buffer_size: 0x01020304,
        recv_buffer_size: 8192,
        max_message_size: 70000,
        max_chunk_count: 5,
    }
}

fn ack() -> AcknowledgeMessage {
    AcknowledgeMessage {
        protocol_version: 0,
        receive_buffer_size: 8192,
        send_buffer_size: 8192,
        max_message_size: 0,
        max_chunk_count: 0,
    }
}

fn reverse_hello(endpoint_url: Option<&str>, server_uri: Option<&str>) -> ConnectEvent {
    read(Message::ReverseHello(ReverseHelloMessage {
        server_uri: server_uri.map(|s| s.to_string()),
        endpoint_url: endpoint_url.map(|s| s.to_string()),
    }))
}

fn read(message: Message) -> ConnectEvent {
    ConnectEvent::Read(Some(Ok(message)))
}

fn endpoint(url: &str) -> EndpointDescription {
    EndpointDescription::from(url)
}

fn start(url: &str) -> Handshake {
    let connector = TcpConnector::new(url).unwrap();
    Handshake::start(config(), &connector).0
}

fn next(handshake: &mut Handshake, event: ConnectEvent) -> ConnectAction {
    assert!(handshake.awaits(&event));
    handshake.next(event)
}

fn failed(action: ConnectAction) -> StatusCode {
    match action {
        ConnectAction::Fail(status) => status,
        action => panic!("unexpected action {:?}", action),
    }
}

fn hello(url: &str) -> Vec<u8> {
    HelloMessage::new(url, 0x01020304, 8192, 70000, 5).encode_to_vec()
}

#[test]
fn only_binary_urls_make_a_connector() {
    let connector = TcpConnector::new("opc.tcp://host:4840/path").unwrap();
    assert_eq!(connector.endpoint_url(), "opc.tcp://host:4840/path");
    let error = TcpConnector::new("http://host").unwrap_err();
    assert_eq!(error.status, StatusCode(BAD_INVALID_ARGUMENT));
    assert_eq!(error.context, "Invalid OPC-UA URL: http://host");
    let error = TcpConnector::new("host").unwrap_err();
    assert_eq!(error.context, "Invalid OPC-UA URL: host");
}

#[test]
fn the_check_of_the_url_decides() {
    assert_eq!(TcpConnector::new_checked("host", true).unwrap().endpoint_url(), "host");
    let error = TcpConnector::new_checked("opc.tcp://host", false).unwrap_err();
    assert_eq!(error.status, StatusCode(BAD_INVALID_ARGUMENT));
    assert_eq!(error.context, "Invalid OPC-UA URL: opc.tcp://host");
}

#[test]
fn the_default_endpoint_has_no_security() {
    let connector = TcpConnector::new("opc.tcp://host").unwrap();
    let description = connector.default_endpoint();
    assert_eq!(description, endpoint("opc.tcp://host"));
    assert_eq!(description.endpoint_url.as_ref(), "opc.tcp://host");
}

#[test]
fn a_direct_connection_is_established() {
    let connector = TcpConnector::new("opc.tcp://host/path").unwrap();
    let (mut handshake, action) = Handshake::start(config(), &connector);
    assert!(matches!(action, ConnectAction::Resolve(address) if address == "host:4840"));
    let action = next(&mut handshake, ConnectEvent::Resolved(true));
    assert!(matches!(action, ConnectAction::Connect));
    match next(&mut handshake, ConnectEvent::Connected(true)) {
        ConnectAction::SendHello(bytes) => {
            assert_eq!(bytes, hello("opc.tcp://host/path"));
            assert_eq!(&bytes[0..4], b"HELF");
            assert_eq!(bytes.len(), 32 + 19);
            assert_eq!(&bytes[4..8], &[51, 0, 0, 0]);
            assert_eq!(&bytes[8..12], &[0, 0, 0, 0]);
            assert_eq!(&bytes[12..16], &[0, 0x20, 0, 0]);
            assert_eq!(&bytes[16..20], &[4, 3, 2, 1]);
        }
        action => panic!("unexpected action {:?}", action),
    }
    let action = next(&mut handshake, ConnectEvent::HelloSent(true));
    assert!(matches!(action, ConnectAction::Read));
    match next(&mut handshake, read(Message::Acknowledge(ack()))) {
        ConnectAction::Finish(finished) => assert_eq!(finished, ack()),
        action => panic!("unexpected action {:?}", action),
    }
    assert_eq!(handshake.connected_url(), "opc.tcp://host/path");
    assert!(!handshake.awaits(&ConnectEvent::HelloSent(true)));
    assert!(!handshake.awaits(&ConnectEvent::Read(None)));
}

#[test]
fn the_address_decides_where_to_start() {
    let connector = TcpConnector::new_checked("opc.tcp://host", true).unwrap();
    let (_, action) = Handshake::start_at(config(), &connector, Ok("there:1".to_string()));
    assert!(matches!(action, ConnectAction::Resolve(address) if address == "there:1"));
    let (handshake, action) =
        Handshake::start_at(config(), &connector, Err(StatusCode(BAD_TIMEOUT)));
    assert_eq!(failed(action), StatusCode(BAD_TIMEOUT));
    assert!(!handshake.awaits(&ConnectEvent::Resolved(true)));
    let no_url = TcpConnector::new_checked("nothing", true).unwrap();
    let (_, action) = Handshake::start(config(), &no_url);
    assert_eq!(failed(action), StatusCode(BAD_TCP_ENDPOINT_URL_INVALID));
}

#[test]
fn a_direct_connection_can_fail() {
    let mut handshake = start("opc.tcp://host");
    let action = next(&mut handshake, ConnectEvent::Resolved(false));
    assert_eq!(failed(action), StatusCode(BAD_TCP_ENDPOINT_URL_INVALID));

    let mut handshake = start("opc.tcp://host");
    next(&mut handshake, ConnectEvent::Resolved(true));
    let action = next(&mut handshake, ConnectEvent::Connected(false));
    assert_eq!(failed(action), StatusCode(BAD_COMMUNICATION_ERROR));

    let mut handshake = start("opc.tcp://host");
    next(&mut handshake, ConnectEvent::Resolved(true));
    next(&mut handshake, ConnectEvent::Connected(true));
    let action = next(&mut handshake, ConnectEvent::HelloSent(false));
    assert_eq!(failed(action), StatusCode(BAD_COMMUNICATION_ERROR));

    for answer in [
        ConnectEvent::Read(None),
        ConnectEvent::Read(Some(Err(()))),
        read(Message::Hello),
        reverse_hello(Some("opc.tcp://host"), None),
    ] {
        let mut handshake = start("opc.tcp://host");
        next(&mut handshake, ConnectEvent::Resolved(true));
        next(&mut handshake, ConnectEvent::Connected(true));
        next(&mut handshake, ConnectEvent::HelloSent(true));
        let action = next(&mut handshake, answer);
        assert_eq!(failed(action), StatusCode(BAD_CONNECTION_CLOSED));
    }
}

#[test]
fn the_default_verifier_ignores_slashes_at_the_end() {
    let verifier = EndpointUrlVerifier::new("opc.tcp://host/".to_string());
    assert_eq!(verifier.verify("opc.tcp://host", "urn:any"), Ok(()));
    assert_eq!(verifier.verify("opc.tcp://host//", "urn:other"), Ok(()));
    let rejected = Err(StatusCode(BAD_TCP_ENDPOINT_URL_INVALID));
    assert_eq!(verifier.verify("opc.tcp://other", "urn:any"), rejected);
    assert_eq!(verifier.verify("", "urn:any"), rejected);
}

#[test]
fn a_reverse_connection_is_established() {
    let target = endpoint("opc.tcp://host/");
    let connector: Reverse<EndpointUrlVerifier> =
        ReverseTcpConnector::new_default(target.clone(), TcpConnectorReceiver::Address(4855));
    assert_eq!(connector.default_endpoint(), target);
    let (mut handshake, action) = Handshake::start_reverse(config(), &connector);
    assert!(matches!(action, ConnectAction::Bind));
    let action = connector.next(&mut handshake, ConnectEvent::Bound(true));
    assert!(matches!(action, ConnectAction::Accept));
    let action = connector.next(&mut handshake, ConnectEvent::Accepted(true));
    assert!(matches!(action, ConnectAction::Read));
    let event = reverse_hello(Some("opc.tcp://host"), Some("urn:server"));
    match connector.next(&mut handshake, event) {
        ConnectAction::SendHello(bytes) => assert_eq!(bytes, hello("opc.tcp://host")),
        action => panic!("unexpected action {:?}", action),
    }
    connector.next(&mut handshake, ConnectEvent::HelloSent(true));
    let action = connector.next(&mut handshake, read(Message::Acknowledge(ack())));
    assert!(matches!(action, ConnectAction::Finish(_)));
    assert_eq!(handshake.connected_url(), "opc.tcp://host");
}

#[test]
fn an_unexpected_server_is_turned_away() {
    let connector: Reverse<EndpointUrlVerifier> = ReverseTcpConnector::new_default(
        endpoint("opc.tcp://host"),
        TcpConnectorReceiver::Address(4855),
    );
    let (mut handshake, _) = Handshake::start_reverse(config(), &connector);
    connector.next(&mut handshake, ConnectEvent::Bound(true));
    connector.next(&mut handshake, ConnectEvent::Accepted(true));
    let action = connector.next(&mut handshake, reverse_hello(Some("opc.tcp://other"), None));
    assert_eq!(failed(action), StatusCode(BAD_TCP_ENDPOINT_URL_INVALID));
}

#[test]
fn the_verifier_of_the_user_decides() {
    for verdict in [Ok(()), Err(StatusCode(BAD_TIMEOUT))] {
        let connector: Reverse<Fixed> =
            ReverseTcpConnector::new_listener("listener", Fixed(verdict), endpoint("opc.tcp://x"));
        let (mut handshake, action) = Handshake::start_reverse(config(), &connector);
        assert!(matches!(action, ConnectAction::Accept));
        connector.next(&mut handshake, ConnectEvent::Accepted(true));
        let event = reverse_hello(Some("opc.tcp://server"), Some("urn:server"));
        let action = connector.next(&mut handshake, event);
        match verdict {
            Ok(()) => assert!(matches!(action, ConnectAction::SendHello(_))),
            Err(status) => assert_eq!(failed(action), status),
        }
    }
}

#[test]
fn null_strings_count_as_empty() {
    let connector: Reverse<EndpointUrlVerifier> = ReverseTcpConnector::new_default(
        EndpointDescription::default(),
        TcpConnectorReceiver::Address(4855),
    );
    let (mut handshake, _) = Handshake::start_reverse(config(), &connector);
    connector.next(&mut handshake, ConnectEvent::Bound(true));
    connector.next(&mut handshake, ConnectEvent::Accepted(true));
    match next(&mut handshake, reverse_hello(None, None)) {
        ConnectAction::Verify { endpoint_url, server_uri } => {
            assert_eq!(endpoint_url, "");
            assert_eq!(server_uri, "");
        }
        action => panic!("unexpected action {:?}", action),
    }
    match next(&mut handshake, ConnectEvent::Verified(Ok(()))) {
        ConnectAction::SendHello(bytes) => assert_eq!(bytes, hello("")),
        action => panic!("unexpected action {:?}", action),
    }
    assert_eq!(handshake.connected_url(), "[null]");
}

#[test]
fn a_reverse_connection_can_fail() {
    let connector: Reverse<Fixed> =
        ReverseTcpConnector::new_address(4855, Fixed(Ok(())), endpoint("opc.tcp://x"));
    match connector.listener() {
        TcpConnectorReceiver::Address(port) => assert_eq!(*port, 4855),
        TcpConnectorReceiver::Listener(_) => panic!("no listener was given"),
    }
    let (mut handshake, _) = Handshake::start_reverse(config(), &connector);
    let action = connector.next(&mut handshake, ConnectEvent::Bound(false));
    assert_eq!(failed(action), StatusCode(BAD_COMMUNICATION_ERROR));

    let (mut handshake, _) = Handshake::start_reverse(config(), &connector);
    connector.next(&mut handshake, ConnectEvent::Bound(true));
    let action = connector.next(&mut handshake, ConnectEvent::Accepted(false));
    assert_eq!(failed(action), StatusCode(BAD_COMMUNICATION_ERROR));

    for answer in [
        ConnectEvent::Read(None),
        ConnectEvent::Read(Some(Err(()))),
        read(Message::Acknowledge(ack())),
    ] {
        let (mut handshake, _) = Handshake::start_reverse(config(), &connector);
        connector.next(&mut handshake, ConnectEvent::Bound(true));
        connector.next(&mut handshake, ConnectEvent::Accepted(true));
        let action = connector.next(&mut handshake, answer);
        assert_eq!(failed(action), StatusCode(BAD_CONNECTION_CLOSED));
    }
}

#[test]
fn a_connector_keeps_what_it_was_given() {
    let listener = TcpConnectorReceiver::Listener(std::sync::Arc::new("listener"));
    let connector: Reverse<Fixed> =
        ReverseTcpConnector::new(listener, Fixed(Ok(())), endpoint("opc.tcp://x"));
    match connector.listener() {
        TcpConnectorReceiver::Listener(listener) => assert_eq!(**listener, "listener"),
        TcpConnectorReceiver::Address(_) => panic!("a listener was given"),
    }
    assert_eq!(connector.default_endpoint(), endpoint("opc.tcp://x"));
}
