use std::path::Path;
use std::sync::Arc;

use futures::executor::block_on;
use opcua_client::channel::{
    check_removal, check_split, install_keys, is_secured, signature_length, FARTHEST_REQUEST_TIME,
};
use opcua_client::message::{AcknowledgeMessage, Message, MessageChunk};
use opcua_client::stack::{Request, RequestKind, RequestShape};
use opcua_client::status::StatusCode;
use opcua_client::transport::pending::{OutgoingMessage, Reply};
use opcua_client::transport::tcp::{
    IncomingStep, PollAction, TcpTransport, TransportConfiguration, TransportPollResult,
};
use opcua_core::comms::chunker::Chunker;
use opcua_core::comms::secure_channel::{Role, SecureChannel};
use opcua_core::comms::sequence_number::SequenceNumberHandle;
use opcua_core::{RequestMessage, ResponseMessage};
use opcua_crypto::{CertificateStore, PrivateKey, SecurityPolicy, X509Data, X509};
use opcua_types::StatusCode as UaStatusCode;
use opcua_types::{
    ChannelSecurityToken, DateTime, ExtensionObject, MessageSecurityMode, OpenSecureChannelRequest,
    OpenSecureChannelResponse, PublishRequest, ReadRequest, ReadValueId, RequestHeader,
    ResponseHeader, ServiceFault,
};
use parking_lot::RwLock;

fn status(code: UaStatusCode) -> StatusCode {
    StatusCode(code.bits())
}

fn channel(role: Role, policy: SecurityPolicy, mode: MessageSecurityMode) -> SecureChannel {
    let mut channel = SecureChannel::new(
        Arc::new(RwLock::new(CertificateStore::new(Path::new("no-such-directory")))),
        role,
        Default::default(),
    );
    channel.set_security_policy(policy);
    channel.set_security_mode(mode);
    channel.set_security_token(ChannelSecurityToken {
        channel_id: 3,
        token_id: 4,
        created_at: DateTime::now(),
        revised_lifetime: 60_000,
    });
    channel
}

fn client(policy: SecurityPolicy, mode: MessageSecurityMode) -> SecureChannel {
    channel(Role::Client, policy, mode)
}

/// Both sides of a channel, with keys.
fn both_sides(mode: MessageSecurityMode) -> (SecureChannel, SecureChannel) {
    let policy = SecurityPolicy::Basic256Sha256;
    let mut client = client(policy, mode);
    let mut server = channel(Role::Server, policy, mode);
    client.set_local_nonce(&[1; 32]);
    client.set_remote_nonce(&[2; 32]);
    server.set_local_nonce(&[2; 32]);
    server.set_remote_nonce(&[1; 32]);
    assert!(install_keys(&mut client));
    assert!(install_keys(&mut server));
    (client, server)
}

fn transport(channel: &SecureChannel) -> TcpTransport<&'static str> {
    limited_transport(channel, 0, 8192)
}

fn limited_transport(
    channel: &SecureChannel,
    max_message_size: u32,
    receive_buffer_size: u32,
) -> TcpTransport<&'static str> {
    let config = TransportConfiguration {
        send_buffer_size: 8192,
        recv_buffer_size: 8192,
        max_message_size: 100_000,
        max_chunk_count: 0,
    };
    let ack = AcknowledgeMessage {
        protocol_version: 0,
        receive_buffer_size,
        send_buffer_size: 8192,
        max_message_size,
        max_chunk_count: 0,
    };
    TcpTransport::new(config, ack, channel, String::new())
}

fn outgoing(message: RequestMessage) -> Option<OutgoingMessage<&'static str>> {
    Some(OutgoingMessage { request: Request::new(message), callback: Some("request"), deadline: 9 })
}

fn read_request() -> RequestMessage {
    RequestMessage::from(ReadRequest::default())
}

fn open_request() -> RequestMessage {
    RequestMessage::from(OpenSecureChannelRequest::default())
}

fn publish_request(request_header: RequestHeader) -> RequestMessage {
    RequestMessage::from(PublishRequest { request_header, ..Default::default() })
}

fn fault() -> ResponseMessage {
    ResponseMessage::from(ServiceFault { response_header: ResponseHeader::new_good(5u32) })
}

fn incoming(data: Vec<u8>) -> Option<Result<Message, ()>> {
    Some(Ok(Message::Chunk(MessageChunk { data })))
}

fn finished(step: IncomingStep<&'static str>) -> (TransportPollResult, Option<Reply<&'static str>>) {
    match step {
        IncomingStep::Finished { result, reply } => (result, reply),
        IncomingStep::OpenSecureChannel { .. } => panic!("unexpected channel response"),
    }
}

fn drain(transport: &mut TcpTransport<&'static str>) -> Vec<u8> {
    let mut out: Vec<u8> = Vec::new();
    while transport.send_buffer.can_read() {
        block_on(transport.send_buffer.read_into_async(&mut out)).unwrap();
    }
    out
}

/// The bytes of a response, as a server sends them for the first request.
fn respond(server: &SecureChannel, message: &ResponseMessage) -> Vec<u8> {
    let chunks =
        Chunker::encode(SequenceNumberHandle::new(true), 1001, 0, 8192, server, message).unwrap();
    assert_eq!(chunks.len(), 1);
    let mut bytes = vec![0; 10_000];
    let size = server.apply_security(&chunks[0], &mut bytes).unwrap();
    bytes.truncate(size);
    bytes
}

/// A chunk of a message with its length in the header, and zeroes behind it.
fn blank(kind: &[u8; 4], length: usize) -> Vec<u8> {
    let mut data = kind.to_vec();
    data.extend((length as u32).to_le_bytes());
    data.resize(length, 0);
    data
}

/// An `OPN` chunk that names a security policy, with a sender certificate and the thumbprint of
/// a receiver.
fn naming(uri: &str, certificate: &[u8], thumbprint: &[u8]) -> Vec<u8> {
    let mut data = b"OPNF".to_vec();
    let length = 24 + uri.len() + certificate.len() + thumbprint.len() + 8;
    data.extend((length as u32).to_le_bytes());
    data.extend([0; 4]);
    for part in [uri.as_bytes(), certificate, thumbprint] {
        data.extend((part.len() as u32).to_le_bytes());
        data.extend(part);
    }
    data.extend([0; 8]);
    data
}

fn certificate(key: &PrivateKey) -> X509 {
    X509::from_pkey(key, &X509Data::sample_cert()).unwrap()
}

fn closed_with(step: IncomingStep<&'static str>) -> StatusCode {
    match finished(step) {
        (TransportPollResult::Closed(status), None) => status,
        (result, _) => panic!("unexpected result {:?}", result),
    }
}

#[test]
fn keys_need_a_policy() {
    let sign = MessageSecurityMode::Sign;
    assert!(!install_keys(&mut client(SecurityPolicy::None, sign)));
    assert!(!install_keys(&mut client(SecurityPolicy::Unknown, sign)));
    for policy in [
        SecurityPolicy::Aes128Sha256RsaOaep,
        SecurityPolicy::Basic256Sha256,
        SecurityPolicy::Aes256Sha256RsaPss,
        SecurityPolicy::Basic128Rsa15,
        SecurityPolicy::Basic256,
    ] {
        assert!(install_keys(&mut client(policy, sign)));
    }
}

#[test]
fn keys_need_a_token_of_this_age() {
    let mut client = client(SecurityPolicy::Basic256Sha256, MessageSecurityMode::Sign);
    let token = ChannelSecurityToken {
        channel_id: 3,
        token_id: 4,
        created_at: DateTime::ymd(60_000, 1, 1),
        revised_lifetime: 60_000,
    };
    client.set_security_token(token);
    assert!(install_keys(&mut client));
}

#[test]
fn security_takes_a_policy_and_a_mode() {
    let policy = SecurityPolicy::Basic256Sha256;
    assert!(is_secured(&client(policy, MessageSecurityMode::Sign)));
    assert!(is_secured(&client(policy, MessageSecurityMode::SignAndEncrypt)));
    assert!(!is_secured(&client(policy, MessageSecurityMode::None)));
    assert!(!is_secured(&client(policy, MessageSecurityMode::Invalid)));
    assert!(!is_secured(&client(SecurityPolicy::None, MessageSecurityMode::Sign)));
    assert!(is_secured(&client(SecurityPolicy::Unknown, MessageSecurityMode::Sign)));
}

#[test]
fn signatures_have_a_length() {
    let lengths = [
        (SecurityPolicy::Unknown, None),
        (SecurityPolicy::None, Some(0)),
        (SecurityPolicy::Aes128Sha256RsaOaep, Some(32)),
        (SecurityPolicy::Basic256Sha256, Some(32)),
        (SecurityPolicy::Aes256Sha256RsaPss, Some(32)),
        (SecurityPolicy::Basic128Rsa15, Some(20)),
        (SecurityPolicy::Basic256, Some(20)),
    ];
    for (policy, length) in lengths {
        assert_eq!(signature_length(&client(policy, MessageSecurityMode::Sign)), length);
    }
}

#[test]
fn secured_messages_go_both_ways() {
    for mode in [MessageSecurityMode::Sign, MessageSecurityMode::SignAndEncrypt] {
        let (client, server) = both_sides(mode);
        let mut transport = transport(&client);
        let (result, reply) = transport.handle_outgoing_message(&client, outgoing(read_request()));
        assert_eq!(result, TransportPollResult::OutgoingMessage);
        assert!(reply.is_none());
        assert_eq!(transport.prepare(&client), PollAction::WriteOrRead);
        let sent = drain(&mut transport);
        assert_eq!(&sent[0..4], b"MSGF");
        let received = server.verify_and_remove_security(sent.clone()).unwrap();
        assert!(received.data.len() <= sent.len() - 32);

        let message = fault();
        let step =
            transport.handle_incoming_message(&client, incoming(respond(&server, &message)));
        let (result, reply) = finished(step);
        assert_eq!(result, TransportPollResult::IncomingMessage);
        assert_eq!(reply.unwrap().result.unwrap(), message);
    }
}

#[test]
fn a_forged_signature_is_refused() {
    let (client, server) = both_sides(MessageSecurityMode::Sign);
    let mut transport = transport(&client);
    let mut bytes = respond(&server, &fault());
    let last = bytes.len() - 1;
    bytes[last] ^= 1;
    let step = transport.handle_incoming_message(&client, incoming(bytes));
    assert_eq!(closed_with(step), status(UaStatusCode::BadSecurityChecksFailed));
}

#[test]
fn a_chunk_needs_room_for_a_signature() {
    let lengths = [
        (SecurityPolicy::Basic256Sha256, 31, false),
        (SecurityPolicy::Basic256Sha256, 32, true),
        (SecurityPolicy::Basic128Rsa15, 19, false),
        (SecurityPolicy::Basic128Rsa15, 20, true),
        (SecurityPolicy::Unknown, 100, false),
        (SecurityPolicy::None, 16, true),
    ];
    for (policy, length, enough) in lengths {
        let client = client(policy, MessageSecurityMode::Sign);
        let data = blank(b"MSGF", length);
        assert_eq!(check_removal(&client, &data), enough);
        let mut transport = transport(&client);
        assert_eq!(transport.try_handle_incoming_message(&client, incoming(data)).is_ok(), enough);
    }
}

#[test]
fn a_chunk_under_an_unknown_token_is_refused() {
    for mode in [MessageSecurityMode::Sign, MessageSecurityMode::SignAndEncrypt] {
        let (client, _) = both_sides(mode);
        for length in [63, 64] {
            let mut transport = transport(&client);
            let data = blank(b"MSGF", length);
            let step = transport.handle_incoming_message(&client, incoming(data));
            assert_eq!(closed_with(step), status(UaStatusCode::BadSecureChannelClosed));
        }
    }
}

#[test]
fn a_chunk_without_a_sender_certificate_is_refused() {
    let client = client(SecurityPolicy::None, MessageSecurityMode::None);
    let uri = SecurityPolicy::Basic256Sha256.to_uri();
    for certificate in [&b""[..], b"no certificate"] {
        let data = naming(uri, certificate, b"");
        assert!(!check_removal(&client, &data));
        let mut transport = transport(&client);
        let step = transport.handle_incoming_message(&client, incoming(data));
        assert_eq!(closed_with(step), status(UaStatusCode::BadCertificateInvalid));
    }
}

#[test]
fn a_chunk_for_another_receiver_is_refused() {
    let mut client = client(SecurityPolicy::None, MessageSecurityMode::None);
    let certificate = certificate(&PrivateKey::new(1024).unwrap());
    let der = certificate.to_der().unwrap();
    client.set_cert(Some(certificate));
    let data = naming(SecurityPolicy::Basic256Sha256.to_uri(), &der, &[0; 20]);
    let mut transport = transport(&client);
    let step = transport.handle_incoming_message(&client, incoming(data));
    assert_eq!(closed_with(step), status(UaStatusCode::BadNoValidCertificates));
}

#[test]
fn only_a_chunk_without_a_policy_needs_no_certificate() {
    let (client, _) = both_sides(MessageSecurityMode::SignAndEncrypt);
    let uri = SecurityPolicy::None.to_uri();
    assert!(check_removal(&client, &naming(uri, b"", b"")));
    assert!(check_removal(&client, &naming(uri, b"any", b"thing")));
    for policy in [SecurityPolicy::Basic256Sha256, SecurityPolicy::Basic256] {
        assert!(!check_removal(&client, &naming(policy.to_uri(), b"", b"")));
    }
    assert!(!check_removal(&client, &naming(&uri[1..], b"", b"")));
    assert!(!check_removal(&client, &naming(&format!("{}!", uri), b"", b"")));
    assert!(!check_removal(&client, &naming(&uri.replace("None", "Nine"), b"", b"")));
    assert!(!check_removal(&client, &naming(uri, b"", b"")[..60].to_vec()));
    assert!(!check_removal(&client, &b"OPNF".to_vec()));
}

#[test]
fn what_takes_keys_is_handed_back() {
    let (client, server) = both_sides(MessageSecurityMode::SignAndEncrypt);
    let mut transport = transport(&client);
    let bytes = respond(&server, &fault());
    match transport.try_handle_incoming_message(&client, incoming(bytes.clone())) {
        Err(Some(Ok(Message::Chunk(chunk)))) => assert_eq!(chunk.data, bytes),
        _ => panic!("an encrypted chunk was dealt with"),
    }
    assert!(transport.try_handle_incoming_message(&client, None).is_ok());

    let (client, server) = both_sides(MessageSecurityMode::Sign);
    let bytes = respond(&server, &fault());
    match transport.try_handle_incoming_message(&client, incoming(bytes)) {
        Ok(step) => assert_eq!(finished(step).0, TransportPollResult::IncomingMessage),
        Err(_) => panic!("a signed chunk was handed back"),
    }
}

#[test]
fn what_may_complete_a_response_is_handed_back() {
    let client = client(SecurityPolicy::None, MessageSecurityMode::None);
    let server = channel(Role::Server, SecurityPolicy::None, MessageSecurityMode::None);
    let mut transport = transport(&client);
    transport.handle_outgoing_message(&client, outgoing(read_request()));
    let bytes = respond(&server, &fault());
    assert!(transport.try_handle_incoming_message(&client, incoming(bytes.clone())).is_err());
    let mut intermediate = bytes;
    intermediate[3] = b'C';
    match transport.try_handle_incoming_message(&client, incoming(intermediate)) {
        Ok(step) => {
            let (result, reply) = finished(step);
            assert_eq!(result, TransportPollResult::IncomingMessage);
            assert!(reply.is_none());
        }
        Err(_) => panic!("an intermediate chunk was handed back"),
    }
}

#[test]
fn nothing_is_encoded_without_keys() {
    let (client, _) = both_sides(MessageSecurityMode::Sign);
    let mut transport = transport(&client);
    assert_eq!(transport.try_prepare(&client), Some(PollAction::ReceiveOrRead));
    transport.handle_outgoing_message(&client, outgoing(read_request()));
    assert_eq!(transport.try_prepare(&client), None);
    assert_eq!(transport.prepare(&client), PollAction::WriteOrRead);
    assert_eq!(transport.try_prepare(&client), Some(PollAction::WriteOrRead));
    assert!(drain(&mut transport).starts_with(b"MSGF"));
}

#[test]
fn only_plain_requests_are_known_to_be_sendable() {
    let unsecured = client(SecurityPolicy::None, MessageSecurityMode::None);
    let secured = client(SecurityPolicy::Basic256Sha256, MessageSecurityMode::Sign);
    let unknown = client(SecurityPolicy::Unknown, MessageSecurityMode::None);
    let shape = |kind: RequestKind| RequestShape { kind, time: 0, has_additional_header: false };
    let kinds =
        [RequestKind::OpenSecureChannel, RequestKind::CloseSecureChannel, RequestKind::Publish];
    for kind in kinds {
        assert!(check_split(&unsecured, shape(kind)));
        assert_eq!(check_split(&secured, shape(kind)), kind != RequestKind::OpenSecureChannel);
        assert!(!check_split(&unknown, shape(kind)));
    }
    assert!(!check_split(&unsecured, shape(RequestKind::Other)));
    let publish = shape(RequestKind::Publish);
    for (time, near) in [
        (FARTHEST_REQUEST_TIME, true),
        (-FARTHEST_REQUEST_TIME, true),
        (FARTHEST_REQUEST_TIME + 1, false),
        (-FARTHEST_REQUEST_TIME - 1, false),
    ] {
        assert_eq!(check_split(&unsecured, RequestShape { time, ..publish }), near);
    }
    let additional = RequestShape { has_additional_header: true, ..publish };
    assert!(!check_split(&unsecured, additional));
}

#[test]
fn other_requests_are_handed_back() {
    let unsecured = client(SecurityPolicy::None, MessageSecurityMode::None);
    let unknown = client(SecurityPolicy::Unknown, MessageSecurityMode::Sign);
    let mut transport = transport(&unsecured);
    let far = RequestHeader { timestamp: DateTime::ymd(40_000, 1, 1), ..RequestHeader::dummy() };
    let additional = RequestHeader {
        additional_header: ExtensionObject::from_message(ReadValueId::default()),
        ..RequestHeader::dummy()
    };
    for message in [read_request(), publish_request(far), publish_request(additional)] {
        match transport.try_handle_outgoing_message(&unsecured, outgoing(message.clone())) {
            Err(handed_back) => {
                assert_eq!(handed_back.request.message, message);
                assert_eq!(handed_back.callback, Some("request"));
            }
            Ok(_) => panic!("a request was dealt with"),
        }
    }
    let plain = || outgoing(publish_request(RequestHeader::dummy()));
    assert!(transport.try_handle_outgoing_message(&unknown, plain()).is_err());
    match transport.try_handle_outgoing_message(&unsecured, plain()) {
        Ok((result, reply)) => {
            assert_eq!(result, TransportPollResult::OutgoingMessage);
            assert!(reply.is_none());
        }
        Err(_) => panic!("a plain request was handed back"),
    }
    assert_eq!(transport.prepare(&unsecured), PollAction::WriteOrRead);
    assert_eq!(drain(&mut transport)[16..24], [1, 0, 0, 0, 233, 3, 0, 0]);
    match transport.try_handle_outgoing_message(&unsecured, None) {
        Ok((TransportPollResult::Closed(_), None)) => {}
        _ => panic!("the end of the queue was handed back"),
    }
}

#[test]
fn a_request_fails_with_the_status_of_its_error() {
    let client = client(SecurityPolicy::Basic256Sha256, MessageSecurityMode::Sign);
    let mut transport = limited_transport(&client, 10, 8192);
    let (result, reply) = transport.handle_outgoing_message(&client, outgoing(open_request()));
    let too_large = status(UaStatusCode::BadRequestTooLarge);
    assert_eq!(result, TransportPollResult::RecoverableError(too_large));
    assert_eq!(reply.unwrap().result.unwrap_err(), too_large);

    let mut transport = limited_transport(&client, 0, 8191);
    let (result, _) = transport.handle_outgoing_message(&client, outgoing(open_request()));
    let too_small = status(UaStatusCode::BadTcpInternalError);
    assert_eq!(result, TransportPollResult::RecoverableError(too_small));
}

#[test]
fn a_channel_is_opened_with_certificates() {
    let policy = SecurityPolicy::Basic256Sha256;
    let (client_key, server_key) =
        (PrivateKey::new(1024).unwrap(), PrivateKey::new(1024).unwrap());
    let (own, remote) = (certificate(&client_key), certificate(&server_key));
    let mut client = client(policy, MessageSecurityMode::SignAndEncrypt);
    let mut server = channel(Role::Server, policy, MessageSecurityMode::SignAndEncrypt);
    client.set_cert(Some(own.clone()));
    client.set_private_key(Some(client_key));
    server.set_cert(Some(remote.clone()));
    server.set_private_key(Some(server_key));
    server.set_remote_cert(Some(own));

    let mut transport = transport(&client);
    let (result, reply) = transport.handle_outgoing_message(&client, outgoing(open_request()));
    let invalid = status(UaStatusCode::BadCertificateInvalid);
    assert_eq!(result, TransportPollResult::RecoverableError(invalid));
    assert_eq!(reply.unwrap().result.unwrap_err(), invalid);

    client.set_remote_cert(Some(remote));
    let (result, _) = transport.handle_outgoing_message(&client, outgoing(open_request()));
    assert_eq!(result, TransportPollResult::OutgoingMessage);
    assert_eq!(transport.prepare(&client), PollAction::WriteOrRead);
    let sent = drain(&mut transport);
    assert_eq!(&sent[0..4], b"OPNF");
    assert!(server.verify_and_remove_security(sent).is_ok());

    let message = ResponseMessage::from(OpenSecureChannelResponse {
        response_header: ResponseHeader::new_good(5u32),
        ..Default::default()
    });
    let chunks =
        Chunker::encode(SequenceNumberHandle::new(true), 1002, 0, 8192, &server, &message).unwrap();
    let mut bytes = vec![0; 10_000];
    let size = server.apply_security(&chunks[0], &mut bytes).unwrap();
    bytes.truncate(size);
    match transport.handle_incoming_message(&client, incoming(bytes)) {
        IncomingStep::OpenSecureChannel { callback, response } => {
            assert_eq!(callback, "request");
            assert_eq!(response.message, message);
        }
        IncomingStep::Finished { result, .. } => panic!("unexpected result {:?}", result),
    }
}

#[test]
fn a_chunk_that_cannot_be_encoded_closes_the_transport() {
    let key = PrivateKey::new(1024).unwrap();
    let own = certificate(&key);
    let mut client = client(SecurityPolicy::Basic256Sha256, MessageSecurityMode::Sign);
    client.set_cert(Some(own));
    let mut transport = limited_transport(&client, 0, 0);
    let closed = |code: UaStatusCode| PollAction::Done(TransportPollResult::Closed(status(code)));

    transport.handle_outgoing_message(&client, outgoing(open_request()));
    assert_eq!(transport.prepare(&client), closed(UaStatusCode::BadCertificateInvalid));
    assert_eq!(transport.prepare(&client), PollAction::ReceiveOrRead);

    transport.handle_outgoing_message(&client, outgoing(open_request()));
    client.set_security_policy(SecurityPolicy::Unknown);
    assert_eq!(transport.prepare(&client), closed(UaStatusCode::BadSecurityChecksFailed));
    assert_eq!(transport.prepare(&client), PollAction::ReceiveOrRead);
}
