use std::path::Path;
use std::sync::Arc;

use futures::executor::block_on;
use opcua_client::message::{AcknowledgeMessage, ErrorMessage, Message, MessageChunk};
use opcua_client::stack::{Request, Response};
use opcua_client::status::{
    Error, StatusCode, BAD_COMMUNICATION_ERROR, BAD_CONNECTION_CLOSED, BAD_TIMEOUT,
    BAD_UNEXPECTED_ERROR, GOOD,
};
use opcua_client::transport::pending::{OutgoingMessage, Reply};
use opcua_client::transport::tcp::{
    IncomingStep, PollAction, PollStart, TcpTransport, TransportConfiguration,
    TransportPollResult,
};
use opcua_core::comms::chunker::Chunker;
use opcua_core::comms::secure_channel::{Role, SecureChannel};
use opcua_core::comms::sequence_number::SequenceNumberHandle;
use opcua_core::{RequestMessage, ResponseMessage};
use opcua_crypto::CertificateStore;
use opcua_types::{
    CloseSecureChannelRequest, NodeId, ReadRequest, ReadValueId, RequestHeader, ResponseHeader,
    ServiceFault,
};
use parking_lot::RwLock;

fn channel() -> SecureChannel {
    SecureChannel::new(
        Arc::new(RwLock::new(CertificateStore::new(Path::new("no-such-directory")))),
        Role::Client,
        Default::default(),
    )
}

fn config() -> TransportConfiguration {
    TransportConfiguration {
        send_buffer_size: 65536,
        recv_buffer_size: 65536,
        max_message_size: 100_000,
        max_chunk_count: 5,
    }
}

fn ack() -> AcknowledgeMessage {
    AcknowledgeMessage {
        protocol_version: 0,
        receive_buffer_size: 8192,
        send_buffer_size: 65536,
        max_message_size: 0,
        max_chunk_count: 3,
    }
}

fn transport(channel: &SecureChannel) -> TcpTransport<&'static str> {
    TcpTransport::new(config(), ack(), channel, "opc.tcp://host".to_string())
}

fn header(handle: u32) -> RequestHeader {
    RequestHeader { request_handle: handle, ..RequestHeader::dummy() }
}

fn read_request(handle: u32, nodes: usize) -> RequestMessage {
    RequestMessage::from(ReadRequest {
        request_header: header(handle),
        nodes_to_read: Some(vec![ReadValueId::from(NodeId::new(1, "x".repeat(100))); nodes]),
        ..Default::default()
    })
}

fn outgoing(
    message: RequestMessage,
    callback: Option<&'static str>,
) -> Option<OutgoingMessage<&'static str>> {
    Some(OutgoingMessage { request: Request::new(message), callback, deadline: 100 })
}

fn failure(reply: &Reply<&'static str>) -> (&'static str, StatusCode) {
    match &reply.result {
        Ok(message) => panic!("unexpected response {:?}", message),
        Err(status) => (reply.callback, *status),
    }
}

fn finished(step: IncomingStep<&'static str>) -> (TransportPollResult, Option<Reply<&'static str>>) {
    match step {
        IncomingStep::Finished { result, reply } => (result, reply),
        IncomingStep::OpenSecureChannel { .. } => panic!("unexpected channel response"),
    }
}

fn drain(transport: &mut TcpTransport<&'static str>) -> Vec<u8> {
    let mut out: Vec<u8> = Vec::new();
    while transport.send_buffer.can_read() {
        block_on(transport.send_buffer.read_into_async(&mut out)).unwrap();
    }
    out
}

fn number(bytes: &[u8], at: usize) -> u32 {
    u32::from_le_bytes([bytes[at], bytes[at + 1], bytes[at + 2], bytes[at + 3]])
}

#[test]
fn a_new_transport_waits_for_outgoing_messages() {
    let channel = channel();
    let mut transport = transport(&channel);
    assert_eq!(transport.connected_url(), "opc.tcp://host");
    assert!(transport.has_request_id());
    assert_eq!(transport.begin_poll(), PollStart::Poll);
    assert_eq!(transport.prepare(&channel), PollAction::ReceiveOrRead);
}

#[test]
fn the_tighter_limits_hold() {
    let channel = channel();
    let revised = transport(&channel);
    assert_eq!(revised.send_buffer.send_buffer_size, 8192);
    assert_eq!(revised.send_buffer.max_message_size, 100_000);
    assert_eq!(revised.send_buffer.max_chunk_count, 3);
    let generous = AcknowledgeMessage {
        receive_buffer_size: 100_000,
        max_message_size: 200_000,
        max_chunk_count: 0,
        ..ack()
    };
    let own: TcpTransport<&'static str> =
        TcpTransport::new(config(), generous, &channel, String::new());
    assert_eq!(own.send_buffer.send_buffer_size, 65536);
    assert_eq!(own.send_buffer.max_message_size, 100_000);
    assert_eq!(own.send_buffer.max_chunk_count, 5);
}

#[test]
fn limits_have_to_fit_into_memory() {
    assert!(config().fits_memory());
    let most = isize::MAX as usize;
    let largest = TransportConfiguration { send_buffer_size: most - 1024, ..config() };
    assert!(largest.fits_memory());
    let too_large = TransportConfiguration { send_buffer_size: most - 1023, ..config() };
    assert!(!too_large.fits_memory());
    let too_many = TransportConfiguration { max_chunk_count: most / 128 + 1, ..config() };
    assert!(!too_many.fits_memory());
}

#[test]
fn odd_acknowledgements_are_noticed() {
    assert_eq!(config().exceeded_by(&ack()), (false, false));
    let larger = AcknowledgeMessage {
        send_buffer_size: 65537,
        receive_buffer_size: 65537,
        ..ack()
    };
    assert_eq!(config().exceeded_by(&larger), (true, true));
}

#[test]
fn a_request_is_numbered_queued_and_written() {
    let channel = channel();
    let mut transport = transport(&channel);
    for expected_id in 1001..1004 {
        let message = read_request(5, 1);
        let (result, reply) =
            transport.handle_outgoing_message(&channel, outgoing(message, Some("read")));
        assert_eq!(result, TransportPollResult::OutgoingMessage);
        assert!(reply.is_none());
        assert_eq!(transport.prepare(&channel), PollAction::WriteOrRead);
        assert_eq!(transport.prepare(&channel), PollAction::WriteOrRead);
        let bytes = drain(&mut transport);
        assert_eq!(&bytes[0..4], b"MSGF");
        assert_eq!(number(&bytes, 4) as usize, bytes.len());
        assert_eq!(number(&bytes, 16), expected_id - 1000);
        assert_eq!(number(&bytes, 20), expected_id);
        assert_eq!(transport.prepare(&channel), PollAction::ReceiveOrRead);
    }
    let mut replies = transport.begin_close(StatusCode(GOOD));
    replies.sort_by_key(|(id, _)| *id);
    let ids: Vec<u32> = replies.iter().map(|(id, _)| *id).collect();
    assert_eq!(ids, vec![1001, 1002, 1003]);
}

#[test]
fn chunks_are_written_one_after_the_other() {
    let channel = channel();
    let mut transport = transport(&channel);
    let message = read_request(5, 100);
    let (result, _) = transport.handle_outgoing_message(&channel, outgoing(message, None));
    assert_eq!(result, TransportPollResult::OutgoingMessage);
    assert_eq!(transport.prepare(&channel), PollAction::WriteOrRead);
    let first = drain(&mut transport);
    assert_eq!(&first[0..4], b"MSGC");
    assert_eq!(transport.prepare(&channel), PollAction::WriteOrRead);
    let second = drain(&mut transport);
    assert_eq!(&second[0..4], b"MSGF");
    assert_eq!(number(&second, 16), number(&first, 16) + 1);
    assert_eq!(number(&second, 20), number(&first, 20));
    assert_eq!(transport.prepare(&channel), PollAction::ReceiveOrRead);
    assert!(transport.begin_close(StatusCode(GOOD)).is_empty());
}

#[test]
fn a_request_that_is_too_large_fails_alone() {
    let channel = channel();
    let mut transport = transport(&channel);
    transport.handle_outgoing_message(&channel, outgoing(read_request(5, 1), Some("small")));
    let too_many_chunks = outgoing(read_request(6, 300), Some("large"));
    let (result, reply) = transport.handle_outgoing_message(&channel, too_many_chunks);
    let status = StatusCode(BAD_COMMUNICATION_ERROR);
    assert_eq!(result, TransportPollResult::RecoverableError(status));
    assert_eq!(failure(&reply.unwrap()), ("large", status));
    let too_long = outgoing(read_request(0, 2000), Some("huge"));
    let (result, reply) = transport.handle_outgoing_message(&channel, too_long);
    let status = StatusCode(opcua_types::StatusCode::BadRequestTooLarge.bits());
    assert_eq!(result, TransportPollResult::RecoverableError(status));
    assert_eq!(failure(&reply.unwrap()), ("huge", status));
    assert_eq!(transport.begin_poll(), PollStart::Poll);
    let replies = transport.begin_close(StatusCode(GOOD));
    assert_eq!(replies.len(), 1);
    assert_eq!(replies[0].0, 1001);
}

#[test]
fn only_queued_chunks_take_sequence_numbers() {
    let channel = channel();
    let mut transport = transport(&channel);
    transport.handle_outgoing_message(&channel, outgoing(read_request(5, 100), None));
    let too_many_chunks = outgoing(read_request(6, 300), None);
    let (result, _) = transport.handle_outgoing_message(&channel, too_many_chunks);
    assert_eq!(
        result,
        TransportPollResult::RecoverableError(StatusCode(BAD_COMMUNICATION_ERROR))
    );
    transport.handle_outgoing_message(&channel, outgoing(read_request(7, 1), None));
    let mut written = Vec::new();
    while transport.prepare(&channel) == PollAction::WriteOrRead {
        let bytes = drain(&mut transport);
        written.push((number(&bytes, 16), number(&bytes, 20)));
    }
    assert_eq!(written, vec![(1, 1001), (2, 1001), (3, 1003)]);
}

#[test]
fn a_dropped_poll_loses_nothing() {
    let channel = channel();
    let mut transport = transport(&channel);
    transport.handle_outgoing_message(&channel, outgoing(read_request(5, 100), Some("read")));
    for _ in 0..3 {
        assert_eq!(transport.begin_poll(), PollStart::Poll);
        assert_eq!(transport.prepare(&channel), PollAction::WriteOrRead);
    }
    let first = drain(&mut transport);
    assert_eq!(number(&first, 16), 1);
    assert_eq!(transport.prepare(&channel), PollAction::WriteOrRead);
    let second = drain(&mut transport);
    assert_eq!(number(&second, 16), 2);
    for _ in 0..3 {
        assert_eq!(transport.prepare(&channel), PollAction::ReceiveOrRead);
    }
    assert_eq!(transport.begin_close(StatusCode(GOOD)).len(), 1);
}

#[test]
fn an_interrupted_close_is_resumed() {
    let channel = channel();
    let mut transport = transport(&channel);
    transport.handle_outgoing_message(&channel, outgoing(read_request(5, 1), Some("read")));
    let status = StatusCode(BAD_TIMEOUT);
    assert_eq!(transport.begin_close(status).len(), 1);
    for _ in 0..3 {
        assert_eq!(transport.begin_poll(), PollStart::Close(status));
        assert!(transport.begin_close(status).is_empty());
    }
    assert_eq!(transport.finish_close(status), TransportPollResult::Closed(status));
    assert_eq!(transport.begin_poll(), PollStart::Closed(status));
}

#[test]
fn an_error_without_context_ends_the_connection() {
    let channel = channel();
    let mut transport = transport(&channel);
    transport.handle_outgoing_message(&channel, outgoing(read_request(5, 1), Some("read")));
    let mut error =
        Error { status: StatusCode(BAD_TIMEOUT), request_id: Some(1001), request_handle: None };
    let (result, reply) = transport.after_send(Err(error));
    assert_eq!(result, TransportPollResult::Closed(StatusCode(BAD_TIMEOUT)));
    assert!(reply.is_none());
    let (result, reply) = transport.after_send(Ok(1001));
    assert_eq!(result, TransportPollResult::OutgoingMessage);
    assert!(reply.is_none());
    error.request_handle = Some(5);
    let (result, reply) = transport.after_send(Err(error));
    assert_eq!(result, TransportPollResult::RecoverableError(StatusCode(BAD_TIMEOUT)));
    assert_eq!(failure(&reply.unwrap()), ("read", StatusCode(BAD_TIMEOUT)));
    let (_, reply) = transport.after_send(Err(error));
    assert!(reply.is_none());
}

#[test]
fn writing_succeeds_or_ends_the_connection() {
    assert_eq!(
        TcpTransport::<&'static str>::after_write(true),
        TransportPollResult::OutgoingMessageSent
    );
    assert_eq!(
        TcpTransport::<&'static str>::after_write(false),
        TransportPollResult::Closed(StatusCode(BAD_COMMUNICATION_ERROR))
    );
}

#[test]
fn a_request_to_close_the_channel_is_the_last() {
    let channel = channel();
    let mut transport = transport(&channel);
    let close = RequestMessage::from(CloseSecureChannelRequest { request_header: header(1) });
    let (result, _) = transport.handle_outgoing_message(&channel, outgoing(close, None));
    assert_eq!(result, TransportPollResult::OutgoingMessage);
    assert_eq!(transport.prepare(&channel), PollAction::WriteOrRead);
    let bytes = drain(&mut transport);
    assert_eq!(&bytes[0..4], b"CLOF");
    assert_eq!(
        transport.prepare(&channel),
        PollAction::Done(TransportPollResult::Closed(StatusCode(GOOD)))
    );
}

#[test]
fn no_more_outgoing_messages_close_the_transport() {
    let channel = channel();
    let mut transport = transport(&channel);
    let (result, reply) = transport.handle_outgoing_message(&channel, None);
    assert_eq!(result, TransportPollResult::Closed(StatusCode(GOOD)));
    assert!(reply.is_none());
}

#[test]
fn a_response_answers_its_request() {
    let channel = channel();
    let mut transport = transport(&channel);
    transport.handle_outgoing_message(&channel, outgoing(read_request(5, 1), Some("read")));
    let message = ResponseMessage::from(ServiceFault {
        response_header: ResponseHeader::new_good(5u32),
    });
    let chunks =
        Chunker::encode(SequenceNumberHandle::new(true), 1001, 0, 8192, &channel, &message)
            .unwrap();
    for chunk in chunks {
        let incoming = Some(Ok(Message::Chunk(MessageChunk { data: chunk.data })));
        let (result, reply) = finished(transport.handle_incoming_message(&channel, incoming));
        assert_eq!(result, TransportPollResult::IncomingMessage);
        let reply = reply.unwrap();
        assert_eq!(reply.callback, "read");
        assert_eq!(reply.result.unwrap(), message);
    }
    assert!(transport.begin_close(StatusCode(GOOD)).is_empty());
}

#[test]
fn reading_can_end_the_connection() {
    let channel = channel();
    let mut transport = transport(&channel);
    let closed = |step: IncomingStep<&'static str>| match finished(step) {
        (TransportPollResult::Closed(status), None) => status,
        (result, _) => panic!("unexpected result {:?}", result),
    };
    let end = transport.handle_incoming_message(&channel, None);
    assert_eq!(closed(end), StatusCode(BAD_COMMUNICATION_ERROR));
    let failed = transport.handle_incoming_message(&channel, Some(Err(())));
    assert_eq!(closed(failed), StatusCode(BAD_CONNECTION_CLOSED));
    let hello = transport.handle_incoming_message(&channel, Some(Ok(Message::Hello)));
    assert_eq!(closed(hello), StatusCode(BAD_UNEXPECTED_ERROR));
    let error = Message::Error(ErrorMessage { error: StatusCode(BAD_TIMEOUT), reason: None });
    let error = transport.handle_incoming_message(&channel, Some(Ok(error)));
    assert_eq!(closed(error), StatusCode(BAD_TIMEOUT));
}

#[test]
fn updated_keys_answer_the_request() {
    let message = ResponseMessage::from(ServiceFault {
        response_header: ResponseHeader::new_good(5u32),
    });
    let response = || Response { message: message.clone(), opens_secure_channel: true };
    let step = TcpTransport::finish_open_secure_channel("open", response(), Ok(()));
    let (result, reply) = finished(step);
    assert_eq!(result, TransportPollResult::IncomingMessage);
    assert_eq!(reply.unwrap().result.unwrap(), message);
    let status = StatusCode(BAD_UNEXPECTED_ERROR);
    let step = TcpTransport::finish_open_secure_channel("open", response(), Err(status));
    let (result, reply) = finished(step);
    assert_eq!(result, TransportPollResult::Closed(status));
    assert!(reply.is_none());
}

#[test]
fn requests_of_a_transport_time_out() {
    let channel = channel();
    let mut transport = transport(&channel);
    transport.handle_outgoing_message(&channel, outgoing(read_request(5, 1), Some("read")));
    assert_eq!(transport.next_timeout(99).0, Some(100));
    let (next, replies) = transport.next_timeout(100);
    assert_eq!(next, None);
    assert_eq!(replies.len(), 1);
    assert_eq!(replies[0].0, 1001);
    assert_eq!(failure(&replies[0].1), ("read", StatusCode(BAD_TIMEOUT)));
}

#[test]
fn a_closed_transport_stays_closed() {
    let channel = channel();
    let mut transport = transport(&channel);
    transport.handle_outgoing_message(&channel, outgoing(read_request(5, 1), Some("read")));
    let status = StatusCode(BAD_COMMUNICATION_ERROR);
    let replies = transport.begin_close(status);
    assert_eq!(failure(&replies[0].1), ("read", status));
    assert_eq!(transport.begin_poll(), PollStart::Close(status));
    assert!(transport.begin_close(status).is_empty());
    assert_eq!(transport.finish_close(status), TransportPollResult::Closed(status));
    assert_eq!(transport.begin_poll(), PollStart::Closed(status));
    transport.prepare(&channel);
    transport.handle_incoming_message(&channel, None);
    assert_eq!(transport.begin_poll(), PollStart::Closed(status));
}
