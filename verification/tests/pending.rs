use std::path::Path;
use std::sync::Arc;

use opcua_client::message::{
    AcknowledgeMessage, ChunkInfo, ErrorMessage, Message, MessageChunk, MessageIsFinalType,
};
use opcua_client::stack::{Request, Response};
use opcua_client::status::{
    StatusCode, BAD_COMMUNICATION_ERROR, BAD_CONNECTION_CLOSED, BAD_DECODING_ERROR,
    BAD_ENCODING_LIMITS_EXCEEDED, BAD_SECURE_CHANNEL_ID_INVALID, BAD_SEQUENCE_NUMBER_INVALID,
    BAD_TIMEOUT, BAD_UNEXPECTED_ERROR, GOOD,
};
use opcua_client::transport::pending::{
    ChunkStep, IncomingOutcome, OutgoingMessage, Reply, TransportState,
};
use opcua_core::comms::chunker::Chunker;
use opcua_core::comms::message_chunk;
use opcua_core::comms::secure_channel::{Role, SecureChannel};
use opcua_core::comms::sequence_number::SequenceNumberHandle;
use opcua_core::{RequestMessage, ResponseMessage};
use opcua_crypto::CertificateStore;
use opcua_types::{
    CloseSecureChannelRequest, OpenSecureChannelResponse, ReadRequest, ResponseHeader, ServiceFault,
    UAString,
};
use parking_lot::RwLock;

fn channel() -> SecureChannel {
    SecureChannel::new(
        Arc::new(RwLock::new(CertificateStore::new(Path::new("no-such-directory")))),
        Role::Client,
        Default::default(),
    )
}

fn fault(handle: u32, text_length: usize) -> ResponseMessage {
    let mut header = ResponseHeader::new_service_result(handle, opcua_types::StatusCode::BadTimeout);
    if text_length > 0 {
        header.string_table = Some(vec![UAString::from("x".repeat(text_length))]);
    }
    ResponseMessage::from(ServiceFault { response_header: header })
}

/// Split a response into chunks as a server does, numbered from `sequence_number` on.
fn split(
    channel: &SecureChannel,
    message: &ResponseMessage,
    sequence_number: u32,
    request_id: u32,
) -> Vec<MessageChunk> {
    let mut numbers = SequenceNumberHandle::new(true);
    numbers.set(sequence_number);
    Chunker::encode(numbers, request_id, 0, 8192, channel, message)
        .unwrap()
        .into_iter()
        .map(|c| MessageChunk { data: c.data })
        .collect()
}

fn raw_chunk(
    channel: &SecureChannel,
    is_final: message_chunk::MessageIsFinalType,
    sequence_number: u32,
    request_id: u32,
    body: &[u8],
) -> MessageChunk {
    let chunk = message_chunk::MessageChunk::new(
        sequence_number,
        request_id,
        message_chunk::MessageChunkType::Message,
        is_final,
        channel,
        body,
    )
    .unwrap();
    MessageChunk { data: chunk.data }
}

fn info(is_final: MessageIsFinalType, sequence_number: u32, request_id: u32) -> ChunkInfo {
    ChunkInfo { is_final, sequence_number, request_id }
}

fn state(max_chunk_count: usize) -> TransportState<&'static str> {
    TransportState::new(true, max_chunk_count, 8192)
}

fn failure(reply: &Reply<&'static str>) -> (&'static str, StatusCode) {
    match &reply.result {
        Ok(message) => panic!("unexpected response {:?}", message),
        Err(status) => (reply.callback, *status),
    }
}

fn done(outcome: IncomingOutcome<&'static str>) -> Option<Reply<&'static str>> {
    match outcome {
        IncomingOutcome::Done(reply) => reply,
        IncomingOutcome::OpenSecureChannel { .. } => panic!("unexpected channel response"),
        IncomingOutcome::Failed(status) => panic!("unexpected failure {:?}", status),
    }
}

fn failed(outcome: IncomingOutcome<&'static str>) -> StatusCode {
    match outcome {
        IncomingOutcome::Failed(status) => status,
        IncomingOutcome::Done(_) => panic!("unexpected success"),
        IncomingOutcome::OpenSecureChannel { .. } => panic!("unexpected channel response"),
    }
}

#[test]
fn chunks_without_a_request_are_ignored() {
    let mut state = state(0);
    for is_final in [
        MessageIsFinalType::Intermediate,
        MessageIsFinalType::Final,
        MessageIsFinalType::FinalError,
    ] {
        let step = state.process_decoded_chunk(info(is_final, 1, 9), vec![1]);
        assert!(matches!(step, ChunkStep::Ignored));
    }
}

#[test]
fn chunks_are_collected_until_the_final_one() {
    let mut state = state(0);
    state.accept_outgoing(9, Some("nine"), 100);
    state.accept_outgoing(10, Some("ten"), 100);
    let step = state.process_decoded_chunk(info(MessageIsFinalType::Intermediate, 6, 9), vec![2]);
    assert!(matches!(step, ChunkStep::Stored));
    let step = state.process_decoded_chunk(info(MessageIsFinalType::Intermediate, 5, 9), vec![1]);
    assert!(matches!(step, ChunkStep::Stored));
    let step = state.process_decoded_chunk(info(MessageIsFinalType::Intermediate, 6, 9), vec![2]);
    assert!(matches!(step, ChunkStep::Stored));
    match state.process_decoded_chunk(info(MessageIsFinalType::Final, 7, 9), vec![3]) {
        ChunkStep::Complete { callback, chunks } => {
            assert_eq!(callback, "nine");
            let data: Vec<Vec<u8>> = chunks.into_iter().map(|c| c.data).collect();
            assert_eq!(data, vec![vec![1], vec![2], vec![3]]);
        }
        _ => panic!("the message is complete"),
    }
    let step = state.process_decoded_chunk(info(MessageIsFinalType::Final, 8, 9), vec![4]);
    assert!(matches!(step, ChunkStep::Ignored));
    let replies = state.close(StatusCode(GOOD));
    assert_eq!(replies.len(), 1);
    assert_eq!(replies[0].0, 10);
}

#[test]
fn an_aborted_message_fails_its_request() {
    let mut state = state(0);
    state.accept_outgoing(9, Some("nine"), 100);
    match state.process_decoded_chunk(info(MessageIsFinalType::FinalError, 1, 9), vec![]) {
        ChunkStep::Rejected { callback, status } => {
            assert_eq!(callback, "nine");
            assert_eq!(status, StatusCode(BAD_COMMUNICATION_ERROR));
        }
        _ => panic!("the request fails"),
    }
    assert!(state.close(StatusCode(GOOD)).is_empty());
}

#[test]
fn too_many_chunks_fail_their_request() {
    let mut state = state(2);
    state.accept_outgoing(9, Some("nine"), 100);
    for n in 1..3 {
        let step =
            state.process_decoded_chunk(info(MessageIsFinalType::Intermediate, n, 9), vec![1]);
        assert!(matches!(step, ChunkStep::Stored));
    }
    match state.process_decoded_chunk(info(MessageIsFinalType::Intermediate, 3, 9), vec![1]) {
        ChunkStep::Rejected { callback, status } => {
            assert_eq!(callback, "nine");
            assert_eq!(status, StatusCode(BAD_ENCODING_LIMITS_EXCEEDED));
        }
        _ => panic!("the request fails"),
    }
    let step = state.process_decoded_chunk(info(MessageIsFinalType::Final, 4, 9), vec![1]);
    assert!(matches!(step, ChunkStep::Ignored));
}

#[test]
fn the_final_chunk_does_not_count_towards_the_limit() {
    let mut state = state(1);
    state.accept_outgoing(9, Some("nine"), 100);
    state.process_decoded_chunk(info(MessageIsFinalType::Intermediate, 1, 9), vec![1]);
    let step = state.process_decoded_chunk(info(MessageIsFinalType::Final, 2, 9), vec![2]);
    assert!(matches!(step, ChunkStep::Complete { .. }));
}

#[test]
fn a_response_is_decoded_and_handed_on() {
    let channel = channel();
    let mut state = state(0);
    state.accept_outgoing(9, Some("nine"), 100);
    let message = fault(33, 0);
    let chunks = split(&channel, &message, 1, 9);
    assert_eq!(chunks.len(), 1);
    for chunk in chunks {
        let reply = done(state.handle_incoming_message(&channel, Message::Chunk(chunk))).unwrap();
        assert_eq!(reply.callback, "nine");
        assert_eq!(reply.result.unwrap(), message);
    }
}

#[test]
fn a_long_response_arrives_in_any_order() {
    let channel = channel();
    let mut state = state(0);
    state.accept_outgoing(9, Some("nine"), 100);
    let message = fault(33, 30000);
    let mut chunks = split(&channel, &message, 1, 9);
    assert_eq!(chunks.len(), 4);
    let last = chunks.pop().unwrap();
    chunks.reverse();
    let again = MessageChunk { data: chunks[1].data.clone() };
    chunks.push(again);
    for chunk in chunks {
        assert!(done(state.handle_incoming_message(&channel, Message::Chunk(chunk))).is_none());
    }
    let reply = done(state.handle_incoming_message(&channel, Message::Chunk(last))).unwrap();
    assert_eq!(reply.callback, "nine");
    assert_eq!(reply.result.unwrap(), message);
}

#[test]
fn sequence_numbers_go_on_from_message_to_message() {
    let channel = channel();
    let mut state = state(0);
    for id in 1..5 {
        state.accept_outgoing(id, Some("some"), 100);
    }
    let mut first = split(&channel, &fault(1, 0), 500, 1);
    let outcome = state.process_chunk(&channel, first.remove(0));
    assert!(done(outcome).unwrap().result.is_ok());
    let mut second = split(&channel, &fault(2, 9000), 501, 2);
    assert!(done(state.process_chunk(&channel, second.remove(0))).is_none());
    assert!(done(state.process_chunk(&channel, second.remove(0))).unwrap().result.is_ok());
    let mut early = split(&channel, &fault(3, 0), 504, 3);
    let status = failed(state.process_chunk(&channel, early.remove(0)));
    assert_eq!(status, StatusCode(BAD_SEQUENCE_NUMBER_INVALID));
    let mut next = split(&channel, &fault(4, 0), 503, 4);
    assert!(done(state.process_chunk(&channel, next.remove(0))).unwrap().result.is_ok());
    let replies = state.close(StatusCode(GOOD));
    assert!(replies.is_empty());
}

#[test]
fn a_foreign_channel_id_ends_the_connection() {
    let mut channel = channel();
    let mut state = state(0);
    state.accept_outgoing(9, Some("nine"), 100);
    let mut chunks = split(&channel, &fault(1, 0), 1, 9);
    channel.set_secure_channel_id(5);
    let status = failed(state.process_chunk(&channel, chunks.remove(0)));
    assert_eq!(status, StatusCode(BAD_SECURE_CHANNEL_ID_INVALID));
}

#[test]
fn an_undecodable_body_ends_the_connection() {
    let channel = channel();
    let mut state = state(0);
    state.accept_outgoing(9, Some("nine"), 100);
    let chunk = raw_chunk(&channel, message_chunk::MessageIsFinalType::Final, 1, 9, &[255, 255]);
    let status = failed(state.handle_incoming_message(&channel, Message::Chunk(chunk)));
    assert_eq!(status, StatusCode(BAD_DECODING_ERROR));
    assert!(state.close(StatusCode(GOOD)).is_empty());
}

#[test]
fn bytes_that_are_no_chunk_end_the_connection() {
    let channel = channel();
    let mut state = state(0);
    state.accept_outgoing(9, Some("nine"), 100);
    let status = failed(state.process_chunk(&channel, MessageChunk { data: vec![1, 2, 3] }));
    assert_eq!(status, StatusCode(BAD_DECODING_ERROR));
    let mut cut = raw_chunk(&channel, message_chunk::MessageIsFinalType::Final, 1, 9, &[1, 2]);
    cut.data.pop();
    let status = failed(state.process_chunk(&channel, cut));
    assert_eq!(status, StatusCode(BAD_UNEXPECTED_ERROR));
    assert_eq!(state.close(StatusCode(GOOD)).len(), 1);
}

#[test]
fn chunk_headers_decide() {
    let channel = channel();
    let mut state = state(0);
    state.accept_outgoing(9, Some("nine"), 100);
    let other = raw_chunk(&channel, message_chunk::MessageIsFinalType::FinalError, 1, 8, &[]);
    assert!(done(state.process_chunk(&channel, other)).is_none());
    let more = raw_chunk(&channel, message_chunk::MessageIsFinalType::Intermediate, 1, 9, &[1]);
    assert!(done(state.process_chunk(&channel, more)).is_none());
    let abort = raw_chunk(&channel, message_chunk::MessageIsFinalType::FinalError, 2, 9, &[]);
    let reply = done(state.process_chunk(&channel, abort)).unwrap();
    assert_eq!(failure(&reply), ("nine", StatusCode(BAD_COMMUNICATION_ERROR)));
}

#[test]
fn opening_the_channel_waits_for_the_keys() {
    let channel = channel();
    let mut state = state(0);
    state.accept_outgoing(9, Some("nine"), 100);
    let message = ResponseMessage::from(OpenSecureChannelResponse {
        response_header: ResponseHeader::new_good(1u32),
        server_protocol_version: 0,
        ..Default::default()
    });
    let mut chunks = split(&channel, &message, 1, 9);
    let outcome = state.handle_incoming_message(&channel, Message::Chunk(chunks.remove(0)));
    let (callback, response) = match outcome {
        IncomingOutcome::OpenSecureChannel { callback, response } => (callback, response),
        _ => panic!("the channel has to be updated"),
    };
    assert!(response.opens_secure_channel);
    let reply =
        done(TransportState::finish_open_secure_channel(callback, response, Ok(()))).unwrap();
    assert_eq!(reply.callback, "nine");
    assert_eq!(reply.result.unwrap(), message);
}

#[test]
fn keys_that_cannot_be_updated_end_the_connection() {
    let response = || Response { message: fault(1, 0), opens_secure_channel: true };
    let outcome = TransportState::finish_open_secure_channel(
        "nine",
        response(),
        Err(StatusCode(BAD_UNEXPECTED_ERROR)),
    );
    assert_eq!(failed(outcome), StatusCode(BAD_UNEXPECTED_ERROR));
    let outcome =
        TransportState::finish_open_secure_channel("nine", response(), Err(StatusCode(GOOD)));
    assert!(done(outcome).is_none());
}

#[test]
fn responses_are_answered_or_fail() {
    let message = fault(1, 0);
    let response = Response { message: message.clone(), opens_secure_channel: false };
    let reply = done(TransportState::answer("nine", Ok(response))).unwrap();
    assert_eq!(reply.callback, "nine");
    assert_eq!(reply.result.unwrap(), message);
    let outcome = TransportState::answer("nine", Err(StatusCode(BAD_DECODING_ERROR)));
    assert_eq!(failed(outcome), StatusCode(BAD_DECODING_ERROR));
}

#[test]
fn other_messages_end_the_connection() {
    let channel = channel();
    let mut state = state(0);
    let ack = AcknowledgeMessage {
        protocol_version: 0,
        receive_buffer_size: 1,
        send_buffer_size: 1,
        max_message_size: 1,
        max_chunk_count: 1,
    };
    let status = failed(state.handle_incoming_message(&channel, Message::Acknowledge(ack)));
    assert_eq!(status, StatusCode(BAD_UNEXPECTED_ERROR));
    let status = failed(state.handle_incoming_message(&channel, Message::Hello));
    assert_eq!(status, StatusCode(BAD_UNEXPECTED_ERROR));
    let error = |error: u32| {
        Message::Error(ErrorMessage { error: StatusCode(error), reason: Some("why".to_string()) })
    };
    let status = failed(state.handle_incoming_message(&channel, error(BAD_TIMEOUT)));
    assert_eq!(status, StatusCode(BAD_TIMEOUT));
    assert!(done(state.handle_incoming_message(&channel, error(GOOD))).is_none());
}

#[test]
fn requests_that_cannot_be_sent_are_answered() {
    let mut state = state(0);
    state.accept_outgoing(9, Some("nine"), 100);
    let reply = state.message_send_failed(9, StatusCode(BAD_TIMEOUT)).unwrap();
    assert_eq!(failure(&reply), ("nine", StatusCode(BAD_TIMEOUT)));
    assert!(state.message_send_failed(9, StatusCode(BAD_TIMEOUT)).is_none());
}

#[test]
fn nobody_waits_for_some_requests() {
    let mut state = state(0);
    state.accept_outgoing(9, None, 100);
    assert_eq!(state.next_timeout(100).0, None);
    assert!(state.close(StatusCode(GOOD)).is_empty());
}

#[test]
fn requests_time_out_at_their_deadline() {
    let mut state = state(0);
    assert_eq!(state.next_timeout(0).0, None);
    state.accept_outgoing(1, Some("one"), 100);
    state.accept_outgoing(2, Some("two"), 200);
    state.accept_outgoing(3, Some("three"), 300);
    state.accept_outgoing(4, Some("four"), 150);
    let (next, replies) = state.next_timeout(99);
    assert_eq!(next, Some(100));
    assert!(replies.is_empty());
    let (next, mut replies) = state.next_timeout(150);
    assert_eq!(next, Some(200));
    replies.sort_by_key(|(id, _)| *id);
    assert_eq!(replies.len(), 2);
    assert_eq!(replies[0].0, 1);
    assert_eq!(failure(&replies[0].1), ("one", StatusCode(BAD_TIMEOUT)));
    assert_eq!(replies[1].0, 4);
    assert_eq!(failure(&replies[1].1), ("four", StatusCode(BAD_TIMEOUT)));
    let (next, replies) = state.next_timeout(150);
    assert_eq!(next, Some(200));
    assert!(replies.is_empty());
    let (next, replies) = state.next_timeout(300);
    assert_eq!(next, None);
    assert_eq!(replies.len(), 2);
}

#[test]
fn closing_fails_all_requests_once() {
    for (status, expected) in [
        (GOOD, BAD_CONNECTION_CLOSED),
        (BAD_COMMUNICATION_ERROR, BAD_COMMUNICATION_ERROR),
    ] {
        let mut state = state(0);
        state.accept_outgoing(1, Some("one"), 100);
        state.accept_outgoing(2, Some("two"), 200);
        let mut replies = state.close(StatusCode(status));
        replies.sort_by_key(|(id, _)| *id);
        assert_eq!(replies.len(), 2);
        assert_eq!(failure(&replies[0].1), ("one", StatusCode(expected)));
        assert_eq!(failure(&replies[1].1), ("two", StatusCode(expected)));
        assert!(state.close(StatusCode(status)).is_empty());
    }
}

#[test]
fn queued_requests_are_refused() {
    let outgoing = |callback: Option<&'static str>| OutgoingMessage {
        request: Request::new(RequestMessage::from(ReadRequest::default())),
        callback,
        deadline: 10,
    };
    let reply = TransportState::refuse_outgoing(outgoing(Some("one")), StatusCode(GOOD)).unwrap();
    assert_eq!(failure(&reply), ("one", StatusCode(BAD_CONNECTION_CLOSED)));
    let reply =
        TransportState::refuse_outgoing(outgoing(Some("one")), StatusCode(BAD_TIMEOUT)).unwrap();
    assert_eq!(failure(&reply), ("one", StatusCode(BAD_TIMEOUT)));
    assert!(TransportState::refuse_outgoing(outgoing(None), StatusCode(GOOD)).is_none());
}

#[test]
fn requests_to_close_the_channel_are_told_apart() {
    let close = RequestMessage::from(CloseSecureChannelRequest::default());
    assert!(Request::new(close).closes_secure_channel);
    let read = RequestMessage::from(ReadRequest::default());
    assert!(!Request::new(read).closes_secure_channel);
}
