//! What the client has from the OPC UA stack in `opcua_core`: chunk security, chunk headers,
//! chunk validation, message decoding and the encoding of a hello.
//!
//! A [`SecureChannel`] is opaque here. What the calls that take one return rests on its keys and
//! certificates, and on decoding options that it shares with others and that may change between
//! two calls. So these results have no value of their own in the contracts: each call has a
//! relation, which says what it may return, and short facts that hold for every channel.

use opcua_core::comms::chunker::Chunker;
use opcua_core::comms::message_chunk;
use opcua_core::comms::secure_channel::SecureChannel;
use opcua_core::comms::sequence_number::SequenceNumberHandle;
use opcua_core::comms::tcp_types::HelloMessage;
use opcua_core::{RequestMessage, ResponseMessage};
use opcua_types::SimpleBinaryEncodable;
use vstd::prelude::*;
use vstd::utf8::encode_utf8;

use crate::channel::{may_decode, may_remove_security};
use crate::message::{chunk_data, ChunkInfo, MessageChunk, MessageIsFinalType};
use crate::sequence::{may_follow, next_sequence_number, SequenceNumbers};
use crate::status::{
    StatusCode, BAD_DECODING_ERROR, BAD_SECURE_CHANNEL_ID_INVALID, BAD_SEQUENCE_NUMBER_INVALID,
};

verus! {

/// Declares `opcua_core::ResponseMessage`.
#[verifier::external_type_specification]
#[verifier::external_body]
pub struct ExResponseMessage(ResponseMessage);

/// Declares `opcua_core::RequestMessage`.
#[verifier::external_type_specification]
#[verifier::external_body]
pub struct ExRequestMessage(RequestMessage);

/// A decoded service response.
#[derive(Debug)]
pub struct Response {
    /// The response itself.
    pub message: ResponseMessage,
    /// Whether it answers a request to open or renew the secure channel.
    pub opens_secure_channel: bool,
}

/// A service request.
#[derive(Debug)]
pub struct Request {
    /// The request itself.
    pub message: RequestMessage,
    /// Whether it asks the server to close the secure channel.
    pub closes_secure_channel: bool,
}

/// The kinds of requests that are told apart.
#[derive(Clone, Copy, Debug, PartialEq, Eq, Structural)]
pub enum RequestKind {
    /// A request to open or renew the secure channel.
    OpenSecureChannel,
    /// A request to close the secure channel.
    CloseSecureChannel,
    /// A publish request.
    Publish,
    /// Any other request.
    Other,
}

/// What a request looks like from the outside.
#[derive(Clone, Copy, Debug, PartialEq, Eq, Structural)]
pub struct RequestShape {
    /// The kind of request.
    pub kind: RequestKind,
    /// The time in the header of the request, in seconds since 1970.
    pub time: i64,
    /// Whether there is an additional header, which may hold anything.
    pub has_additional_header: bool,
}

/// What a request looks like from the outside.
pub uninterp spec fn shape_of(message: RequestMessage) -> RequestShape;

/// Whether a request asks the server to open or renew the secure channel.
pub open spec fn asks_to_open(message: RequestMessage) -> bool {
    shape_of(message).kind == RequestKind::OpenSecureChannel
}

/// Whether a request asks the server to close the secure channel.
pub open spec fn closes_channel(message: RequestMessage) -> bool {
    shape_of(message).kind == RequestKind::CloseSecureChannel
}

/// Whether the outside enum `ResponseMessage` holds its variant `OpenSecureChannel`.
pub uninterp spec fn opens_channel(message: ResponseMessage) -> bool;

/// Whether `SecureChannel::verify_and_remove_security` may return `res` for a chunk. Where it
/// panics, it returns nothing.
pub uninterp spec fn security_removed(
    channel: SecureChannel,
    chunk: Seq<u8>,
    res: Result<Seq<u8>, StatusCode>,
) -> bool;

/// Whether `MessageChunk::chunk_info` may return `res` for a chunk.
pub uninterp spec fn headers_read(
    channel: SecureChannel,
    chunk: Seq<u8>,
    res: Result<ChunkInfo, StatusCode>,
) -> bool;

/// Whether `Chunker::validate_chunks` may return `res` for the chunks of a message.
pub uninterp spec fn chunks_validated(
    channel: SecureChannel,
    numbers: SequenceNumbers,
    chunks: Seq<Seq<u8>>,
    res: Result<u32, StatusCode>,
) -> bool;

/// Whether `Chunker::decode` may return `res` for the chunks of a message. Where it panics, it
/// returns nothing.
pub uninterp spec fn message_decoded(
    channel: SecureChannel,
    chunks: Seq<Seq<u8>>,
    res: Result<Response, StatusCode>,
) -> bool;

impl Request {
    /// Wrap a service request.
    pub fn new(message: RequestMessage) -> (res: Self)
        ensures
            res.message == message,
            res.closes_secure_channel == closes_channel(message),
    {
        let closes_secure_channel = describe(&message).kind == RequestKind::CloseSecureChannel;
        Request { message, closes_secure_channel }
    }
}

/// The unsigned number in the four bytes from `at` on, lowest byte first.
pub open spec fn le_u32(data: Seq<u8>, at: int) -> int {
    data[at] + 0x100 * data[at + 1] + 0x1_0000 * data[at + 2] + 0x100_0000 * data[at + 3]
}

/// The four lowest bytes of a number, lowest byte first.
pub open spec fn le_bytes(n: int) -> Seq<u8> {
    seq![
        (n % 0x100) as u8,
        (n / 0x100 % 0x100) as u8,
        (n / 0x1_0000 % 0x100) as u8,
        (n / 0x100_0000 % 0x100) as u8,
    ]
}

/// What the fourth byte of a chunk says: `C`, `F` or `A`.
pub open spec fn final_flag(byte: u8) -> Option<MessageIsFinalType> {
    if byte == 0x43 {
        Some(MessageIsFinalType::Intermediate)
    } else if byte == 0x46 {
        Some(MessageIsFinalType::Final)
    } else if byte == 0x41 {
        Some(MessageIsFinalType::FinalError)
    } else {
        None
    }
}

/// Whether the chunk starts with `MSG` or `CLO`. The headers of such a chunk have a fixed
/// layout: 12 bytes of message header, 4 of security header, 8 of sequence header.
pub open spec fn has_fixed_headers(data: Seq<u8>) -> bool {
    data.len() >= 3 && (data.take(3) == seq![0x4Du8, 0x53, 0x47] || data.take(3) == seq![
        0x43u8,
        0x4C,
        0x4F,
    ])
}

/// Whether the headers of a chunk with fixed layout are complete and valid.
pub open spec fn is_readable(data: Seq<u8>) -> bool {
    has_fixed_headers(data) && data.len() >= 24 && final_flag(data[3]) is Some
}

/// The sequence number of a chunk with fixed layout.
pub open spec fn sequence_number_of(data: Seq<u8>) -> int {
    le_u32(data, 16)
}

/// The request id of a chunk with fixed layout.
pub open spec fn request_id_of(data: Seq<u8>) -> int {
    le_u32(data, 20)
}

/// The sequence numbers of the chunks, all with fixed layout, follow each other from
/// `current` on, and the chunks answer the same request.
pub open spec fn belong_together(is_legacy: bool, current: int, chunks: Seq<Seq<u8>>) -> bool {
    &&& may_follow(is_legacy, current, sequence_number_of(chunks[0]))
    &&& forall|i: int|
        1 <= i < chunks.len() ==> may_follow(
            is_legacy,
            next_sequence_number(is_legacy, sequence_number_of(chunks[i - 1])),
            sequence_number_of(#[trigger] chunks[i]),
        )
    &&& forall|i: int|
        0 <= i < chunks.len() ==> request_id_of(#[trigger] chunks[i]) == request_id_of(chunks[0])
}

/// The chunk `data` has the size that its message header gives, and `out` is no longer and has
/// the same kind, final flag and channel id in its header.
pub open spec fn keeps_header(data: Seq<u8>, out: Seq<u8>) -> bool {
    &&& data.len() >= 12
    &&& le_u32(data, 4) == data.len()
    &&& out.len() <= data.len()
    &&& forall|i: int|
        0 <= i < out.len() && (i < 4 || 8 <= i < 12) ==> #[trigger] out[i] == data[i]
}

/// The headers of the chunk `data` say `info`.
pub open spec fn says(data: Seq<u8>, info: ChunkInfo) -> bool {
    &&& data.len() >= 24
    &&& final_flag(data[3]) == Some(info.is_final)
    &&& has_fixed_headers(data) ==> info.sequence_number == sequence_number_of(data)
        && info.request_id == request_id_of(data)
}

/// All chunks have complete and valid headers with fixed layout.
pub open spec fn all_readable(chunks: Seq<Seq<u8>>) -> bool {
    forall|i: int| 0 <= i < chunks.len() ==> is_readable(#[trigger] chunks[i])
}

/// The last chunk is marked as final and all others as intermediate.
pub open spec fn well_framed(chunks: Seq<Seq<u8>>) -> bool {
    forall|i: int|
        0 <= i < chunks.len() ==> (#[trigger] chunks[i]).len() >= 24 && final_flag(chunks[i][3])
            == Some(
            if i == chunks.len() - 1 {
                MessageIsFinalType::Final
            } else {
                MessageIsFinalType::Intermediate
            },
        )
}

/// What the outcome of validating chunks says of them, where all are readable.
pub open spec fn validation_fits(
    numbers: SequenceNumbers,
    chunks: Seq<Seq<u8>>,
    res: Result<u32, StatusCode>,
) -> bool {
    let together = belong_together(numbers.is_legacy, numbers.current as int, chunks);
    match res {
        Ok(next) => together && next == next_sequence_number(
            numbers.is_legacy,
            sequence_number_of(chunks.last()),
        ),
        Err(status) => status == StatusCode(BAD_SECURE_CHANNEL_ID_INVALID) || (status
            == StatusCode(BAD_SEQUENCE_NUMBER_INVALID) && !together),
    }
}

/// The content of a buffer, or the failure to fill it.
pub open spec fn bytes_of(res: Result<Vec<u8>, StatusCode>) -> Result<Seq<u8>, StatusCode> {
    match res {
        Ok(bytes) => Ok(bytes@),
        Err(status) => Err(status),
    }
}

/// The bytes of a hello message: header, protocol version 0, the four limits and the URL.
pub open spec fn hello_encoding(
    endpoint_url: Seq<u8>,
    send_buffer_size: int,
    receive_buffer_size: int,
    max_message_size: int,
    max_chunk_count: int,
) -> Seq<u8> {
    seq![0x48u8, 0x45, 0x4C, 0x46] + le_bytes((32 + endpoint_url.len()) as int) + le_bytes(0) + le_bytes(
        receive_buffer_size,
    ) + le_bytes(send_buffer_size) + le_bytes(max_message_size) + le_bytes(max_chunk_count)
        + le_bytes(endpoint_url.len() as int) + endpoint_url
}

/// Calls `SecureChannel::verify_and_remove_security`, which verifies and decrypts a chunk as
/// the security policy and mode of the channel ask.
///
/// The contract relates the result to the channel and the chunk. It claims that bytes without
/// a whole message header are no chunk, that the size in the header must be the size of the
/// chunk, and that a chunk that passes keeps the kind, the final flag and the channel id of its
/// header, and does not grow. Whether a chunk passes, and with what body, rests on the keys and
/// certificates inside the channel and is left unsaid. The call panics where the channel lacks
/// what it takes to try: see [`may_remove_security`].
#[verifier::external_body]
pub(crate) fn verify_and_remove_security(channel: &SecureChannel, data: Vec<u8>) -> (res: Result<
    Vec<u8>,
    StatusCode,
>)
    requires
        may_remove_security(*channel, data@),
    ensures
        security_removed(*channel, data@, bytes_of(res)),
        res matches Ok(out) ==> keeps_header(data@, out@),
        res matches Err(status) ==> data@.len() >= 12 || status == StatusCode(BAD_DECODING_ERROR),
{
    match channel.verify_and_remove_security(data) {
        Ok(chunk) => Ok(chunk.data),
        Err(e) => Err(StatusCode(e.status().bits())),
    }
}

/// Calls `MessageChunk::chunk_info`, which decodes the headers of a chunk.
///
/// The contract relates the result to the channel and the chunk. It claims that the data comes
/// back as it was, that the final flag is read from the fourth byte, and that for a chunk with
/// fixed layout the sequence number and request id are read from their places, with a decoding
/// error exactly where the headers are incomplete or invalid. For an `OPN` chunk the place of
/// the sequence header, and whether the asymmetric security header is within the channel's
/// decoding limits, are left unsaid.
#[verifier::external_body]
pub(crate) fn chunk_info(channel: &SecureChannel, data: Vec<u8>) -> (res: (
    Result<ChunkInfo, StatusCode>,
    Vec<u8>,
))
    ensures
        res.1@ == data@,
        headers_read(*channel, data@, res.0),
        res.0 matches Ok(info) ==> says(data@, info),
        has_fixed_headers(data@) ==> match res.0 {
            Ok(_) => is_readable(data@),
            Err(status) => !is_readable(data@) && status == StatusCode(BAD_DECODING_ERROR),
        },
{
    let chunk = message_chunk::MessageChunk { data };
    let info = chunk.chunk_info(channel).map(|info| ChunkInfo {
        is_final: match info.message_header.is_final {
            message_chunk::MessageIsFinalType::Intermediate => MessageIsFinalType::Intermediate,
            message_chunk::MessageIsFinalType::Final => MessageIsFinalType::Final,
            message_chunk::MessageIsFinalType::FinalError => MessageIsFinalType::FinalError,
        },
        sequence_number: info.sequence_header.sequence_number,
        request_id: info.sequence_header.request_id,
    });
    (info.map_err(|e| StatusCode(e.status().bits())), chunk.data)
}

/// Calls `Chunker::validate_chunks`, which checks the channel ids, sequence numbers and
/// request ids of the chunks of a message and returns the sequence number that is due next.
///
/// The contract relates the result to the channel, the numbering and the chunks. It claims that
/// the chunks come back as they were and that the number returned lies within the numbering.
/// For chunks with fixed layout it claims that they are accepted only if they belong together,
/// with the number after the last one as the result, and that the only error for chunks that do
/// is that of a foreign channel id. The id of the channel itself is left unsaid, and so are the
/// numbers in `OPN` chunks.
#[verifier::external_body]
pub(crate) fn validate_chunks(
    numbers: SequenceNumbers,
    channel: &SecureChannel,
    chunks: Vec<MessageChunk>,
) -> (res: (Result<u32, StatusCode>, Vec<MessageChunk>))
    requires
        chunks@.len() > 0,
        numbers.wf(),
    ensures
        chunk_data(res.1@) == chunk_data(chunks@),
        chunks_validated(*channel, numbers, chunk_data(chunks@), res.0),
        res.0 matches Ok(next) ==> (SequenceNumbers { current: next, ..numbers }).wf(),
        all_readable(chunk_data(chunks@)) ==> validation_fits(numbers, chunk_data(chunks@), res.0),
{
    let mut expected = SequenceNumberHandle::new(numbers.is_legacy);
    expected.set(numbers.current);
    let chunks: Vec<message_chunk::MessageChunk> = chunks.into_iter().map(
        |c| message_chunk::MessageChunk { data: c.data },
    ).collect();
    let res = Chunker::validate_chunks(expected, channel, &chunks);
    let chunks = chunks.into_iter().map(|c| MessageChunk { data: c.data }).collect();
    (res.map_err(|e| StatusCode(e.status().bits())), chunks)
}

/// Calls `Chunker::decode`, which decodes a service response from the bodies of its chunks.
///
/// The contract relates the result to the channel and the chunks. It claims that a response
/// only comes from chunks of which the last is marked as final and all others as intermediate,
/// and that the flag beside it is right. What the response holds is left unsaid. The call panics
/// where the client offset of the channel is out of proportion or a type loader panics: see
/// [`may_decode`].
#[verifier::external_body]
pub(crate) fn decode_response(channel: &SecureChannel, chunks: Vec<MessageChunk>) -> (res: Result<
    Response,
    StatusCode,
>)
    requires
        chunks@.len() > 0,
        may_decode(*channel, chunk_data(chunks@)),
    ensures
        message_decoded(*channel, chunk_data(chunks@), res),
        res matches Ok(response) ==> response.opens_secure_channel == opens_channel(
            response.message,
        ),
        res is Ok ==> well_framed(chunk_data(chunks@)),
{
    let chunks: Vec<message_chunk::MessageChunk> = chunks.into_iter().map(
        |c| message_chunk::MessageChunk { data: c.data },
    ).collect();
    let res = Chunker::decode::<ResponseMessage>(&chunks, channel, None);
    res.map(
        |message| Response {
            opens_secure_channel: matches!(message, ResponseMessage::OpenSecureChannel(_)),
            message,
        },
    ).map_err(|e| StatusCode(e.status().bits()))
}

/// Tells the variants of the outside enum `RequestMessage` apart, and reads the fields `timestamp`
/// and `additional_header` of `RequestMessage::request_header`.
///
/// The contract gives the result its name.
#[verifier::external_body]
pub(crate) fn describe(message: &RequestMessage) -> (res: RequestShape)
    ensures
        res == shape_of(*message),
{
    RequestShape {
        kind: match message {
            RequestMessage::OpenSecureChannel(_) => RequestKind::OpenSecureChannel,
            RequestMessage::CloseSecureChannel(_) => RequestKind::CloseSecureChannel,
            RequestMessage::Publish(_) => RequestKind::Publish,
            _ => RequestKind::Other,
        },
        time: message.request_header().timestamp.as_chrono().timestamp(),
        has_additional_header: !message.request_header().additional_header.is_null(),
    }
}

/// Calls `SecurityPolicy::legacy_sequence_numbers` on the security policy of the channel.
///
/// The contract claims that every security policy uses the legacy numbering.
#[verifier::external_body]
pub(crate) fn legacy_sequence_numbers(channel: &SecureChannel) -> (res: bool)
    ensures
        res,
{
    channel.security_policy().legacy_sequence_numbers()
}

/// Calls `HelloMessage::new` and encodes the message with
/// `SimpleBinaryEncodable::encode_to_vec`.
///
/// The contract claims the bytes: a header with the size of the message, the protocol version
/// 0, the four limits, each cut to 32 bits, and the URL with its length before it.
#[verifier::external_body]
pub(crate) fn encode_hello(
    endpoint_url: &str,
    send_buffer_size: usize,
    receive_buffer_size: usize,
    max_message_size: usize,
    max_chunk_count: usize,
) -> (res: Vec<u8>)
    ensures
        res@ == hello_encoding(
            encode_utf8(endpoint_url@),
            send_buffer_size as int,
            receive_buffer_size as int,
            max_message_size as int,
            max_chunk_count as int,
        ),
{
    HelloMessage::new(
        endpoint_url,
        send_buffer_size,
        receive_buffer_size,
        max_message_size,
        max_chunk_count,
    ).encode_to_vec()
}

/// Four bytes that are written for a number hold the number, cut to 32 bits, and read back as
/// that.
pub proof fn law_bytes_of_a_number_read_back(n: int)
    requires
        0 <= n,
    ensures
        le_bytes(n).len() == 4,
        le_u32(le_bytes(n), 0) == n % 0x1_0000_0000,
{
    let q1 = n / 0x100;
    let q2 = q1 / 0x100;
    let q3 = q2 / 0x100;
    let q4 = q3 / 0x100;
    assert(n / 0x1_0000 == q2);
    assert(n / 0x100_0000 == q3);
    let low = n % 0x100 + 0x100 * (q1 % 0x100) + 0x1_0000 * (q2 % 0x100) + 0x100_0000 * (q3
        % 0x100);
    assert(n == q4 * 0x1_0000_0000 + low);
    assert(n % 0x1_0000_0000 == low);
    let bytes = le_bytes(n);
    assert(bytes[0] == n % 0x100);
    assert(bytes[1] == q1 % 0x100);
    assert(bytes[2] == q2 % 0x100);
    assert(bytes[3] == q3 % 0x100);
}

/// A hello holds, each in its place, its own size, the protocol version 0, the limits that the
/// client asks for and the endpoint URL, and nothing else.
pub proof fn law_hello_holds_what_it_says(
    url: Seq<u8>,
    send_buffer_size: int,
    receive_buffer_size: int,
    max_message_size: int,
    max_chunk_count: int,
)
    requires
        0 <= send_buffer_size,
        0 <= receive_buffer_size,
        0 <= max_message_size,
        0 <= max_chunk_count,
    ensures
        ({
            let hello = hello_encoding(
                url,
                send_buffer_size,
                receive_buffer_size,
                max_message_size,
                max_chunk_count,
            );
            &&& hello.len() == 32 + url.len()
            &&& hello.take(4) == seq![0x48u8, 0x45, 0x4C, 0x46]
            &&& le_u32(hello, 4) == hello.len() % 0x1_0000_0000
            &&& le_u32(hello, 8) == 0
            &&& le_u32(hello, 12) == receive_buffer_size % 0x1_0000_0000
            &&& le_u32(hello, 16) == send_buffer_size % 0x1_0000_0000
            &&& le_u32(hello, 20) == max_message_size % 0x1_0000_0000
            &&& le_u32(hello, 24) == max_chunk_count % 0x1_0000_0000
            &&& le_u32(hello, 28) == url.len() % 0x1_0000_0000
            &&& hello.skip(32) == url
        }),
{
    let hello = hello_encoding(
        url,
        send_buffer_size,
        receive_buffer_size,
        max_message_size,
        max_chunk_count,
    );
    law_bytes_of_a_number_read_back((32 + url.len()) as int);
    law_bytes_of_a_number_read_back(0);
    law_bytes_of_a_number_read_back(receive_buffer_size);
    law_bytes_of_a_number_read_back(send_buffer_size);
    law_bytes_of_a_number_read_back(max_message_size);
    law_bytes_of_a_number_read_back(max_chunk_count);
    law_bytes_of_a_number_read_back(url.len() as int);
    assert(hello.take(4) =~= seq![0x48u8, 0x45, 0x4C, 0x46]);
    assert(hello.skip(32) =~= url);
}

/// The final flag of a chunk is a letter: `C` for a chunk that is followed by others, `F` for the
/// last one and `A` for one that ends a message that was given up. There is no other.
pub proof fn law_final_flag_is_a_letter(byte: u8)
    ensures
        final_flag(byte) == Some(MessageIsFinalType::Intermediate) <==> byte == 0x43,
        final_flag(byte) == Some(MessageIsFinalType::Final) <==> byte == 0x46,
        final_flag(byte) == Some(MessageIsFinalType::FinalError) <==> byte == 0x41,
{
}

/// Wrapping a request keeps it as it is, and notes exactly of a request to close the channel that
/// it is one.
pub proof fn law_request_is_wrapped_as_it_is(message: RequestMessage, res: Request)
    requires
        call_ensures(Request::new, (message,), res),
    ensures
        res.message == message,
        res.closes_secure_channel <==> shape_of(message).kind == RequestKind::CloseSecureChannel,
{
}

} // verus!
