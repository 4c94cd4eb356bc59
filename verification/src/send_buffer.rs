//! The buffer of outgoing messages, `opcua_core::comms::buffer::SendBuffer`.
//!
//! A message is split into chunks, which wait in a queue. One chunk at a time is encoded into
//! the output, and is pending until all its bytes have been written to the connection.

use opcua_core::comms::buffer::SendBuffer;
use opcua_core::comms::secure_channel::SecureChannel;
use opcua_core::RequestMessage;
use vstd::prelude::*;

use crate::channel::{
    is_opn, keyed, mode_of, policy_of, secured, signature_size, split_is_certain, SecurityMode,
    SecurityPolicy,
};
use crate::sequence::{advanced, min_sequence_number, SequenceNumbers};
use crate::stack::{asks_to_open, shape_of};
use crate::status::{Error, StatusCode};

verus! {

/// Declares `opcua_core::comms::buffer::SendBuffer`.
#[verifier::external_type_specification]
#[verifier::external_body]
pub struct ExSendBuffer(SendBuffer);

/// The limits on what is sent.
#[derive(Clone, Copy, Debug, PartialEq, Eq, Structural)]
pub struct SendLimits {
    /// The largest chunk.
    pub send_buffer_size: usize,
    /// The largest message, or 0 for no limit.
    pub max_message_size: usize,
    /// The most chunks of a message, or 0 for no limit.
    pub max_chunk_count: usize,
}

/// The chunks that wait in a send buffer to be encoded, first to leave first.
pub uninterp spec fn send_queue(buffer: SendBuffer) -> Seq<Seq<u8>>;

/// Whether encoded bytes wait in a send buffer to be written.
pub uninterp spec fn send_pending(buffer: SendBuffer) -> bool;

/// The encoded bytes that wait in a send buffer, where there are any.
pub uninterp spec fn send_output(buffer: SendBuffer) -> Seq<u8>;

/// The limits of a send buffer.
pub uninterp spec fn send_limits(buffer: SendBuffer) -> SendLimits;

/// The most bytes that the output of a send buffer can hold.
pub uninterp spec fn send_capacity(buffer: SendBuffer) -> usize;

/// The numbering of the chunks of a send buffer, and the number of the next one.
pub uninterp spec fn send_numbers(buffer: SendBuffer) -> SequenceNumbers;

/// The last request id that a send buffer handed out.
pub uninterp spec fn last_request_id(buffer: SendBuffer) -> u32;

/// Whether `SendBuffer::encode_next_chunk` may turn the first chunk of the queue into these
/// bytes, or fail with this status. Some security policies encrypt with random padding. Where
/// the call panics, it does neither.
pub uninterp spec fn chunk_encoded(
    buffer: SendBuffer,
    channel: SecureChannel,
    res: Result<Seq<u8>, StatusCode>,
) -> bool;

/// Whether `SendBuffer::write` may split a message into these chunks, or fail with this error,
/// where the chunks are held to `limits` and numbered by `numbers`. Where the call panics, it does
/// neither.
pub uninterp spec fn message_split(
    limits: SendLimits,
    numbers: SequenceNumbers,
    channel: SecureChannel,
    request_id: u32,
    message: RequestMessage,
    res: Result<Seq<Seq<u8>>, Error>,
) -> bool;

/// The smaller of two limits, where the second may be 0 for none.
pub open spec fn tighter(limit: usize, revised: usize) -> usize {
    if limit > revised && revised > 0 {
        revised
    } else {
        limit
    }
}

/// The limits after the other side has named its own.
pub open spec fn revised(limits: SendLimits, other: SendLimits) -> SendLimits {
    SendLimits {
        send_buffer_size: if limits.send_buffer_size > other.send_buffer_size {
            other.send_buffer_size
        } else {
            limits.send_buffer_size
        },
        max_message_size: tighter(limits.max_message_size, other.max_message_size),
        max_chunk_count: tighter(limits.max_chunk_count, other.max_chunk_count),
    }
}

/// The two send buffers have the same limits, capacity and numbering and have handed out the
/// same request ids.
pub open spec fn same_settings(a: SendBuffer, b: SendBuffer) -> bool {
    &&& send_limits(a) == send_limits(b)
    &&& send_capacity(a) == send_capacity(b)
    &&& send_numbers(a).is_legacy == send_numbers(b).is_legacy
    &&& last_request_id(a) == last_request_id(b)
}

/// Whether what is known of a channel is enough to encode the first chunk of the queue: messages
/// are not signed, or it is a chunk of a message, the channel has keys under a known policy, and
/// the output has room for a signature. In other modes than `Sign` the room is found out while
/// the chunk is encoded.
pub open spec fn encoding_is_certain(buffer: SendBuffer, channel: SecureChannel) -> bool {
    let chunk = send_queue(buffer)[0];
    secured(channel) ==> {
        &&& !is_opn(chunk)
        &&& policy_of(channel) != SecurityPolicy::Unknown
        &&& keyed(channel)
        &&& mode_of(channel) == SecurityMode::Sign ==> chunk.len() + signature_size(channel)
            <= send_capacity(buffer)
    }
}

/// Whether the first chunk of the queue can be encoded, or found not to be encodable. Where that
/// takes the private key and certificates of the channel, only the stack can tell.
pub open spec fn may_encode(buffer: SendBuffer, channel: SecureChannel) -> bool {
    encoding_is_certain(buffer, channel) || exists|res: Result<Seq<u8>, StatusCode>| #[trigger]
        chunk_encoded(buffer, channel, res)
}

/// Whether a message can be split into chunks, or found not to be splittable. Where that takes
/// the certificates of the channel or rests on what is in the message, only the stack can tell.
pub open spec fn may_split(
    limits: SendLimits,
    numbers: SequenceNumbers,
    channel: SecureChannel,
    request_id: u32,
    message: RequestMessage,
) -> bool {
    split_is_certain(channel, shape_of(message)) || exists|res: Result<Seq<Seq<u8>>, Error>|
        #[trigger] message_split(limits, numbers, channel, request_id, message, res)
}

/// Calls `SendBuffer::new`.
///
/// The contract claims an empty buffer with the given limits and numbering, whose request ids
/// start after 1000 and whose output is 1024 bytes larger than the largest chunk. The call
/// allocates room for the output and for the queue and panics where their size in bytes exceeds
/// what an allocation can have.
#[verifier::external_body]
pub(crate) fn new_send_buffer(limits: SendLimits, is_legacy: bool) -> (res: SendBuffer)
    requires
        limits.send_buffer_size + 1024 <= isize::MAX,
        limits.max_chunk_count * 128 <= isize::MAX,
    ensures
        send_queue(res) == Seq::<Seq<u8>>::empty(),
        !send_pending(res),
        send_limits(res) == limits,
        send_capacity(res) == limits.send_buffer_size + 1024,
        send_numbers(res).is_legacy == is_legacy,
        send_numbers(res).current == min_sequence_number(is_legacy),
        last_request_id(res) == 1000,
{
    SendBuffer::new(
        limits.send_buffer_size,
        limits.max_message_size,
        limits.max_chunk_count,
        is_legacy,
    )
}

/// Calls `SendBuffer::revise`.
///
/// The contract claims that each limit becomes the tighter of the two, where a revised size or
/// count of messages may be 0 for none, and that nothing else changes.
#[verifier::external_body]
pub(crate) fn revise(buffer: &mut SendBuffer, other: SendLimits)
    ensures
        send_queue(*final(buffer)) == send_queue(*old(buffer)),
        send_pending(*final(buffer)) == send_pending(*old(buffer)),
        send_output(*final(buffer)) == send_output(*old(buffer)),
        send_limits(*final(buffer)) == revised(send_limits(*old(buffer)), other),
        send_capacity(*final(buffer)) == send_capacity(*old(buffer)),
        send_numbers(*final(buffer)) == send_numbers(*old(buffer)),
        last_request_id(*final(buffer)) == last_request_id(*old(buffer)),
{
    buffer.revise(other.send_buffer_size, other.max_message_size, other.max_chunk_count);
}

/// Calls `SendBuffer::next_request_id`.
///
/// The contract claims that request ids count up. The counter has 32 bits and must not be
/// exhausted.
#[verifier::external_body]
pub(crate) fn next_request_id(buffer: &mut SendBuffer) -> (res: u32)
    requires
        last_request_id(*old(buffer)) < u32::MAX,
    ensures
        res == last_request_id(*old(buffer)) + 1,
        last_request_id(*final(buffer)) == res,
        send_limits(*final(buffer)) == send_limits(*old(buffer)),
        send_capacity(*final(buffer)) == send_capacity(*old(buffer)),
        send_numbers(*final(buffer)) == send_numbers(*old(buffer)),
        send_queue(*final(buffer)) == send_queue(*old(buffer)),
        send_pending(*final(buffer)) == send_pending(*old(buffer)),
        send_output(*final(buffer)) == send_output(*old(buffer)),
{
    buffer.next_request_id()
}

/// Calls `SendBuffer::should_encode_chunks`.
///
/// The contract claims that it holds if chunks wait and nothing is pending.
#[verifier::external_body]
pub(crate) fn should_encode_chunks(buffer: &SendBuffer) -> (res: bool)
    ensures
        res == (send_queue(*buffer).len() > 0 && !send_pending(*buffer)),
{
    buffer.should_encode_chunks()
}

/// Calls `SendBuffer::can_read`.
///
/// The contract claims that it holds if bytes are pending.
#[verifier::external_body]
pub(crate) fn can_read(buffer: &SendBuffer) -> (res: bool)
    ensures
        res == send_pending(*buffer),
{
    buffer.can_read()
}

/// Calls `SendBuffer::encode_next_chunk`, which applies the security of the channel to the
/// first chunk of the queue and puts it in the output.
///
/// The contract relates the output, or the status of a failure, to the buffer and the channel.
/// It claims that the chunk leaves the queue, and that the output is pending if that succeeds.
/// Whether it succeeds rests on the keys inside the channel and is left unsaid. On a secured
/// channel the call panics if it lacks what it takes to sign and encrypt: see [`may_encode`].
#[verifier::external_body]
pub(crate) fn encode_next_chunk(buffer: &mut SendBuffer, channel: &SecureChannel) -> (res: Result<
    (),
    StatusCode,
>)
    requires
        send_queue(*old(buffer)).len() > 0,
        !send_pending(*old(buffer)),
        may_encode(*old(buffer), *channel),
    ensures
        send_queue(*final(buffer)) == send_queue(*old(buffer)).drop_first(),
        match res {
            Ok(_) => send_pending(*final(buffer)) && chunk_encoded(
                *old(buffer),
                *channel,
                Ok(send_output(*final(buffer))),
            ),
            Err(status) => chunk_encoded(*old(buffer), *channel, Err(status)),
        },
        same_settings(*final(buffer), *old(buffer)),
        send_numbers(*final(buffer)) == send_numbers(*old(buffer)),
{
    buffer.encode_next_chunk(channel).map_err(|status| StatusCode(status.bits()))
}

/// Calls `SendBuffer::write`, which splits a message into chunks and queues them.
///
/// The contract relates the chunks, or the error, to the buffer, the request and the channel. It
/// claims that on success one or more chunks, no more and none larger than the limits allow,
/// come last in the queue, `OPN` chunks if the request is to open the channel, and that the
/// number of the next chunk moves on by their count. On failure the queue and that number stay
/// as they were, and the error carries the request id and the request handle. Nothing else
/// changes. The count has 32 bits, which is more than the chunks of a message in memory. What
/// the chunks hold and whether there is an error rest on the message and on the channel, which
/// are opaque, and are left unsaid. The call panics if the security policy of the channel is
/// unknown, if an `OPN` request lacks a certificate of the channel that leaves room in a chunk,
/// or if a time in the message is too far away to be encoded: see [`may_split`].
#[verifier::external_body]
pub(crate) fn write_message(
    buffer: &mut SendBuffer,
    request_id: u32,
    message: RequestMessage,
    channel: &SecureChannel,
) -> (res: Result<u32, Error>)
    requires
        may_split(
            send_limits(*old(buffer)),
            send_numbers(*old(buffer)),
            *channel,
            request_id,
            message,
        ),
        send_numbers(*old(buffer)).wf(),
    ensures
        match res {
            Ok(id) => id == request_id && queued_more(
                *old(buffer),
                *channel,
                request_id,
                message,
                *final(buffer),
            ),
            Err(e) => send_queue(*final(buffer)) == send_queue(*old(buffer)) && send_numbers(
                *final(buffer),
            ) == send_numbers(*old(buffer)) && e.request_id == Some(request_id)
                && e.request_handle is Some && message_split(
                send_limits(*old(buffer)),
                send_numbers(*old(buffer)),
                *channel,
                request_id,
                message,
                Err(e),
            ),
        },
        send_numbers(*final(buffer)).wf(),
        send_pending(*final(buffer)) == send_pending(*old(buffer)),
        send_output(*final(buffer)) == send_output(*old(buffer)),
        same_settings(*final(buffer), *old(buffer)),
{
    buffer.write(request_id, message, channel).map_err(
        |e| Error {
            status: StatusCode(e.status().bits()),
            request_id: e.full_context().map(|context| context.0),
            request_handle: e.full_context().map(|context| context.1),
        },
    )
}

/// The queue grew at its end by the chunks of a message, and the number of the next chunk moved
/// on by their count.
pub open spec fn queued_more(
    before: SendBuffer,
    channel: SecureChannel,
    request_id: u32,
    message: RequestMessage,
    after: SendBuffer,
) -> bool {
    exists|chunks: Seq<Seq<u8>>|
        {
            &&& #[trigger] message_split(
                send_limits(before),
                send_numbers(before),
                channel,
                request_id,
                message,
                Ok(chunks),
            )
            &&& send_queue(after) == send_queue(before) + chunks
            &&& send_numbers(after).current == advanced(
                send_numbers(before).is_legacy,
                send_numbers(before).current as int,
                chunks.len() as int,
            )
            &&& chunks.len() > 0
            &&& forall|i: int|
                0 <= i < chunks.len() ==> is_opn(#[trigger] chunks[i]) == asks_to_open(message)
            &&& send_limits(before).send_buffer_size > 0 ==> forall|i: int|
                0 <= i < chunks.len() ==> (#[trigger] chunks[i]).len() <= send_limits(
                    before,
                ).send_buffer_size
            &&& send_limits(before).max_chunk_count > 0 ==> chunks.len() <= send_limits(
                before,
            ).max_chunk_count
        }
}

/// Each limit becomes the tighter of the two. A largest message or a number of chunks of 0 is no
/// limit of the other side, and then the own one stays.
pub proof fn law_tighter_limits_hold(own: SendLimits, other: SendLimits)
    ensures
        ({
            let limits = revised(own, other);
            &&& limits.send_buffer_size <= own.send_buffer_size
            &&& limits.send_buffer_size <= other.send_buffer_size
            &&& limits.send_buffer_size == own.send_buffer_size || limits.send_buffer_size
                == other.send_buffer_size
            &&& other.max_message_size == 0 || own.max_message_size <= other.max_message_size
                ==> limits.max_message_size == own.max_message_size
            &&& 0 < other.max_message_size < own.max_message_size ==> limits.max_message_size
                == other.max_message_size
            &&& other.max_chunk_count == 0 || own.max_chunk_count <= other.max_chunk_count
                ==> limits.max_chunk_count == own.max_chunk_count
            &&& 0 < other.max_chunk_count < own.max_chunk_count ==> limits.max_chunk_count
                == other.max_chunk_count
        }),
{
}

/// A message that is queued comes behind everything that waits, in one or more chunks, which are
/// those that the stack splits it into. They are no more and none larger than allowed, and the
/// number of the next chunk is as many numbers further on.
pub proof fn law_queued_message_comes_last(
    before: SendBuffer,
    channel: SecureChannel,
    request_id: u32,
    message: RequestMessage,
    after: SendBuffer,
) -> (chunks: Seq<Seq<u8>>)
    requires
        queued_more(before, channel, request_id, message, after),
        send_numbers(before).is_legacy,
    ensures
        message_split(
            send_limits(before),
            send_numbers(before),
            channel,
            request_id,
            message,
            Ok(chunks),
        ),
        chunks.len() > 0,
        send_queue(after) == send_queue(before) + chunks,
        send_limits(before).max_chunk_count > 0 ==> chunks.len() <= send_limits(
            before,
        ).max_chunk_count,
        send_limits(before).send_buffer_size > 0 ==> forall|i: int|
            0 <= i < chunks.len() ==> (#[trigger] chunks[i]).len() <= send_limits(
                before,
            ).send_buffer_size,
        send_numbers(before).current + chunks.len() <= 0xFFFF_FBFF ==> send_numbers(after).current
            == send_numbers(before).current + chunks.len(),
        send_numbers(before).current + chunks.len() > 0xFFFF_FBFF ==> send_numbers(after).current
            == send_numbers(before).current + chunks.len() - 0xFFFF_FBFF,
{
    choose|chunks: Seq<Seq<u8>>|
        {
            &&& #[trigger] message_split(
                send_limits(before),
                send_numbers(before),
                channel,
                request_id,
                message,
                Ok(chunks),
            )
            &&& send_queue(after) == send_queue(before) + chunks
            &&& send_numbers(after).current == advanced(
                send_numbers(before).is_legacy,
                send_numbers(before).current as int,
                chunks.len() as int,
            )
            &&& chunks.len() > 0
            &&& forall|i: int|
                0 <= i < chunks.len() ==> is_opn(#[trigger] chunks[i]) == asks_to_open(message)
            &&& send_limits(before).send_buffer_size > 0 ==> forall|i: int|
                0 <= i < chunks.len() ==> (#[trigger] chunks[i]).len() <= send_limits(
                    before,
                ).send_buffer_size
            &&& send_limits(before).max_chunk_count > 0 ==> chunks.len() <= send_limits(
                before,
            ).max_chunk_count
        }
}

/// On a channel without security any chunk can be encoded. On a secured channel with keys under a
/// known policy any chunk of a message can, if there is room for a signature.
pub proof fn law_chunks_can_be_encoded(buffer: SendBuffer, channel: SecureChannel)
    ensures
        policy_of(channel) == SecurityPolicy::Unsecured ==> may_encode(buffer, channel),
        keyed(channel) && policy_of(channel) != SecurityPolicy::Unknown && !is_opn(
            send_queue(buffer)[0],
        ) && send_queue(buffer)[0].len() + signature_size(channel) <= send_capacity(buffer)
            ==> may_encode(buffer, channel),
{
}

} // verus!
