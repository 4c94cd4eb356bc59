//! The state of the requests that wait for a response.

use std::collections::HashMap;

use opcua_core::comms::secure_channel::SecureChannel;
use opcua_core::ResponseMessage;
use vstd::prelude::*;

use crate::channel::{
    check_removal, may_decode, may_remove_security, policy_of, removal_is_certain, SecurityPolicy,
};
use crate::merge::{
    consistent, law_arrival_order_is_irrelevant, law_contiguous_chunks_are_kept, merge_any_chunks,
    merged,
};
use crate::message::{
    chunk_data, received, ChunkInfo, Message, MessageChunk, MessageChunkWithChunkInfo,
    MessageIsFinalType, ReceivedChunk,
};
use crate::sequence::SequenceNumbers;
use crate::stack::{
    all_readable, bytes_of, chunk_info, chunks_validated, decode_response, final_flag,
    has_fixed_headers, headers_read, is_readable, keeps_header, message_decoded, opens_channel,
    says, security_removed, validate_chunks, validation_fits, verify_and_remove_security,
    well_framed, Request, Response,
};
use crate::status::{
    StatusCode, BAD_COMMUNICATION_ERROR, BAD_CONNECTION_CLOSED, BAD_DECODING_ERROR,
    BAD_ENCODING_LIMITS_EXCEEDED, BAD_TIMEOUT, BAD_UNEXPECTED_ERROR,
};

verus! {

broadcast use vstd::std_specs::hash::group_hash_axioms;

/// A point in time, in nanoseconds on a clock that never goes back.
pub type Instant = u64;

/// The answer to a request, on its way to whoever waits for it at `callback`.
#[derive(Debug)]
pub struct Reply<C> {
    /// Where the answer is awaited.
    pub callback: C,
    /// The response, or why there is none.
    pub result: Result<ResponseMessage, StatusCode>,
}

/// A request that is to be sent.
#[derive(Debug)]
pub struct OutgoingMessage<C> {
    /// The request itself.
    pub request: Request,
    /// Where the answer is awaited, if anyone waits for it.
    pub callback: Option<C>,
    /// When to give up on an answer.
    pub deadline: Instant,
}

/// A request that waits for its response.
pub struct MessageState<C> {
    callback: C,
    chunks: Vec<MessageChunkWithChunkInfo>,
    deadline: Instant,
}

/// The mathematical content of a [`MessageState`].
pub struct Pending<C> {
    pub callback: C,
    pub chunks: Seq<ReceivedChunk>,
    pub deadline: Instant,
}

impl<C> View for MessageState<C> {
    type V = Pending<C>;

    closed spec fn view(&self) -> Pending<C> {
        Pending {
            callback: self.callback,
            chunks: received(self.chunks@),
            deadline: self.deadline,
        }
    }
}

/// The requests that wait for a response, and what is needed to make sense of the chunks that
/// arrive for them.
pub struct TransportState<C> {
    /// State of pending requests, by request id.
    message_states: HashMap<u32, MessageState<C>>,
    /// The most intermediate chunks of a response, or 0 for no limit.
    max_chunk_count: usize,
    /// The sequence number that is due next.
    sequence_numbers: SequenceNumbers,
    /// Max size of incoming chunks.
    receive_buffer_size: usize,
}

/// The mathematical content of a [`TransportState`].
pub struct TransportView<C> {
    pub pending: Map<u32, Pending<C>>,
    pub max_chunk_count: usize,
    pub sequence_numbers: SequenceNumbers,
    pub receive_buffer_size: usize,
}

/// The chunks received so far for the request `id` were meant for it and were followed by more,
/// and they are no more than allowed.
pub open spec fn well_kept<C>(id: u32, p: Pending<C>, max_chunk_count: usize) -> bool {
    &&& max_chunk_count > 0 ==> p.chunks.len() <= max_chunk_count
    &&& forall|i: int|
        0 <= i < p.chunks.len() ==> (#[trigger] p.chunks[i]).header.request_id == id
            && p.chunks[i].header.is_final == MessageIsFinalType::Intermediate
}

impl<C> TransportView<C> {
    /// No pending request has more chunks than allowed, all its chunks were meant for it and
    /// were followed by more, and the sequence number that is due exists.
    pub open spec fn wf(self) -> bool {
        &&& self.pending.dom().finite()
        &&& self.sequence_numbers.wf()
        &&& forall|id: u32| #[trigger]
            self.pending.contains_key(id) ==> well_kept(id, self.pending[id], self.max_chunk_count)
    }

    /// The same state with another sequence number due.
    pub open spec fn with_next(self, next: u32) -> TransportView<C> {
        TransportView {
            sequence_numbers: SequenceNumbers { current: next, ..self.sequence_numbers },
            ..self
        }
    }

    /// The same state with other pending requests.
    pub open spec fn with_pending(self, pending: Map<u32, Pending<C>>) -> TransportView<C> {
        TransportView { pending, ..self }
    }
}

impl<C> View for TransportState<C> {
    type V = TransportView<C>;

    closed spec fn view(&self) -> TransportView<C> {
        TransportView {
            pending: self.message_states@.map_values(|s: MessageState<C>| s@),
            max_chunk_count: self.max_chunk_count,
            sequence_numbers: self.sequence_numbers,
            receive_buffer_size: self.receive_buffer_size,
        }
    }
}

/// What a chunk does to the pending requests.
pub enum ChunkEffect<C> {
    /// No request waits for it.
    Ignored,
    /// It is kept until the message is complete.
    Stored,
    /// It ends the request without a response.
    Rejected { callback: C, status: StatusCode },
    /// It completes the message, whose chunks are given in order.
    Complete { callback: C, chunks: Seq<Seq<u8>> },
}

/// The pending requests after a chunk, and what it does to them.
pub open spec fn chunk_effect<C>(before: TransportView<C>, info: ChunkInfo, data: Seq<u8>) -> (
    TransportView<C>,
    ChunkEffect<C>,
) {
    let id = info.request_id;
    if !before.pending.contains_key(id) {
        (before, ChunkEffect::Ignored)
    } else {
        let p = before.pending[id];
        let chunks = p.chunks.push(ReceivedChunk { header: info, data });
        let gone = before.with_pending(before.pending.remove(id));
        match info.is_final {
            MessageIsFinalType::Intermediate => if before.max_chunk_count > 0 && chunks.len()
                > before.max_chunk_count {
                (
                    gone,
                    ChunkEffect::Rejected {
                        callback: p.callback,
                        status: StatusCode(BAD_ENCODING_LIMITS_EXCEEDED),
                    },
                )
            } else {
                (
                    before.with_pending(before.pending.insert(id, Pending { chunks, ..p })),
                    ChunkEffect::Stored,
                )
            },
            MessageIsFinalType::FinalError => (
                gone,
                ChunkEffect::Rejected {
                    callback: p.callback,
                    status: StatusCode(BAD_COMMUNICATION_ERROR),
                },
            ),
            MessageIsFinalType::Final => (
                gone,
                ChunkEffect::Complete { callback: p.callback, chunks: merged(chunks) },
            ),
        }
    }
}

/// What became of a chunk whose headers have been read.
pub enum ChunkStep<C> {
    /// No request waits for it.
    Ignored,
    /// It is kept until the message is complete.
    Stored,
    /// It ends the request without a response.
    Rejected { callback: C, status: StatusCode },
    /// It completes the message, whose chunks are given in order.
    Complete { callback: C, chunks: Vec<MessageChunk> },
}

impl<C> View for ChunkStep<C> {
    type V = ChunkEffect<C>;

    open spec fn view(&self) -> ChunkEffect<C> {
        match *self {
            ChunkStep::Ignored => ChunkEffect::Ignored,
            ChunkStep::Stored => ChunkEffect::Stored,
            ChunkStep::Rejected { callback, status } => ChunkEffect::Rejected { callback, status },
            ChunkStep::Complete { callback, chunks } => ChunkEffect::Complete {
                callback,
                chunks: chunk_data(chunks@),
            },
        }
    }
}

impl<C> TransportState<C> {
    /// No request is pending yet.
    pub fn new(is_legacy: bool, max_chunk_count: usize, receive_buffer_size: usize) -> (res: Self)
        ensures
            res@.wf(),
            res@.pending == Map::<u32, Pending<C>>::empty(),
            res@.max_chunk_count == max_chunk_count,
            res@.receive_buffer_size == receive_buffer_size,
            res@.sequence_numbers.is_legacy == is_legacy,
            res@.sequence_numbers.current == if is_legacy { 1u32 } else { 0u32 },
    {
        let res = TransportState {
            message_states: HashMap::new(),
            max_chunk_count,
            sequence_numbers: SequenceNumbers::new(is_legacy),
            receive_buffer_size,
        };
        proof {
            assert(res@.pending =~= Map::<u32, Pending<C>>::empty());
        }
        res
    }

    /// Sort a chunk, whose headers have been read, to the request that it answers.
    ///
    /// Chunks without a corresponding request are of no interest. Once a request has been
    /// answered, any further chunks for it are ignored.
    pub fn process_decoded_chunk(&mut self, info: ChunkInfo, data: Vec<u8>) -> (res: ChunkStep<C>)
        requires
            old(self)@.wf(),
        ensures
            final(self)@.wf(),
            (final(self)@, res@) == chunk_effect(old(self)@, info, data@),
            res matches ChunkStep::Complete { chunks, .. } ==> chunks@.len() > 0,
    {
        let req_id: u32 = info.request_id;
        let ghost before = self@;
        let Some(mut message_state) = self.message_states.remove(&req_id) else {
            proof {
                assert(self@.pending =~= before.pending);
            }
            return ChunkStep::Ignored;
        };
        proof {
            assert(self@.pending =~= before.pending.remove(req_id));
        }
        let ghost old_chunks = message_state.chunks@;
        match info.is_final {
            MessageIsFinalType::Intermediate => {
                message_state.chunks.push(
                    MessageChunkWithChunkInfo { header: info, data_with_header: data },
                );
                proof {
                    assert(received(message_state.chunks@) =~= received(old_chunks).push(
                        ReceivedChunk { header: info, data: data@ },
                    ));
                }
                if self.max_chunk_count > 0 && message_state.chunks.len() > self.max_chunk_count {
                    ChunkStep::Rejected {
                        callback: message_state.callback,
                        status: StatusCode(BAD_ENCODING_LIMITS_EXCEEDED),
                    }
                } else {
                    let ghost stored = message_state@;
                    self.message_states.insert(req_id, message_state);
                    proof {
                        assert(self@.pending =~= before.pending.insert(req_id, stored));
                    }
                    ChunkStep::Stored
                }
            },
            MessageIsFinalType::FinalError => {
                ChunkStep::Rejected {
                    callback: message_state.callback,
                    status: StatusCode(BAD_COMMUNICATION_ERROR),
                }
            },
            MessageIsFinalType::Final => {
                message_state.chunks.push(
                    MessageChunkWithChunkInfo { header: info, data_with_header: data },
                );
                proof {
                    assert(received(message_state.chunks@) =~= received(old_chunks).push(
                        ReceivedChunk { header: info, data: data@ },
                    ));
                }
                let in_chunks = merge_any_chunks(message_state.chunks);
                ChunkStep::Complete { callback: message_state.callback, chunks: in_chunks }
            },
        }
    }
}

/// What became of a message read from the connection.
pub enum IncomingOutcome<C> {
    /// The message has been dealt with. A request may have been answered.
    Done(Option<Reply<C>>),
    /// The message answers a request to open or renew the secure channel. The keys of the
    /// channel have to be updated right now, before anything else is read.
    OpenSecureChannel { callback: C, response: Response },
    /// The connection is to be closed with this status.
    Failed(StatusCode),
}

/// The outcome for a status that a message was dealt with: a good one is no failure.
pub open spec fn outcome_of_status<C>(status: StatusCode) -> IncomingOutcome<C> {
    if status.good() {
        IncomingOutcome::Done(None)
    } else {
        IncomingOutcome::Failed(status)
    }
}

/// The outcome, with a failure under a good status counted as none.
pub open spec fn unless_good<C>(outcome: IncomingOutcome<C>) -> IncomingOutcome<C> {
    match outcome {
        IncomingOutcome::Failed(status) => outcome_of_status(status),
        _ => outcome,
    }
}

/// The outcome for a decoded response, or for the failure to decode one.
pub open spec fn outcome_of_response<C>(
    callback: C,
    decoded: Result<Response, StatusCode>,
) -> IncomingOutcome<C> {
    match decoded {
        Ok(response) => if response.opens_secure_channel {
            IncomingOutcome::OpenSecureChannel { callback, response }
        } else {
            IncomingOutcome::Done(Some(Reply { callback, result: Ok(response.message) }))
        },
        Err(status) => IncomingOutcome::Failed(status),
    }
}

/// The chunks of a message may turn into `res`: they are validated, which moves the sequence
/// number that is due behind the last of them, and then decoded.
pub open spec fn message_received<C>(
    channel: SecureChannel,
    before: TransportView<C>,
    chunks: Seq<Seq<u8>>,
    after: TransportView<C>,
    res: Result<Response, StatusCode>,
) -> bool {
    ||| {
        &&& res matches Err(status)
        &&& after == before
        &&& chunks_validated(channel, before.sequence_numbers, chunks, Err(status))
        &&& all_readable(chunks) ==> validation_fits(before.sequence_numbers, chunks, Err(status))
    }
    ||| {
        let next = after.sequence_numbers.current;
        &&& after == before.with_next(next)
        &&& chunks_validated(channel, before.sequence_numbers, chunks, Ok(next))
        &&& all_readable(chunks) ==> validation_fits(before.sequence_numbers, chunks, Ok(next))
        &&& message_decoded(channel, chunks, res)
        &&& res is Ok ==> well_framed(chunks)
        &&& res matches Ok(response) ==> response.opens_secure_channel == opens_channel(
            response.message,
        )
    }
}

/// What the complete chunks of a message lead to.
pub open spec fn message_led_to<C>(
    channel: SecureChannel,
    before: TransportView<C>,
    callback: C,
    chunks: Seq<Seq<u8>>,
    after: TransportView<C>,
    outcome: IncomingOutcome<C>,
) -> bool {
    exists|decoded: Result<Response, StatusCode>|
        outcome == outcome_of_response(callback, decoded) && #[trigger] message_received(
            channel,
            before,
            chunks,
            after,
            decoded,
        )
}

/// What a chunk whose headers say `info` leads to.
pub open spec fn chunk_led_to<C>(
    channel: SecureChannel,
    before: TransportView<C>,
    info: ChunkInfo,
    data: Seq<u8>,
    after: TransportView<C>,
    outcome: IncomingOutcome<C>,
) -> bool {
    let (mid, effect) = chunk_effect(before, info, data);
    match effect {
        ChunkEffect::Ignored | ChunkEffect::Stored => after == mid && outcome
            == IncomingOutcome::<C>::Done(None),
        ChunkEffect::Rejected { callback, status } => after == mid && outcome
            == IncomingOutcome::Done(Some(Reply { callback, result: Err(status) })),
        ChunkEffect::Complete { callback, chunks } => message_led_to(
            channel,
            mid,
            callback,
            chunks,
            after,
            outcome,
        ),
    }
}

/// What a chunk leads to once its security has been removed: its headers are at fault and no
/// request is affected, or they say something and that decides.
pub open spec fn open_chunk_led_to<C>(
    channel: SecureChannel,
    before: TransportView<C>,
    data: Seq<u8>,
    after: TransportView<C>,
    outcome: IncomingOutcome<C>,
) -> bool {
    ||| {
        &&& outcome matches IncomingOutcome::Failed(status)
        &&& after == before
        &&& headers_read(channel, data, Err(status))
        &&& has_fixed_headers(data) ==> !is_readable(data) && status == StatusCode(
            BAD_DECODING_ERROR,
        )
    }
    ||| exists|info: ChunkInfo|
        {
            &&& #[trigger] headers_read(channel, data, Ok(info))
            &&& says(data, info)
            &&& chunk_led_to(channel, before, info, data, after, outcome)
        }
}

/// What a chunk `raw`, as it was read from the connection, leads to: its security is at fault
/// and no request is affected, or the chunk without its security decides.
pub open spec fn raw_chunk_led_to<C>(
    channel: SecureChannel,
    before: TransportView<C>,
    raw: Seq<u8>,
    after: TransportView<C>,
    outcome: IncomingOutcome<C>,
) -> bool {
    ||| {
        &&& outcome matches IncomingOutcome::Failed(status)
        &&& after == before
        &&& security_removed(channel, raw, Err(status))
        &&& raw.len() < 12 ==> status == StatusCode(BAD_DECODING_ERROR)
    }
    ||| exists|data: Seq<u8>|
        {
            &&& #[trigger] security_removed(channel, raw, Ok(data))
            &&& keeps_header(raw, data)
            &&& open_chunk_led_to(channel, before, data, after, outcome)
        }
}

/// Whether the chunks of a message, once they are validated, can be decoded, or found not to be
/// decodable.
pub open spec fn may_turn_into_message(
    channel: SecureChannel,
    numbers: SequenceNumbers,
    chunks: Seq<Seq<u8>>,
) -> bool {
    (exists|next: u32| #[trigger] chunks_validated(channel, numbers, chunks, Ok(next)))
        ==> may_decode(channel, chunks)
}

/// Whether the stack can deal with a chunk `raw`, as it was read from the connection: it can take
/// its security off, and if the chunk then completes a message, it can decode that. Either may
/// fail, but has an outcome.
pub open spec fn may_process<C>(
    channel: SecureChannel,
    before: TransportView<C>,
    raw: Seq<u8>,
) -> bool {
    &&& may_remove_security(channel, raw)
    &&& forall|data: Seq<u8>, info: ChunkInfo|
        #![trigger security_removed(channel, raw, Ok(data)), headers_read(channel, data, Ok(info))]
        {
            &&& security_removed(channel, raw, Ok(data))
            &&& keeps_header(raw, data)
            &&& headers_read(channel, data, Ok(info))
            &&& says(data, info)
        } ==> match chunk_effect(before, info, data).1 {
            ChunkEffect::Complete { chunks, .. } => may_turn_into_message(
                channel,
                before.sequence_numbers,
                chunks,
            ),
            _ => true,
        }
}

/// Whether a chunk is the last of a message.
pub open spec fn is_last(raw: Seq<u8>) -> bool {
    raw.len() >= 4 && final_flag(raw[3]) == Some(MessageIsFinalType::Final)
}

/// Whether what is set on a channel is enough to deal with a chunk: to take its security off, and
/// then no message has to be decoded.
pub open spec fn processing_is_certain<C>(
    channel: SecureChannel,
    before: TransportView<C>,
    raw: Seq<u8>,
) -> bool {
    &&& removal_is_certain(channel, raw)
    &&& is_last(raw) ==> before.pending == Map::<u32, Pending<C>>::empty()
}

/// What is enough to deal with a chunk suffices.
proof fn lemma_certain_processing<C>(
    channel: SecureChannel,
    before: TransportView<C>,
    raw: Seq<u8>,
)
    requires
        processing_is_certain(channel, before, raw),
    ensures
        may_process(channel, before, raw),
{
}

impl<C> TransportState<C> {
    /// Validate the chunks of a message and decode it.
    fn turn_received_chunks_into_message(
        &mut self,
        channel: &SecureChannel,
        chunks: Vec<MessageChunk>,
    ) -> (res: Result<Response, StatusCode>)
        requires
            old(self)@.wf(),
            chunks@.len() > 0,
            may_turn_into_message(*channel, old(self)@.sequence_numbers, chunk_data(chunks@)),
        ensures
            final(self)@.wf(),
            message_received(*channel, old(self)@, chunk_data(chunks@), final(self)@, res),
    {
        let ghost data = chunk_data(chunks@);
        let (validated, chunks) = validate_chunks(self.sequence_numbers, channel, chunks);
        let next: u32 = match validated {
            Ok(next) => next,
            Err(status) => {
                return Err(status);
            },
        };
        self.sequence_numbers = SequenceNumbers {
            is_legacy: self.sequence_numbers.is_legacy,
            current: next,
        };
        proof {
            assert(chunks@.len() == data.len());
        }
        decode_response(channel, chunks)
    }

    /// Take the security off a chunk and sort it to the request that it answers.
    pub fn process_chunk(&mut self, channel: &SecureChannel, chunk: MessageChunk) -> (res:
        IncomingOutcome<C>)
        requires
            old(self)@.wf(),
            may_process(*channel, old(self)@, chunk@),
        ensures
            final(self)@.wf(),
            raw_chunk_led_to(*channel, old(self)@, chunk@, final(self)@, res),
    {
        let data = match verify_and_remove_security(channel, chunk.data) {
            Ok(data) => data,
            Err(status) => {
                return IncomingOutcome::Failed(status);
            },
        };
        let (decoded, data) = chunk_info(channel, data);
        let info = match decoded {
            Ok(info) => info,
            Err(status) => {
                return IncomingOutcome::Failed(status);
            },
        };
        match self.process_decoded_chunk(info, data) {
            ChunkStep::Ignored => IncomingOutcome::Done(None),
            ChunkStep::Stored => IncomingOutcome::Done(None),
            ChunkStep::Rejected { callback, status } => IncomingOutcome::Done(
                Some(Reply { callback, result: Err(status) }),
            ),
            ChunkStep::Complete { callback, chunks } => {
                let message = self.turn_received_chunks_into_message(channel, chunks);
                Self::answer(callback, message)
            },
        }
    }

    /// Check whether what is set on a channel is enough to deal with a chunk.
    pub fn check_processing(&self, channel: &SecureChannel, chunk: &MessageChunk) -> (res: bool)
        ensures
            res == processing_is_certain(*channel, self@, chunk@),
            res ==> may_process(*channel, self@, chunk@),
    {
        let is_last = chunk.data.len() >= 4 && chunk.data[3] == 0x46;
        let is_idle = self.message_states.len() == 0;
        proof {
            if is_idle {
                assert(self@.pending =~= Map::<u32, Pending<C>>::empty());
            } else {
                assert(self@.pending.dom() =~= self.message_states@.dom());
            }
            if processing_is_certain(*channel, self@, chunk@) {
                lemma_certain_processing(*channel, self@, chunk@);
            }
        }
        check_removal(channel, &chunk.data) && (!is_last || is_idle)
    }

    /// Hand a response to whoever waits for it, unless the secure channel has to be updated
    /// first. A message that cannot be decoded ends the connection.
    pub fn answer(callback: C, decoded: Result<Response, StatusCode>) -> (res: IncomingOutcome<C>)
        ensures
            res == outcome_of_response(callback, decoded),
    {
        match decoded {
            Ok(response) => if response.opens_secure_channel {
                IncomingOutcome::OpenSecureChannel { callback, response }
            } else {
                IncomingOutcome::Done(Some(Reply { callback, result: Ok(response.message) }))
            },
            Err(status) => IncomingOutcome::Failed(status),
        }
    }

    /// Hand on the response to a request to open or renew the secure channel, once the keys of
    /// the channel have been updated or that has failed.
    pub fn finish_open_secure_channel(
        callback: C,
        response: Response,
        updated: Result<(), StatusCode>,
    ) -> (res: IncomingOutcome<C>)
        ensures
            res == match updated {
                Ok(_) => IncomingOutcome::Done(
                    Some(Reply { callback, result: Ok(response.message) }),
                ),
                Err(status) => outcome_of_status(status),
            },
    {
        match updated {
            Ok(_) => IncomingOutcome::Done(Some(Reply { callback, result: Ok(response.message) })),
            Err(status) => if status.is_good() {
                IncomingOutcome::Done(None)
            } else {
                IncomingOutcome::Failed(status)
            },
        }
    }

    /// Deal with a message read from the connection.
    pub fn handle_incoming_message(&mut self, channel: &SecureChannel, message: Message) -> (res:
        IncomingOutcome<C>)
        requires
            old(self)@.wf(),
            message matches Message::Chunk(chunk) ==> may_process(*channel, old(self)@, chunk@),
        ensures
            final(self)@.wf(),
            match message {
                Message::Chunk(chunk) => exists|outcome: IncomingOutcome<C>|
                    res == unless_good(outcome) && #[trigger] raw_chunk_led_to(
                        *channel,
                        old(self)@,
                        chunk@,
                        final(self)@,
                        outcome,
                    ),
                Message::Error(error) => final(self)@ == old(self)@ && res == outcome_of_status::<
                    C,
                >(error.error),
                _ => final(self)@ == old(self)@ && res == IncomingOutcome::<C>::Failed(
                    StatusCode(BAD_UNEXPECTED_ERROR),
                ),
            },
    {
        let outcome = match message {
            Message::Acknowledge(_) => IncomingOutcome::Failed(StatusCode(BAD_UNEXPECTED_ERROR)),
            Message::Chunk(chunk) => self.process_chunk(channel, chunk),
            Message::Error(error) => IncomingOutcome::Failed(error.error),
            _ => IncomingOutcome::Failed(StatusCode(BAD_UNEXPECTED_ERROR)),
        };
        match outcome {
            IncomingOutcome::Failed(status) => if status.is_good() {
                IncomingOutcome::Done(None)
            } else {
                IncomingOutcome::Failed(status)
            },
            outcome => outcome,
        }
    }

    /// A request could not be sent: answer it with the error, if anyone waits for it.
    pub fn message_send_failed(&mut self, request_id: u32, err: StatusCode) -> (res: Option<
        Reply<C>,
    >)
        requires
            old(self)@.wf(),
        ensures
            final(self)@.wf(),
            final(self)@ == old(self)@.with_pending(old(self)@.pending.remove(request_id)),
            res == if old(self)@.pending.contains_key(request_id) {
                Some(
                    Reply { callback: old(self)@.pending[request_id].callback, result: Err(err) },
                )
            } else {
                None
            },
    {
        let ghost before = self@;
        let removed = self.message_states.remove(&request_id);
        proof {
            assert(self@.pending =~= before.pending.remove(request_id));
        }
        match removed {
            Some(message_state) => Some(
                Reply { callback: message_state.callback, result: Err(err) },
            ),
            None => None,
        }
    }

    /// Note a request that is about to be sent under a request id, if anyone waits for its
    /// answer.
    pub fn accept_outgoing(&mut self, request_id: u32, callback: Option<C>, deadline: Instant)
        requires
            old(self)@.wf(),
        ensures
            final(self)@.wf(),
            final(self)@ == match callback {
                Some(callback) => old(self)@.with_pending(
                    old(self)@.pending.insert(
                        request_id,
                        Pending { callback, chunks: Seq::empty(), deadline },
                    ),
                ),
                None => old(self)@,
            },
    {
        let ghost before = self@;
        if let Some(callback) = callback {
            let message_state = MessageState { callback, chunks: Vec::new(), deadline };
            proof {
                assert(received(message_state.chunks@) =~= Seq::empty());
            }
            let ghost noted = message_state@;
            self.message_states.insert(request_id, message_state);
            proof {
                assert(self@.pending =~= before.pending.insert(request_id, noted));
            }
        }
    }
}

/// The ids of the pending requests whose deadline has come.
pub open spec fn expired<C>(pending: Map<u32, Pending<C>>, now: Instant) -> Set<u32> {
    Set::new(|id: u32| pending.contains_key(id) && pending[id].deadline <= now)
}

/// The answer to a request that failed.
pub open spec fn failure<C>(p: Pending<C>, status: StatusCode) -> Reply<C> {
    Reply { callback: p.callback, result: Err(status) }
}

/// Each of the requests `ids` gets exactly one answer, which is that it failed with `status`.
pub open spec fn answers_each<C>(
    pending: Map<u32, Pending<C>>,
    ids: Set<u32>,
    status: StatusCode,
    replies: Seq<(u32, Reply<C>)>,
) -> bool {
    &&& forall|i: int, j: int|
        0 <= i < j < replies.len() ==> (#[trigger] replies[i]).0 != (#[trigger] replies[j]).0
    &&& forall|i: int|
        0 <= i < replies.len() ==> ids.contains((#[trigger] replies[i]).0) && replies[i].1
            == failure(pending[replies[i].0], status)
    &&& forall|id: u32| #[trigger] ids.contains(id) ==> is_answered(id, replies)
}

/// The request has an answer among `replies`.
pub open spec fn is_answered<C>(id: u32, replies: Seq<(u32, Reply<C>)>) -> bool {
    exists|i: int| 0 <= i < replies.len() && (#[trigger] replies[i]).0 == id
}

/// The earliest deadline of a pending request, if there is a pending request.
pub open spec fn is_earliest<C>(pending: Map<u32, Pending<C>>, earliest: Option<Instant>) -> bool {
    match earliest {
        Some(t) => {
            &&& exists|id: u32| #[trigger] pending.contains_key(id) && pending[id].deadline == t
            &&& forall|id: u32| #[trigger] pending.contains_key(id) ==> t <= pending[id].deadline
        },
        None => pending == Map::<u32, Pending<C>>::empty(),
    }
}

/// The status with which requests end when the connection is closed with `status`. They did
/// not succeed, so it is never a good one.
pub open spec fn request_status(status: StatusCode) -> StatusCode {
    if status.good() {
        StatusCode(BAD_CONNECTION_CLOSED)
    } else {
        status
    }
}

/// The list names each pending request once, with its deadline.
pub open spec fn lists_deadlines<C>(
    pending: Map<u32, Pending<C>>,
    deadlines: Seq<(u32, Instant)>,
) -> bool {
    &&& forall|i: int, j: int|
        0 <= i < j < deadlines.len() ==> (#[trigger] deadlines[i]).0 != (#[trigger] deadlines[j]).0
    &&& forall|i: int|
        0 <= i < deadlines.len() ==> pending.contains_key((#[trigger] deadlines[i]).0)
            && deadlines[i].1 == pending[deadlines[i].0].deadline
    &&& forall|id: u32| #[trigger]
        pending.contains_key(id) ==> exists|i: int|
            0 <= i < deadlines.len() && (#[trigger] deadlines[i]).0 == id
}

impl<C> TransportState<C> {
    /// List the pending requests with their deadlines.
    fn deadlines(&self) -> (res: Vec<(u32, Instant)>)
        ensures
            lists_deadlines(self@.pending, res@),
    {
        let mut res: Vec<(u32, Instant)> = Vec::new();
        let ghost states = self.message_states@;
        let ghost mut items: Seq<(&u32, &MessageState<C>)> = Seq::empty();
        for (id, state) in it: self.message_states.iter()
            invariant
                states == self.message_states@,
                it.seq().no_duplicates(),
                forall|i: int|
                    0 <= i < it.seq().len() ==> states.contains_key(*(#[trigger] it.seq()[i]).0)
                        && states[*it.seq()[i].0] == *it.seq()[i].1,
                forall|k: u32| #[trigger]
                    states.contains_key(k) ==> it.seq().contains((&k, &states[k])),
                items == it.seq().take(it.index()),
                it.index() == it.seq().len() ==> items == it.seq(),
                res@.len() == items.len(),
                forall|i: int|
                    0 <= i < res@.len() ==> (#[trigger] res@[i]).0 == *items[i].0 && res@[i].1
                        == items[i].1.deadline,
        {
            proof {
                items = items.push((id, state));
            }
            res.push((*id, state.deadline));
        }
        proof {
            assert forall|id: u32| #[trigger] self@.pending.contains_key(id) implies exists|i: int|
                0 <= i < res@.len() && (#[trigger] res@[i]).0 == id by {
                let i = choose|i: int| 0 <= i < items.len() && items[i] == (&id, &states[id]);
                assert(res@[i].0 == id);
            }
        }
        res
    }

    /// Take requests out and answer each with a failure.
    fn fail_requests(&mut self, ids: Vec<u32>, status: StatusCode) -> (replies: Vec<(u32, Reply<C>)>)
        requires
            old(self)@.wf(),
            ids@.no_duplicates(),
            forall|i: int|
                0 <= i < ids@.len() ==> old(self)@.pending.contains_key(#[trigger] ids@[i]),
        ensures
            final(self)@.wf(),
            final(self)@ == old(self)@.with_pending(old(self)@.pending.remove_keys(ids@.to_set())),
            answers_each(old(self)@.pending, ids@.to_set(), status, replies@),
    {
        let ghost before = self@;
        let mut replies: Vec<(u32, Reply<C>)> = Vec::new();
        proof {
            assert(before.pending.remove_keys(ids@.take(0).to_set()) =~= before.pending);
        }
        for i in 0..ids.len()
            invariant
                self@.wf(),
                self@ == before.with_pending(
                    before.pending.remove_keys(ids@.take(i as int).to_set()),
                ),
                ids@.no_duplicates(),
                forall|k: int|
                    0 <= k < ids@.len() ==> before.pending.contains_key(#[trigger] ids@[k]),
                replies@.len() == i,
                forall|k: int|
                    0 <= k < i ==> (#[trigger] replies@[k]).0 == ids@[k] && replies@[k].1
                        == failure(before.pending[ids@[k]], status),
        {
            let id: u32 = ids[i];
            proof {
                assert(!ids@.take(i as int).to_set().contains(id));
                assert(ids@.take(i + 1).to_set() =~= ids@.take(i as int).to_set().insert(id)) by {
                    assert(ids@.take(i + 1) =~= ids@.take(i as int).push(id));
                    ids@.take(i as int).lemma_push_to_set_commute(id);
                }
            }
            let answered = self.message_send_failed(id, status);
            proof {
                assert(self@.pending =~= before.pending.remove_keys(ids@.take(i + 1).to_set()));
            }
            if let Some(reply) = answered {
                replies.push((id, reply));
            }
        }
        proof {
            assert(ids@.take(ids@.len() as int) =~= ids@);
            assert forall|id: u32| #[trigger] ids@.to_set().contains(id) implies is_answered(
                id,
                replies@,
            ) by {
                let k = choose|k: int| 0 <= k < ids@.len() && ids@[k] == id;
                assert(replies@[k].0 == id);
            }
        }
        replies
    }

    /// Give up on the requests whose deadline has come, and find out when the next request
    /// will time out.
    pub fn next_timeout(&mut self, now: Instant) -> (res: (Option<Instant>, Vec<(u32, Reply<C>)>))
        requires
            old(self)@.wf(),
        ensures
            final(self)@.wf(),
            final(self)@ == old(self)@.with_pending(
                old(self)@.pending.remove_keys(expired(old(self)@.pending, now)),
            ),
            answers_each(
                old(self)@.pending,
                expired(old(self)@.pending, now),
                StatusCode(BAD_TIMEOUT),
                res.1@,
            ),
            is_earliest(final(self)@.pending, res.0),
    {
        let ghost pending = self@.pending;
        let mut next_timeout: Option<Instant> = None;
        let mut timed_out: Vec<u32> = Vec::new();
        let deadlines = self.deadlines();
        for i in 0..deadlines.len()
            invariant
                pending == self@.pending,
                lists_deadlines(pending, deadlines@),
                timed_out@.no_duplicates(),
                forall|k: int|
                    0 <= k < timed_out@.len() ==> pending.contains_key(#[trigger] timed_out@[k])
                        && pending[timed_out@[k]].deadline <= now && exists|m: int|
                        0 <= m < i && (#[trigger] deadlines@[m]).0 == timed_out@[k],
                forall|m: int|
                    0 <= m < i && (#[trigger] deadlines@[m]).1 <= now ==> timed_out@.contains(
                        deadlines@[m].0,
                    ),
                match next_timeout {
                    Some(t) => {
                        &&& exists|m: int|
                            0 <= m < i && now < (#[trigger] deadlines@[m]).1 && deadlines@[m].1 == t
                        &&& forall|m: int|
                            0 <= m < i && now < (#[trigger] deadlines@[m]).1 ==> t
                                <= deadlines@[m].1
                    },
                    None => forall|m: int| 0 <= m < i ==> (#[trigger] deadlines@[m]).1 <= now,
                },
        {
            let (id, deadline) = deadlines[i];
            if deadline <= now {
                let ghost earlier = timed_out@;
                proof {
                    assert(!earlier.contains(id));
                }
                timed_out.push(id);
                proof {
                    assert(timed_out@[earlier.len() as int] == id);
                    assert forall|m: int|
                        0 <= m < i + 1 && (#[trigger] deadlines@[m]).1 <= now implies timed_out@.contains(
                        deadlines@[m].0,
                    ) by {
                        if m < i {
                            let k = choose|k: int|
                                0 <= k < earlier.len() && earlier[k] == deadlines@[m].0;
                            assert(timed_out@[k] == deadlines@[m].0);
                        }
                    }
                }
            } else {
                next_timeout =
                match next_timeout {
                    Some(t) => if t > deadline {
                        Some(deadline)
                    } else {
                        Some(t)
                    },
                    None => Some(deadline),
                };
            }
        }
        proof {
            assert(timed_out@.to_set() =~= expired(pending, now)) by {
                assert forall|id: u32| #[trigger]
                    expired(pending, now).contains(id) implies timed_out@.contains(id) by {}
            }
            let rest = pending.remove_keys(expired(pending, now));
            assert(is_earliest(rest, next_timeout)) by {
                assert forall|id: u32| #[trigger] rest.contains_key(id) implies exists|m: int|
                    0 <= m < deadlines@.len() && (#[trigger] deadlines@[m]).0 == id && now
                        < deadlines@[m].1 && rest[id].deadline == deadlines@[m].1 by {}
                match next_timeout {
                    Some(t) => {
                        let m = choose|m: int|
                            0 <= m < deadlines@.len() && now < (#[trigger] deadlines@[m]).1
                                && deadlines@[m].1 == t;
                        assert(rest.contains_key(deadlines@[m].0));
                    },
                    None => {
                        assert(rest =~= Map::<u32, Pending<C>>::empty());
                    },
                }
            }
        }
        let replies = self.fail_requests(timed_out, StatusCode(BAD_TIMEOUT));
        (next_timeout, replies)
    }

    /// Abort all pending requests because the connection is closed with `status`. If the status
    /// is good, the pending requests are terminated with `BAD_CONNECTION_CLOSED`.
    pub fn close(&mut self, status: StatusCode) -> (replies: Vec<(u32, Reply<C>)>)
        requires
            old(self)@.wf(),
        ensures
            final(self)@.wf(),
            final(self)@ == old(self)@.with_pending(Map::empty()),
            answers_each(
                old(self)@.pending,
                old(self)@.pending.dom(),
                request_status(status),
                replies@,
            ),
    {
        let ghost pending = self@.pending;
        let deadlines = self.deadlines();
        let mut ids: Vec<u32> = Vec::new();
        for i in 0..deadlines.len()
            invariant
                lists_deadlines(pending, deadlines@),
                ids@.len() == i,
                forall|k: int| 0 <= k < i ==> #[trigger] ids@[k] == deadlines@[k].0,
        {
            ids.push(deadlines[i].0);
        }
        proof {
            assert forall|i: int, j: int|
                0 <= i < ids@.len() && 0 <= j < ids@.len() && i != j implies ids@[i] != ids@[j] by {}
            assert(ids@.to_set() =~= pending.dom()) by {
                assert forall|id: u32| #[trigger] pending.contains_key(id) implies ids@.contains(
                    id,
                ) by {
                    let m = choose|m: int|
                        0 <= m < deadlines@.len() && (#[trigger] deadlines@[m]).0 == id;
                    assert(ids@[m] == id);
                }
            }
            assert(pending.remove_keys(pending.dom()) =~= Map::empty());
        }
        self.fail_requests(ids, Self::closing_status(status))
    }

    /// The status with which requests end when the connection is closed with `status`.
    fn closing_status(status: StatusCode) -> (res: StatusCode)
        ensures
            res == request_status(status),
    {
        if status.is_good() {
            StatusCode(BAD_CONNECTION_CLOSED)
        } else {
            status
        }
    }

    /// Answer a request that was still in the queue when the connection was closed with
    /// `status`, if anyone waits for its answer.
    pub fn refuse_outgoing(outgoing: OutgoingMessage<C>, status: StatusCode) -> (res: Option<
        Reply<C>,
    >)
        ensures
            res == match outgoing.callback {
                Some(callback) => Some(Reply { callback, result: Err(request_status(status)) }),
                None => None,
            },
    {
        match outgoing.callback {
            Some(callback) => Some(
                Reply { callback, result: Err(Self::closing_status(status)) },
            ),
            None => None,
        }
    }
}

/// The pending requests after a series of chunks, as long as none of them ends a request.
pub open spec fn after_chunks<C>(before: TransportView<C>, chunks: Seq<ReceivedChunk>) -> TransportView<
    C,
>
    decreases chunks.len(),
{
    if chunks.len() == 0 {
        before
    } else {
        let last = chunks.last();
        chunk_effect(after_chunks(before, chunks.drop_last()), last.header, last.data).0
    }
}

/// A chunk that answers a request, with a response or a failure, ends it: the request is no
/// longer pending, and any further chunks for it are ignored.
pub proof fn law_answered_request_is_done<C>(
    before: TransportView<C>,
    info: ChunkInfo,
    data: Seq<u8>,
    later: ChunkInfo,
    later_data: Seq<u8>,
)
    requires
        chunk_effect(before, info, data).1 is Rejected || chunk_effect(before, info, data).1
            is Complete,
        later.request_id == info.request_id,
    ensures
        ({
            let after = chunk_effect(before, info, data).0;
            &&& !after.pending.contains_key(info.request_id)
            &&& chunk_effect(after, later, later_data) == (after, ChunkEffect::<C>::Ignored)
        }),
{
}

/// A chunk affects no request but the one that it answers, and neither the limits nor the
/// sequence number that is due.
pub proof fn law_chunk_affects_only_its_request<C>(
    before: TransportView<C>,
    info: ChunkInfo,
    data: Seq<u8>,
    other: u32,
)
    requires
        other != info.request_id,
    ensures
        ({
            let after = chunk_effect(before, info, data).0;
            &&& after.pending.contains_key(other) == before.pending.contains_key(other)
            &&& after.pending.contains_key(other) ==> after.pending[other] == before.pending[other]
            &&& after == before.with_pending(after.pending)
        }),
{
}

/// Intermediate chunks of a request, no more than allowed, are all kept in the order in which
/// they arrive.
pub proof fn law_intermediate_chunks_are_kept<C>(
    before: TransportView<C>,
    id: u32,
    chunks: Seq<ReceivedChunk>,
)
    requires
        before.pending.contains_key(id),
        before.max_chunk_count > 0 ==> before.pending[id].chunks.len() + chunks.len()
            <= before.max_chunk_count,
        forall|i: int|
            0 <= i < chunks.len() ==> (#[trigger] chunks[i]).header.request_id == id
                && chunks[i].header.is_final == MessageIsFinalType::Intermediate,
    ensures
        after_chunks(before, chunks) == before.with_pending(
            before.pending.insert(
                id,
                Pending {
                    chunks: before.pending[id].chunks + chunks,
                    ..before.pending[id]
                },
            ),
        ),
    decreases chunks.len(),
{
    let p = before.pending[id];
    if chunks.len() == 0 {
        assert(before.pending.insert(id, p) =~= before.pending);
    } else {
        let rest = chunks.drop_last();
        law_intermediate_chunks_are_kept(before, id, rest);
        let last = chunks[chunks.len() - 1];
        assert((p.chunks + rest).push(last) =~= p.chunks + chunks);
        assert(after_chunks(before, chunks).pending =~= before.pending.insert(
            id,
            Pending { chunks: p.chunks + chunks, ..p },
        ));
    }
}

/// A message whose intermediate chunks arrive in any order, some of them perhaps more than once,
/// and whose final chunk arrives last, is put back together: each of its chunks comes out once,
/// in the order of their sequence numbers.
pub proof fn law_message_is_reassembled<C>(
    before: TransportView<C>,
    id: u32,
    arrived: Seq<ReceivedChunk>,
    last: ReceivedChunk,
    message: Seq<ReceivedChunk>,
)
    requires
        before.pending.contains_key(id),
        before.pending[id].chunks.len() == 0,
        before.max_chunk_count > 0 ==> arrived.len() <= before.max_chunk_count,
        forall|i: int|
            0 <= i < arrived.len() ==> (#[trigger] arrived[i]).header.request_id == id
                && arrived[i].header.is_final == MessageIsFinalType::Intermediate,
        last.header.request_id == id,
        last.header.is_final == MessageIsFinalType::Final,
        forall|c: ReceivedChunk| #[trigger]
            message.contains(c) <==> arrived.push(last).contains(c),
        forall|i: int|
            0 <= i < message.len() ==> (#[trigger] message[i]).header.sequence_number
                == message[0].header.sequence_number + i,
    ensures
        chunk_effect(after_chunks(before, arrived), last.header, last.data).1
            == (ChunkEffect::Complete {
            callback: before.pending[id].callback,
            chunks: message.map_values(|c: ReceivedChunk| c.data),
        }),
{
    let all = arrived.push(last);
    law_intermediate_chunks_are_kept(before, id, arrived);
    assert(message.contains(last));
    assert(consistent(message));
    law_arrival_order_is_irrelevant(message, all);
    law_contiguous_chunks_are_kept(message);
}

/// Requests that are given up because a deadline has come are given up once: at the same time
/// nothing is left to give up, and every deadline that is left lies ahead.
pub proof fn law_requests_time_out_once<C>(pending: Map<u32, Pending<C>>, now: Instant, id: u32)
    ensures
        ({
            let rest = pending.remove_keys(expired(pending, now));
            &&& expired(rest, now) == Set::<u32>::empty()
            &&& rest.contains_key(id) ==> now < rest[id].deadline
            &&& pending.contains_key(id) ==> expired(pending, now).contains(id)
                || rest.contains_key(id) && rest[id] == pending[id]
        }),
{
}

/// Whatever the status with which the connection is closed, no pending request ends well.
pub proof fn law_closing_is_no_success(status: StatusCode)
    ensures
        !request_status(status).good(),
        !status.good() ==> request_status(status) == status,
{
}

/// Closing twice answers no request twice: the second time no answers are left.
pub proof fn law_closing_again_answers_nothing<C>(
    before: TransportView<C>,
    status: StatusCode,
    replies: Seq<(u32, Reply<C>)>,
)
    requires
        answers_each(
            before.with_pending(Map::empty()).pending,
            before.with_pending(Map::empty()).pending.dom(),
            request_status(status),
            replies,
        ),
    ensures
        replies.len() == 0,
{
    if replies.len() > 0 {
        assert(Map::<u32, Pending<C>>::empty().dom().contains(replies[0].0));
    }
}

/// As many answers are given as there are requests to be answered.
pub proof fn law_one_answer_for_each_request<C>(
    pending: Map<u32, Pending<C>>,
    ids: Set<u32>,
    status: StatusCode,
    replies: Seq<(u32, Reply<C>)>,
)
    requires
        answers_each(pending, ids, status, replies),
    ensures
        ids.finite(),
        replies.len() == ids.len(),
{
    let answered = replies.map_values(|r: (u32, Reply<C>)| r.0);
    assert(answered.to_set() =~= ids) by {
        assert forall|id: u32| #[trigger] ids.contains(id) implies answered.contains(id) by {
            let i = choose|i: int| 0 <= i < replies.len() && (#[trigger] replies[i]).0 == id;
            assert(answered[i] == id);
        }
    }
    assert(answered.no_duplicates());
    answered.unique_seq_to_set();
}

/// A state with other pending requests, or with another number due, is otherwise the same.
pub proof fn law_replacing_requests_replaces_nothing_else<C>(
    before: TransportView<C>,
    pending: Map<u32, Pending<C>>,
    next: u32,
)
    ensures
        ({
            let after = before.with_pending(pending);
            &&& after.pending == pending
            &&& after.max_chunk_count == before.max_chunk_count
            &&& after.sequence_numbers == before.sequence_numbers
            &&& after.receive_buffer_size == before.receive_buffer_size
        }),
        ({
            let after = before.with_next(next);
            &&& after.pending == before.pending
            &&& after.max_chunk_count == before.max_chunk_count
            &&& after.sequence_numbers.current == next
            &&& after.sequence_numbers.is_legacy == before.sequence_numbers.is_legacy
            &&& after.receive_buffer_size == before.receive_buffer_size
        }),
{
}

/// A chunk for which no request waits changes nothing. An intermediate chunk is kept behind those
/// that came before, as long as they are no more than allowed, and ends its request otherwise. A
/// chunk that gives the message up ends its request. The last chunk completes the message, which
/// is made of all the chunks that came for the request, and the request is no longer pending. In
/// no case does anything else change.
pub proof fn law_chunk_goes_to_its_request<C>(
    before: TransportView<C>,
    info: ChunkInfo,
    data: Seq<u8>,
    after: TransportView<C>,
    step: ChunkStep<C>,
)
    requires
        (after, step@) == chunk_effect(before, info, data),
    ensures
        after.max_chunk_count == before.max_chunk_count,
        after.sequence_numbers == before.sequence_numbers,
        after.receive_buffer_size == before.receive_buffer_size,
        ({
            let id = info.request_id;
            let kept = before.pending[id].chunks;
            let waits_for = before.pending[id].callback;
            let is_too_many = before.max_chunk_count > 0 && kept.len() + 1
                > before.max_chunk_count;
            if !before.pending.contains_key(id) {
                &&& step is Ignored
                &&& after.pending == before.pending
            } else if info.is_final == MessageIsFinalType::Intermediate && !is_too_many {
                &&& step is Stored
                &&& after.pending == before.pending.insert(id, after.pending[id])
                &&& after.pending[id].chunks == kept.push(ReceivedChunk { header: info, data })
                &&& after.pending[id].callback == waits_for
                &&& after.pending[id].deadline == before.pending[id].deadline
            } else {
                &&& after.pending == before.pending.remove(id)
                &&& info.is_final == MessageIsFinalType::Intermediate ==> (
                step matches ChunkStep::Rejected { callback, status } && callback == waits_for
                    && status.0 == BAD_ENCODING_LIMITS_EXCEEDED)
                &&& info.is_final == MessageIsFinalType::FinalError ==> (
                step matches ChunkStep::Rejected { callback, status } && callback == waits_for
                    && status.0 == BAD_COMMUNICATION_ERROR)
                &&& info.is_final == MessageIsFinalType::Final ==> (
                step matches ChunkStep::Complete { callback, chunks } && callback == waits_for
                    && chunk_data(chunks@) == merged(
                    kept.push(ReceivedChunk { header: info, data }),
                ))
            }
        }),
{
}

/// What comes of a chunk is what the stack says of it, and nothing else decides. If its security
/// or its headers are at fault, the connection fails with the status of that fault and no request
/// is affected. Otherwise the chunk goes to the request that its headers name. If it is the last
/// of a message, however many chunks that has, all of them are validated, which may fail with its
/// status, and then decoded, which may fail with its status. The response that decoding gives is
/// the one that is handed to whoever waits for it, or that carries the keys of the channel.
pub proof fn law_chunk_leads_to_what_the_stack_says<C>(
    channel: SecureChannel,
    before: TransportView<C>,
    raw: Seq<u8>,
    after: TransportView<C>,
    outcome: IncomingOutcome<C>,
)
    requires
        raw_chunk_led_to(channel, before, raw, after, outcome),
    ensures
        ({
            ||| {
                &&& outcome matches IncomingOutcome::Failed(status)
                &&& after == before
                &&& security_removed(channel, raw, Err(status))
            }
            ||| exists|data: Seq<u8>| #[trigger] security_removed(channel, raw, Ok(data)) && {
                &&& outcome matches IncomingOutcome::Failed(status)
                &&& after == before
                &&& headers_read(channel, data, Err(status))
            }
            ||| exists|data: Seq<u8>, info: ChunkInfo| #[trigger]
                security_removed(channel, raw, Ok(data)) && #[trigger] headers_read(
                    channel,
                    data,
                    Ok(info),
                ) && {
                    let id = info.request_id;
                    let kept = before.pending[id].chunks;
                    let waits_for = before.pending[id].callback;
                    let is_too_many = before.max_chunk_count > 0 && kept.len() + 1
                        > before.max_chunk_count;
                    let chunks = merged(kept.push(ReceivedChunk { header: info, data }));
                    &&& after.max_chunk_count == before.max_chunk_count
                    &&& after.receive_buffer_size == before.receive_buffer_size
                    &&& after.sequence_numbers.is_legacy == before.sequence_numbers.is_legacy
                    &&& if !before.pending.contains_key(id) {
                        &&& after == before
                        &&& outcome matches IncomingOutcome::Done(None)
                    } else if info.is_final == MessageIsFinalType::Intermediate && !is_too_many {
                        &&& outcome matches IncomingOutcome::Done(None)
                        &&& after.sequence_numbers == before.sequence_numbers
                        &&& after.pending == before.pending.insert(id, after.pending[id])
                        &&& after.pending[id].chunks == kept.push(
                            ReceivedChunk { header: info, data },
                        )
                        &&& after.pending[id].callback == waits_for
                        &&& after.pending[id].deadline == before.pending[id].deadline
                    } else {
                        &&& after.pending == before.pending.remove(id)
                        &&& match info.is_final {
                            MessageIsFinalType::Intermediate => {
                                &&& after.sequence_numbers == before.sequence_numbers
                                &&& outcome matches IncomingOutcome::Done(Some(reply))
                                &&& reply.callback == waits_for
                                &&& reply.result matches Err(status)
                                &&& status.0 == BAD_ENCODING_LIMITS_EXCEEDED
                            },
                            MessageIsFinalType::FinalError => {
                                &&& after.sequence_numbers == before.sequence_numbers
                                &&& outcome matches IncomingOutcome::Done(Some(reply))
                                &&& reply.callback == waits_for
                                &&& reply.result matches Err(status)
                                &&& status.0 == BAD_COMMUNICATION_ERROR
                            },
                            MessageIsFinalType::Final => {
                                ||| {
                                    &&& outcome matches IncomingOutcome::Failed(status)
                                    &&& after.sequence_numbers == before.sequence_numbers
                                    &&& chunks_validated(
                                        channel,
                                        before.sequence_numbers,
                                        chunks,
                                        Err(status),
                                    )
                                }
                                ||| {
                                    &&& chunks_validated(
                                        channel,
                                        before.sequence_numbers,
                                        chunks,
                                        Ok(after.sequence_numbers.current),
                                    )
                                    &&& exists|decoded: Result<Response, StatusCode>| #[trigger]
                                        message_decoded(channel, chunks, decoded) && match decoded {
                                            Err(failure) => {
                                                &&& outcome matches IncomingOutcome::Failed(status)
                                                &&& status == failure
                                            },
                                            Ok(decoded) => if opens_channel(decoded.message) {
                                                &&& outcome matches IncomingOutcome::OpenSecureChannel {
                                                    callback,
                                                    response,
                                                }
                                                &&& callback == waits_for
                                                &&& response == decoded
                                            } else {
                                                &&& outcome matches IncomingOutcome::Done(Some(reply))
                                                &&& reply.callback == waits_for
                                                &&& reply.result matches Ok(message)
                                                &&& message == decoded.message
                                            },
                                        }
                                }
                            },
                        }
                    }
                }
        }),
{
    if exists|data: Seq<u8>|
        {
            &&& #[trigger] security_removed(channel, raw, Ok(data))
            &&& keeps_header(raw, data)
            &&& open_chunk_led_to(channel, before, data, after, outcome)
        } {
        let data = choose|data: Seq<u8>|
            {
                &&& #[trigger] security_removed(channel, raw, Ok(data))
                &&& keeps_header(raw, data)
                &&& open_chunk_led_to(channel, before, data, after, outcome)
            };
        if exists|info: ChunkInfo|
            {
                &&& #[trigger] headers_read(channel, data, Ok(info))
                &&& says(data, info)
                &&& chunk_led_to(channel, before, info, data, after, outcome)
            } {
            let info = choose|info: ChunkInfo|
                {
                    &&& #[trigger] headers_read(channel, data, Ok(info))
                    &&& says(data, info)
                    &&& chunk_led_to(channel, before, info, data, after, outcome)
                };
            let (mid, effect) = chunk_effect(before, info, data);
            if let ChunkEffect::Complete { callback, chunks } = effect {
                let decoded = choose|decoded: Result<Response, StatusCode>|
                    outcome == outcome_of_response(callback, decoded)
                        && #[trigger] message_received(channel, mid, chunks, after, decoded);
                assert(message_received(channel, mid, chunks, after, decoded));
            }
        }
    }
}

/// A response that is there is handed over: it answers whoever waits for it, or, if it opens the
/// channel, it waits with them for the keys. A failure to decode ends the connection with its
/// status.
pub proof fn law_response_is_handed_over<C>(
    callback: C,
    decoded: Result<Response, StatusCode>,
    outcome: IncomingOutcome<C>,
)
    requires
        outcome == outcome_of_response(callback, decoded),
    ensures
        decoded matches Ok(response) ==> if response.opens_secure_channel {
            outcome matches IncomingOutcome::OpenSecureChannel { callback: c, response: r } && c
                == callback && r == response
        } else {
            outcome matches IncomingOutcome::Done(Some(reply)) && reply.callback == callback
                && reply.result == Ok::<ResponseMessage, StatusCode>(response.message)
        },
        decoded matches Err(status) ==> (outcome matches IncomingOutcome::Failed(s) && s
            == status),
{
}

/// A failure under a status that is not good stays a failure under that status, and one under a
/// good status counts as none. What did not fail stays as it is.
pub proof fn law_no_failure_is_good<C>(outcome: IncomingOutcome<C>, status: StatusCode)
    ensures
        unless_good(outcome) matches IncomingOutcome::Failed(s) ==> s.0 >= 0x4000_0000 && (
        outcome matches IncomingOutcome::Failed(t) && s == t),
        !(outcome is Failed) ==> unless_good(outcome) == outcome,
        outcome matches IncomingOutcome::Failed(s) ==> if s.0 < 0x4000_0000 {
            unless_good(outcome) matches IncomingOutcome::Done(None)
        } else {
            unless_good(outcome) == outcome
        },
        status.0 < 0x4000_0000 ==> (outcome_of_status::<C>(status) matches IncomingOutcome::Done(
            None,
        )),
        status.0 >= 0x4000_0000 ==> (outcome_of_status::<C>(status) matches IncomingOutcome::Failed(
            s,
        ) && s == status),
{
}

/// No request is given up early, and none late: a request whose deadline lies ahead stays as it
/// is and gets no answer, and one whose deadline has come is no longer pending and gets exactly
/// one answer, which is that it timed out. No other request gets an answer.
pub proof fn law_requests_are_given_up_at_their_deadline<C>(
    before: TransportView<C>,
    now: Instant,
    after: TransportView<C>,
    replies: Seq<(u32, Reply<C>)>,
    id: u32,
    i: int,
    j: int,
)
    requires
        after == before.with_pending(before.pending.remove_keys(expired(before.pending, now))),
        answers_each(
            before.pending,
            expired(before.pending, now),
            StatusCode(BAD_TIMEOUT),
            replies,
        ),
    ensures
        before.pending.contains_key(id) && before.pending[id].deadline > now ==> {
            &&& after.pending.contains_key(id)
            &&& after.pending[id] == before.pending[id]
            &&& 0 <= i < replies.len() ==> replies[i].0 != id
        },
        before.pending.contains_key(id) && before.pending[id].deadline <= now ==> {
            &&& !after.pending.contains_key(id)
            &&& exists|k: int| 0 <= k < replies.len() && (#[trigger] replies[k]).0 == id
        },
        !before.pending.contains_key(id) ==> !after.pending.contains_key(id),
        0 <= i < replies.len() ==> {
            &&& before.pending.contains_key(replies[i].0)
            &&& before.pending[replies[i].0].deadline <= now
            &&& replies[i].1.callback == before.pending[replies[i].0].callback
            &&& replies[i].1.result matches Err(status)
            &&& status.0 == BAD_TIMEOUT
        },
        0 <= i < j < replies.len() ==> replies[i].0 != replies[j].0,
        after.max_chunk_count == before.max_chunk_count,
        after.sequence_numbers == before.sequence_numbers,
        after.receive_buffer_size == before.receive_buffer_size,
{
    if before.pending.contains_key(id) && before.pending[id].deadline <= now {
        assert(expired(before.pending, now).contains(id));
        assert(is_answered(id, replies));
    }
}

/// The next timeout is the deadline of a pending request, and no pending request has an earlier
/// one. There is none exactly if no request is pending.
pub proof fn law_next_timeout_is_the_earliest_deadline<C>(
    pending: Map<u32, Pending<C>>,
    earliest: Option<Instant>,
    id: u32,
)
    requires
        is_earliest(pending, earliest),
    ensures
        pending.contains_key(id) ==> (earliest matches Some(t) && t <= pending[id].deadline),
        earliest matches Some(t) ==> exists|k: u32| #[trigger]
            pending.contains_key(k) && pending[k].deadline == t,
{
}

/// When the connection is closed, every pending request gets exactly one answer, which is that it
/// failed: with the status of the closing, or, if that is good, because the connection was
/// closed. Nobody else gets an answer.
pub proof fn law_closing_answers_every_request<C>(
    pending: Map<u32, Pending<C>>,
    status: StatusCode,
    replies: Seq<(u32, Reply<C>)>,
    id: u32,
    i: int,
    j: int,
)
    requires
        answers_each(pending, pending.dom(), request_status(status), replies),
    ensures
        pending.contains_key(id) ==> exists|k: int|
            0 <= k < replies.len() && (#[trigger] replies[k]).0 == id,
        0 <= i < replies.len() ==> {
            &&& pending.contains_key(replies[i].0)
            &&& replies[i].1.callback == pending[replies[i].0].callback
            &&& replies[i].1.result matches Err(s)
            &&& s.0 == if status.0 < 0x4000_0000 {
                BAD_CONNECTION_CLOSED
            } else {
                status.0
            }
        },
        0 <= i < j < replies.len() ==> replies[i].0 != replies[j].0,
{
    if pending.contains_key(id) {
        assert(pending.dom().contains(id));
        assert(is_answered(id, replies));
    }
}

/// The status with which requests end when the connection is closed is that of the closing, or,
/// if that is good, that the connection was closed.
pub proof fn law_requests_end_with_the_status_of_the_closing(status: StatusCode)
    ensures
        status.0 < 0x4000_0000 ==> request_status(status).0 == BAD_CONNECTION_CLOSED,
        status.0 >= 0x4000_0000 ==> request_status(status) == status,
{
}

/// A chunk that has no security, is not the last of a message and does not open the channel can be
/// dealt with on an unsecured channel, whatever is pending, and so can the last of a message if
/// nothing is pending.
pub proof fn law_plain_chunks_are_dealt_with<C>(
    channel: SecureChannel,
    before: TransportView<C>,
    raw: Seq<u8>,
)
    requires
        policy_of(channel) == SecurityPolicy::Unsecured,
        raw.len() < 3 || raw[0] != 0x4F || raw[1] != 0x50 || raw[2] != 0x4E,
        raw.len() < 4 || raw[3] != 0x46 || before.pending == Map::<u32, Pending<C>>::empty(),
    ensures
        processing_is_certain(channel, before, raw),
        may_process(channel, before, raw),
{
    if raw.len() >= 3 {
        assert(raw.take(3)[0] == raw[0]);
        assert(raw.take(3)[1] == raw[1]);
        assert(raw.take(3)[2] == raw[2]);
    }
    lemma_certain_processing(channel, before, raw);
}

/// Looking at timeouts gives up exactly the requests whose deadline has come. Each of them is no
/// longer pending and is told once that it timed out. Every other request stays as it is and is
/// told nothing. The next timeout is the earliest deadline that is left.
pub proof fn law_timeouts_come_at_the_deadline<C>()
    ensures
        forall|
            state: &mut TransportState<C>,
            now: Instant,
            res: (Option<Instant>, Vec<(u32, Reply<C>)>),
        | #[trigger]
            call_ensures(TransportState::<C>::next_timeout, (state, now), res) ==> {
                &&& forall|id: u32| #[trigger]
                    final(state)@.pending.contains_key(id) <==> state@.pending.contains_key(id)
                        && state@.pending[id].deadline > now
                &&& forall|id: u32| #[trigger]
                    final(state)@.pending.contains_key(id) ==> final(state)@.pending[id]
                        == state@.pending[id]
                &&& forall|i: int|
                    0 <= i < res.1@.len() ==> {
                        let key = (#[trigger] res.1@[i]).0;
                        &&& state@.pending.contains_key(key)
                        &&& state@.pending[key].deadline <= now
                        &&& res.1@[i].1.callback == state@.pending[key].callback
                        &&& res.1@[i].1.result matches Err(status)
                        &&& status.0 == BAD_TIMEOUT
                    }
                &&& forall|i: int, j: int|
                    0 <= i < j < res.1@.len() ==> (#[trigger] res.1@[i]).0 != (
                    #[trigger] res.1@[j]).0
                &&& forall|id: u32| #[trigger]
                    state@.pending.contains_key(id) && state@.pending[id].deadline <= now
                        ==> exists|i: int|
                        0 <= i < res.1@.len() && (#[trigger] res.1@[i]).0 == id
                &&& res.0 is None ==> forall|id: u32| !#[trigger] final(state)@.pending.contains_key(
                    id,
                )
                &&& res.0 matches Some(t) ==> {
                    &&& exists|id: u32| #[trigger]
                        final(state)@.pending.contains_key(id) && final(state)@.pending[id].deadline
                            == t
                    &&& forall|id: u32| #[trigger]
                        final(state)@.pending.contains_key(id) ==> t
                            <= final(state)@.pending[id].deadline
                }
                &&& final(state)@.max_chunk_count == state@.max_chunk_count
                &&& final(state)@.sequence_numbers == state@.sequence_numbers
                &&& final(state)@.receive_buffer_size == state@.receive_buffer_size
            },
{
    assert forall|
        state: &mut TransportState<C>,
        now: Instant,
        res: (Option<Instant>, Vec<(u32, Reply<C>)>),
        id: u32,
    |
        #![trigger call_ensures(TransportState::<C>::next_timeout, (state, now), res), state@.pending.contains_key(id)]
        call_ensures(TransportState::<C>::next_timeout, (state, now), res)
            && state@.pending.contains_key(id) && state@.pending[id].deadline
            <= now implies exists|i: int|
        0 <= i < res.1@.len() && (#[trigger] res.1@[i]).0 == id by {
        assert(expired(state@.pending, now).contains(id));
        assert(is_answered(id, res.1@));
    }
}

/// Closing answers every pending request once, and nobody else: with the status of the closing or,
/// if that is good, that the connection was closed. No request is pending any more.
pub proof fn law_closing_ends_every_request<C>()
    ensures
        forall|state: &mut TransportState<C>, status: StatusCode, replies: Vec<(u32, Reply<C>)>|
            #[trigger] call_ensures(TransportState::<C>::close, (state, status), replies) ==> {
                &&& forall|id: u32| !#[trigger] final(state)@.pending.contains_key(id)
                &&& forall|i: int|
                    0 <= i < replies@.len() ==> {
                        let key = (#[trigger] replies@[i]).0;
                        &&& state@.pending.contains_key(key)
                        &&& replies@[i].1.callback == state@.pending[key].callback
                        &&& replies@[i].1.result matches Err(s)
                        &&& s.0 == if status.0 < 0x4000_0000 {
                            BAD_CONNECTION_CLOSED
                        } else {
                            status.0
                        }
                    }
                &&& forall|i: int, j: int|
                    0 <= i < j < replies@.len() ==> (#[trigger] replies@[i]).0 != (
                    #[trigger] replies@[j]).0
                &&& forall|id: u32| #[trigger]
                    state@.pending.contains_key(id) ==> exists|i: int|
                        0 <= i < replies@.len() && (#[trigger] replies@[i]).0 == id
                &&& final(state)@.max_chunk_count == state@.max_chunk_count
                &&& final(state)@.sequence_numbers == state@.sequence_numbers
                &&& final(state)@.receive_buffer_size == state@.receive_buffer_size
            },
{
    assert forall|
        state: &mut TransportState<C>,
        status: StatusCode,
        replies: Vec<(u32, Reply<C>)>,
        id: u32,
    |
        #![trigger call_ensures(TransportState::<C>::close, (state, status), replies), state@.pending.contains_key(id)]
        call_ensures(TransportState::<C>::close, (state, status), replies)
            && state@.pending.contains_key(id) implies exists|i: int|
        0 <= i < replies@.len() && (#[trigger] replies@[i]).0 == id by {
        assert(state@.pending.dom().contains(id));
        assert(is_answered(id, replies@));
    }
}

/// A request that is noted is pending under its id, with its deadline and without chunks, if anyone
/// waits for it, and is not noted otherwise. One that could not be sent is no longer pending and is
/// told so, if anyone waits for it. No other request is touched.
pub proof fn law_requests_are_noted_and_given_up<C>()
    ensures
        forall|state: &mut TransportState<C>, id: u32, callback: Option<C>, deadline: Instant|
            #[trigger] call_ensures(
                TransportState::<C>::accept_outgoing,
                (state, id, callback, deadline),
                (),
            ) ==> {
                &&& callback is None ==> final(state)@ == state@
                &&& callback matches Some(c) ==> {
                    &&& final(state)@.pending == state@.pending.insert(
                        id,
                        final(state)@.pending[id],
                    )
                    &&& final(state)@.pending[id].callback == c
                    &&& final(state)@.pending[id].deadline == deadline
                    &&& final(state)@.pending[id].chunks.len() == 0
                }
                &&& final(state)@.max_chunk_count == state@.max_chunk_count
                &&& final(state)@.sequence_numbers == state@.sequence_numbers
            },
        forall|
            state: &mut TransportState<C>,
            id: u32,
            status: StatusCode,
            reply: Option<Reply<C>>,
        | #[trigger]
            call_ensures(TransportState::<C>::message_send_failed, (state, id, status), reply) ==> {
                &&& final(state)@.pending == state@.pending.remove(id)
                &&& reply is Some == state@.pending.contains_key(id)
                &&& reply matches Some(r) ==> {
                    &&& r.callback == state@.pending[id].callback
                    &&& r.result matches Err(s)
                    &&& s == status
                }
                &&& final(state)@.max_chunk_count == state@.max_chunk_count
                &&& final(state)@.sequence_numbers == state@.sequence_numbers
            },
{
}

/// A request that is still in the queue when the connection is closed is told so, if anyone waits
/// for it: with the status of the closing or, if that is good, that the connection was closed.
pub proof fn law_queued_requests_are_refused<C>(
    outgoing: OutgoingMessage<C>,
    status: StatusCode,
    reply: Option<Reply<C>>,
)
    requires
        call_ensures(TransportState::<C>::refuse_outgoing, (outgoing, status), reply),
    ensures
        reply is Some == outgoing.callback is Some,
        reply matches Some(r) ==> {
            &&& r.callback == outgoing.callback->0
            &&& r.result matches Err(s)
            &&& s.0 == if status.0 < 0x4000_0000 {
                BAD_CONNECTION_CLOSED
            } else {
                status.0
            }
        },
{
}

/// Sorting a chunk to its request does what the headers of the chunk call for: it is ignored where
/// no request waits for it, kept where more are to come, and ends the request otherwise.
pub proof fn law_sorting_follows_the_headers<C>()
    ensures
        forall|state: &mut TransportState<C>, info: ChunkInfo, data: Vec<u8>, step: ChunkStep<C>|
            #[trigger] call_ensures(
                TransportState::<C>::process_decoded_chunk,
                (state, info, data),
                step,
            ) ==> {
                let id = info.request_id;
                let kept = state@.pending[id].chunks;
                let waits_for = state@.pending[id].callback;
                let is_too_many = state@.max_chunk_count > 0 && kept.len() + 1
                    > state@.max_chunk_count;
                let now_kept = kept.push(ReceivedChunk { header: info, data: data@ });
                &&& final(state)@.max_chunk_count == state@.max_chunk_count
                &&& final(state)@.sequence_numbers == state@.sequence_numbers
                &&& if !state@.pending.contains_key(id) {
                    &&& step is Ignored
                    &&& final(state)@.pending == state@.pending
                } else if info.is_final == MessageIsFinalType::Intermediate && !is_too_many {
                    &&& step is Stored
                    &&& final(state)@.pending == state@.pending.insert(
                        id,
                        final(state)@.pending[id],
                    )
                    &&& final(state)@.pending[id].chunks == now_kept
                    &&& final(state)@.pending[id].callback == waits_for
                    &&& final(state)@.pending[id].deadline == state@.pending[id].deadline
                } else {
                    &&& final(state)@.pending == state@.pending.remove(id)
                    &&& info.is_final == MessageIsFinalType::Intermediate ==> (
                    step matches ChunkStep::Rejected { callback, status } && callback == waits_for
                        && status.0 == BAD_ENCODING_LIMITS_EXCEEDED)
                    &&& info.is_final == MessageIsFinalType::FinalError ==> (
                    step matches ChunkStep::Rejected { callback, status } && callback == waits_for
                        && status.0 == BAD_COMMUNICATION_ERROR)
                    &&& info.is_final == MessageIsFinalType::Final ==> (
                    step matches ChunkStep::Complete { callback, chunks } && callback == waits_for
                        && chunk_data(chunks@) == merged(now_kept))
                }
            },
{
    assert forall|
        state: &mut TransportState<C>,
        info: ChunkInfo,
        data: Vec<u8>,
        step: ChunkStep<C>,
    | #[trigger]
        call_ensures(
            TransportState::<C>::process_decoded_chunk,
            (state, info, data),
            step,
        ) implies (final(state)@, step@) == chunk_effect(state@, info, data@) by {}
}

/// A response is handed to whoever waits for it once it is decoded and, if it opens the channel,
/// once the keys are updated. A failure of either ends the connection with its status, unless the
/// keys fail with a good one.
pub proof fn law_responses_reach_whoever_waits<C>(
    callback: C,
    decoded: Result<Response, StatusCode>,
    outcome: IncomingOutcome<C>,
    response: Response,
    updated: Result<(), StatusCode>,
    finished: IncomingOutcome<C>,
)
    requires
        call_ensures(TransportState::<C>::answer, (callback, decoded), outcome),
        call_ensures(
            TransportState::<C>::finish_open_secure_channel,
            (callback, response, updated),
            finished,
        ),
    ensures
        decoded matches Ok(r) && !r.opens_secure_channel ==> (outcome matches IncomingOutcome::Done(
            Some(reply),
        ) && reply.callback == callback && reply.result == Ok::<ResponseMessage, StatusCode>(
            decoded->Ok_0.message,
        )),
        decoded matches Ok(r) && r.opens_secure_channel ==> (
        outcome matches IncomingOutcome::OpenSecureChannel { callback: c, response: s } && c
            == callback && s == decoded->Ok_0),
        decoded matches Err(status) ==> (outcome matches IncomingOutcome::Failed(s) && s == status),
        updated is Ok ==> (finished matches IncomingOutcome::Done(Some(reply)) && reply.callback
            == callback && reply.result == Ok::<ResponseMessage, StatusCode>(response.message)),
        updated matches Err(status) && status.0 >= 0x4000_0000 ==> (
        finished matches IncomingOutcome::Failed(s) && s == updated->Err_0),
        updated matches Err(status) && status.0 < 0x4000_0000 ==> (
        finished matches IncomingOutcome::Done(None)),
{
}

/// Dealing with a chunk leads to what the stack says of it.
pub proof fn law_processing_follows_the_stack<C>()
    ensures
        forall|
            state: &mut TransportState<C>,
            channel: SecureChannel,
            chunk: MessageChunk,
            outcome: IncomingOutcome<C>,
        | #[trigger]
            call_ensures(
                TransportState::<C>::process_chunk,
                (state, &channel, chunk),
                outcome,
            ) ==> raw_chunk_led_to(channel, state@, chunk.data@, final(state)@, outcome),
{
}

/// Dealing with a message passes a chunk on, reports an error of the server unless its status is
/// good, and takes any other message for unexpected. A failure is never reported with a good
/// status.
pub proof fn law_messages_are_dealt_with<C>()
    ensures
        forall|
            state: &mut TransportState<C>,
            channel: SecureChannel,
            message: Message,
            outcome: IncomingOutcome<C>,
        | #[trigger]
            call_ensures(
                TransportState::<C>::handle_incoming_message,
                (state, &channel, message),
                outcome,
            ) ==> {
                &&& outcome matches IncomingOutcome::Failed(s) ==> s.0 >= 0x4000_0000
                &&& !(message is Chunk) ==> final(state)@ == state@
                &&& message matches Message::Error(e) ==> if e.error.0 < 0x4000_0000 {
                    outcome matches IncomingOutcome::Done(None)
                } else {
                    outcome matches IncomingOutcome::Failed(s) && s == e.error
                }
                &&& !(message is Chunk) && !(message is Error) ==> (
                outcome matches IncomingOutcome::Failed(s) && s.0 == BAD_UNEXPECTED_ERROR)
                &&& message matches Message::Chunk(chunk) ==> exists|led_to: IncomingOutcome<C>|
                    #[trigger] raw_chunk_led_to(
                        channel,
                        state@,
                        chunk.data@,
                        final(state)@,
                        led_to,
                    ) && match led_to {
                        IncomingOutcome::Failed(s) => if s.0 < 0x4000_0000 {
                            outcome matches IncomingOutcome::Done(None)
                        } else {
                            outcome == led_to
                        },
                        _ => outcome == led_to,
                    }
            },
{
}

/// A new state has no pending requests, the limits that it is given, and the first number of its
/// numbering due.
pub proof fn law_new_state_is_empty<C>(
    is_legacy: bool,
    max_chunk_count: usize,
    receive_buffer_size: usize,
    state: TransportState<C>,
)
    requires
        call_ensures(
            TransportState::<C>::new,
            (is_legacy, max_chunk_count, receive_buffer_size),
            state,
        ),
    ensures
        forall|id: u32| !#[trigger] state@.pending.contains_key(id),
        state@.max_chunk_count == max_chunk_count,
        state@.receive_buffer_size == receive_buffer_size,
        state@.sequence_numbers.is_legacy == is_legacy,
        state@.sequence_numbers.current == if is_legacy {
            1int
        } else {
            0
        },
{
}

/// A chunk is known to be dealt with exactly if its security is known to come off and it is not
/// the last of a message, or nothing is pending.
pub proof fn law_checked_chunks_are_dealt_with<C>(
    state: TransportState<C>,
    channel: SecureChannel,
    chunk: MessageChunk,
    res: bool,
)
    requires
        call_ensures(TransportState::<C>::check_processing, (&state, &channel, &chunk), res),
    ensures
        res <==> removal_is_certain(channel, chunk.data@) && (chunk.data@.len() < 4
            || chunk.data@[3] != 0x46 || state@.pending == Map::<u32, Pending<C>>::empty()),
        res ==> may_process(channel, state@, chunk.data@),
{
}

/// A request is answered among replies exactly if one of them is for it.
pub proof fn law_answered_means_a_reply<C>(id: u32, replies: Seq<(u32, Reply<C>)>)
    ensures
        is_answered(id, replies) <==> exists|i: int|
            0 <= i < replies.len() && (#[trigger] replies[i]).0 == id,
{
}

} // verus!
