//! The transport over an established `opc.tcp` connection.
//!
//! One iteration of the transport's loop is a poll. The program around the library asks
//! [`TcpTransport::begin_poll`] whether there is still something to do, then
//! [`TcpTransport::prepare`] what to wait for, and reports the one thing that happened. If the
//! result is that the transport is closed, it closes it with [`TcpTransport::begin_close`],
//! [`TransportState::refuse_outgoing`] and [`TcpTransport::finish_close`].

use opcua_core::comms::buffer::SendBuffer;
use opcua_core::comms::secure_channel::SecureChannel;
use opcua_core::ResponseMessage;
use vstd::prelude::*;

use crate::channel::{check_split, is_secured, secured, split_is_certain};
use crate::message::{AcknowledgeMessage, Message};
use crate::send_buffer::{
    can_read, chunk_encoded, encode_next_chunk, last_request_id, may_encode, may_split,
    message_split, new_send_buffer, next_request_id, queued_more, revise, revised, same_settings,
    send_capacity, send_limits, send_numbers, send_output, send_pending, send_queue,
    should_encode_chunks, write_message, SendLimits,
};
use crate::stack::{describe, legacy_sequence_numbers, shape_of, Response};
use crate::status::{
    Error, StatusCode, BAD_COMMUNICATION_ERROR, BAD_CONNECTION_CLOSED, BAD_TIMEOUT,
    BAD_UNEXPECTED_ERROR, GOOD,
};
use crate::transport::pending::{
    answers_each, expired, is_answered, is_earliest, law_closing_again_answers_nothing, may_process,
    outcome_of_status, processing_is_certain, raw_chunk_led_to, request_status, unless_good,
    IncomingOutcome, Instant, OutgoingMessage, Pending, Reply, TransportState, TransportView,
};

verus! {

/// Result of polling a transport. This represents a single iteration of the transport's loop.
#[derive(Clone, Copy, Debug, PartialEq, Eq, Structural)]
pub enum TransportPollResult {
    /// An outgoing message was received and enqueued.
    OutgoingMessage,
    /// An outgoing message was sent to the server.
    OutgoingMessageSent,
    /// An incoming message was received from the server.
    IncomingMessage,
    /// An error occurred that is recoverable, so the transport can continue and
    /// simply fail the request.
    RecoverableError(StatusCode),
    /// The transport was closed with the given status code.
    Closed(StatusCode),
}

/// Whether the transport is in use.
#[derive(Clone, Copy, Debug, PartialEq, Eq, Structural)]
pub enum TransportCloseState {
    /// The transport is in use.
    Open,
    /// The transport is being closed with this status. Not all requests have been answered.
    Closing(StatusCode),
    /// The transport was closed with this status.
    Closed(StatusCode),
}

/// The limits that the client asks for.
#[derive(Clone, Copy, Debug, PartialEq, Eq, Structural)]
pub struct TransportConfiguration {
    /// The largest chunk to send.
    pub send_buffer_size: usize,
    /// The largest chunk to receive.
    pub recv_buffer_size: usize,
    /// The largest message, or 0 for no limit.
    pub max_message_size: usize,
    /// The most chunks of a message, or 0 for no limit.
    pub max_chunk_count: usize,
}

impl TransportConfiguration {
    /// The buffers that the limits ask for fit into memory.
    pub open spec fn fits(self) -> bool {
        &&& self.send_buffer_size + 1024 <= isize::MAX
        &&& self.max_chunk_count * 128 <= isize::MAX
    }

    /// Check that the buffers that the limits ask for fit into memory.
    pub fn fits_memory(&self) -> (res: bool)
        ensures
            res == self.fits(),
    {
        let most: usize = isize::MAX as usize;
        self.send_buffer_size <= most - 1024 && self.max_chunk_count <= most / 128
    }

    /// Whether the server means to send larger chunks than asked for, and whether it means to
    /// receive larger chunks than offered. Both are odd, but do no harm.
    pub fn exceeded_by(&self, ack: &AcknowledgeMessage) -> (res: (bool, bool))
        ensures
            res.0 == (ack.send_buffer_size > self.recv_buffer_size as u32),
            res.1 == (ack.receive_buffer_size > self.send_buffer_size as u32),
    {
        let receive: u32 = #[verifier::truncate]
        (self.recv_buffer_size as u32);
        let send: u32 = #[verifier::truncate]
        (self.send_buffer_size as u32);
        (ack.send_buffer_size > receive, ack.receive_buffer_size > send)
    }

    /// The limits on what is sent.
    pub open spec fn send_limits(self) -> SendLimits {
        SendLimits {
            send_buffer_size: self.send_buffer_size,
            max_message_size: self.max_message_size,
            max_chunk_count: self.max_chunk_count,
        }
    }
}

/// The limits of the server on what it is sent.
pub open spec fn acknowledged_limits(ack: AcknowledgeMessage) -> SendLimits {
    SendLimits {
        send_buffer_size: ack.receive_buffer_size as usize,
        max_message_size: ack.max_message_size as usize,
        max_chunk_count: ack.max_chunk_count as usize,
    }
}

/// The size of the largest chunk that will be received.
pub open spec fn negotiated_receive_size(
    config: TransportConfiguration,
    ack: AcknowledgeMessage,
) -> usize {
    let wanted = config.recv_buffer_size as u32;
    if ack.send_buffer_size <= wanted {
        ack.send_buffer_size as usize
    } else {
        wanted as usize
    }
}

/// A transport over an established connection. Whoever waits for an answer does so at a `C`.
pub struct TcpTransport<C> {
    state: TransportState<C>,
    /// The outgoing messages. Bytes that are pending in it are to be written to the connection.
    pub send_buffer: SendBuffer,
    should_close: bool,
    closed: TransportCloseState,
    connected_url: String,
    last_request_id: u32,
}

/// The mathematical content of a [`TcpTransport`].
pub struct TcpTransportView<C> {
    pub state: TransportView<C>,
    pub send_buffer: SendBuffer,
    pub should_close: bool,
    pub closed: TransportCloseState,
    pub connected_url: Seq<char>,
    pub last_request_id: u32,
}

impl<C> TcpTransportView<C> {
    /// The pending requests are well kept, and all of them have request ids that were handed
    /// out, so that the next one is free. The number of the next chunk exists.
    pub open spec fn wf(self) -> bool {
        &&& self.state.wf()
        &&& send_numbers(self.send_buffer).wf()
        &&& last_request_id(self.send_buffer) == self.last_request_id
        &&& forall|id: u32| #[trigger]
            self.state.pending.contains_key(id) ==> id <= self.last_request_id
    }

    /// The same transport with another state of its requests.
    pub open spec fn with_state(self, state: TransportView<C>) -> TcpTransportView<C> {
        TcpTransportView { state, ..self }
    }
}

impl<C> View for TcpTransport<C> {
    type V = TcpTransportView<C>;

    closed spec fn view(&self) -> TcpTransportView<C> {
        TcpTransportView {
            state: self.state@,
            send_buffer: self.send_buffer,
            should_close: self.should_close,
            closed: self.closed,
            connected_url: self.connected_url@,
            last_request_id: self.last_request_id,
        }
    }
}

/// What a poll starts with.
#[derive(Clone, Copy, Debug, PartialEq, Eq, Structural)]
pub enum PollStart {
    /// Do one thing.
    Poll,
    /// Go on closing the transport with this status.
    Close(StatusCode),
    /// The transport was closed with this status.
    Closed(StatusCode),
}

/// What a poll starts with in each state.
pub open spec fn poll_start(closed: TransportCloseState) -> PollStart {
    match closed {
        TransportCloseState::Open => PollStart::Poll,
        TransportCloseState::Closing(status) => PollStart::Close(status),
        TransportCloseState::Closed(status) => PollStart::Closed(status),
    }
}

/// What a poll waits for.
#[derive(Clone, Copy, Debug, PartialEq, Eq, Structural)]
pub enum PollAction {
    /// Write pending bytes to the connection, or read a message from it.
    WriteOrRead,
    /// Receive an outgoing message, or read a message from the connection.
    ReceiveOrRead,
    /// Nothing: this is the result.
    Done(TransportPollResult),
}

/// What a poll waits for, once the send buffer holds what it is to hold. Outgoing messages are
/// only received while nothing is being sent.
pub open spec fn poll_action<C>(transport: TcpTransportView<C>) -> PollAction {
    if send_pending(transport.send_buffer) {
        PollAction::WriteOrRead
    } else if transport.should_close {
        PollAction::Done(TransportPollResult::Closed(StatusCode(GOOD)))
    } else {
        PollAction::ReceiveOrRead
    }
}

/// Whether there is a chunk to encode.
pub open spec fn must_encode(buffer: SendBuffer) -> bool {
    send_queue(buffer).len() > 0 && !send_pending(buffer)
}

/// How a poll is prepared: if chunks wait and nothing is pending, the first of them is encoded.
pub open spec fn prepared<C>(
    channel: SecureChannel,
    before: TcpTransportView<C>,
    after: TcpTransportView<C>,
    action: PollAction,
) -> bool {
    let waiting = send_queue(before.send_buffer);
    if !must_encode(before.send_buffer) {
        after == before && action == poll_action(before)
    } else {
        &&& after == TcpTransportView { send_buffer: after.send_buffer, ..before }
        &&& same_settings(after.send_buffer, before.send_buffer)
        &&& send_numbers(after.send_buffer) == send_numbers(before.send_buffer)
        &&& send_queue(after.send_buffer) == waiting.drop_first()
        &&& match action {
            PollAction::WriteOrRead => send_pending(after.send_buffer) && chunk_encoded(
                before.send_buffer,
                channel,
                Ok(send_output(after.send_buffer)),
            ),
            PollAction::Done(TransportPollResult::Closed(status)) => chunk_encoded(
                before.send_buffer,
                channel,
                Err(status),
            ),
            _ => false,
        }
    }
}

/// The state of the requests once an outgoing message has been received, under the next
/// request id.
pub open spec fn outgoing_accepted<C>(
    before: TcpTransportView<C>,
    outgoing: OutgoingMessage<C>,
) -> TransportView<C> {
    let id = (before.last_request_id + 1) as u32;
    match outgoing.callback {
        Some(callback) => before.state.with_pending(
            before.state.pending.insert(
                id,
                Pending { callback, chunks: Seq::empty(), deadline: outgoing.deadline },
            ),
        ),
        None => before.state,
    }
}

/// The failure to send the request of an error with full context is the request's own. Any
/// other error ends the connection.
pub open spec fn send_result(sent: Result<u32, Error>) -> TransportPollResult {
    match sent {
        Ok(_) => TransportPollResult::OutgoingMessage,
        Err(e) => match e.context() {
            Some(_) => TransportPollResult::RecoverableError(e.status),
            None => TransportPollResult::Closed(e.status),
        },
    }
}

/// The requests that are pending once a message has been sent or could not be sent.
pub open spec fn send_pending_requests<C>(
    pending: Map<u32, Pending<C>>,
    sent: Result<u32, Error>,
) -> Map<u32, Pending<C>> {
    match sent {
        Err(e) => match e.context() {
            Some((id, _)) => pending.remove(id),
            None => pending,
        },
        Ok(_) => pending,
    }
}

/// The answer to a request that could not be sent, if anyone waits for it.
pub open spec fn send_reply<C>(
    pending: Map<u32, Pending<C>>,
    sent: Result<u32, Error>,
) -> Option<Reply<C>> {
    match sent {
        Err(e) => match e.context() {
            Some((id, _)) => if pending.contains_key(id) {
                Some(Reply { callback: pending[id].callback, result: Err(e.status) })
            } else {
                None
            },
            None => None,
        },
        Ok(_) => None,
    }
}

/// What receiving an outgoing message leads to: it gets the next request id and is split into
/// chunks, which wait to be sent and take the next sequence numbers, or it cannot be sent and
/// its request is answered.
pub open spec fn outgoing_led_to<C>(
    channel: SecureChannel,
    before: TcpTransportView<C>,
    outgoing: OutgoingMessage<C>,
    after: TcpTransportView<C>,
    result: TransportPollResult,
    reply: Option<Reply<C>>,
) -> bool {
    let id = (before.last_request_id + 1) as u32;
    let accepted = outgoing_accepted(before, outgoing);
    &&& after == TcpTransportView {
        state: after.state,
        send_buffer: after.send_buffer,
        should_close: before.should_close || outgoing.request.closes_secure_channel,
        last_request_id: id,
        ..before
    }
    &&& send_pending(after.send_buffer) == send_pending(before.send_buffer)
    &&& send_output(after.send_buffer) == send_output(before.send_buffer)
    &&& send_limits(after.send_buffer) == send_limits(before.send_buffer)
    &&& send_capacity(after.send_buffer) == send_capacity(before.send_buffer)
    &&& send_numbers(after.send_buffer).is_legacy == send_numbers(before.send_buffer).is_legacy
    &&& match result {
        TransportPollResult::OutgoingMessage => {
            &&& after.state == accepted
            &&& reply is None
            &&& queued_more(
                before.send_buffer,
                channel,
                id,
                outgoing.request.message,
                after.send_buffer,
            )
        },
        TransportPollResult::RecoverableError(status) => {
            &&& after.state == accepted.with_pending(accepted.pending.remove(id))
            &&& reply == match outgoing.callback {
                Some(callback) => Some(Reply { callback, result: Err(status) }),
                None => None,
            }
            &&& send_queue(after.send_buffer) == send_queue(before.send_buffer)
            &&& send_numbers(after.send_buffer) == send_numbers(before.send_buffer)
            &&& message_refused(channel, before.send_buffer, id, outgoing, status)
        },
        _ => false,
    }
}

/// The message under the request id `id` could not be split into chunks.
pub open spec fn message_refused<C>(
    channel: SecureChannel,
    before: SendBuffer,
    id: u32,
    outgoing: OutgoingMessage<C>,
    status: StatusCode,
) -> bool {
    exists|e: Error| #[trigger]
        message_split(
            send_limits(before),
            send_numbers(before),
            channel,
            id,
            outgoing.request.message,
            Err(e),
        ) && e.status == status
}

/// What reading from the connection leads to.
pub enum IncomingStep<C> {
    /// The poll is over. A request may have been answered.
    Finished { result: TransportPollResult, reply: Option<Reply<C>> },
    /// The message answers a request to open or renew the secure channel. The keys of the
    /// channel have to be updated right now, before anything else is read. Go on with
    /// [`TcpTransport::finish_open_secure_channel`].
    OpenSecureChannel { callback: C, response: Response },
}

/// The step for the outcome of a message.
pub open spec fn incoming_step<C>(outcome: IncomingOutcome<C>) -> IncomingStep<C> {
    match outcome {
        IncomingOutcome::Done(reply) => IncomingStep::Finished {
            result: TransportPollResult::IncomingMessage,
            reply,
        },
        IncomingOutcome::OpenSecureChannel { callback, response } => {
            IncomingStep::OpenSecureChannel { callback, response }
        },
        IncomingOutcome::Failed(status) => IncomingStep::Finished {
            result: TransportPollResult::Closed(status),
            reply: None,
        },
    }
}

/// The step that ends the connection with a status.
pub open spec fn closed_step<C>(status: u32) -> IncomingStep<C> {
    IncomingStep::Finished {
        result: TransportPollResult::Closed(StatusCode(status)),
        reply: None,
    }
}

/// Whether the stack can deal with what was read from the connection.
pub open spec fn may_receive<C>(
    channel: SecureChannel,
    before: TcpTransportView<C>,
    incoming: Option<Result<Message, ()>>,
) -> bool {
    incoming matches Some(Ok(Message::Chunk(chunk))) ==> may_process(
        channel,
        before.state,
        chunk@,
    )
}

/// Whether the stack can deal with an outgoing message under the next request id.
pub open spec fn may_send<C>(
    channel: SecureChannel,
    before: TcpTransportView<C>,
    outgoing: OutgoingMessage<C>,
) -> bool {
    may_split(
        send_limits(before.send_buffer),
        send_numbers(before.send_buffer),
        channel,
        (before.last_request_id + 1) as u32,
        outgoing.request.message,
    )
}

/// What reading from the connection leads to: a message, a failure to read one, or, for `None`,
/// the end of the stream.
pub open spec fn incoming_led_to<C>(
    channel: SecureChannel,
    before: TcpTransportView<C>,
    incoming: Option<Result<Message, ()>>,
    after: TcpTransportView<C>,
    step: IncomingStep<C>,
) -> bool {
    &&& after == before.with_state(after.state)
    &&& match incoming {
        None => after == before && step == closed_step::<C>(BAD_COMMUNICATION_ERROR),
        Some(Err(_)) => after == before && step == closed_step::<C>(BAD_CONNECTION_CLOSED),
        Some(Ok(message)) => message_handled(channel, before.state, message, after.state, step),
    }
}

/// What a message read from the connection leads to.
pub open spec fn message_handled<C>(
    channel: SecureChannel,
    before: TransportView<C>,
    message: Message,
    after: TransportView<C>,
    step: IncomingStep<C>,
) -> bool {
    match message {
        Message::Chunk(chunk) => exists|outcome: IncomingOutcome<C>|
            step == incoming_step(unless_good(outcome)) && #[trigger] raw_chunk_led_to(
                channel,
                before,
                chunk@,
                after,
                outcome,
            ),
        Message::Error(error) => after == before && step == incoming_step::<C>(
            outcome_of_status(error.error),
        ),
        _ => after == before && step == closed_step::<C>(BAD_UNEXPECTED_ERROR),
    }
}

/// The transport once it has started to close with a status: no request is pending.
pub open spec fn close_begun<C>(before: TcpTransportView<C>, status: StatusCode) -> TcpTransportView<
    C,
> {
    TcpTransportView {
        closed: TransportCloseState::Closing(status),
        state: before.state.with_pending(Map::empty()),
        ..before
    }
}

/// The transport once it is closed with a status.
pub open spec fn close_finished<C>(
    before: TcpTransportView<C>,
    status: StatusCode,
) -> TcpTransportView<C> {
    TcpTransportView { closed: TransportCloseState::Closed(status), ..before }
}

impl<C> TcpTransport<C> {
    /// A transport over a connection on which hello and acknowledge have been exchanged.
    pub fn new(
        config: TransportConfiguration,
        ack: AcknowledgeMessage,
        channel: &SecureChannel,
        connected_url: String,
    ) -> (res: Self)
        requires
            config.fits(),
        ensures
            res@.wf(),
            res@.state.pending == Map::<u32, Pending<C>>::empty(),
            res@.state.max_chunk_count == config.max_chunk_count,
            res@.state.receive_buffer_size == negotiated_receive_size(config, ack),
            res@.state.sequence_numbers.is_legacy,
            res@.state.sequence_numbers.current == 1,
            send_queue(res@.send_buffer) == Seq::<Seq<u8>>::empty(),
            !send_pending(res@.send_buffer),
            send_limits(res@.send_buffer) == revised(
                config.send_limits(),
                acknowledged_limits(ack),
            ),
            send_capacity(res@.send_buffer) == config.send_buffer_size + 1024,
            send_numbers(res@.send_buffer).is_legacy,
            send_numbers(res@.send_buffer).current == 1,
            res@.last_request_id == 1000,
            !res@.should_close,
            res@.closed == TransportCloseState::Open,
            res@.connected_url == connected_url@,
    {
        let is_legacy = legacy_sequence_numbers(channel);
        let mut send_buffer = new_send_buffer(
            SendLimits {
                send_buffer_size: config.send_buffer_size,
                max_message_size: config.max_message_size,
                max_chunk_count: config.max_chunk_count,
            },
            is_legacy,
        );
        revise(
            &mut send_buffer,
            SendLimits {
                send_buffer_size: ack.receive_buffer_size as usize,
                max_message_size: ack.max_message_size as usize,
                max_chunk_count: ack.max_chunk_count as usize,
            },
        );
        let wanted: u32 = #[verifier::truncate]
        (config.recv_buffer_size as u32);
        let receive_buffer_size: u32 = if ack.send_buffer_size <= wanted {
            ack.send_buffer_size
        } else {
            wanted
        };
        TcpTransport {
            state: TransportState::new(
                is_legacy,
                config.max_chunk_count,
                receive_buffer_size as usize,
            ),
            send_buffer,
            should_close: false,
            closed: TransportCloseState::Open,
            connected_url,
            last_request_id: 1000,
        }
    }

    /// The URL of the endpoint that the transport is connected to.
    pub fn connected_url(&self) -> (res: &str)
        ensures
            res@ == self@.connected_url,
    {
        self.connected_url.as_str()
    }

    /// Whether there is a request id left for another outgoing message.
    pub fn has_request_id(&self) -> (res: bool)
        ensures
            res == (self@.last_request_id < u32::MAX),
    {
        self.last_request_id < u32::MAX
    }

    /// Find out what a poll starts with.
    pub fn begin_poll(&self) -> (res: PollStart)
        ensures
            res == poll_start(self@.closed),
    {
        match self.closed {
            TransportCloseState::Open => PollStart::Poll,
            TransportCloseState::Closing(status) => PollStart::Close(status),
            TransportCloseState::Closed(status) => PollStart::Closed(status),
        }
    }

    /// Encode the next chunk if nothing is pending, and find out what to wait for.
    ///
    /// Either there is something in the send buffer, which can be sent, or more outgoing
    /// messages are awaited. Outgoing messages are not awaited while sending, since that could
    /// cause the send buffer to fill up.
    pub fn prepare(&mut self, channel: &SecureChannel) -> (res: PollAction)
        requires
            old(self)@.wf(),
            must_encode(old(self)@.send_buffer) ==> may_encode(old(self)@.send_buffer, *channel),
        ensures
            final(self)@.wf(),
            prepared(*channel, old(self)@, final(self)@, res),
    {
        if should_encode_chunks(&self.send_buffer) {
            if let Err(status) = encode_next_chunk(&mut self.send_buffer, channel) {
                return PollAction::Done(TransportPollResult::Closed(status));
            }
        }
        if can_read(&self.send_buffer) {
            PollAction::WriteOrRead
        } else if self.should_close {
            PollAction::Done(TransportPollResult::Closed(StatusCode(GOOD)))
        } else {
            PollAction::ReceiveOrRead
        }
    }

    /// Prepare a poll as [`TcpTransport::prepare`] does, unless that takes keys: if there is a
    /// chunk to encode on a secured channel, nothing is done.
    pub fn try_prepare(&mut self, channel: &SecureChannel) -> (res: Option<PollAction>)
        requires
            old(self)@.wf(),
        ensures
            final(self)@.wf(),
            res is None == (must_encode(old(self)@.send_buffer) && secured(*channel)),
            match res {
                Some(action) => prepared(*channel, old(self)@, final(self)@, action),
                None => final(self)@ == old(self)@,
            },
    {
        if should_encode_chunks(&self.send_buffer) && is_secured(channel) {
            None
        } else {
            Some(self.prepare(channel))
        }
    }

    /// Pending bytes were written to the connection, or that failed.
    pub fn after_write(written: bool) -> (res: TransportPollResult)
        ensures
            res == if written {
                TransportPollResult::OutgoingMessageSent
            } else {
                TransportPollResult::Closed(StatusCode(BAD_COMMUNICATION_ERROR))
            },
    {
        if written {
            TransportPollResult::OutgoingMessageSent
        } else {
            TransportPollResult::Closed(StatusCode(BAD_COMMUNICATION_ERROR))
        }
    }

    /// Give up on the requests whose deadline has come, and find out when the next request
    /// will time out.
    pub fn next_timeout(&mut self, now: Instant) -> (res: (Option<Instant>, Vec<(u32, Reply<C>)>))
        requires
            old(self)@.wf(),
        ensures
            final(self)@.wf(),
            final(self)@ == old(self)@.with_state(
                old(self)@.state.with_pending(
                    old(self)@.state.pending.remove_keys(expired(old(self)@.state.pending, now)),
                ),
            ),
            answers_each(
                old(self)@.state.pending,
                expired(old(self)@.state.pending, now),
                StatusCode(BAD_TIMEOUT),
                res.1@,
            ),
            is_earliest(final(self)@.state.pending, res.0),
    {
        self.state.next_timeout(now)
    }

    /// Give an outgoing message the next request id and queue it. Once there will be no more
    /// outgoing messages, which is what `None` says, the transport is closed.
    pub fn handle_outgoing_message(
        &mut self,
        channel: &SecureChannel,
        outgoing: Option<OutgoingMessage<C>>,
    ) -> (res: (TransportPollResult, Option<Reply<C>>))
        requires
            old(self)@.wf(),
            outgoing is Some ==> old(self)@.last_request_id < u32::MAX,
            outgoing matches Some(message) ==> may_send(*channel, old(self)@, message),
        ensures
            final(self)@.wf(),
            match outgoing {
                Some(message) => outgoing_led_to(
                    *channel,
                    old(self)@,
                    message,
                    final(self)@,
                    res.0,
                    res.1,
                ),
                None => final(self)@ == old(self)@ && res == (
                    TransportPollResult::Closed(StatusCode(GOOD)),
                    None::<Reply<C>>,
                ),
            },
    {
        let Some(outgoing) = outgoing else {
            return (TransportPollResult::Closed(StatusCode(GOOD)), None);
        };
        let request_id: u32 = next_request_id(&mut self.send_buffer);
        self.last_request_id = request_id;
        self.state.accept_outgoing(request_id, outgoing.callback, outgoing.deadline);
        if outgoing.request.closes_secure_channel {
            self.should_close = true;
        }
        let sent = write_message(
            &mut self.send_buffer,
            request_id,
            outgoing.request.message,
            channel,
        );
        self.after_send(sent)
    }

    /// Deal with an outgoing message as [`TcpTransport::handle_outgoing_message`] does, unless
    /// the channel is not known to be set up for it: then the message is handed back.
    pub fn try_handle_outgoing_message(
        &mut self,
        channel: &SecureChannel,
        outgoing: Option<OutgoingMessage<C>>,
    ) -> (res: Result<(TransportPollResult, Option<Reply<C>>), OutgoingMessage<C>>)
        requires
            old(self)@.wf(),
            outgoing is Some ==> old(self)@.last_request_id < u32::MAX,
        ensures
            final(self)@.wf(),
            match (outgoing, res) {
                (Some(message), Ok((result, reply))) => {
                    &&& split_is_certain(*channel, shape_of(message.request.message))
                    &&& outgoing_led_to(
                        *channel,
                        old(self)@,
                        message,
                        final(self)@,
                        result,
                        reply,
                    )
                },
                (Some(message), Err(handed_back)) => {
                    &&& !split_is_certain(*channel, shape_of(message.request.message))
                    &&& handed_back == message
                    &&& final(self)@ == old(self)@
                },
                (None, Ok(step)) => final(self)@ == old(self)@ && step == (
                    TransportPollResult::Closed(StatusCode(GOOD)),
                    None::<Reply<C>>,
                ),
                (None, Err(_)) => false,
            },
    {
        if let Some(message) = outgoing {
            if check_split(channel, describe(&message.request.message)) {
                Ok(self.handle_outgoing_message(channel, Some(message)))
            } else {
                Err(message)
            }
        } else {
            Ok(self.handle_outgoing_message(channel, None))
        }
    }

    /// An outgoing message was queued, or that failed. If the error says which request it
    /// belongs to, only that request fails.
    pub fn after_send(&mut self, sent: Result<u32, Error>) -> (res: (
        TransportPollResult,
        Option<Reply<C>>,
    ))
        requires
            old(self)@.wf(),
        ensures
            final(self)@.wf(),
            final(self)@ == old(self)@.with_state(
                old(self)@.state.with_pending(
                    send_pending_requests(old(self)@.state.pending, sent),
                ),
            ),
            res.0 == send_result(sent),
            res.1 == send_reply(old(self)@.state.pending, sent),
    {
        match sent {
            Ok(_) => (TransportPollResult::OutgoingMessage, None),
            Err(e) => match e.full_context() {
                Some((request_id, _)) => {
                    let reply = self.state.message_send_failed(request_id, e.status);
                    (TransportPollResult::RecoverableError(e.status), reply)
                },
                None => (TransportPollResult::Closed(e.status), None),
            },
        }
    }

    /// Deal with what was read from the connection: a message, a failure to read one, or, for
    /// `None`, the end of the stream.
    pub fn handle_incoming_message(
        &mut self,
        channel: &SecureChannel,
        incoming: Option<Result<Message, ()>>,
    ) -> (res: IncomingStep<C>)
        requires
            old(self)@.wf(),
            may_receive(*channel, old(self)@, incoming),
        ensures
            final(self)@.wf(),
            incoming_led_to(*channel, old(self)@, incoming, final(self)@, res),
    {
        let Some(incoming) = incoming else {
            return IncomingStep::Finished {
                result: TransportPollResult::Closed(StatusCode(BAD_COMMUNICATION_ERROR)),
                reply: None,
            };
        };
        match incoming {
            Ok(message) => {
                let outcome = self.state.handle_incoming_message(channel, message);
                Self::step(outcome)
            },
            Err(_) => IncomingStep::Finished {
                result: TransportPollResult::Closed(StatusCode(BAD_CONNECTION_CLOSED)),
                reply: None,
            },
        }
    }

    /// Deal with what was read from the connection as
    /// [`TcpTransport::handle_incoming_message`] does, unless the channel is not known to be set
    /// up for it: then what was read is handed back. That goes for a chunk that is encrypted or
    /// too short for its signature, and for one that may complete a response.
    pub fn try_handle_incoming_message(
        &mut self,
        channel: &SecureChannel,
        incoming: Option<Result<Message, ()>>,
    ) -> (res: Result<IncomingStep<C>, Option<Result<Message, ()>>>)
        requires
            old(self)@.wf(),
        ensures
            final(self)@.wf(),
            match incoming {
                Some(Ok(Message::Chunk(chunk))) => res is Ok == processing_is_certain(
                    *channel,
                    old(self)@.state,
                    chunk@,
                ),
                _ => res is Ok,
            },
            match res {
                Ok(step) => incoming_led_to(*channel, old(self)@, incoming, final(self)@, step),
                Err(handed_back) => handed_back == incoming && final(self)@ == old(self)@,
            },
    {
        if let Some(Ok(Message::Chunk(chunk))) = &incoming {
            if !self.state.check_processing(channel, chunk) {
                return Err(incoming);
            }
        }
        Ok(self.handle_incoming_message(channel, incoming))
    }

    /// Turn the outcome of a message into the step of the poll.
    fn step(outcome: IncomingOutcome<C>) -> (res: IncomingStep<C>)
        ensures
            res == incoming_step(outcome),
    {
        match outcome {
            IncomingOutcome::Done(reply) => IncomingStep::Finished {
                result: TransportPollResult::IncomingMessage,
                reply,
            },
            IncomingOutcome::OpenSecureChannel { callback, response } => {
                IncomingStep::OpenSecureChannel { callback, response }
            },
            IncomingOutcome::Failed(status) => IncomingStep::Finished {
                result: TransportPollResult::Closed(status),
                reply: None,
            },
        }
    }

    /// The keys of the secure channel were updated, or that failed: answer the request to open
    /// or renew it, or close the transport.
    pub fn finish_open_secure_channel(
        callback: C,
        response: Response,
        updated: Result<(), StatusCode>,
    ) -> (res: IncomingStep<C>)
        ensures
            res == incoming_step(
                match updated {
                    Ok(_) => IncomingOutcome::Done(
                        Some(Reply { callback, result: Ok(response.message) }),
                    ),
                    Err(status) => outcome_of_status(status),
                },
            ),
    {
        Self::step(TransportState::finish_open_secure_channel(callback, response, updated))
    }

    /// Start closing the transport: answer all pending requests.
    ///
    /// Closing may be interrupted before [`TcpTransport::finish_close`]. Then the next poll goes
    /// on with it, starting here.
    pub fn begin_close(&mut self, status: StatusCode) -> (replies: Vec<(u32, Reply<C>)>)
        requires
            old(self)@.wf(),
        ensures
            final(self)@.wf(),
            final(self)@ == close_begun(old(self)@, status),
            answers_each(
                old(self)@.state.pending,
                old(self)@.state.pending.dom(),
                request_status(status),
                replies@,
            ),
    {
        self.closed = TransportCloseState::Closing(status);
        self.state.close(status)
    }

    /// All requests have been answered: the transport is closed.
    pub fn finish_close(&mut self, status: StatusCode) -> (res: TransportPollResult)
        requires
            old(self)@.wf(),
            old(self)@.closed == TransportCloseState::Closing(status),
            old(self)@.state.pending == Map::<u32, Pending<C>>::empty(),
        ensures
            final(self)@.wf(),
            final(self)@ == close_finished(old(self)@, status),
            res == TransportPollResult::Closed(status),
    {
        self.closed = TransportCloseState::Closed(status);
        TransportPollResult::Closed(status)
    }
}

/// An outgoing message gets a request id that no pending request has, so that noting it loses
/// no other request.
pub proof fn law_request_ids_are_fresh<C>(
    before: TcpTransportView<C>,
    outgoing: OutgoingMessage<C>,
    other: u32,
)
    requires
        before.wf(),
        before.last_request_id < u32::MAX,
        before.state.pending.contains_key(other),
    ensures
        other != before.last_request_id + 1,
        outgoing_accepted(before, outgoing).pending.contains_key(other),
        outgoing_accepted(before, outgoing).pending[other] == before.state.pending[other],
{
}

/// A message that cannot be sent leaves nothing behind: the same requests are pending and the
/// same chunks wait as before, and whoever waited for its answer gets one.
pub proof fn law_failed_send_leaves_no_trace<C>(
    channel: SecureChannel,
    before: TcpTransportView<C>,
    outgoing: OutgoingMessage<C>,
    after: TcpTransportView<C>,
    status: StatusCode,
    reply: Option<Reply<C>>,
)
    requires
        before.wf(),
        before.last_request_id < u32::MAX,
        outgoing_led_to(
            channel,
            before,
            outgoing,
            after,
            TransportPollResult::RecoverableError(status),
            reply,
        ),
    ensures
        after.state == before.state,
        send_queue(after.send_buffer) == send_queue(before.send_buffer),
        send_numbers(after.send_buffer) == send_numbers(before.send_buffer),
        reply is Some == outgoing.callback is Some,
{
    assert(after.state.pending =~= before.state.pending);
}

/// Outgoing messages are only received once everything that was received before has been
/// written, and none are received after a request to close the secure channel.
pub proof fn law_outgoing_messages_wait_their_turn<C>(
    channel: SecureChannel,
    before: TcpTransportView<C>,
    after: TcpTransportView<C>,
)
    requires
        prepared(channel, before, after, PollAction::ReceiveOrRead),
    ensures
        send_queue(before.send_buffer).len() == 0,
        !send_pending(before.send_buffer),
        !before.should_close,
{
}

/// Once a request to close the secure channel has been received and everything has been
/// written, the transport is closed with a good status.
pub proof fn law_close_request_closes<C>(
    channel: SecureChannel,
    before: TcpTransportView<C>,
    outgoing: OutgoingMessage<C>,
    sent: TcpTransportView<C>,
    result: TransportPollResult,
    reply: Option<Reply<C>>,
    written: TcpTransportView<C>,
    after: TcpTransportView<C>,
    action: PollAction,
)
    requires
        outgoing.request.closes_secure_channel,
        outgoing_led_to(channel, before, outgoing, sent, result, reply),
        written == (TcpTransportView { send_buffer: written.send_buffer, ..sent }),
        send_queue(written.send_buffer).len() == 0,
        !send_pending(written.send_buffer),
        prepared(channel, written, after, action),
    ensures
        action == PollAction::Done(TransportPollResult::Closed(StatusCode(GOOD))),
{
}

/// A poll that is dropped while it waits loses nothing: a chunk that was encoded for it is still
/// there to be written, no request is affected, and the next poll waits for the same.
pub proof fn law_dropped_poll_loses_nothing<C>(
    channel: SecureChannel,
    before: TcpTransportView<C>,
    dropped: TcpTransportView<C>,
    action: PollAction,
    later_channel: SecureChannel,
    after: TcpTransportView<C>,
    later_action: PollAction,
)
    requires
        prepared(channel, before, dropped, action),
        !(action is Done),
        prepared(later_channel, dropped, after, later_action),
    ensures
        after == dropped,
        later_action == action,
        poll_start(after.closed) == poll_start(before.closed),
        after.state == before.state,
        if must_encode(before.send_buffer) {
            &&& seq![send_queue(before.send_buffer)[0]] + send_queue(after.send_buffer)
                == send_queue(before.send_buffer)
            &&& send_pending(after.send_buffer)
            &&& chunk_encoded(before.send_buffer, channel, Ok(send_output(after.send_buffer)))
        } else {
            after == before
        },
{
}

/// Closing that is interrupted is gone on with: the next poll starts with it, under the same
/// status. No request is left to be answered, so that starting again changes nothing and
/// answers nothing, and once closing is finished every poll reports that status.
pub proof fn law_interrupted_close_is_resumed<C>(
    before: TcpTransportView<C>,
    status: StatusCode,
    replies: Seq<(u32, Reply<C>)>,
)
    requires
        answers_each(
            close_begun(before, status).state.pending,
            close_begun(before, status).state.pending.dom(),
            request_status(status),
            replies,
        ),
    ensures
        poll_start(close_begun(before, status).closed) == PollStart::Close(status),
        close_begun(close_begun(before, status), status) == close_begun(before, status),
        replies.len() == 0,
        close_finished(close_begun(before, status), status).state.pending == Map::<
            u32,
            Pending<C>,
        >::empty(),
        poll_start(close_finished(close_begun(before, status), status).closed)
            == PollStart::Closed(status),
{
    law_closing_again_answers_nothing(before.state, status, replies);
}

/// Sending and receiving leave a closed transport closed: every later poll reports the status
/// with which it was closed, and one that was interrupted while closing goes on closing.
pub proof fn law_closed_is_final<C>(
    channel: SecureChannel,
    before: TcpTransportView<C>,
    outgoing: OutgoingMessage<C>,
    after: TcpTransportView<C>,
    action: PollAction,
    result: TransportPollResult,
    reply: Option<Reply<C>>,
)
    requires
        before.closed != TransportCloseState::Open,
        prepared(channel, before, after, action) || outgoing_led_to(
            channel,
            before,
            outgoing,
            after,
            result,
            reply,
        ) || after == before.with_state(after.state),
    ensures
        poll_start(after.closed) == poll_start(before.closed),
        poll_start(after.closed) != PollStart::Poll,
{
}

/// The limits of a transport are negotiated: nothing is sent that exceeds what the client is set up
/// for or what the server takes, where 0 stands for no limit on messages or chunks of the server,
/// and no chunk is received that exceeds what either of them is set up for.
pub proof fn law_limits_are_negotiated(
    config: TransportConfiguration,
    ack: AcknowledgeMessage,
    limits: SendLimits,
)
    requires
        limits == revised(config.send_limits(), acknowledged_limits(ack)),
    ensures
        limits.send_buffer_size == if ack.receive_buffer_size < config.send_buffer_size {
            ack.receive_buffer_size as usize
        } else {
            config.send_buffer_size
        },
        limits.max_message_size == if 0 < ack.max_message_size < config.max_message_size {
            ack.max_message_size as usize
        } else {
            config.max_message_size
        },
        limits.max_chunk_count == if 0 < ack.max_chunk_count < config.max_chunk_count {
            ack.max_chunk_count as usize
        } else {
            config.max_chunk_count
        },
        negotiated_receive_size(config, ack) <= ack.send_buffer_size,
        negotiated_receive_size(config, ack) <= config.recv_buffer_size as u32,
        negotiated_receive_size(config, ack) == ack.send_buffer_size || negotiated_receive_size(
            config,
            ack,
        ) == config.recv_buffer_size as u32,
{
}

/// The buffers that a configuration asks for fit into memory exactly if the output, which takes
/// 1024 bytes more than a chunk, and the queue, with 128 bytes for each chunk, do.
pub proof fn law_configuration_fits_memory(config: TransportConfiguration)
    ensures
        config.fits() <==> config.send_buffer_size <= isize::MAX - 1024 && config.max_chunk_count
            <= isize::MAX / 128,
{
}

/// A poll of an open transport does one thing, one of a transport that is being closed goes on with
/// that, and one of a closed transport only reports the status.
pub proof fn law_poll_starts_with_the_state(closed: TransportCloseState)
    ensures
        closed is Open <==> poll_start(closed) is Poll,
        closed matches TransportCloseState::Closing(status) ==> (
        poll_start(closed) matches PollStart::Close(s) && s == status),
        closed matches TransportCloseState::Closed(status) ==> (
        poll_start(closed) matches PollStart::Closed(s) && s == status),
{
}

/// Preparing a poll touches nothing but the send buffer, and that only to encode the first chunk
/// that waits, while nothing is pending. If that fails, the transport is closed with the status
/// of the failure. Then what is pending is to be written. If nothing is, the transport is closed
/// with a good status if it should, and outgoing messages are received otherwise.
pub proof fn law_poll_writes_before_it_receives<C>(
    channel: SecureChannel,
    before: TcpTransportView<C>,
    after: TcpTransportView<C>,
    action: PollAction,
)
    requires
        prepared(channel, before, after, action),
    ensures
        after.state == before.state,
        after.should_close == before.should_close,
        after.closed == before.closed,
        after.connected_url == before.connected_url,
        after.last_request_id == before.last_request_id,
        send_limits(after.send_buffer) == send_limits(before.send_buffer),
        send_numbers(after.send_buffer) == send_numbers(before.send_buffer),
        last_request_id(after.send_buffer) == last_request_id(before.send_buffer),
        if send_queue(before.send_buffer).len() > 0 && !send_pending(before.send_buffer) {
            &&& send_queue(before.send_buffer) == seq![send_queue(before.send_buffer)[0]]
                + send_queue(after.send_buffer)
            &&& {
                ||| {
                    &&& action is WriteOrRead
                    &&& send_pending(after.send_buffer)
                    &&& chunk_encoded(
                        before.send_buffer,
                        channel,
                        Ok(send_output(after.send_buffer)),
                    )
                }
                ||| {
                    &&& action matches PollAction::Done(TransportPollResult::Closed(status))
                    &&& chunk_encoded(before.send_buffer, channel, Err(status))
                }
            }
        } else {
            &&& after.send_buffer == before.send_buffer
            &&& action is WriteOrRead <==> send_pending(before.send_buffer)
            &&& action is ReceiveOrRead <==> !send_pending(before.send_buffer)
                && !before.should_close
            &&& action is Done ==> (action matches PollAction::Done(
                TransportPollResult::Closed(status),
            ) && status.0 == GOOD)
        },
{
    if must_encode(before.send_buffer) {
        let waiting = send_queue(before.send_buffer);
        assert(waiting =~= seq![waiting[0]] + waiting.drop_first());
    }
}

/// An outgoing message gets the request id after the last one. Whoever waits for its answer is
/// noted under that id, with the deadline of the message and no chunks yet, and no other request
/// is touched. If the message can be split, its chunks come last in the queue. If it cannot, the
/// request is answered with the status of that error at once, and everything but the request id
/// is as before. A request to close the channel has the transport close, and no other does.
pub proof fn law_outgoing_message_is_sent_or_answered<C>(
    channel: SecureChannel,
    before: TcpTransportView<C>,
    outgoing: OutgoingMessage<C>,
    after: TcpTransportView<C>,
    result: TransportPollResult,
    reply: Option<Reply<C>>,
    other: u32,
)
    requires
        before.wf(),
        before.last_request_id < u32::MAX,
        outgoing_led_to(channel, before, outgoing, after, result, reply),
    ensures
        after.last_request_id == before.last_request_id + 1,
        after.closed == before.closed,
        after.connected_url == before.connected_url,
        after.should_close <==> before.should_close || outgoing.request.closes_secure_channel,
        send_pending(after.send_buffer) == send_pending(before.send_buffer),
        send_output(after.send_buffer) == send_output(before.send_buffer),
        send_limits(after.send_buffer) == send_limits(before.send_buffer),
        after.state.max_chunk_count == before.state.max_chunk_count,
        after.state.sequence_numbers == before.state.sequence_numbers,
        after.state.receive_buffer_size == before.state.receive_buffer_size,
        other != after.last_request_id ==> {
            &&& after.state.pending.contains_key(other) == before.state.pending.contains_key(other)
            &&& after.state.pending.contains_key(other) ==> after.state.pending[other]
                == before.state.pending[other]
        },
        ({
            let id = after.last_request_id;
            ||| {
                &&& result is OutgoingMessage
                &&& reply is None
                &&& after.state.pending.contains_key(id) == outgoing.callback is Some
                &&& outgoing.callback matches Some(callback) ==> {
                    &&& after.state.pending[id].callback == callback
                    &&& after.state.pending[id].deadline == outgoing.deadline
                    &&& after.state.pending[id].chunks.len() == 0
                }
                &&& exists|chunks: Seq<Seq<u8>>| #[trigger]
                    message_split(
                        send_limits(before.send_buffer),
                        send_numbers(before.send_buffer),
                        channel,
                        id,
                        outgoing.request.message,
                        Ok(chunks),
                    ) && chunks.len() > 0 && send_queue(after.send_buffer) == send_queue(
                        before.send_buffer,
                    ) + chunks
            }
            ||| exists|e: Error| #[trigger]
                message_split(
                    send_limits(before.send_buffer),
                    send_numbers(before.send_buffer),
                    channel,
                    id,
                    outgoing.request.message,
                    Err(e),
                ) && {
                    &&& result matches TransportPollResult::RecoverableError(status)
                    &&& status == e.status
                    &&& !after.state.pending.contains_key(id)
                    &&& reply is Some == outgoing.callback is Some
                    &&& outgoing.callback matches Some(callback) ==> {
                        &&& reply matches Some(answer)
                        &&& answer.callback == callback
                        &&& answer.result matches Err(s)
                        &&& s == e.status
                    }
                    &&& send_queue(after.send_buffer) == send_queue(before.send_buffer)
                    &&& send_numbers(after.send_buffer) == send_numbers(before.send_buffer)
                }
        }),
{
    let id = after.last_request_id;
    assert(!before.state.pending.contains_key(id));
    if result is OutgoingMessage {
        let chunks = choose|chunks: Seq<Seq<u8>>|
            {
                &&& #[trigger] message_split(
                    send_limits(before.send_buffer),
                    send_numbers(before.send_buffer),
                    channel,
                    id,
                    outgoing.request.message,
                    Ok(chunks),
                )
                &&& send_queue(after.send_buffer) == send_queue(before.send_buffer) + chunks
                &&& chunks.len() > 0
            };
        assert(message_split(
            send_limits(before.send_buffer),
            send_numbers(before.send_buffer),
            channel,
            id,
            outgoing.request.message,
            Ok(chunks),
        ));
    } else if let TransportPollResult::RecoverableError(status) = result {
        assert(message_refused(channel, before.send_buffer, id, outgoing, status));
    }
}

/// An error that says which request it belongs to ends that request alone, which is answered with
/// the status of the error if anyone waits for it. Any other error ends the connection with its
/// status, and answers nobody. A message that was sent answers nobody either.
pub proof fn law_error_ends_its_request_or_the_connection<C>(
    pending: Map<u32, Pending<C>>,
    sent: Result<u32, Error>,
)
    ensures
        sent is Ok ==> {
            &&& send_result(sent) is OutgoingMessage
            &&& send_pending_requests(pending, sent) == pending
            &&& send_reply(pending, sent) is None
        },
        sent matches Err(e) ==> if e.request_id is Some && e.request_handle is Some {
            let id = e.request_id->0;
            &&& send_result(sent) matches TransportPollResult::RecoverableError(status)
            &&& status == e.status
            &&& send_pending_requests(pending, sent) == pending.remove(id)
            &&& send_reply(pending, sent) is Some == pending.contains_key(id)
            &&& send_reply(pending, sent) matches Some(reply) ==> reply.callback
                == pending[id].callback && reply.result == Err::<
                ResponseMessage,
                StatusCode,
            >(e.status)
        } else {
            &&& send_result(sent) matches TransportPollResult::Closed(status)
            &&& status == e.status
            &&& send_pending_requests(pending, sent) == pending
            &&& send_reply(pending, sent) is None
        },
{
}

/// Reading touches nothing but the pending requests. The end of the stream closes the transport as
/// a failed communication, a failure to read as a closed connection, an error that the server
/// sends with its own status unless that is good, and a message that is out of place as
/// unexpected. None of these touches a request. A chunk leads to what it leads to: an answer is
/// passed on, and a failure closes the transport with its status unless that is good.
pub proof fn law_reading_leads_to_what_was_read<C>(
    channel: SecureChannel,
    before: TcpTransportView<C>,
    incoming: Option<Result<Message, ()>>,
    after: TcpTransportView<C>,
    step: IncomingStep<C>,
)
    requires
        incoming_led_to(channel, before, incoming, after, step),
    ensures
        after.send_buffer == before.send_buffer,
        after.should_close == before.should_close,
        after.closed == before.closed,
        after.connected_url == before.connected_url,
        after.last_request_id == before.last_request_id,
        !(incoming matches Some(Ok(Message::Chunk(_)))) ==> {
            &&& after.state == before.state
            &&& step matches IncomingStep::Finished { result, reply }
            &&& reply is None
            &&& match incoming {
                None => result matches TransportPollResult::Closed(s) && s.0
                    == BAD_COMMUNICATION_ERROR,
                Some(Err(_)) => result matches TransportPollResult::Closed(s) && s.0
                    == BAD_CONNECTION_CLOSED,
                Some(Ok(Message::Error(error))) => if error.error.0 < 0x4000_0000 {
                    result is IncomingMessage
                } else {
                    result matches TransportPollResult::Closed(s) && s == error.error
                },
                _ => result matches TransportPollResult::Closed(s) && s.0 == BAD_UNEXPECTED_ERROR,
            }
        },
        incoming matches Some(Ok(Message::Chunk(chunk))) ==> exists|outcome: IncomingOutcome<C>|
            #[trigger] raw_chunk_led_to(channel, before.state, chunk.data@, after.state, outcome)
                && match outcome {
                IncomingOutcome::Done(answer) => {
                    &&& step matches IncomingStep::Finished { result, reply }
                    &&& result is IncomingMessage
                    &&& reply == answer
                },
                IncomingOutcome::OpenSecureChannel { callback, response } => {
                    &&& step matches IncomingStep::OpenSecureChannel { callback: c, response: r }
                    &&& c == callback
                    &&& r == response
                },
                IncomingOutcome::Failed(status) => {
                    &&& step matches IncomingStep::Finished { result, reply }
                    &&& reply is None
                    &&& if status.0 < 0x4000_0000 {
                        result is IncomingMessage
                    } else {
                        result matches TransportPollResult::Closed(s) && s == status
                    }
                },
            },
{
}

/// What comes of a message becomes the step of the poll as it is: an answer is passed on with the
/// poll, keys are waited for, and a failure closes the transport with its status.
pub proof fn law_outcome_becomes_the_step<C>(outcome: IncomingOutcome<C>)
    ensures
        outcome matches IncomingOutcome::Done(answer) ==> (
        incoming_step(outcome) matches IncomingStep::Finished { result, reply }
            && result is IncomingMessage && reply == answer),
        outcome matches IncomingOutcome::OpenSecureChannel { callback, response } ==> (
        incoming_step(outcome) matches IncomingStep::OpenSecureChannel { callback: c, response: r }
            && c == callback && r == response),
        outcome matches IncomingOutcome::Failed(status) ==> (
        incoming_step(outcome) matches IncomingStep::Finished { result, reply } && (
        result matches TransportPollResult::Closed(s) && s == status) && reply is None),
{
}

/// Starting to close a transport notes the status and takes out all pending requests, and
/// finishing to close it notes that it is closed. Neither changes anything else.
pub proof fn law_closing_changes_nothing_else<C>(before: TcpTransportView<C>, status: StatusCode)
    ensures
        ({
            let after = close_begun(before, status);
            &&& after.closed matches TransportCloseState::Closing(s)
            &&& s == status
            &&& after.state.pending == Map::<u32, Pending<C>>::empty()
            &&& after.state.max_chunk_count == before.state.max_chunk_count
            &&& after.state.sequence_numbers == before.state.sequence_numbers
            &&& after.state.receive_buffer_size == before.state.receive_buffer_size
            &&& after.send_buffer == before.send_buffer
            &&& after.should_close == before.should_close
            &&& after.connected_url == before.connected_url
            &&& after.last_request_id == before.last_request_id
        }),
        ({
            let after = close_finished(before, status);
            &&& after.closed matches TransportCloseState::Closed(s)
            &&& s == status
            &&& after.state == before.state
            &&& after.send_buffer == before.send_buffer
            &&& after.should_close == before.should_close
            &&& after.connected_url == before.connected_url
            &&& after.last_request_id == before.last_request_id
        }),
{
}

/// Bytes that are written are a message that was sent, and a failure to write them is a failed
/// communication.
pub proof fn law_writing_succeeds_or_closes<C>(written: bool, res: TransportPollResult)
    requires
        call_ensures(TcpTransport::<C>::after_write, (written,), res),
    ensures
        written ==> res is OutgoingMessageSent,
        !written ==> (res matches TransportPollResult::Closed(status) && status.0
            == BAD_COMMUNICATION_ERROR),
{
}

/// A new transport is open, waits for nothing and has sent nothing. Its limits are the negotiated
/// ones, its request ids start after 1000 and its numbering with 1, and it reports the URL that it
/// is given.
pub proof fn law_new_transport_is_on_the_negotiated_terms<C>(
    config: TransportConfiguration,
    ack: AcknowledgeMessage,
    channel: SecureChannel,
    url: String,
    res: TcpTransport<C>,
)
    requires
        call_ensures(TcpTransport::<C>::new, (config, ack, &channel, url), res),
    ensures
        res@.closed is Open,
        !res@.should_close,
        res@.connected_url == url@,
        res@.last_request_id == 1000,
        forall|id: u32| !#[trigger] res@.state.pending.contains_key(id),
        res@.state.max_chunk_count == config.max_chunk_count,
        res@.state.receive_buffer_size <= ack.send_buffer_size,
        res@.state.receive_buffer_size <= config.recv_buffer_size as u32,
        res@.state.receive_buffer_size == ack.send_buffer_size || res@.state.receive_buffer_size
            == config.recv_buffer_size as u32,
        res@.state.sequence_numbers.is_legacy && res@.state.sequence_numbers.current == 1,
        send_queue(res@.send_buffer).len() == 0,
        !send_pending(res@.send_buffer),
        send_numbers(res@.send_buffer).is_legacy && send_numbers(res@.send_buffer).current == 1,
        send_limits(res@.send_buffer).send_buffer_size == if ack.receive_buffer_size
            < config.send_buffer_size {
            ack.receive_buffer_size as usize
        } else {
            config.send_buffer_size
        },
        send_limits(res@.send_buffer).max_message_size == if 0 < ack.max_message_size
            < config.max_message_size {
            ack.max_message_size as usize
        } else {
            config.max_message_size
        },
        send_limits(res@.send_buffer).max_chunk_count == if 0 < ack.max_chunk_count
            < config.max_chunk_count {
            ack.max_chunk_count as usize
        } else {
            config.max_chunk_count
        },
{
    law_limits_are_negotiated(config, ack, send_limits(res@.send_buffer));
}

/// What is asked of a transport or a configuration is answered as it is.
pub proof fn law_answers_of_transports_are_right<C>(
    transport: TcpTransport<C>,
    url: &str,
    has_id: bool,
    start: PollStart,
    config: TransportConfiguration,
    fits: bool,
    ack: AcknowledgeMessage,
    exceeded: (bool, bool),
)
    requires
        call_ensures(TcpTransport::<C>::connected_url, (&transport,), url),
        call_ensures(TcpTransport::<C>::has_request_id, (&transport,), has_id),
        call_ensures(TcpTransport::<C>::begin_poll, (&transport,), start),
        call_ensures(TransportConfiguration::fits_memory, (&config,), fits),
        call_ensures(TransportConfiguration::exceeded_by, (&config, &ack), exceeded),
    ensures
        url@ == transport@.connected_url,
        has_id <==> transport@.last_request_id < u32::MAX,
        transport@.closed is Open <==> start is Poll,
        transport@.closed matches TransportCloseState::Closing(status) ==> (
        start matches PollStart::Close(s) && s == status),
        transport@.closed matches TransportCloseState::Closed(status) ==> (
        start matches PollStart::Closed(s) && s == status),
        fits <==> config.send_buffer_size <= isize::MAX - 1024 && config.max_chunk_count
            <= isize::MAX / 128,
        exceeded.0 <==> ack.send_buffer_size > config.recv_buffer_size as u32,
        exceeded.1 <==> ack.receive_buffer_size > config.send_buffer_size as u32,
{
}

/// Preparing a poll, sending a message and reading from the connection do what they are said to
/// do, whether or not it is tried first if the channel is set up for it. What is handed back is
/// handed back untouched, and then nothing is done.
pub proof fn law_polls_do_what_they_say<C>()
    ensures
        forall|transport: &mut TcpTransport<C>, channel: SecureChannel, action: PollAction|
            #[trigger] call_ensures(
                TcpTransport::<C>::prepare,
                (transport, &channel),
                action,
            ) ==> prepared(channel, transport@, final(transport)@, action),
        forall|transport: &mut TcpTransport<C>, channel: SecureChannel, res: Option<PollAction>|
            #[trigger] call_ensures(
                TcpTransport::<C>::try_prepare,
                (transport, &channel),
                res,
            ) ==> {
                &&& res matches Some(action) ==> prepared(
                    channel,
                    transport@,
                    final(transport)@,
                    action,
                )
                &&& res is None ==> final(transport)@ == transport@
                &&& res is None <==> secured(channel) && send_queue(transport@.send_buffer).len()
                    > 0 && !send_pending(transport@.send_buffer)
            },
        forall|
            transport: &mut TcpTransport<C>,
            channel: SecureChannel,
            outgoing: OutgoingMessage<C>,
            res: (TransportPollResult, Option<Reply<C>>),
        | #[trigger]
            call_ensures(
                TcpTransport::<C>::handle_outgoing_message,
                (transport, &channel, Some(outgoing)),
                res,
            ) ==> outgoing_led_to(
                channel,
                transport@,
                outgoing,
                final(transport)@,
                res.0,
                res.1,
            ),
        forall|
            transport: &mut TcpTransport<C>,
            channel: SecureChannel,
            res: (TransportPollResult, Option<Reply<C>>),
        | #[trigger]
            call_ensures(
                TcpTransport::<C>::handle_outgoing_message,
                (transport, &channel, None),
                res,
            ) ==> {
                &&& final(transport)@ == transport@
                &&& res.0 matches TransportPollResult::Closed(status)
                &&& status.0 == GOOD
                &&& res.1 is None
            },
        forall|
            transport: &mut TcpTransport<C>,
            channel: SecureChannel,
            incoming: Option<Result<Message, ()>>,
            step: IncomingStep<C>,
        | #[trigger]
            call_ensures(
                TcpTransport::<C>::handle_incoming_message,
                (transport, &channel, incoming),
                step,
            ) ==> incoming_led_to(channel, transport@, incoming, final(transport)@, step),
{
}

/// A message or a chunk that is tried is dealt with as any other, or handed back as it is, and then
/// nothing is done.
pub proof fn law_trying_does_all_or_nothing<C>()
    ensures
        forall|
            transport: &mut TcpTransport<C>,
            channel: SecureChannel,
            outgoing: OutgoingMessage<C>,
            res: Result<(TransportPollResult, Option<Reply<C>>), OutgoingMessage<C>>,
        | #[trigger]
            call_ensures(
                TcpTransport::<C>::try_handle_outgoing_message,
                (transport, &channel, Some(outgoing)),
                res,
            ) ==> {
                &&& res matches Ok((result, reply)) ==> outgoing_led_to(
                    channel,
                    transport@,
                    outgoing,
                    final(transport)@,
                    result,
                    reply,
                )
                &&& res matches Err(back) ==> back == outgoing && final(transport)@ == transport@
                &&& res is Ok <==> split_is_certain(channel, shape_of(outgoing.request.message))
            },
        forall|
            transport: &mut TcpTransport<C>,
            channel: SecureChannel,
            incoming: Option<Result<Message, ()>>,
            res: Result<IncomingStep<C>, Option<Result<Message, ()>>>,
        | #[trigger]
            call_ensures(
                TcpTransport::<C>::try_handle_incoming_message,
                (transport, &channel, incoming),
                res,
            ) ==> {
                &&& res matches Ok(step) ==> incoming_led_to(
                    channel,
                    transport@,
                    incoming,
                    final(transport)@,
                    step,
                )
                &&& res matches Err(back) ==> back == incoming && final(transport)@ == transport@
                &&& !(incoming matches Some(Ok(Message::Chunk(_)))) ==> res is Ok
                &&& incoming matches Some(Ok(Message::Chunk(chunk))) ==> (res is Ok
                    <==> processing_is_certain(channel, transport@.state, chunk.data@))
            },
{
}

/// A transport gives up requests exactly at their deadline, and tells each of them once. Nothing
/// but the pending requests changes.
pub proof fn law_transport_times_out_at_the_deadline<C>()
    ensures
        forall|
            transport: &mut TcpTransport<C>,
            now: Instant,
            res: (Option<Instant>, Vec<(u32, Reply<C>)>),
        | #[trigger]
            call_ensures(TcpTransport::<C>::next_timeout, (transport, now), res) ==> {
                &&& final(transport)@.send_buffer == transport@.send_buffer
                &&& final(transport)@.should_close == transport@.should_close
                &&& final(transport)@.closed == transport@.closed
                &&& final(transport)@.last_request_id == transport@.last_request_id
                &&& forall|id: u32| #[trigger]
                    final(transport)@.state.pending.contains_key(id) <==> transport@.state.pending.contains_key(id) && transport@.state.pending[id].deadline > now
                &&& forall|id: u32| #[trigger]
                    final(transport)@.state.pending.contains_key(id) ==> final(transport)@.state.pending[id] == transport@.state.pending[id]
                &&& forall|i: int|
                    0 <= i < res.1@.len() ==> {
                        let key = (#[trigger] res.1@[i]).0;
                        &&& transport@.state.pending.contains_key(key)
                        &&& transport@.state.pending[key].deadline <= now
                        &&& res.1@[i].1.callback == transport@.state.pending[key].callback
                        &&& res.1@[i].1.result matches Err(status)
                        &&& status.0 == BAD_TIMEOUT
                    }
                &&& forall|i: int, j: int|
                    0 <= i < j < res.1@.len() ==> (#[trigger] res.1@[i]).0 != (
                    #[trigger] res.1@[j]).0
                &&& forall|id: u32| #[trigger]
                    transport@.state.pending.contains_key(id)
                        && transport@.state.pending[id].deadline <= now ==> is_answered(
                        id,
                        res.1@,
                    )
                &&& res.0 matches Some(t) ==> forall|id: u32| #[trigger]
                    final(transport)@.state.pending.contains_key(id) ==> t <= final(transport)@.state.pending[id].deadline
                &&& res.0 is None ==> forall|id: u32| !#[trigger] final(transport)@.state.pending.contains_key(id)
            },
{
    assert forall|
        transport: &mut TcpTransport<C>,
        now: Instant,
        res: (Option<Instant>, Vec<(u32, Reply<C>)>),
        id: u32,
    |
        #![trigger call_ensures(TcpTransport::<C>::next_timeout, (transport, now), res), transport@.state.pending.contains_key(id)]
        call_ensures(TcpTransport::<C>::next_timeout, (transport, now), res)
            && transport@.state.pending.contains_key(id) && transport@.state.pending[id].deadline
            <= now implies is_answered(id, res.1@) by {
        assert(expired(transport@.state.pending, now).contains(id));
    }
}

/// Closing a transport notes the status, answers every pending request with it or, if it is good,
/// with a closed connection, and then reports the status.
pub proof fn law_transport_closes_with_its_status<C>()
    ensures
        forall|transport: &mut TcpTransport<C>, status: StatusCode, replies: Vec<(u32, Reply<C>)>|
            #[trigger] call_ensures(
                TcpTransport::<C>::begin_close,
                (transport, status),
                replies,
            ) ==> {
                let before = transport@.state.pending;
                &&& forall|i: int, j: int|
                    0 <= i < j < replies@.len() ==> (#[trigger] replies@[i]).0 != (
                    #[trigger] replies@[j]).0
                &&& forall|id: u32| #[trigger]
                    transport@.state.pending.contains_key(id) ==> is_answered(id, replies@)
                &&& final(transport)@.closed matches TransportCloseState::Closing(s)
                &&& s == status
                &&& forall|id: u32| !#[trigger] final(transport)@.state.pending.contains_key(id)
                &&& final(transport)@.send_buffer == transport@.send_buffer
                &&& forall|i: int|
                    0 <= i < replies@.len() ==> {
                        let key = (#[trigger] replies@[i]).0;
                        &&& before.contains_key(key)
                        &&& replies@[i].1.callback == before[key].callback
                        &&& replies@[i].1.result matches Err(s)
                        &&& s.0 == if status.0 < 0x4000_0000 {
                            BAD_CONNECTION_CLOSED
                        } else {
                            status.0
                        }
                    }
            },
        forall|transport: &mut TcpTransport<C>, status: StatusCode, res: TransportPollResult|
            #[trigger] call_ensures(
                TcpTransport::<C>::finish_close,
                (transport, status),
                res,
            ) ==> {
                &&& res matches TransportPollResult::Closed(s)
                &&& s == status
                &&& final(transport)@.closed matches TransportCloseState::Closed(t)
                &&& t == status
                &&& final(transport)@.state == transport@.state
            },
{
    assert forall|
        transport: &mut TcpTransport<C>,
        status: StatusCode,
        replies: Vec<(u32, Reply<C>)>,
        id: u32,
    |
        #![trigger call_ensures(TcpTransport::<C>::begin_close, (transport, status), replies), transport@.state.pending.contains_key(id)]
        call_ensures(TcpTransport::<C>::begin_close, (transport, status), replies)
            && transport@.state.pending.contains_key(id) implies is_answered(id, replies@) by {
        assert(transport@.state.pending.dom().contains(id));
    }
}

/// What became of sending a message touches nothing but the request that it belongs to: an error
/// that names a request ends that one and answers it, and any other error closes the transport.
pub proof fn law_send_errors_end_their_request<C>()
    ensures
        forall|
            transport: &mut TcpTransport<C>,
            sent: Result<u32, Error>,
            res: (TransportPollResult, Option<Reply<C>>),
        | #[trigger]
            call_ensures(TcpTransport::<C>::after_send, (transport, sent), res) ==> {
                let before = transport@.state.pending;
                let after = final(transport)@.state.pending;
                &&& final(transport)@.send_buffer == transport@.send_buffer
                &&& final(transport)@.should_close == transport@.should_close
                &&& final(transport)@.closed == transport@.closed
                &&& final(transport)@.last_request_id == transport@.last_request_id
                &&& sent is Ok ==> res.0 is OutgoingMessage && res.1 is None && after == before
                &&& sent matches Err(e) ==> if e.request_id is Some && e.request_handle is Some {
                    let id = e.request_id->0;
                    &&& res.0 matches TransportPollResult::RecoverableError(status)
                    &&& status == e.status
                    &&& after == before.remove(id)
                    &&& res.1 is Some == before.contains_key(id)
                    &&& res.1 matches Some(reply) ==> reply.callback == before[id].callback
                        && reply.result == Err::<ResponseMessage, StatusCode>(e.status)
                } else {
                    &&& res.0 matches TransportPollResult::Closed(status)
                    &&& status == e.status
                    &&& after == before
                    &&& res.1 is None
                }
            },
{
}

/// Once the keys of the channel are updated, the response that brought them is passed on to whoever
/// waits for it. If that failed, the transport is closed with the status of the failure, unless it
/// is good.
pub proof fn law_new_keys_pass_the_response_on<C>(
    callback: C,
    response: Response,
    updated: Result<(), StatusCode>,
    step: IncomingStep<C>,
)
    requires
        call_ensures(
            TcpTransport::<C>::finish_open_secure_channel,
            (callback, response, updated),
            step,
        ),
    ensures
        step matches IncomingStep::Finished { result, reply } && {
            &&& updated is Ok ==> result is IncomingMessage && (reply matches Some(r) && r.callback
                == callback && r.result == Ok::<ResponseMessage, StatusCode>(response.message))
            &&& updated matches Err(status) ==> reply is None && if status.0 < 0x4000_0000 {
                result is IncomingMessage
            } else {
                result matches TransportPollResult::Closed(s) && s == status
            }
        },
{
}

} // verus!
