//! The messages that travel over an `opc.tcp` connection, as far as the client reads them.

use vstd::prelude::*;

use crate::status::StatusCode;

verus! {

/// Whether more chunks of the same message follow.
#[derive(Clone, Copy, Debug, PartialEq, Eq, Structural)]
pub enum MessageIsFinalType {
    /// More chunks follow.
    Intermediate,
    /// The last chunk of the message.
    Final,
    /// The sender gave the message up.
    FinalError,
}

/// What the headers of a chunk say of it.
#[derive(Clone, Copy, Debug, PartialEq, Eq, Structural)]
pub struct ChunkInfo {
    /// Whether more chunks of the same message follow.
    pub is_final: MessageIsFinalType,
    /// Sequence number of the chunk.
    pub sequence_number: u32,
    /// Id of the request that the chunk answers.
    pub request_id: u32,
}

/// A message, or a portion of one, with all its headers.
#[derive(Debug)]
pub struct MessageChunk {
    /// All of the chunk's data, headers first.
    pub data: Vec<u8>,
}

impl View for MessageChunk {
    type V = Seq<u8>;

    open spec fn view(&self) -> Seq<u8> {
        self.data@
    }
}

/// A chunk with what its headers say of it.
#[derive(Debug)]
pub struct MessageChunkWithChunkInfo {
    /// What the headers say.
    pub header: ChunkInfo,
    /// All of the chunk's data, headers first.
    pub data_with_header: Vec<u8>,
}

/// The mathematical content of a [`MessageChunkWithChunkInfo`].
pub struct ReceivedChunk {
    pub header: ChunkInfo,
    pub data: Seq<u8>,
}

impl View for MessageChunkWithChunkInfo {
    type V = ReceivedChunk;

    open spec fn view(&self) -> ReceivedChunk {
        ReceivedChunk { header: self.header, data: self.data_with_header@ }
    }
}

/// The views of all chunks of a list.
pub open spec fn received(chunks: Seq<MessageChunkWithChunkInfo>) -> Seq<ReceivedChunk> {
    chunks.map_values(|c: MessageChunkWithChunkInfo| c@)
}

/// The data of all chunks of a list.
pub open spec fn chunk_data(chunks: Seq<MessageChunk>) -> Seq<Seq<u8>> {
    chunks.map_values(|c: MessageChunk| c@)
}

/// The server's answer to a hello.
#[derive(Clone, Copy, Debug, PartialEq, Eq, Structural)]
pub struct AcknowledgeMessage {
    /// Negotiated protocol version.
    pub protocol_version: u32,
    /// The largest chunk that the server receives.
    pub receive_buffer_size: u32,
    /// The largest chunk that the server sends.
    pub send_buffer_size: u32,
    /// The largest message that the server takes, or 0 for no limit.
    pub max_message_size: u32,
    /// The most chunks of a message that the server takes, or 0 for no limit.
    pub max_chunk_count: u32,
}

/// The reason why the server gives the connection up.
#[derive(Debug)]
pub struct ErrorMessage {
    /// Error status code.
    pub error: StatusCode,
    /// Error reason, or `None` for a null string.
    pub reason: Option<String>,
}

/// What a server says first on a connection that it opened itself.
#[derive(Debug)]
pub struct ReverseHelloMessage {
    /// The application URI of the server, or `None` for a null string.
    pub server_uri: Option<String>,
    /// The endpoint that the client is to name in its hello, or `None` for a null string.
    pub endpoint_url: Option<String>,
}

/// A message read from the connection.
#[derive(Debug)]
pub enum Message {
    /// First message of a client.
    Hello,
    /// Acceptance of a hello.
    Acknowledge(AcknowledgeMessage),
    /// The connection will be closed.
    Error(ErrorMessage),
    /// Part of a service message.
    Chunk(MessageChunk),
    /// First message of a server that opened the connection.
    ReverseHello(ReverseHelloMessage),
}

/// What is said of a list of chunks is said of each chunk in its place: nothing is added, left
/// out or moved.
pub proof fn law_lists_of_chunks_are_seen_as_they_are(
    chunks: Seq<MessageChunk>,
    with_info: Seq<MessageChunkWithChunkInfo>,
    i: int,
)
    ensures
        chunk_data(chunks).len() == chunks.len(),
        0 <= i < chunks.len() ==> chunk_data(chunks)[i] == chunks[i].data@,
        received(with_info).len() == with_info.len(),
        0 <= i < with_info.len() ==> received(with_info)[i].header == with_info[i].header
            && received(with_info)[i].data == with_info[i].data_with_header@,
{
}

} // verus!
