//! Notifications that carry the output of commands, shells and transfers.

use crate::encoding::{base64_bytes, base64_encode, base64_text, decodes_to};
use crate::rpc::RpcRequest;
use vstd::prelude::*;
use vstd::string::StringExecFns;

verus! {

/// Channel identifier for stream data.
#[derive(Debug, Clone, Copy)]
pub enum StreamChannel {
    Stdout,
    Stderr,
}

/// A chunk of stream data (terminal output, command output, etc.).
#[derive(Debug, Clone)]
pub struct StreamData {
    pub stream_id: String,
    pub channel: StreamChannel,
    /// Base64-encoded raw bytes.
    pub data: String,
}

/// Notification that a stream has ended.
#[derive(Debug, Clone)]
pub struct StreamEnd {
    pub stream_id: String,
    pub exit_code: i32,
}

/// Stream data for shell/terminal sessions (bidirectional).
#[derive(Debug, Clone)]
pub struct ShellStreamData {
    pub shell_id: String,
    /// Base64-encoded terminal data.
    pub data: String,
}

/// The result of a request whose output follows in a stream.
#[derive(Debug, Clone)]
pub struct StreamingReply {
    pub streaming: bool,
    pub stream_id: String,
}

/// Whether a notification carries these bytes of a stream: in Base64, from which
/// the receiver gets them back.
pub open spec fn carries(
    note: RpcRequest<StreamData>,
    stream_id: Seq<char>,
    channel: StreamChannel,
    bytes: Seq<u8>,
) -> bool {
    &&& note.notifies("stream.data"@, note.params)
    &&& note.params.stream_id@ == stream_id
    &&& note.params.channel == channel
    &&& note.params.data@ == base64_text(bytes)
    &&& decodes_to(note.params.data@, bytes)
}

/// Whether a notification tells the end of a stream.
pub open spec fn ends(note: RpcRequest<StreamEnd>, stream_id: Seq<char>, exit_code: i32) -> bool {
    &&& note.notifies("stream.end"@, note.params)
    &&& note.params.stream_id@ == stream_id
    &&& note.params.exit_code == exit_code
}

/// The notification that carries a chunk of a stream.
pub fn data_notification(stream_id: &str, channel: StreamChannel, bytes: &Vec<u8>) -> (note:
    RpcRequest<StreamData>)
    ensures
        carries(note, stream_id@, channel, bytes@),
{
    let data = base64_encode(bytes);
    RpcRequest::notification(
        "stream.data",
        StreamData { stream_id: String::from_str(stream_id), channel, data },
    )
}

/// The notification that a stream has ended.
pub fn end_notification(stream_id: &str, exit_code: i32) -> (note: RpcRequest<StreamEnd>)
    ensures
        ends(note, stream_id@, exit_code),
{
    RpcRequest::notification(
        "stream.end",
        StreamEnd { stream_id: String::from_str(stream_id), exit_code },
    )
}

/// All the bytes of a list of chunks, in order.
pub open spec fn joined(chunks: Seq<Seq<u8>>) -> Seq<u8>
    decreases chunks.len(),
{
    if chunks.len() == 0 {
        Seq::empty()
    } else {
        joined(chunks.drop_last()) + chunks.last()
    }
}

/// What a receiver decodes from the notifications of a stream.
pub open spec fn received(notes: Seq<RpcRequest<StreamData>>) -> Seq<u8>
    decreases notes.len(),
{
    if notes.len() == 0 {
        Seq::empty()
    } else {
        received(notes.drop_last()) + base64_bytes(notes.last().params.data@)->Ok_0
    }
}

/// A receiver that decodes the notifications of a stream in order has the bytes
/// that were streamed.
pub proof fn law_stream_gives_the_bytes_back(
    notes: Seq<RpcRequest<StreamData>>,
    stream_id: Seq<char>,
    channel: StreamChannel,
    chunks: Seq<Seq<u8>>,
)
    requires
        notes.len() == chunks.len(),
        forall|i: int|
            0 <= i < notes.len() ==> carries(#[trigger] notes[i], stream_id, channel, chunks[i]),
    ensures
        received(notes) == joined(chunks),
    decreases notes.len(),
{
    if notes.len() > 0 {
        let n = notes.len() - 1;
        assert(carries(notes[n], stream_id, channel, chunks[n]));
        law_stream_gives_the_bytes_back(
            notes.drop_last(),
            stream_id,
            channel,
            chunks.drop_last(),
        );
    }
}

} // verus!
