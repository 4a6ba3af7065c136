//! Laws of what is sent and run: commands, envelopes, streams and stored files.

use crate::clock::{as_signed, earlier, in_four_digit_year, plain_moment, within_calendar, Moment};
use crate::command::{flag, reported_code, shell_args, shell_program, words_of, CommandSpec};
use crate::encoding::{base64_bytes, base64_text, decodes_to, lossy_text, sha256, sha256_hex};
use crate::encoding::text_in_bytes;
use crate::error_codes;
use crate::number::hex;
use crate::paths::text_in;
use crate::registry::under;
use crate::rpc::{RpcRequest, RpcResponse};
use crate::storage::FileAction;
use crate::stream::{carries, ends, joined, received, StreamChannel, StreamData, StreamEnd};
use vstd::prelude::*;

verus! {

/// A command that exited is reported with the very code that it exited with, zero
/// and the negative ones too. Only one that a signal ended has none, and is reported
/// with minus one.
pub proof fn law_exit_code_is_reported(code: i32)
    ensures
        reported_code(Some(code)) == code,
        reported_code(None) == -1,
{
}

/// Two commands that exited with different codes are reported differently.
pub proof fn law_exit_codes_stay_apart(a: i32, b: i32)
    requires
        a != b,
    ensures
        reported_code(Some(a)) != reported_code(Some(b)),
{
}

/// A switch is on only where it is given and on.
pub proof fn law_switch(on: bool)
    ensures
        flag(Some(on)) == on,
        !flag(None),
{
}

/// A command line goes to `sh -c` whole, and with `sudo` the same call stands
/// behind `sudo -n`.
pub proof fn law_shell_runs_the_command(command: Seq<char>)
    ensures
        seq![shell_program(false)] + shell_args(command, false) == seq!["sh"@, "-c"@, command],
        seq![shell_program(true)] + shell_args(command, true) == seq!["sudo"@, "-n"@] + (seq![
            shell_program(false),
        ] + shell_args(command, false)),
        forall|sudo: bool| #[trigger] shell_args(command, sudo).last() == command,
{
    assert(seq![shell_program(false)] + shell_args(command, false) =~= seq![
        "sh"@,
        "-c"@,
        command,
    ]);
    assert(seq![shell_program(true)] + shell_args(command, true) =~= seq!["sudo"@, "-n"@] + (seq![
        shell_program(false),
    ] + shell_args(command, false)));
}

/// A command calls its own program with its own arguments, each in its place.
pub proof fn law_command_calls(
    command: CommandSpec,
    program: Seq<char>,
    args: Seq<Seq<char>>,
    list: Seq<&str>,
)
    ensures
        command.calls(program, args) ==> command.program@ == program && command.args@.len()
            == args.len() && forall|i: int|
            0 <= i < args.len() ==> #[trigger] command.args@[i]@ == args[i],
        words_of(list).len() == list.len(),
        forall|i: int| 0 <= i < list.len() ==> #[trigger] words_of(list)[i] == list[i]@,
{
    if command.calls(program, args) {
        assert forall|i: int| 0 <= i < args.len() implies #[trigger] command.args@[i]@
            == args[i] by {
            assert(crate::text::texts(command.args@)[i] == command.args@[i]@);
        }
    }
}

/// A request is marked as JSON-RPC 2.0 and keeps its ID, its method and its
/// parameters; a notification is one without an ID.
pub proof fn law_request<V>(
    request: RpcRequest<V>,
    id: Seq<char>,
    method: Seq<char>,
    params: V,
)
    ensures
        request.asks(id, method, params) || request.notifies(method, params) ==> request.jsonrpc@
            == "2.0"@ && request.method@ == method && request.params == params,
        request.asks(id, method, params) ==> request.id is Some && request.id->0@ == id,
        request.notifies(method, params) ==> request.id is None,
{
}

/// A response is marked as JSON-RPC 2.0 and keeps the ID of its request. It holds a
/// result or an error, never both.
pub proof fn law_response<V>(
    response: RpcResponse<V>,
    id: Seq<char>,
    result: V,
    code: i32,
    text: Seq<char>,
)
    ensures
        response.responds_to(id) ==> response.jsonrpc@ == "2.0"@ && response.id@ == id && (
        response.result is None <==> response.error is Some),
        response.succeeds(id, result) ==> response.jsonrpc@ == "2.0"@ && response.id@ == id
            && response.result == Some(result) && response.error is None,
        response.answers(id) ==> response.jsonrpc@ == "2.0"@ && response.id@ == id
            && response.result == Some(response.payload()) && response.error is None,
        response.fails(id, code, text) || response.fails_with(id, code, text, result)
            || response.rejects_params(id, text) ==> response.jsonrpc@ == "2.0"@ && response.id@
            == id && response.result is None && response.error is Some,
        response.fails(id, code, text) ==> response.error->0.code == code
            && response.error->0.message@ == text && response.error->0.data is None,
        response.fails_with(id, code, text, result) ==> response.error->0.code == code
            && response.error->0.message@ == text && response.error->0.data == Some(result),
        response.rejects_params(id, text) ==> response.error->0.code == -32602
            && response.error->0.message@ == "Invalid params: "@ + text
            && response.error->0.data is None,
{
}

/// The codes of errors are those of JSON-RPC and of the protocol. The general code
/// and the exit code of a command that has none are minus one.
pub proof fn law_codes()
    ensures
        error_codes::PARSE_ERROR == -32700,
        error_codes::INVALID_REQUEST == -32600,
        error_codes::METHOD_NOT_FOUND == -32601,
        error_codes::INVALID_PARAMS == -32602,
        error_codes::INTERNAL_ERROR == -32603,
        error_codes::AGENT_OFFLINE == -32001,
        error_codes::AGENT_TIMEOUT == -32002,
        error_codes::COMMAND_FAILED == -32003,
        error_codes::AUTH_FAILED == -32004,
        error_codes::REGISTRATION_FAILED == -32005,
        error_codes::AGENT_ERROR == -32000,
        error_codes::GENERAL_ERROR == -1,
        crate::command::NO_EXIT_CODE == -1,
        crate::handlers::shell::SHELL_ERROR == -32001,
{
}

/// A chunk of a stream names the stream and the channel it came from, and what it
/// carries decodes to the bytes that were read, and to no others.
pub proof fn law_stream_chunk(
    note: RpcRequest<StreamData>,
    stream_id: Seq<char>,
    channel: StreamChannel,
    bytes: Seq<u8>,
    other: Seq<u8>,
)
    requires
        carries(note, stream_id, channel, bytes),
    ensures
        note.jsonrpc@ == "2.0"@,
        note.id is None,
        note.method@ == "stream.data"@,
        note.params.stream_id@ == stream_id,
        note.params.channel == channel,
        note.params.data@ == base64_text(bytes),
        base64_bytes(note.params.data@) == Ok::<Seq<u8>, Seq<char>>(bytes),
        decodes_to(note.params.data@, other) ==> other == bytes,
{
}

/// The end of a stream names the stream and tells the exit code.
pub proof fn law_stream_end(note: RpcRequest<StreamEnd>, stream_id: Seq<char>, exit_code: i32)
    requires
        ends(note, stream_id, exit_code),
    ensures
        note.jsonrpc@ == "2.0"@,
        note.id is None,
        note.method@ == "stream.end"@,
        note.params.stream_id@ == stream_id,
        note.params.exit_code == exit_code,
{
}

/// What is received of a stream grows by what each further chunk carries, at its end.
pub proof fn law_stream_grows(
    notes: Seq<RpcRequest<StreamData>>,
    chunks: Seq<Seq<u8>>,
    note: RpcRequest<StreamData>,
    stream_id: Seq<char>,
    channel: StreamChannel,
    bytes: Seq<u8>,
)
    requires
        carries(note, stream_id, channel, bytes),
    ensures
        received(Seq::empty()) == Seq::<u8>::empty(),
        received(notes.push(note)) == received(notes) + bytes,
        joined(Seq::empty()) == Seq::<u8>::empty(),
        joined(chunks.push(bytes)) == joined(chunks) + bytes,
{
    assert(notes.push(note).drop_last() =~= notes);
    assert(chunks.push(bytes).drop_last() =~= chunks);
}

/// Bytes that are text are read as that text; others are read by the lossy decoding.
pub proof fn law_bytes_are_read_as_text(text: Seq<char>, bytes: Seq<u8>)
    ensures
        text_in_bytes(vstd::utf8::encode_utf8(text)) == text,
        !vstd::utf8::valid_utf8(bytes) ==> text_in_bytes(bytes) == lossy_text(bytes),
{
    vstd::utf8::encode_utf8_valid_utf8(text);
    vstd::utf8::encode_utf8_decode_utf8(text);
}

/// A checksum is the SHA-256 digest in hexadecimal digits: two checksums differ where
/// the digests do.
pub proof fn law_checksum(a: Seq<u8>, b: Seq<u8>)
    ensures
        sha256_hex(a) == hex(sha256(a)),
        sha256_hex(a) == sha256_hex(b) ==> sha256(a) == sha256(b),
        sha256_hex(a).len() == 2 * sha256(a).len(),
{
    if sha256_hex(a) == sha256_hex(b) {
        crate::number::law_hex_tells_apart(sha256(a), sha256(b));
    }
    crate::number::law_hex_length(sha256(a));
}

/// Of two moments the earlier one is that with the smaller number of nanoseconds.
pub proof fn law_moments_are_ordered(a: Moment, b: Moment)
    requires
        a.nanos < 1_000_000_000,
        b.nanos < 1_000_000_000,
    ensures
        plain_moment(a),
        earlier(a, b) <==> a.secs * 1_000_000_000 + a.nanos < b.secs * 1_000_000_000 + b.nanos,
{
}

/// The calendar goes from the year -262143 to the year 262142, and the years of four
/// digits from 0 to 9999. A count of 64 bits is read as a signed number with the
/// same bits.
pub proof fn law_calendar(secs: int, n: u64)
    ensures
        within_calendar(secs) <==> -8334601228800 <= secs <= 8210266876799,
        in_four_digit_year(secs) <==> -62167219200 <= secs <= 253402300799,
        -0x8000_0000_0000_0000 <= as_signed(n) < 0x8000_0000_0000_0000,
        as_signed(n) == n || as_signed(n) == n - 0x1_0000_0000_0000_0000,
{
}

/// A step on the file system names the files that it is about, and the mode to set.
pub proof fn law_file_steps(
    action: FileAction,
    a: Seq<char>,
    b: Seq<char>,
    mode: u32,
    with: Option<u32>,
)
    ensures
        action.writes(a, with) ==> (action matches FileAction::Write { path, mode: m } && path@
            == a && m == with),
        action.copies(a, b, mode) ==> (action matches FileAction::Copy { from, to, mode: m }
            && from@ == a && to@ == b && m == mode),
        action.moves(a, b) ==> (action matches FileAction::Rename { from, to } && from@ == a && to@
            == b),
{
}

/// What stands under a name is found under it, and nothing under another.
pub proof fn law_what_stands_under_a_name<V>(map: Map<Seq<char>, V>, name: Seq<char>, value: V)
    ensures
        under(map.insert(name, value), name) == Some(value),
        under(map.remove(name), name) is None,
        forall|other: Seq<char>|
            other != name ==> #[trigger] under(map.insert(name, value), other) == under(map, other),
{
}

/// A text that may be missing is missing in the view exactly if it is.
pub proof fn law_text_that_may_be_missing(text: String)
    ensures
        text_in(Some(text)) == Some(text@),
        text_in(None) is None,
{
}

} // verus!
