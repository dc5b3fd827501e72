//! How a response leaves the plugin: on standard output, or through a file that standard
//! output points to.

use vstd::prelude::*;

use crate::command::CommandOutputView;
use crate::invoke::{finished_plan, CommandRunView};
use crate::json::{Json, JsonView};
use crate::protocol::{
    plain_plan, FileTransportMode, ResponsePlanView, RpcErrorView, RpcResponse, RpcResponseView,
    TransportDir, TransportDirView, JSONRPC_VERSION,
};

verus! {

/// The longest response, in bytes, that goes to standard output by itself.
pub const MAX_STDIO_MESSAGE_BYTES: usize = 512 * 1024;

/// How the name of a response file starts.
pub const RESPONSE_FILE_PREFIX: &'static str = "executa-resp-";

/// How the name of a response file ends.
pub const RESPONSE_FILE_SUFFIX: &'static str = ".json";

/// Where a response goes.
#[derive(Debug, PartialEq, Eq)]
pub enum Delivery {
    Stdout,
    File(TransportDir),
}

/// Where a response goes.
pub enum DeliveryView {
    Stdout,
    File(TransportDirView),
}

impl View for Delivery {
    type V = DeliveryView;

    open spec fn view(&self) -> DeliveryView {
        match self {
            Delivery::Stdout => DeliveryView::Stdout,
            Delivery::File(dir) => DeliveryView::File(dir@),
        }
    }
}

/// Where a response of `length` bytes goes, or why it cannot be sent.
pub open spec fn delivery(
    length: nat,
    dir: Option<TransportDirView>,
    mode: FileTransportMode,
) -> Result<DeliveryView, Seq<char>> {
    if mode == FileTransportMode::Always || length > MAX_STDIO_MESSAGE_BYTES {
        match dir {
            Some(dir) => Ok(DeliveryView::File(dir)),
            None => Err("file transport directory is required when file transport is enabled"@),
        }
    } else {
        Ok(DeliveryView::Stdout)
    }
}

/// Where the encoded response `payload` goes.
pub fn choose_delivery(
    payload: &[u8],
    file_transport_dir: Option<TransportDir>,
    file_transport_mode: FileTransportMode,
) -> (result: Result<Delivery, String>)
    ensures
        ({
            let expected = delivery(
                payload@.len(),
                match file_transport_dir {
                    Some(dir) => Some(dir@),
                    None => None,
                },
                file_transport_mode,
            );
            match result {
                Ok(chosen) => expected == Ok::<DeliveryView, Seq<char>>(chosen@),
                Err(message) => expected == Err::<DeliveryView, Seq<char>>(message@),
            }
        }),
{
    let use_file = match file_transport_mode {
        FileTransportMode::Always => true,
        FileTransportMode::Auto => payload.len() > MAX_STDIO_MESSAGE_BYTES,
    };
    if use_file {
        match file_transport_dir {
            Some(dir) => Ok(Delivery::File(dir)),
            None => Err(
                "file transport directory is required when file transport is enabled".to_owned(),
            ),
        }
    } else {
        Ok(Delivery::Stdout)
    }
}

/// The message that points to a response file.
#[derive(Debug, PartialEq, Eq)]
pub struct FileTransportPointer {
    pub jsonrpc: &'static str,
    pub id: Json,
    pub file_transport: String,
}

/// What the message that points to a response file says.
pub struct FileTransportPointerView {
    pub jsonrpc: Seq<char>,
    pub id: JsonView,
    pub file_transport: Seq<char>,
}

impl View for FileTransportPointer {
    type V = FileTransportPointerView;

    open spec fn view(&self) -> FileTransportPointerView {
        FileTransportPointerView {
            jsonrpc: self.jsonrpc@,
            id: self.id@,
            file_transport: self.file_transport@,
        }
    }
}

/// The message that points to the file under `path` for the request `id`.
pub open spec fn pointer_view(id: JsonView, path: Seq<char>) -> FileTransportPointerView {
    FileTransportPointerView { jsonrpc: JSONRPC_VERSION@, id, file_transport: path }
}

/// The message that points to the file under `path`, which holds `response`.
pub fn file_transport_pointer(response: RpcResponse, path: String) -> (pointer:
    FileTransportPointer)
    ensures
        pointer@ == pointer_view(response@.id, path@),
{
    FileTransportPointer { jsonrpc: JSONRPC_VERSION, id: response.id, file_transport: path }
}

/// A message on standard output: a response, or a pointer to the file that holds one.
pub struct MessageView {
    pub jsonrpc: Seq<char>,
    pub id: JsonView,
    pub result: Option<JsonView>,
    pub error: Option<RpcErrorView>,
    pub file_transport: Option<Seq<char>>,
}

impl MessageView {
    /// The message names the version of the protocol, and holds one of a result, an error and
    /// the path of a file.
    pub open spec fn well_formed(self) -> bool {
        &&& self.jsonrpc == JSONRPC_VERSION@
        &&& {
            ||| self.result is Some && self.error is None && self.file_transport is None
            ||| self.result is None && self.error is Some && self.file_transport is None
            ||| self.result is None && self.error is None && self.file_transport is Some
        }
    }
}

/// A response as a message.
pub open spec fn response_message(response: RpcResponseView) -> MessageView {
    MessageView {
        jsonrpc: response.jsonrpc,
        id: response.id,
        result: response.result,
        error: response.error,
        file_transport: None,
    }
}

/// A pointer as a message.
pub open spec fn pointer_message(pointer: FileTransportPointerView) -> MessageView {
    MessageView {
        jsonrpc: pointer.jsonrpc,
        id: pointer.id,
        result: None,
        error: None,
        file_transport: Some(pointer.file_transport),
    }
}

/// What comes of the work of sending a response; each part counts only where it is asked for.
pub struct SendingView {
    /// The length of the encoded response in bytes, or why it cannot be encoded.
    pub encoded: Result<nat, Seq<char>>,
    /// The path of the response file, or why none can be written.
    pub file: Result<Seq<char>, Seq<char>>,
    /// Whether standard output takes the message, or why it does not.
    pub written: Result<(), Seq<char>>,
}

/// The message that a plan puts on standard output, or the message that says why the response
/// cannot be sent.
pub open spec fn sent_message(plan: ResponsePlanView, sending: SendingView) -> Result<
    MessageView,
    Seq<char>,
> {
    match sending.encoded {
        Err(problem) => Err(problem),
        Ok(length) => match delivery(length, plan.file_transport_dir, plan.file_transport_mode) {
            Err(problem) => Err(problem),
            Ok(DeliveryView::Stdout) => match sending.written {
                Err(problem) => Err(problem),
                Ok(_) => Ok(response_message(plan.response)),
            },
            Ok(DeliveryView::File(_)) => match sending.file {
                Err(problem) => Err(problem),
                Ok(path) => match sending.written {
                    Err(problem) => Err(problem),
                    Ok(_) => Ok(pointer_message(pointer_view(plan.response.id, path))),
                },
            },
        },
    }
}

/// The message for a well formed response is well formed and carries the id of the response.
pub proof fn law_messages_are_well_formed(plan: ResponsePlanView, sending: SendingView)
    requires
        plan.response.well_formed(),
    ensures
        sent_message(plan, sending) matches Ok(message) ==> {
            &&& message.well_formed()
            &&& message.id == plan.response.id
        },
{
}

/// The byte that ends a line.
pub const NEWLINE: u8 = 10;

/// An encoded message as a line of its own.
pub fn message_line(message: Vec<u8>) -> (line: Vec<u8>)
    ensures
        line@ == message@.push(NEWLINE),
{
    let mut line = message;
    line.push(NEWLINE);
    line
}

/// A message without a line break is one line, and lines that follow each other can be told
/// apart: the line ends with its only line break.
pub proof fn law_one_message_per_line(message: Seq<u8>)
    requires
        !message.contains(NEWLINE),
    ensures
        message.push(NEWLINE).last() == NEWLINE,
        forall|i: int|
            0 <= i < message.len() ==> #[trigger] message.push(NEWLINE)[i] != NEWLINE,
{
    assert forall|i: int| 0 <= i < message.len() implies #[trigger] message.push(NEWLINE)[i]
        != NEWLINE by {
        assert(message.contains(message[i]));
    }
}

/// A response that is planned to go through a file, with a directory, can be sent however
/// long it is; one that no directory is planned for goes to standard output as it is, unless
/// it is too long, and then it cannot be sent.
pub proof fn law_what_can_be_sent(length: nat, dir: TransportDirView, response: RpcResponseView)
    ensures
        delivery(length, Some(dir), FileTransportMode::Always) == Ok::<DeliveryView, Seq<char>>(
            DeliveryView::File(dir),
        ),
        ({
            let plan = plain_plan(response);
            let sent = delivery(length, plan.file_transport_dir, plan.file_transport_mode);
            if length <= MAX_STDIO_MESSAGE_BYTES {
                sent == Ok::<DeliveryView, Seq<char>>(DeliveryView::Stdout)
            } else {
                sent is Err
            }
        }),
{
}

/// The response to a command that was to be run always goes through a file in the directory of
/// the run, however short or long it is, and also where the command could not be run.
pub proof fn law_a_run_goes_through_a_file(
    length: nat,
    run: CommandRunView,
    outcome: Result<CommandOutputView, Seq<char>>,
    stdout_json: Option<JsonView>,
)
    ensures
        ({
            let plan = finished_plan(run, outcome, stdout_json);
            delivery(length, plan.file_transport_dir, plan.file_transport_mode) == Ok::<
                DeliveryView,
                Seq<char>,
            >(DeliveryView::File(run.file_transport_dir))
        }),
{
}

/// A response goes through a file exactly where that is asked for in any case, or where it is
/// longer than half a mebibyte, and then into the directory that there is; it cannot be sent
/// exactly where there is none. All other responses go to standard output.
pub proof fn law_where_a_response_goes(
    length: nat,
    dir: Option<TransportDirView>,
    mode: FileTransportMode,
)
    ensures
        ({
            let filed = mode == FileTransportMode::Always || length > 524288;
            &&& !filed ==> delivery(length, dir, mode) == Ok::<DeliveryView, Seq<char>>(
                DeliveryView::Stdout,
            )
            &&& filed && dir is Some ==> delivery(length, dir, mode) == Ok::<
                DeliveryView,
                Seq<char>,
            >(DeliveryView::File(dir->0))
            &&& filed && dir is None ==> delivery(length, dir, mode) == Err::<
                DeliveryView,
                Seq<char>,
            >("file transport directory is required when file transport is enabled"@)
        }),
{
}

/// Where a call sends a response.
pub proof fn law_choose_delivery(
    payload: &[u8],
    dir: Option<TransportDir>,
    mode: FileTransportMode,
    result: Result<Delivery, String>,
)
    requires
        call_ensures(choose_delivery, (payload, dir, mode), result),
    ensures
        ({
            let filed = mode == FileTransportMode::Always || payload@.len() > 524288;
            &&& result is Err <==> filed && dir is None
            &&& (result matches Ok(Delivery::Stdout)) <==> !filed
            &&& result matches Ok(Delivery::File(chosen)) ==> filed && dir is Some && chosen@
                == dir->0@
        }),
{
}

/// What the calls put on standard output: a pointer that names the version, the id of the
/// response and the path of the file; and a message with one line break behind it.
pub proof fn law_what_is_written(
    response: RpcResponse,
    path: String,
    pointer: FileTransportPointer,
    message: Vec<u8>,
    line: Vec<u8>,
)
    requires
        call_ensures(file_transport_pointer, (response, path), pointer),
        call_ensures(message_line, (message,), line),
    ensures
        pointer.jsonrpc@ == "2.0"@,
        pointer.id@ == response.id@,
        pointer.file_transport@ == path@,
        line@.len() == message@.len() + 1,
        forall|i: int| 0 <= i < message@.len() ==> #[trigger] line@[i] == message@[i],
        line@[message@.len() as int] == 10,
{
}

/// Every part of a delivery and of a pointer counts.
pub proof fn law_deliveries_are_seen_whole(delivery: Delivery, pointer: FileTransportPointer)
    ensures
        delivery is Stdout ==> delivery@ == DeliveryView::Stdout,
        delivery matches Delivery::File(dir) ==> delivery@ == DeliveryView::File(dir@),
        pointer@.jsonrpc == pointer.jsonrpc@,
        pointer@.id == pointer.id@,
        pointer@.file_transport == pointer.file_transport@,
{
}

/// Response files can be told by their names from other files.
pub proof fn law_names_of_response_files()
    ensures
        RESPONSE_FILE_PREFIX@ == "executa-resp-"@,
        RESPONSE_FILE_SUFFIX@ == ".json"@,
{
}

} // verus!
