//! The messages of the protocol and the plan of how to send one.

use vstd::prelude::*;

use crate::json::{Json, JsonView};

verus! {

/// The version of JSON-RPC that every message names.
pub const JSONRPC_VERSION: &'static str = "2.0";

/// The line holds no JSON value.
pub const PARSE_ERROR: i32 = -32700;

/// The value is no request.
pub const INVALID_REQUEST: i32 = -32600;

/// There is no such method or tool.
pub const METHOD_NOT_FOUND: i32 = -32601;

/// The parameters of an invocation cannot be used.
pub const INVALID_PARAMS: i32 = -32602;

/// The command could not be run, or it failed.
pub const INTERNAL_ERROR: i32 = -32603;

/// A request.
#[derive(Debug, PartialEq, Eq)]
pub struct RpcRequest {
    pub jsonrpc: String,
    pub method: String,
    pub params: Json,
    pub id: Json,
}

/// What a request says.
pub struct RpcRequestView {
    pub jsonrpc: Seq<char>,
    pub method: Seq<char>,
    pub params: JsonView,
    pub id: JsonView,
}

impl View for RpcRequest {
    type V = RpcRequestView;

    open spec fn view(&self) -> RpcRequestView {
        RpcRequestView {
            jsonrpc: self.jsonrpc@,
            method: self.method@,
            params: self.params@,
            id: self.id@,
        }
    }
}

/// The error of a response.
#[derive(Debug, PartialEq, Eq)]
pub struct RpcError {
    pub code: i32,
    pub message: String,
    pub data: Option<Json>,
}

/// What an error says.
pub struct RpcErrorView {
    pub code: i32,
    pub message: Seq<char>,
    pub data: Option<JsonView>,
}

impl View for RpcError {
    type V = RpcErrorView;

    open spec fn view(&self) -> RpcErrorView {
        RpcErrorView {
            code: self.code,
            message: self.message@,
            data: match self.data {
                Some(data) => Some(data@),
                None => None,
            },
        }
    }
}

/// A response.
#[derive(Debug, PartialEq, Eq)]
pub struct RpcResponse {
    pub jsonrpc: &'static str,
    pub id: Json,
    pub result: Option<Json>,
    pub error: Option<RpcError>,
}

/// What a response says.
pub struct RpcResponseView {
    pub jsonrpc: Seq<char>,
    pub id: JsonView,
    pub result: Option<JsonView>,
    pub error: Option<RpcErrorView>,
}

impl View for RpcResponse {
    type V = RpcResponseView;

    open spec fn view(&self) -> RpcResponseView {
        RpcResponseView {
            jsonrpc: self.jsonrpc@,
            id: self.id@,
            result: match self.result {
                Some(result) => Some(result@),
                None => None,
            },
            error: match self.error {
                Some(error) => Some(error@),
                None => None,
            },
        }
    }
}

impl RpcResponseView {
    /// The response names the version of the protocol, and holds either a result or an error.
    pub open spec fn well_formed(self) -> bool {
        &&& self.jsonrpc == JSONRPC_VERSION@
        &&& (self.result is Some) != (self.error is Some)
    }
}

/// When a response goes through a file: only where it is long, or in any case.
#[derive(Debug, Clone, Copy, PartialEq, Eq, Structural)]
pub enum FileTransportMode {
    Auto,
    Always,
}

/// The directory for response files, with its path as it is shown.
#[derive(Debug, PartialEq, Eq)]
pub enum TransportDir {
    /// The directory that the request names.
    Requested(String),
    /// The directory that holds the plugin's executable.
    Executable(String),
}

/// Which directory it is, and how it is shown.
pub enum TransportDirView {
    Requested(Seq<char>),
    Executable(Seq<char>),
}

impl View for TransportDir {
    type V = TransportDirView;

    open spec fn view(&self) -> TransportDirView {
        match self {
            TransportDir::Requested(path) => TransportDirView::Requested(path@),
            TransportDir::Executable(path) => TransportDirView::Executable(path@),
        }
    }
}

impl TransportDirView {
    /// The path as it is shown.
    pub open spec fn shown(self) -> Seq<char> {
        match self {
            TransportDirView::Requested(path) => path,
            TransportDirView::Executable(path) => path,
        }
    }
}

impl TransportDir {
    /// The path as it is shown.
    pub fn shown(&self) -> (path: &str)
        ensures
            path@ == self@.shown(),
    {
        match self {
            TransportDir::Requested(path) => path.as_str(),
            TransportDir::Executable(path) => path.as_str(),
        }
    }
}

/// A response and the way in which it is to be sent.
#[derive(Debug, PartialEq, Eq)]
pub struct ResponsePlan {
    pub response: RpcResponse,
    pub file_transport_dir: Option<TransportDir>,
    pub file_transport_mode: FileTransportMode,
}

/// What a plan says.
pub struct ResponsePlanView {
    pub response: RpcResponseView,
    pub file_transport_dir: Option<TransportDirView>,
    pub file_transport_mode: FileTransportMode,
}

impl View for ResponsePlan {
    type V = ResponsePlanView;

    open spec fn view(&self) -> ResponsePlanView {
        ResponsePlanView {
            response: self.response@,
            file_transport_dir: match self.file_transport_dir {
                Some(dir) => Some(dir@),
                None => None,
            },
            file_transport_mode: self.file_transport_mode,
        }
    }
}

/// The response that reports success.
pub open spec fn success_view(id: JsonView, result: JsonView) -> RpcResponseView {
    RpcResponseView { jsonrpc: JSONRPC_VERSION@, id, result: Some(result), error: None }
}

/// The response that reports an error.
pub open spec fn error_view(
    id: JsonView,
    code: i32,
    message: Seq<char>,
    data: Option<JsonView>,
) -> RpcResponseView {
    RpcResponseView {
        jsonrpc: JSONRPC_VERSION@,
        id,
        result: None,
        error: Some(RpcErrorView { code, message, data }),
    }
}

/// The plan for a response that no directory is known for: on standard output.
pub open spec fn plain_plan(response: RpcResponseView) -> ResponsePlanView {
    ResponsePlanView {
        response,
        file_transport_dir: None,
        file_transport_mode: FileTransportMode::Auto,
    }
}

/// The plan that refuses the request `id`.
pub open spec fn refusal(
    id: JsonView,
    code: i32,
    message: Seq<char>,
    data: Option<JsonView>,
) -> ResponsePlanView {
    plain_plan(error_view(id, code, message, data))
}

/// The plan that refuses the request `id` through a file in the directory for response files,
/// or on standard output where there is no such directory.
pub open spec fn filed_refusal(
    id: JsonView,
    code: i32,
    message: Seq<char>,
    dir: Result<TransportDirView, Seq<char>>,
) -> ResponsePlanView {
    match dir {
        Ok(dir) => ResponsePlanView {
            response: error_view(id, code, message, None),
            file_transport_dir: Some(dir),
            file_transport_mode: FileTransportMode::Always,
        },
        Err(_) => refusal(id, code, message, None),
    }
}

/// A response that reports success.
pub fn success_response(id: Json, result: Json) -> (response: RpcResponse)
    ensures
        response@ == success_view(id@, result@),
        response@.well_formed(),
{
    RpcResponse { jsonrpc: JSONRPC_VERSION, id, result: Some(result), error: None }
}

/// A response that reports an error.
pub fn error_response(id: Json, code: i32, message: String, data: Option<Json>) -> (response:
    RpcResponse)
    ensures
        response@ == error_view(
            id@,
            code,
            message@,
            match data {
                Some(data) => Some(data@),
                None => None,
            },
        ),
        response@.well_formed(),
{
    RpcResponse {
        jsonrpc: JSONRPC_VERSION,
        id,
        result: None,
        error: Some(RpcError { code, message, data }),
    }
}

/// The plan for a response that no directory is known for.
pub fn response_plan(response: RpcResponse) -> (plan: ResponsePlan)
    ensures
        plan@ == plain_plan(response@),
{
    ResponsePlan {
        response,
        file_transport_dir: None,
        file_transport_mode: FileTransportMode::Auto,
    }
}

/// A response holds what it was made for: the version and the id, and then either the result,
/// or the code, the message and the data of the error.
pub proof fn law_responses_hold_what_they_report(
    id: JsonView,
    result: JsonView,
    code: i32,
    message: Seq<char>,
    data: Option<JsonView>,
)
    ensures
        success_view(id, result).jsonrpc == "2.0"@,
        success_view(id, result).id == id,
        success_view(id, result).result == Some(result),
        success_view(id, result).error is None,
        error_view(id, code, message, data).jsonrpc == "2.0"@,
        error_view(id, code, message, data).id == id,
        error_view(id, code, message, data).result is None,
        error_view(id, code, message, data).error is Some,
        error_view(id, code, message, data).error->0.code == code,
        error_view(id, code, message, data).error->0.message == message,
        error_view(id, code, message, data).error->0.data == data,
{
}

/// A plan sends the response that it was made for: on standard output where there is no
/// directory for a file, and else always through a file in that directory.
pub proof fn law_plans_send_their_response(
    response: RpcResponseView,
    id: JsonView,
    code: i32,
    message: Seq<char>,
    data: Option<JsonView>,
    dir: TransportDirView,
    problem: Seq<char>,
)
    ensures
        plain_plan(response).response == response,
        plain_plan(response).file_transport_dir is None,
        plain_plan(response).file_transport_mode == FileTransportMode::Auto,
        refusal(id, code, message, data) == plain_plan(error_view(id, code, message, data)),
        filed_refusal(id, code, message, Ok(dir)).response == error_view(id, code, message, None),
        filed_refusal(id, code, message, Ok(dir)).file_transport_dir == Some(dir),
        filed_refusal(id, code, message, Ok(dir)).file_transport_mode == FileTransportMode::Always,
        filed_refusal(id, code, message, Err(problem)) == plain_plan(
            error_view(id, code, message, None),
        ),
{
}

/// Every part of a request, a response and a plan counts.
pub proof fn law_messages_are_seen_whole(
    request: RpcRequest,
    error: RpcError,
    response: RpcResponse,
    plan: ResponsePlan,
    dir: TransportDir,
)
    ensures
        request@.jsonrpc == request.jsonrpc@,
        request@.method == request.method@,
        request@.params == request.params@,
        request@.id == request.id@,
        error@.code == error.code,
        error@.message == error.message@,
        error.data matches Some(data) ==> error@.data == Some(data@),
        error.data is None ==> error@.data is None,
        response@.jsonrpc == response.jsonrpc@,
        response@.id == response.id@,
        response.result matches Some(result) ==> response@.result == Some(result@),
        response.result is None ==> response@.result is None,
        response.error matches Some(error) ==> response@.error == Some(error@),
        response.error is None ==> response@.error is None,
        plan@.response == plan.response@,
        plan.file_transport_dir matches Some(dir) ==> plan@.file_transport_dir == Some(dir@),
        plan.file_transport_dir is None ==> plan@.file_transport_dir is None,
        plan@.file_transport_mode == plan.file_transport_mode,
        dir matches TransportDir::Requested(path) ==> dir@ == TransportDirView::Requested(path@),
        dir matches TransportDir::Executable(path) ==> dir@ == TransportDirView::Executable(path@),
{
}

/// A directory is shown by its path, whichever it is.
pub proof fn law_directories_are_shown_by_their_path(path: Seq<char>)
    ensures
        TransportDirView::Requested(path).shown() == path,
        TransportDirView::Executable(path).shown() == path,
{
}

/// The codes are those that JSON-RPC gives to these errors.
pub proof fn law_codes()
    ensures
        PARSE_ERROR == -32700,
        INVALID_REQUEST == -32600,
        METHOD_NOT_FOUND == -32601,
        INVALID_PARAMS == -32602,
        INTERNAL_ERROR == -32603,
{
}

} // verus!
