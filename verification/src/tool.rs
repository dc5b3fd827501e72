//! What the tool reports of a command that was run.

use vstd::prelude::*;
use vstd::string::*;

use crate::command::{CommandOutput, CommandOutputView};
use crate::credentials::{ResolvedCredentials, ResolvedCredentialsView};
use crate::json::{
    integer_number, json_integer, json_names, json_text, json_texts, parse_json, parsed_json,
    text_list, Json, JsonObject, JsonView,
};
use crate::protocol::{
    error_response, error_view, RpcResponse, RpcResponseView, TransportDir, TransportDirView,
    INTERNAL_ERROR, INVALID_PARAMS,
};
use crate::text::{is_blank, is_whitespace, law_trimmed, names, same_text, texts, trim, trimmed};

verus! {

/// The name of the tool.
pub const TOOL_NAME: &'static str = "run_gws";

/// What reading a text as JSON gave, where it gave a value.
pub open spec fn parsed_value(parsed: Result<JsonView, Seq<char>>) -> Option<JsonView> {
    match parsed {
        Ok(value) => Some(value),
        Err(_) => None,
    }
}

/// What is reported of any command: `stdout_json` only where the output was read as JSON.
pub open spec fn tool_data(
    output: CommandOutputView,
    argv: Seq<Seq<char>>,
    credentials: ResolvedCredentialsView,
    file_transport_dir: TransportDirView,
    stdout_json: Option<JsonView>,
) -> JsonView {
    let data = map![
        "argv"@ => text_list(argv),
        "plugin_executable"@ => JsonView::Text(output.executable),
        "file_transport_dir"@ => JsonView::Text(file_transport_dir.shown()),
        "credential_sources"@ => text_list(credentials.sources),
        "stdout"@ => JsonView::Text(output.stdout),
        "stderr"@ => JsonView::Text(output.stderr),
        "exit_code"@ => JsonView::Number(integer_number(output.exit_code as int)),
        "embedded_cli"@ => JsonView::Bool(true),
    ];
    match stdout_json {
        Some(value) => JsonView::Object(data.insert("stdout_json"@, value)),
        None => JsonView::Object(data),
    }
}

/// A text of the `error` that `gws` reports on its output.
pub open spec fn reported_text(stdout_json: Option<JsonView>, field: Seq<char>) -> Option<
    Seq<char>,
> {
    match stdout_json {
        Some(value) => match value.get("error"@) {
            Some(error) => match error.get(field) {
                Some(text) => text.as_text(),
                None => None,
            },
            None => None,
        },
        None => None,
    }
}

/// The message for a command that failed: the one that `gws` reports, unless it is blank;
/// else what stands on the error output; else a general one.
pub open spec fn failure_message(stdout_json: Option<JsonView>, stderr: Seq<char>) -> Seq<char> {
    match reported_text(stdout_json, "message"@) {
        Some(message) if !is_blank(message) => message,
        _ => if is_blank(stderr) {
            "gws command failed"@
        } else {
            trimmed(stderr)
        },
    }
}

/// The code for a command that failed: whether `gws` refused the command itself.
pub open spec fn failure_code(reason: Option<Seq<char>>) -> i32 {
    if reason == Some("validationError"@) {
        INVALID_PARAMS
    } else {
        INTERNAL_ERROR
    }
}

/// The data of the error for a command that failed.
pub open spec fn failure_data(
    output: CommandOutputView,
    tool_data: JsonView,
    reason: Option<Seq<char>>,
) -> JsonView {
    JsonView::Object(
        map![
            "tool"@ => JsonView::Text(TOOL_NAME@),
            "gws_exit_code"@ => JsonView::Number(integer_number(output.exit_code as int)),
            "reason"@ => match reason {
                Some(reason) => JsonView::Text(reason),
                None => JsonView::Null,
            },
            "tool_data"@ => tool_data,
        ],
    )
}

/// The response for a command that failed.
pub open spec fn failure_view(
    id: JsonView,
    output: CommandOutputView,
    tool_data: JsonView,
    stdout_json: Option<JsonView>,
) -> RpcResponseView {
    let reason = reported_text(stdout_json, "reason"@);
    error_view(
        id,
        failure_code(reason),
        failure_message(stdout_json, output.stderr),
        Some(failure_data(output, tool_data, reason)),
    )
}

/// What is reported of a command, given what its output was read as.
pub fn tool_data_with(
    output: &CommandOutput,
    argv: &[String],
    resolved_credentials: &ResolvedCredentials,
    file_transport_dir: &TransportDir,
    stdout_json: Option<Json>,
) -> (data: Json)
    ensures
        data@ == tool_data(
            output@,
            texts(argv@),
            resolved_credentials@,
            file_transport_dir@,
            match stdout_json {
                Some(value) => Some(value@),
                None => None,
            },
        ),
{
    let mut data = JsonObject::new();
    data.insert("argv", json_texts(argv));
    data.insert("plugin_executable", json_text(output.executable.as_str()));
    data.insert("file_transport_dir", json_text(file_transport_dir.shown()));
    data.insert("credential_sources", json_names(&resolved_credentials.sources));
    data.insert("stdout", json_text(output.stdout.as_str()));
    data.insert("stderr", json_text(output.stderr.as_str()));
    data.insert("exit_code", json_integer(output.exit_code));
    data.insert("embedded_cli", Json::Bool(true));
    if let Some(value) = stdout_json {
        data.insert("stdout_json", value);
    }
    Json::Object(data)
}

/// The output of a command, read as JSON.
pub fn stdout_json(output: &CommandOutput) -> (value: Option<Json>)
    ensures
        match value {
            Some(value) => parsed_value(parsed_json(trimmed(output@.stdout))) == Some(value@),
            None => parsed_value(parsed_json(trimmed(output@.stdout))) is None,
        },
{
    match parse_json(trim(output.stdout.as_str())) {
        Ok(value) => Some(value),
        Err(_) => None,
    }
}

/// What is reported of a command.
pub fn build_tool_data(
    output: &CommandOutput,
    argv: &[String],
    resolved_credentials: &ResolvedCredentials,
    file_transport_dir: &TransportDir,
) -> (data: Json)
    ensures
        data@ == tool_data(
            output@,
            texts(argv@),
            resolved_credentials@,
            file_transport_dir@,
            parsed_value(parsed_json(trimmed(output@.stdout))),
        ),
{
    tool_data_with(output, argv, resolved_credentials, file_transport_dir, stdout_json(output))
}

/// A text of the `error` that `gws` reports on its output.
fn find_reported_text<'a>(stdout_json: &'a Option<Json>, field: &str) -> (text: Option<&'a str>)
    ensures
        match (stdout_json, text) {
            (Some(value), Some(text)) => reported_text(Some(value@), field@) == Some(text@),
            (Some(value), None) => reported_text(Some(value@), field@) is None,
            (None, text) => text is None,
        },
{
    match stdout_json {
        Some(value) => match value.get("error") {
            Some(error) => match error.get(field) {
                Some(text) => text.as_text(),
                None => None,
            },
            None => None,
        },
        None => None,
    }
}

/// What is said of a command that failed.
#[derive(Debug, PartialEq, Eq)]
pub struct Failure {
    pub code: i32,
    pub message: String,
    pub reason: Option<String>,
}

/// What is said of a command that failed, by its contents.
pub struct FailureView {
    pub code: i32,
    pub message: Seq<char>,
    pub reason: Option<Seq<char>>,
}

impl View for Failure {
    type V = FailureView;

    open spec fn view(&self) -> FailureView {
        FailureView {
            code: self.code,
            message: self.message@,
            reason: match self.reason {
                Some(reason) => Some(reason@),
                None => None,
            },
        }
    }
}

/// What is to be said of a command that failed, given what its output was read as.
pub fn describe_failure(output: &CommandOutput, stdout_json: &Option<Json>) -> (failure: Failure)
    ensures
        ({
            let value = match stdout_json {
                Some(value) => Some(value@),
                None => None,
            };
            let reason = reported_text(value, "reason"@);
            failure@ == FailureView {
                code: failure_code(reason),
                message: failure_message(value, output@.stderr),
                reason,
            }
        }),
{
    proof {
        law_trimmed(output.stderr@);
    }
    let stderr = trim(output.stderr.as_str());
    let fallback = if stderr.is_empty() {
        "gws command failed"
    } else {
        stderr
    };
    let message = match find_reported_text(stdout_json, "message") {
        Some(message) => {
            proof {
                law_trimmed(message@);
            }
            if trim(message).is_empty() {
                fallback
            } else {
                message
            }
        },
        None => fallback,
    };
    let mut code: i32 = INTERNAL_ERROR;
    let mut shown_reason: Option<String> = None;
    if let Some(reason) = find_reported_text(stdout_json, "reason") {
        if same_text(reason, "validationError") {
            code = INVALID_PARAMS;
        }
        shown_reason = Some(reason.to_owned());
    }
    Failure { code, message: message.to_owned(), reason: shown_reason }
}

/// The response for a command that failed, given what is to be said of it.
pub fn failure_response_with(
    id: Json,
    output: &CommandOutput,
    tool_data: Json,
    failure: Failure,
) -> (response: RpcResponse)
    ensures
        response@ == error_view(
            id@,
            failure.code,
            failure.message@,
            Some(failure_data(output@, tool_data@, failure@.reason)),
        ),
{
    let reason = match failure.reason {
        Some(reason) => Json::Text(reason),
        None => Json::Null,
    };
    let mut data = JsonObject::new();
    data.insert("tool", json_text(TOOL_NAME));
    data.insert("gws_exit_code", json_integer(output.exit_code));
    data.insert("reason", reason);
    data.insert("tool_data", tool_data);
    error_response(id, failure.code, failure.message, Some(Json::Object(data)))
}

/// The response for a command that failed.
pub fn build_gws_failure_response(id: Json, output: &CommandOutput, tool_data: Json) -> (response:
    RpcResponse)
    ensures
        response@ == failure_view(
            id@,
            output@,
            tool_data@,
            parsed_value(parsed_json(trimmed(output@.stdout))),
        ),
{
    let failure = describe_failure(output, &stdout_json(output));
    failure_response_with(id, output, tool_data, failure)
}

/// Each part of the report is found under its name: the command, where it ran, which
/// credentials it got, what it put out, and its exit code.
pub proof fn law_tool_data_fields(
    output: CommandOutputView,
    argv: Seq<Seq<char>>,
    credentials: ResolvedCredentialsView,
    file_transport_dir: TransportDirView,
    stdout_json: Option<JsonView>,
)
    ensures
        ({
            let data = tool_data(output, argv, credentials, file_transport_dir, stdout_json);
            &&& data.get("argv"@) == Some(text_list(argv))
            &&& data.get("plugin_executable"@) == Some(JsonView::Text(output.executable))
            &&& data.get("file_transport_dir"@) == Some(
                JsonView::Text(file_transport_dir.shown()),
            )
            &&& data.get("credential_sources"@) == Some(text_list(credentials.sources))
            &&& data.get("stdout"@) == Some(JsonView::Text(output.stdout))
            &&& data.get("stderr"@) == Some(JsonView::Text(output.stderr))
            &&& data.get("exit_code"@) == Some(
                JsonView::Number(integer_number(output.exit_code as int)),
            )
            &&& data.get("embedded_cli"@) == Some(JsonView::Bool(true))
            &&& data.get("stdout_json"@) == stdout_json
        }),
{
    reveal_strlit("argv");
    reveal_strlit("plugin_executable");
    reveal_strlit("file_transport_dir");
    reveal_strlit("credential_sources");
    reveal_strlit("stdout");
    reveal_strlit("stderr");
    reveal_strlit("exit_code");
    reveal_strlit("embedded_cli");
    reveal_strlit("stdout_json");
    assert("argv"@.len() == 4);
    assert("plugin_executable"@.len() == 17);
    assert("file_transport_dir"@.len() == 18);
    assert("credential_sources"@.len() == 18);
    assert("stdout"@.len() == 6);
    assert("stderr"@.len() == 6);
    assert("exit_code"@.len() == 9);
    assert("embedded_cli"@.len() == 12);
    assert("stdout_json"@.len() == 11);
    assert("file_transport_dir"@[0] != "credential_sources"@[0]);
    assert("stdout"@[3] != "stderr"@[3]);
}

/// A command that failed is answered with an error, never with a result, and the whole
/// report stands in its data.
pub proof fn law_failure_holds_the_report(
    id: JsonView,
    output: CommandOutputView,
    report: JsonView,
    stdout_json: Option<JsonView>,
)
    ensures
        ({
            let response = failure_view(id, output, report, stdout_json);
            &&& response.well_formed()
            &&& response.id == id
            &&& response.result is None
            &&& response.error->0.data->0.get("tool"@) == Some(JsonView::Text(TOOL_NAME@))
            &&& response.error->0.data->0.get("gws_exit_code"@) == Some(
                JsonView::Number(integer_number(output.exit_code as int)),
            )
            &&& response.error->0.data->0.get("reason"@) == Some(
                match reported_text(stdout_json, "reason"@) {
                    Some(reason) => JsonView::Text(reason),
                    None => JsonView::Null,
                },
            )
            &&& response.error->0.data->0.get("tool_data"@) == Some(report)
        }),
{
    reveal_strlit("tool");
    reveal_strlit("gws_exit_code");
    reveal_strlit("reason");
    reveal_strlit("tool_data");
    assert("tool"@.len() == 4);
    assert("gws_exit_code"@.len() == 13);
    assert("reason"@.len() == 6);
    assert("tool_data"@.len() == 9);
}

/// The message of a failure is never blank.
pub proof fn law_failure_message_is_not_blank(stdout_json: Option<JsonView>, stderr: Seq<char>)
    ensures
        !is_blank(failure_message(stdout_json, stderr)),
{
    law_trimmed(stderr);
    let rest = trimmed(stderr);
    if rest.len() > 0 {
        assert(!is_whitespace(rest[0]));
    }
    reveal_strlit("gws command failed");
    assert(!is_whitespace("gws command failed"@[0]));
}

/// The value that was read is the value, and where none could be read there is none.
pub proof fn law_parsed_values(value: JsonView, message: Seq<char>)
    ensures
        parsed_value(Ok(value)) == Some(value),
        parsed_value(Err(message)) is None,
{
}

/// The object under `error` in what `gws` put out has the value under `field`.
pub open spec fn error_has(
    stdout_json: Option<JsonView>,
    field: Seq<char>,
    value: JsonView,
) -> bool {
    &&& stdout_json is Some
    &&& stdout_json->0 is Object
    &&& stdout_json->0->Object_0.dom().contains("error"@)
    &&& stdout_json->0->Object_0["error"@] is Object
    &&& stdout_json->0->Object_0["error"@]->Object_0.dom().contains(field)
    &&& stdout_json->0->Object_0["error"@]->Object_0[field] == value
}

/// What `gws` reports under a field of its error is the text there, and nothing else is
/// reported.
pub proof fn law_what_is_reported(
    stdout_json: Option<JsonView>,
    field: Seq<char>,
    text: Seq<char>,
)
    ensures
        reported_text(stdout_json, field) == Some(text) <==> error_has(
            stdout_json,
            field,
            JsonView::Text(text),
        ),
        error_has(stdout_json, field, JsonView::Text(text)) <==> (stdout_json matches Some(
            JsonView::Object(entries),
        ) && entries.dom().contains("error"@) && (entries["error"@] matches JsonView::Object(
            error,
        ) && error.dom().contains(field) && error[field] == JsonView::Text(text))),
{
}

/// The code of a failure says that the parameters were invalid exactly where `gws` gives
/// `validationError` as the reason; in every other case, with another reason or with none, the
/// error is internal.
pub proof fn law_code_of_a_failure(
    id: JsonView,
    output: CommandOutputView,
    report: JsonView,
    stdout_json: Option<JsonView>,
)
    ensures
        ({
            let code = failure_view(id, output, report, stdout_json).error->0.code;
            let invalid = error_has(stdout_json, "reason"@, JsonView::Text("validationError"@));
            &&& failure_view(id, output, report, stdout_json).error is Some
            &&& invalid <==> reported_text(stdout_json, "reason"@) == Some("validationError"@)
            &&& invalid ==> code == -32602
            &&& !invalid ==> code == -32603
        }),
{
    law_what_is_reported(stdout_json, "reason"@, "validationError"@);
}

/// The message of a failure is the one that `gws` reports, letter for letter, where that is a
/// text that is not blank; else what stands on the error output, trimmed, where that is not
/// blank; and else a general one.
pub proof fn law_message_of_a_failure(
    id: JsonView,
    output: CommandOutputView,
    report: JsonView,
    stdout_json: Option<JsonView>,
    reported: Seq<char>,
)
    ensures
        ({
            let message = failure_view(id, output, report, stdout_json).error->0.message;
            &&& error_has(stdout_json, "message"@, JsonView::Text(reported)) && !is_blank(reported)
                ==> message == reported
            &&& (forall|text: Seq<char>|
                #[trigger] error_has(stdout_json, "message"@, JsonView::Text(text)) ==> is_blank(
                    text,
                )) ==> message == if is_blank(output.stderr) {
                "gws command failed"@
            } else {
                trimmed(output.stderr)
            }
        }),
{
    law_what_is_reported(stdout_json, "message"@, reported);
    if let Some(found) = reported_text(stdout_json, "message"@) {
        law_what_is_reported(stdout_json, "message"@, found);
    }
}

/// The report of a command and the data of a failure hold nothing but the parts that are named.
pub proof fn law_reports_hold_nothing_else(
    output: CommandOutputView,
    argv: Seq<Seq<char>>,
    credentials: ResolvedCredentialsView,
    file_transport_dir: TransportDirView,
    stdout_json: Option<JsonView>,
    reason: Option<Seq<char>>,
    key: Seq<char>,
)
    ensures
        ({
            let data = tool_data(output, argv, credentials, file_transport_dir, stdout_json);
            &&& data is Object
            &&& data.get(key) is Some ==> {
                ||| key == "argv"@
                ||| key == "plugin_executable"@
                ||| key == "file_transport_dir"@
                ||| key == "credential_sources"@
                ||| key == "stdout"@
                ||| key == "stderr"@
                ||| key == "exit_code"@
                ||| key == "embedded_cli"@
                ||| key == "stdout_json"@
            }
            &&& failure_data(output, data, reason) is Object
            &&& failure_data(output, data, reason).get(key) is Some ==> {
                ||| key == "tool"@
                ||| key == "gws_exit_code"@
                ||| key == "reason"@
                ||| key == "tool_data"@
            }
        }),
{
}

/// What a call says of a command that failed: the code goes by the reason that `gws` gives, and
/// the message is its own, or what stands on the error output.
pub proof fn law_describe_failure(
    output: &CommandOutput,
    stdout_json: &Option<Json>,
    failure: Failure,
    text: Seq<char>,
)
    requires
        call_ensures(describe_failure, (output, stdout_json), failure),
    ensures
        ({
            let value = match stdout_json {
                Some(value) => Some(value@),
                None => None,
            };
            let invalid = error_has(value, "reason"@, JsonView::Text("validationError"@));
            &&& failure.code == -32602 || failure.code == -32603
            &&& failure.code == -32602 <==> invalid
            &&& error_has(value, "reason"@, JsonView::Text(text)) <==> (failure.reason is Some
                && failure.reason->0@ == text)
            &&& error_has(value, "message"@, JsonView::Text(text)) && !is_blank(text)
                ==> failure.message@ == text
            &&& value is None ==> failure.message@ == if is_blank(output.stderr@) {
                "gws command failed"@
            } else {
                trimmed(output.stderr@)
            }
        }),
{
    let value = match stdout_json {
        Some(value) => Some(value@),
        None => None,
    };
    law_what_is_reported(value, "reason"@, "validationError"@);
    law_what_is_reported(value, "reason"@, text);
    law_what_is_reported(value, "message"@, text);
}

/// What a call answers for a command that failed: an error and no result, with the id of the
/// request, the code that the reason gives, and the report.
pub proof fn law_build_gws_failure_response(
    id: Json,
    output: &CommandOutput,
    report: Json,
    response: RpcResponse,
)
    requires
        call_ensures(build_gws_failure_response, (id, output, report), response),
    ensures
        ({
            let parsed = parsed_json(trimmed(output.stdout@));
            let value = if parsed is Ok {
                Some(parsed->Ok_0)
            } else {
                None
            };
            &&& response.jsonrpc@ == "2.0"@
            &&& response.id@ == id@
            &&& response.result is None
            &&& response.error is Some
            &&& response.error->0.code == if error_has(
                value,
                "reason"@,
                JsonView::Text("validationError"@),
            ) {
                -32602i32
            } else {
                -32603i32
            }
            &&& response.error->0.data is Some
            &&& response.error->0.data->0@.get("tool_data"@) == Some(report@)
            &&& response.error->0.data->0@.get("gws_exit_code"@) == Some(
                JsonView::Number(integer_number(output.exit_code as int)),
            )
        }),
{
    let value = parsed_value(parsed_json(trimmed(output@.stdout)));
    law_code_of_a_failure(id@, output@, report@, value);
    law_failure_holds_the_report(id@, output@, report@, value);
}

/// What a call reports of a command: its arguments, both outputs, the first of them also read as
/// JSON where it is that, and its exit code.
pub proof fn law_build_tool_data(
    output: &CommandOutput,
    argv: &[String],
    resolved_credentials: &ResolvedCredentials,
    file_transport_dir: &TransportDir,
    data: Json,
)
    requires
        call_ensures(
            build_tool_data,
            (output, argv, resolved_credentials, file_transport_dir),
            data,
        ),
    ensures
        data@.get("argv"@) == Some(text_list(texts(argv@))),
        data@.get("plugin_executable"@) == Some(JsonView::Text(output.executable@)),
        data@.get("file_transport_dir"@) == Some(
            JsonView::Text(
                match *file_transport_dir {
                    TransportDir::Requested(path) => path@,
                    TransportDir::Executable(path) => path@,
                },
            ),
        ),
        data@.get("credential_sources"@) == Some(text_list(names(resolved_credentials.sources@))),
        data@.get("stdout"@) == Some(JsonView::Text(output.stdout@)),
        data@.get("stderr"@) == Some(JsonView::Text(output.stderr@)),
        data@.get("exit_code"@) == Some(JsonView::Number(integer_number(output.exit_code as int))),
        data@.get("embedded_cli"@) == Some(JsonView::Bool(true)),
        match parsed_json(trimmed(output.stdout@)) {
            Ok(value) => data@.get("stdout_json"@) == Some(value),
            Err(_) => data@.get("stdout_json"@) is None,
        },
{
    law_tool_data_fields(
        output@,
        texts(argv@),
        resolved_credentials@,
        file_transport_dir@,
        parsed_value(parsed_json(trimmed(output@.stdout))),
    );
}

} // verus!
