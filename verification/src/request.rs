//! From a line of input to its answer, or to the step that comes before the answer.

use vstd::prelude::*;
use vstd::string::*;

use crate::json::{
    integer_number, json_integer, json_names, json_text, parse_json, parsed_json, text_list, Json,
    JsonObject, JsonView,
};
use crate::manifest::{manifest, manifest_view};
use crate::protocol::{
    error_response, plain_plan, refusal, response_plan, success_response, success_view,
    FileTransportMode, ResponsePlan, ResponsePlanView, RpcRequest, RpcRequestView,
    INVALID_REQUEST, JSONRPC_VERSION, METHOD_NOT_FOUND, PARSE_ERROR,
};
use crate::text::{is_blank, law_trimmed, names, same_text, trim, trimmed};

verus! {

/// What to do with a line of input.
#[derive(Debug, PartialEq, Eq)]
pub enum LineStep {
    /// Nothing: the line is blank.
    Skip,
    /// Send the response.
    Respond(ResponsePlan),
    /// Decode the value as a request.
    Decode(Json),
}

/// What is to be done with a line.
pub enum LineStepView {
    Skip,
    Respond(ResponsePlanView),
    Decode(JsonView),
}

impl View for LineStep {
    type V = LineStepView;

    open spec fn view(&self) -> LineStepView {
        match self {
            LineStep::Skip => LineStepView::Skip,
            LineStep::Respond(plan) => LineStepView::Respond(plan@),
            LineStep::Decode(value) => LineStepView::Decode(value@),
        }
    }
}

/// What to do with a request.
#[derive(Debug, PartialEq, Eq)]
pub enum RequestStep {
    /// Send the response.
    Respond(ResponsePlan),
    /// Decode the value as the parameters of an invocation, for the request of this id.
    Invoke(Json, Json),
}

/// What is to be done with a request.
pub enum RequestStepView {
    Respond(ResponsePlanView),
    Invoke(JsonView, JsonView),
}

impl View for RequestStep {
    type V = RequestStepView;

    open spec fn view(&self) -> RequestStepView {
        match self {
            RequestStep::Respond(plan) => RequestStepView::Respond(plan@),
            RequestStep::Invoke(id, params) => RequestStepView::Invoke(id@, params@),
        }
    }
}

/// The data of an error that only has a message to add.
pub open spec fn details(message: Seq<char>) -> JsonView {
    JsonView::Object(map!["details"@ => JsonView::Text(message)])
}

/// What is to be done with a line that is not blank, given what it was read as.
pub open spec fn parsed_step(parsed: Result<JsonView, Seq<char>>) -> LineStepView {
    match parsed {
        Ok(value) => LineStepView::Decode(value),
        Err(message) => LineStepView::Respond(
            refusal(JsonView::Null, PARSE_ERROR, "Parse error"@, Some(details(message))),
        ),
    }
}

/// What is to be done with a line: it is read as JSON without the white space around it.
pub open spec fn line_step(line: Seq<char>) -> LineStepView {
    if is_blank(line) {
        LineStepView::Skip
    } else {
        parsed_step(parsed_json(trimmed(line)))
    }
}

/// The answer to a request that is none.
pub open spec fn malformed_request(id: JsonView) -> ResponsePlanView {
    refusal(
        id,
        INVALID_REQUEST,
        "Invalid request"@,
        Some(
            JsonView::Object(
                map![
                    "expected_jsonrpc"@ => JsonView::Text("2.0"@),
                    "expected_fields"@ => text_list(seq!["jsonrpc"@, "method"@, "id"@]),
                ],
            ),
        ),
    )
}

/// What the plugin says of its health.
pub open spec fn health_view(version: Seq<char>, timestamp: Seq<char>) -> JsonView {
    JsonView::Object(
        map![
            "status"@ => JsonView::Text("healthy"@),
            "timestamp"@ => JsonView::Text(timestamp),
            "version"@ => JsonView::Text(version),
            "tools_count"@ => JsonView::Number(integer_number(1)),
        ],
    )
}

/// What is to be done with a request, for a plugin of this version at this time.
pub open spec fn request_step(
    request: RpcRequestView,
    version: Seq<char>,
    timestamp: Seq<char>,
) -> RequestStepView {
    if request.jsonrpc != JSONRPC_VERSION@ || request.method.len() == 0 {
        RequestStepView::Respond(malformed_request(request.id))
    } else if request.method == "describe"@ {
        RequestStepView::Respond(plain_plan(success_view(request.id, manifest_view())))
    } else if request.method == "health"@ {
        RequestStepView::Respond(
            plain_plan(success_view(request.id, health_view(version, timestamp))),
        )
    } else if request.method == "invoke"@ {
        RequestStepView::Invoke(request.id, request.params)
    } else {
        RequestStepView::Respond(
            refusal(
                request.id,
                METHOD_NOT_FOUND,
                "Method not found: "@ + request.method,
                None,
            ),
        )
    }
}

/// The answer to a value that could not be decoded as a request, and whose id is not known.
pub open spec fn undecodable_request(message: Seq<char>) -> ResponsePlanView {
    refusal(JsonView::Null, INVALID_REQUEST, "Invalid request"@, Some(details(message)))
}

/// A decimal digit.
pub open spec fn is_digit(c: char) -> bool {
    '0' as u32 <= c as u32 <= '9' as u32
}

/// Nothing but digits.
pub open spec fn all_digits(text: Seq<char>) -> bool {
    forall|i: int| 0 <= i < text.len() ==> is_digit(#[trigger] text[i])
}

/// The two characters at `at` are the digits of a number from `low` to `high`.
pub open spec fn two_digits(text: Seq<char>, at: int, low: int, high: int) -> bool {
    &&& is_digit(text[at])
    &&& is_digit(text[at + 1])
    &&& low <= 10 * (text[at] as int - '0' as int) + (text[at + 1] as int - '0' as int) <= high
}

/// A year: four digits, or more of them behind a sign.
pub open spec fn is_year(text: Seq<char>) -> bool {
    ||| text.len() == 4 && all_digits(text)
    ||| text.len() > 5 && text[0] == '+' && all_digits(text.skip(1))
}

/// A month, a day and a time of day, in the form `-12-31T23:59:59`.
pub open spec fn is_day_and_time(text: Seq<char>) -> bool {
    &&& text.len() == 15
    &&& text[0] == '-' && two_digits(text, 1, 1, 12)
    &&& text[3] == '-' && two_digits(text, 4, 1, 31)
    &&& text[6] == 'T' && two_digits(text, 7, 0, 23)
    &&& text[9] == ':' && two_digits(text, 10, 0, 59)
    &&& text[12] == ':' && two_digits(text, 13, 0, 59)
}

/// A fraction of a second: nothing, or three, six or nine digits behind a point.
pub open spec fn is_fraction(text: Seq<char>) -> bool {
    ||| text.len() == 0
    ||| {
        &&& text.len() == 4 || text.len() == 7 || text.len() == 10
        &&& text[0] == '.'
        &&& all_digits(text.skip(1))
    }
}

/// A time in UTC, put together from its parts.
pub open spec fn utc_time(
    year: Seq<char>,
    day_and_time: Seq<char>,
    fraction: Seq<char>,
) -> Seq<char> {
    year + day_and_time + fraction + "+00:00"@
}

/// A time in UTC in the form of RFC 3339, such as `2024-12-31T23:59:59.125+00:00`. The year has
/// more than four digits from the year 10000 on.
pub open spec fn is_utc_time(timestamp: Seq<char>) -> bool {
    exists|year: Seq<char>, day_and_time: Seq<char>, fraction: Seq<char>|
        {
            &&& is_year(year)
            &&& is_day_and_time(day_and_time)
            &&& is_fraction(fraction)
            &&& timestamp == #[trigger] utc_time(year, day_and_time, fraction)
        }
}

/// Wraps `chrono::Utc::now` and `chrono::DateTime::to_rfc3339`. The text has the form of RFC
/// 3339, with the offset zero from UTC. Nothing is said of which time it is, as the clock gives
/// it. `chrono` has no time for a clock that stands before 1970 or beyond its last year, and
/// stops the program there.
#[verifier::external_body]
fn current_timestamp() -> (timestamp: String)
    ensures
        is_utc_time(timestamp@),
{
    chrono::Utc::now().to_rfc3339()
}

/// There is a time.
proof fn lemma_a_time() -> (timestamp: Seq<char>)
    ensures
        is_utc_time(timestamp),
{
    reveal_strlit("1970");
    reveal_strlit("-01-01T00:00:00");
    let year = "1970"@;
    let day_and_time = "-01-01T00:00:00"@;
    utc_time(year, day_and_time, Seq::empty())
}

/// The data of an error that only has a message to add.
fn json_details(message: String) -> (json: Json)
    ensures
        json@ == details(message@),
{
    let mut data = JsonObject::new();
    data.insert("details", Json::Text(message));
    Json::Object(data)
}

/// What to do with a line that is not blank, given what it was read as.
pub fn handle_parsed(parsed: Result<Json, String>) -> (step: LineStep)
    ensures
        step@ == parsed_step(
            match parsed {
                Ok(value) => Ok(value@),
                Err(message) => Err(message@),
            },
        ),
{
    match parsed {
        Ok(value) => LineStep::Decode(value),
        Err(message) => LineStep::Respond(
            response_plan(
                error_response(
                    Json::Null,
                    PARSE_ERROR,
                    "Parse error".to_owned(),
                    Some(json_details(message)),
                ),
            ),
        ),
    }
}

/// What to do with a line of input.
pub fn handle_line(line: &str) -> (step: LineStep)
    ensures
        step@ == line_step(line@),
{
    proof {
        law_trimmed(line@);
    }
    let text = trim(line);
    if text.is_empty() {
        LineStep::Skip
    } else {
        handle_parsed(parse_json(text))
    }
}

/// What to do with a request, for a plugin of this version at this time.
pub fn handle_request_at(request: RpcRequest, version: &str, timestamp: String) -> (step:
    RequestStep)
    ensures
        step@ == request_step(request@, version@, timestamp@),
{
    if !same_text(request.jsonrpc.as_str(), JSONRPC_VERSION) || request.method.as_str().is_empty() {
        let fields: Vec<&'static str> = vec!["jsonrpc", "method", "id"];
        assert(names(fields@) =~= seq!["jsonrpc"@, "method"@, "id"@]);
        let mut data = JsonObject::new();
        data.insert("expected_jsonrpc", json_text("2.0"));
        data.insert("expected_fields", json_names(&fields));
        return RequestStep::Respond(
            response_plan(
                error_response(
                    request.id,
                    INVALID_REQUEST,
                    "Invalid request".to_owned(),
                    Some(Json::Object(data)),
                ),
            ),
        );
    }
    if same_text(request.method.as_str(), "describe") {
        RequestStep::Respond(response_plan(success_response(request.id, manifest())))
    } else if same_text(request.method.as_str(), "health") {
        let mut health = JsonObject::new();
        health.insert("status", json_text("healthy"));
        health.insert("timestamp", Json::Text(timestamp));
        health.insert("version", json_text(version));
        health.insert("tools_count", json_integer(1));
        RequestStep::Respond(response_plan(success_response(request.id, Json::Object(health))))
    } else if same_text(request.method.as_str(), "invoke") {
        RequestStep::Invoke(request.id, request.params)
    } else {
        RequestStep::Respond(
            response_plan(
                error_response(
                    request.id,
                    METHOD_NOT_FOUND,
                    "Method not found: ".to_owned().concat(request.method.as_str()),
                    None,
                ),
            ),
        )
    }
}

/// What to do with a request, for a plugin of this version. The clock is read for the health
/// of the plugin, and for nothing else.
pub fn handle_request(request: RpcRequest, version: &str) -> (step: RequestStep)
    ensures
        exists|timestamp: Seq<char>|
            is_utc_time(timestamp) && step@ == #[trigger] request_step(
                request@,
                version@,
                timestamp,
            ),
{
    let asks_for_health = same_text(request.jsonrpc.as_str(), JSONRPC_VERSION) && same_text(
        request.method.as_str(),
        "health",
    );
    if asks_for_health {
        let timestamp = current_timestamp();
        let ghost now = timestamp@;
        let step = handle_request_at(request, version, timestamp);
        assert(step@ == request_step(request@, version@, now));
        step
    } else {
        let step = handle_request_at(request, version, String::new());
        proof {
            let some_time = lemma_a_time();
            assert(step@ == request_step(request@, version@, some_time));
        }
        step
    }
}

/// What to do with what a value was decoded as: a request, or the message that says why it is
/// none.
pub fn handle_decoded(decoded: Result<RpcRequest, String>, version: &str) -> (step: RequestStep)
    ensures
        match decoded {
            Ok(request) => exists|timestamp: Seq<char>|
                is_utc_time(timestamp) && step@ == #[trigger] request_step(
                    request@,
                    version@,
                    timestamp,
                ),
            Err(message) => step@ == RequestStepView::Respond(undecodable_request(message@)),
        },
{
    match decoded {
        Ok(request) => handle_request(request, version),
        Err(message) => RequestStep::Respond(
            response_plan(
                error_response(
                    Json::Null,
                    INVALID_REQUEST,
                    "Invalid request".to_owned(),
                    Some(json_details(message)),
                ),
            ),
        ),
    }
}

/// Every line is skipped, answered or decoded. What a line is read as is what is decoded, as it
/// was read; the answer to a line that holds no JSON value has the id null, as no other is known.
pub proof fn law_lines(line: Seq<char>)
    ensures
        line_step(line) is Skip <==> is_blank(line),
        line_step(line) is Decode <==> !is_blank(line) && parsed_json(trimmed(line)) is Ok,
        line_step(line) matches LineStepView::Decode(value) ==> parsed_json(trimmed(line)) == Ok::<
            JsonView,
            Seq<char>,
        >(value),
        line_step(line) matches LineStepView::Respond(plan) ==> {
            &&& plan == plain_plan(plan.response)
            &&& plan.response.well_formed()
            &&& plan.response.id == JsonView::Null
            &&& plan.response.error is Some
            &&& plan.response.error->0.code == PARSE_ERROR
        },
{
}

/// Every request is answered at once, unless it is an invocation; the answer carries the id of
/// the request and goes to standard output. It is a result exactly for a request for the
/// description or the health of the plugin.
pub proof fn law_requests(request: RpcRequestView, version: Seq<char>, timestamp: Seq<char>)
    ensures
        match request_step(request, version, timestamp) {
            RequestStepView::Invoke(id, params) => {
                &&& request.jsonrpc == JSONRPC_VERSION@
                &&& request.method == "invoke"@
                &&& id == request.id
                &&& params == request.params
            },
            RequestStepView::Respond(plan) => {
                &&& plan == plain_plan(plan.response)
                &&& plan.response.well_formed()
                &&& plan.response.id == request.id
                &&& request.jsonrpc != JSONRPC_VERSION@ || request.method != "invoke"@
                &&& plan.response.result is Some <==> {
                    &&& request.jsonrpc == JSONRPC_VERSION@
                    &&& request.method == "describe"@ || request.method == "health"@
                }
            },
        },
{
    reveal_strlit("describe");
    reveal_strlit("health");
    reveal_strlit("invoke");
    assert("describe"@.len() == 8);
    assert("health"@.len() == 6);
    assert("invoke"@.len() == 6);
    assert("health"@[0] != "invoke"@[0]);
}

/// A request for the health of the plugin is answered on standard output, with a report that
/// says that it is healthy, in which version, at which time, and how many tools the manifest
/// lists.
pub proof fn law_health(request: RpcRequestView, version: Seq<char>, timestamp: Seq<char>)
    requires
        request.jsonrpc == JSONRPC_VERSION@,
        request.method == "health"@,
        is_utc_time(timestamp),
    ensures
        ({
            let step = request_step(request, version, timestamp);
            let report = step->Respond_0.response.result->0;
            let tools = manifest_view().get("tools"@)->0.as_list();
            &&& step is Respond
            &&& step->Respond_0 == plain_plan(success_view(request.id, report))
            &&& report.get("status"@) == Some(JsonView::Text("healthy"@))
            &&& report.get("version"@) == Some(JsonView::Text(version))
            &&& report.get("timestamp"@) is Some
            &&& report.get("timestamp"@)->0.as_text() == Some(timestamp)
            &&& is_utc_time(report.get("timestamp"@)->0.as_text()->0)
            &&& tools is Some
            &&& report.get("tools_count"@) == Some(
                JsonView::Number(integer_number(tools->0.len() as int)),
            )
            &&& forall|key: Seq<char>| #[trigger]
                report.get(key) is Some ==> key == "status"@ || key == "timestamp"@ || key
                    == "version"@ || key == "tools_count"@
        }),
{
    reveal_strlit("describe");
    reveal_strlit("health");
    assert("describe"@.len() != "health"@.len());
    reveal_strlit("status");
    reveal_strlit("timestamp");
    reveal_strlit("version");
    reveal_strlit("tools_count");
    assert("status"@.len() == 6);
    assert("timestamp"@.len() == 9);
    assert("version"@.len() == 7);
    assert("tools_count"@.len() == 11);
    reveal_strlit("tools");
    reveal_strlit("runtime");
    assert("tools"@.len() == 5);
    assert("runtime"@.len() == 7);
}

/// What a text is read as is handed on for decoding as it was read; where it could not be read,
/// the answer says so under the id null, with the message of the reader.
pub proof fn law_what_was_read_is_decoded(value: JsonView, message: Seq<char>)
    ensures
        parsed_step(Ok(value)) == LineStepView::Decode(value),
        parsed_step(Err(message)) is Respond,
        ({
            let plan = parsed_step(Err(message))->Respond_0;
            &&& plan == plain_plan(plan.response)
            &&& plan.response.jsonrpc == "2.0"@
            &&& plan.response.id == JsonView::Null
            &&& plan.response.result is None
            &&& plan.response.error is Some
            &&& plan.response.error->0.code == -32700
            &&& plan.response.error->0.message == "Parse error"@
            &&& plan.response.error->0.data is Some
            &&& plan.response.error->0.data->0.get("details"@) == Some(JsonView::Text(message))
        }),
{
}

/// What a call does with a line: nothing with a blank one; the value that it spells is handed on
/// whole, its id included; and a line that spells none is answered with a parse error.
pub proof fn law_handle_line(line: &str, step: LineStep)
    requires
        call_ensures(handle_line, (line,), step),
    ensures
        step is Skip <==> is_blank(line@),
        !is_blank(line@) ==> match parsed_json(trimmed(line@)) {
            Ok(value) => step is Decode && step->Decode_0@ == value,
            Err(message) => {
                &&& step is Respond
                &&& step->Respond_0.file_transport_dir is None
                &&& step->Respond_0.file_transport_mode == FileTransportMode::Auto
                &&& step->Respond_0.response.id@ == JsonView::Null
                &&& step->Respond_0.response.result is None
                &&& step->Respond_0.response.error is Some
                &&& step->Respond_0.response.error->0.code == -32700
                &&& step->Respond_0.response.error->0.data is Some
                &&& step->Respond_0.response.error->0.data->0@.get("details"@) == Some(
                    JsonView::Text(message),
                )
            },
        },
{
    law_lines(line@);
    if let Err(message) = parsed_json(trimmed(line@)) {
        law_what_was_read_is_decoded(JsonView::Null, message);
    }
}

/// What a call does with what a line was read as.
pub proof fn law_handle_parsed(parsed: Result<Json, String>, step: LineStep)
    requires
        call_ensures(handle_parsed, (parsed,), step),
    ensures
        parsed matches Ok(value) ==> step is Decode && step->Decode_0@ == value@,
        parsed is Err ==> {
            &&& step is Respond
            &&& step->Respond_0.response.id@ == JsonView::Null
            &&& step->Respond_0.response.error is Some
            &&& step->Respond_0.response.error->0.code == -32700
        },
{
}

/// Each request is answered for what it asks, under its own id: one of another version or
/// without a method is invalid, a request for the description gets the manifest, one that
/// invokes the tool is handed on with its parameters, and a method that is none of the three is
/// not found.
pub proof fn law_what_requests_are_answered(
    request: RpcRequestView,
    version: Seq<char>,
    timestamp: Seq<char>,
)
    ensures
        ({
            let step = request_step(request, version, timestamp);
            let response = step->Respond_0.response;
            let valid = request.jsonrpc == "2.0"@ && request.method.len() > 0;
            &&& step is Respond ==> {
                &&& step->Respond_0 == plain_plan(response)
                &&& response.jsonrpc == "2.0"@
                &&& response.id == request.id
                &&& (response.result is Some) != (response.error is Some)
            }
            &&& !valid ==> {
                &&& step is Respond
                &&& response.error is Some
                &&& response.error->0.code == -32600
                &&& response.error->0.message == "Invalid request"@
                &&& response.error->0.data is Some
                &&& response.error->0.data->0.get("expected_jsonrpc"@) == Some(
                    JsonView::Text("2.0"@),
                )
                &&& response.error->0.data->0.get("expected_fields"@) == Some(
                    text_list(seq!["jsonrpc"@, "method"@, "id"@]),
                )
            }
            &&& valid && request.method == "describe"@ ==> step is Respond && response.result
                == Some(manifest_view())
            &&& valid && request.method == "health"@ ==> step is Respond && response.result is Some
            &&& valid && request.method == "invoke"@ ==> step == RequestStepView::Invoke(
                request.id,
                request.params,
            )
            &&& valid && request.method != "describe"@ && request.method != "health"@
                && request.method != "invoke"@ ==> {
                &&& step is Respond
                &&& response.error is Some
                &&& response.error->0.code == -32601
                &&& response.error->0.message == "Method not found: "@ + request.method
                &&& response.error->0.data is None
            }
        }),
{
    reveal_strlit("describe");
    reveal_strlit("health");
    reveal_strlit("invoke");
    assert("describe"@.len() == 8);
    assert("health"@.len() == 6);
    assert("invoke"@.len() == 6);
    assert("health"@[0] != "invoke"@[0]);
    reveal_strlit("expected_jsonrpc");
    reveal_strlit("expected_fields");
    assert("expected_jsonrpc"@.len() == 16);
    assert("expected_fields"@.len() == 15);
}

/// A value that is no request is answered as an invalid request under the id null, with the
/// message that says why it is none.
pub proof fn law_undecodable_requests(message: Seq<char>)
    ensures
        ({
            let plan = undecodable_request(message);
            &&& plan == plain_plan(plan.response)
            &&& plan.response.jsonrpc == "2.0"@
            &&& plan.response.id == JsonView::Null
            &&& plan.response.result is None
            &&& plan.response.error is Some
            &&& plan.response.error->0.code == -32600
            &&& plan.response.error->0.message == "Invalid request"@
            &&& plan.response.error->0.data is Some
            &&& plan.response.error->0.data->0.get("details"@) == Some(JsonView::Text(message))
        }),
{
}

/// What a call does with a request: whatever it answers at once, it answers under the id of the
/// request and on standard output, with a result exactly for the description and the health of
/// the plugin; an invocation keeps its id and its parameters.
pub proof fn law_handle_request(request: RpcRequest, version: &str, step: RequestStep)
    requires
        call_ensures(handle_request, (request, version), step),
    ensures
        ({
            let valid = request.jsonrpc@ == "2.0"@ && request.method@.len() > 0;
            let invokes = valid && request.method@ == "invoke"@;
            let described = valid && request.method@ == "describe"@;
            let health = valid && request.method@ == "health"@;
            &&& step is Invoke <==> invokes
            &&& step matches RequestStep::Invoke(id, params) ==> {
                &&& id@ == request.id@
                &&& params@ == request.params@
            }
            &&& step matches RequestStep::Respond(plan) ==> {
                &&& plan.file_transport_dir is None
                &&& plan.file_transport_mode == FileTransportMode::Auto
                &&& plan.response.jsonrpc@ == "2.0"@
                &&& plan.response.id@ == request.id@
                &&& plan.response.result is Some <==> described || health
                &&& plan.response.error is Some <==> !described && !health
                &&& described ==> plan.response.result->0@ == manifest_view()
                &&& !described && !health ==> plan.response.error->0.code == if valid {
                    -32601i32
                } else {
                    -32600i32
                }
                &&& health ==> {
                    let report = plan.response.result->0@;
                    &&& report.get("status"@) == Some(JsonView::Text("healthy"@))
                    &&& report.get("version"@) == Some(JsonView::Text(version@))
                    &&& report.get("timestamp"@) matches Some(JsonView::Text(time)) && is_utc_time(
                        time,
                    )
                }
            }
        }),
{
    let timestamp = choose|timestamp: Seq<char>|
        is_utc_time(timestamp) && step@ == #[trigger] request_step(
            request@,
            version@,
            timestamp,
        );
    law_what_requests_are_answered(request@, version@, timestamp);
    law_requests(request@, version@, timestamp);
    if request.jsonrpc@ == "2.0"@ && request.method@ == "health"@ {
        law_health(request@, version@, timestamp);
    }
}

/// What a call does with a value that could not be decoded as a request.
pub proof fn law_handle_decoded(
    decoded: Result<RpcRequest, String>,
    version: &str,
    step: RequestStep,
)
    requires
        call_ensures(handle_decoded, (decoded, version), step),
    ensures
        decoded matches Err(message) ==> {
            &&& step is Respond
            &&& step->Respond_0.response.id@ == JsonView::Null
            &&& step->Respond_0.response.result is None
            &&& step->Respond_0.response.error is Some
            &&& step->Respond_0.response.error->0.code == -32600
        },
        decoded matches Ok(request) ==> match step {
            RequestStep::Invoke(id, params) => {
                &&& request.method@ == "invoke"@
                &&& id@ == request.id@
                &&& params@ == request.params@
            },
            RequestStep::Respond(plan) => plan.response.id@ == request.id@,
        },
{
    if let Ok(request) = decoded {
        let timestamp = choose|timestamp: Seq<char>|
            is_utc_time(timestamp) && step@ == #[trigger] request_step(
                request@,
                version@,
                timestamp,
            );
        law_what_requests_are_answered(request@, version@, timestamp);
        law_requests(request@, version@, timestamp);
    }
}

/// Every part of a step counts.
pub proof fn law_steps_are_seen_whole(line_step: LineStep, request_step: RequestStep)
    ensures
        line_step is Skip ==> line_step@ == LineStepView::Skip,
        line_step matches LineStep::Respond(plan) ==> line_step@ == LineStepView::Respond(plan@),
        line_step matches LineStep::Decode(value) ==> line_step@ == LineStepView::Decode(value@),
        request_step matches RequestStep::Respond(plan) ==> request_step@
            == RequestStepView::Respond(plan@),
        request_step matches RequestStep::Invoke(id, params) ==> request_step@
            == RequestStepView::Invoke(id@, params@),
{
}

} // verus!
