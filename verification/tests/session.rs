use gws_executa::credentials::{AmbientCredentials, TextMap};
use gws_executa::invoke::{
    handle_invoke, Executable, InvokeContext, InvokeParams, InvokeStep,
};
use gws_executa::json::{parse_json, Json, JsonObject};
use gws_executa::protocol::{ResponsePlan, RpcRequest, TransportDir};
use gws_executa::request::{handle_decoded, RequestStep};
use gws_executa::session::{after_send, next_input, InputEvent, SessionStep};
use gws_executa::transport::{choose_delivery, Delivery};

/// The value of an object under a key, moved out of it.
fn take(value: &mut Json, key: &str) -> Json {
    match value {
        Json::Object(object) => object
            .entries
            .iter()
            .position(|(name, _)| name == key)
            .map(|at| object.entries.remove(at).1)
            .unwrap_or(Json::Null),
        _ => Json::Null,
    }
}

fn text(value: Json) -> String {
    value.as_text().unwrap_or("").to_string()
}

fn decode(mut value: Json) -> Result<RpcRequest, String> {
    if !matches!(value, Json::Object(_)) {
        return Err("no object".to_string());
    }
    Ok(RpcRequest {
        jsonrpc: text(take(&mut value, "jsonrpc")),
        method: text(take(&mut value, "method")),
        params: take(&mut value, "params"),
        id: take(&mut value, "id"),
    })
}

fn decode_params(mut value: Json) -> Result<InvokeParams, String> {
    Ok(InvokeParams {
        tool: text(take(&mut value, "tool")),
        arguments: match take(&mut value, "arguments") {
            Json::Object(arguments) => arguments,
            _ => JsonObject::new(),
        },
        context: InvokeContext {
            credentials: TextMap::new(),
        },
    })
}

/// The plan for the answer to a line.
fn reply(line: &str) -> Option<ResponsePlan> {
    match next_input(InputEvent::Line(line.to_string())) {
        SessionStep::Continue => None,
        SessionStep::Send(plan) => Some(plan),
        SessionStep::Decode(value) => Some(answer(value)),
        other => panic!("{:?}", other),
    }
}

/// The plan for the answer to a message.
fn answer(value: Json) -> ResponsePlan {
    match handle_decoded(decode(value), "1") {
        RequestStep::Respond(plan) => plan,
        RequestStep::Invoke(id, params) => {
            let executable = Executable {
                path: "/tmp/gws-executa".to_string(),
                directory: Some("/tmp".to_string()),
            };
            let ambient = AmbientCredentials {
                token: None,
                credentials_file: None,
            };
            match handle_invoke(id, decode_params(params), Some(executable), ambient) {
                InvokeStep::Respond(plan) => plan,
                other => panic!("{:?}", other),
            }
        }
    }
}

/// Runs a session over its input, with `room` for so many messages, and gives back the codes of
/// the errors that went out, in order, and what is logged.
fn session(input: Vec<InputEvent>, room: usize) -> (Vec<Option<i32>>, Option<String>) {
    let mut input = input.into_iter();
    let mut out = vec![];
    let mut step = SessionStep::Continue;
    loop {
        step = match step {
            SessionStep::Continue => next_input(input.next().unwrap()),
            SessionStep::Decode(value) => SessionStep::Send(answer(value)),
            SessionStep::Send(_) if out.len() == room => after_send(Err("no room".to_string())),
            SessionStep::Send(plan) => {
                out.push(plan.response.error.map(|error| error.code));
                after_send(Ok(()))
            }
            SessionStep::Stop(log) => return (out, log),
        };
    }
}

fn lines() -> Vec<InputEvent> {
    LINES
        .iter()
        .map(|line| InputEvent::Line(line.to_string()))
        .collect()
}

const LINES: [&str; 7] = [
    "{\"jsonrpc\": \"2.0\", \"method\": \"describe\", \"id\": 1}\n",
    "\n",
    "{\n",
    "42\n",
    " \t\n",
    "{\"jsonrpc\": \"2.0\", \"method\": \"invoke\", \"id\": 2, \
      \"params\": {\"tool\": \"run_gws\", \"arguments\": {\"argv\": [\"drive\"]}}}\n",
    "{\"jsonrpc\": \"2.0\", \"method\": \"health\", \"id\": 3}\n",
];

#[test]
fn each_line_that_is_not_blank_is_answered_in_order() {
    let answers: Vec<(Json, Option<i32>)> = LINES
        .iter()
        .filter_map(|line| reply(line))
        .map(|plan| (plan.response.id, plan.response.error.map(|error| error.code)))
        .collect();
    assert_eq!(
        answers,
        vec![
            (parse_json("1").unwrap(), None),
            (Json::Null, Some(-32700)),
            (Json::Null, Some(-32600)),
            (parse_json("2").unwrap(), Some(-32602)),
            (parse_json("3").unwrap(), None),
        ]
    );
}

#[test]
fn each_answer_holds_a_result_or_an_error() {
    for plan in LINES.iter().filter_map(|line| reply(line)) {
        assert_eq!(plan.response.jsonrpc, "2.0");
        assert!(plan.response.result.is_some() != plan.response.error.is_some());
    }
}

#[test]
fn only_the_invocation_is_answered_through_a_file() {
    for plan in LINES.iter().filter_map(|line| reply(line)) {
        let invoked = plan.response.id == parse_json("2").unwrap();
        let delivery =
            choose_delivery(b"{}", plan.file_transport_dir, plan.file_transport_mode).unwrap();
        assert_eq!(
            delivery,
            if invoked {
                Delivery::File(TransportDir::Executable("/tmp".to_string()))
            } else {
                Delivery::Stdout
            }
        );
    }
}

#[test]
fn a_session_ends_with_its_input() {
    let mut input = lines();
    input.push(InputEvent::End);
    assert_eq!(
        session(input, 9),
        (
            vec![None, Some(-32700), Some(-32600), Some(-32602), None],
            None
        )
    );
    assert_eq!(next_input(InputEvent::End), SessionStep::Stop(None));
}

#[test]
fn a_session_ends_where_the_input_cannot_be_read() {
    let mut input = lines();
    input.insert(3, InputEvent::Failed("stream did not contain valid UTF-8".to_string()));
    assert_eq!(
        session(input, 9),
        (
            vec![None, Some(-32700)],
            Some("failed to read stdin: stream did not contain valid UTF-8".to_string())
        )
    );
}

#[test]
fn a_session_ends_where_an_answer_cannot_be_sent() {
    let mut input = lines();
    input.push(InputEvent::End);
    assert_eq!(
        session(input, 2),
        (
            vec![None, Some(-32700)],
            Some("failed to send response: no room".to_string())
        )
    );
    assert_eq!(after_send(Ok(())), SessionStep::Continue);
}
