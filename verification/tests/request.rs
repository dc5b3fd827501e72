use gws_executa::json::{json_integer, json_text, parse_json, Json};
use gws_executa::manifest::manifest;
use gws_executa::protocol::{FileTransportMode, ResponsePlan, RpcRequest};
use gws_executa::request::{
    handle_decoded, handle_line, handle_parsed, handle_request, handle_request_at, LineStep,
    RequestStep,
};

fn request(jsonrpc: &str, method: &str) -> RpcRequest {
    RpcRequest {
        jsonrpc: jsonrpc.to_string(),
        method: method.to_string(),
        params: json_text("params"),
        id: json_integer(9),
    }
}

fn plan(step: RequestStep) -> ResponsePlan {
    match step {
        RequestStep::Respond(plan) => {
            assert_eq!(plan.file_transport_dir, None);
            assert_eq!(plan.file_transport_mode, FileTransportMode::Auto);
            plan
        }
        other => panic!("{:?}", other),
    }
}

#[test]
fn blank_lines_are_skipped() {
    assert_eq!(handle_line(""), LineStep::Skip);
    assert_eq!(handle_line(" \t\r\n"), LineStep::Skip);
}

#[test]
fn a_line_is_read_without_the_white_space_around_it() {
    assert_eq!(
        handle_line("\u{3000}{\"id\": 1} \n"),
        LineStep::Decode(parse_json("{\"id\": 1}").unwrap())
    );
}

#[test]
fn a_line_without_a_value_is_a_parse_error() {
    let plan = match handle_line("{\"id\": \n") {
        LineStep::Respond(plan) => plan,
        other => panic!("{:?}", other),
    };
    assert_eq!(plan.response.jsonrpc, "2.0");
    assert_eq!(plan.response.id, Json::Null);
    assert_eq!(plan.response.result, None);
    let error = plan.response.error.unwrap();
    assert_eq!(error.code, -32700);
    assert_eq!(error.message, "Parse error");
    let details = parse_json("{\"id\":").unwrap_err();
    assert_eq!(
        error.data.unwrap().get("details"),
        Some(&json_text(&details))
    );
}

#[test]
fn what_was_read_decides() {
    assert_eq!(
        handle_parsed(Ok(Json::Bool(true))),
        LineStep::Decode(Json::Bool(true))
    );
    match handle_parsed(Err("unreadable".to_string())) {
        LineStep::Respond(plan) => assert_eq!(
            plan.response.error.unwrap().data.unwrap().get("details"),
            Some(&json_text("unreadable"))
        ),
        other => panic!("{:?}", other),
    }
}

#[test]
fn a_value_that_is_no_request_is_refused_with_its_message() {
    let plan = plan(handle_decoded(Err("invalid type".to_string()), "1"));
    assert_eq!(plan.response.id, Json::Null);
    let error = plan.response.error.unwrap();
    assert_eq!(error.code, -32600);
    assert_eq!(error.message, "Invalid request");
    assert_eq!(
        error.data.unwrap().get("details"),
        Some(&json_text("invalid type"))
    );
}

#[test]
fn a_request_names_the_version_and_a_method() {
    for request in [
        request("1.0", "describe"),
        request("", "health"),
        request("2.0", ""),
    ] {
        let plan = plan(handle_request(request, "1"));
        assert_eq!(plan.response.id, json_integer(9));
        let error = plan.response.error.unwrap();
        assert_eq!(error.code, -32600);
        assert_eq!(error.message, "Invalid request");
        let data = error.data.unwrap();
        assert_eq!(data.get("expected_jsonrpc"), Some(&json_text("2.0")));
        assert_eq!(
            data.get("expected_fields"),
            Some(&parse_json("[\"jsonrpc\", \"method\", \"id\"]").unwrap())
        );
    }
}

#[test]
fn the_plugin_describes_itself() {
    let plan = plan(handle_decoded(Ok(request("2.0", "describe")), "1"));
    assert_eq!(plan.response.id, json_integer(9));
    assert_eq!(plan.response.error, None);
    assert_eq!(plan.response.result, Some(manifest()));
}

#[test]
fn the_plugin_reports_its_health() {
    let plan = plan(handle_request_at(
        request("2.0", "health"),
        "0.7.0",
        "2024-01-01T00:00:00+00:00".to_string(),
    ));
    let result = plan.response.result.unwrap();
    assert_eq!(result.get("status"), Some(&json_text("healthy")));
    assert_eq!(
        result.get("timestamp"),
        Some(&json_text("2024-01-01T00:00:00+00:00"))
    );
    assert_eq!(result.get("version"), Some(&json_text("0.7.0")));
    assert_eq!(result.get("tools_count"), Some(&json_integer(1)));
}

#[test]
fn the_time_of_a_report_is_now_in_utc() {
    let before = chrono::Utc::now();
    let plan = plan(handle_request(request("2.0", "health"), "1"));
    let after = chrono::Utc::now();

    let result = plan.response.result.unwrap();
    let timestamp = result.get("timestamp").unwrap().as_text().unwrap();
    assert!(timestamp.ends_with("+00:00"));
    let time = chrono::DateTime::parse_from_rfc3339(timestamp).unwrap();
    assert!(before <= time && time <= after);
}

#[test]
fn the_report_counts_the_tools_of_the_manifest() {
    let plan = plan(handle_request(request("2.0", "health"), "1"));
    let tools = manifest();
    let count = tools.get("tools").unwrap().as_list().unwrap().len();
    assert_eq!(
        plan.response.result.unwrap().get("tools_count"),
        Some(&json_integer(count as i32))
    );
}

#[test]
fn a_time_has_the_form_of_the_report() {
    let plan = plan(handle_request(request("2.0", "health"), "1"));
    let result = plan.response.result.unwrap();
    let text = result.get("timestamp").unwrap().as_text().unwrap();
    let form: String = text
        .chars()
        .map(|c| if c.is_ascii_digit() { 'd' } else { c })
        .collect();
    let fraction = form
        .strip_prefix("dddd-dd-ddTdd:dd:dd")
        .and_then(|rest| rest.strip_suffix("+dd:dd"))
        .unwrap();
    assert!(["", ".ddd", ".dddddd", ".ddddddddd"].contains(&fraction));
}

#[test]
fn an_invocation_is_handed_on_with_its_parameters() {
    assert_eq!(
        handle_request(request("2.0", "invoke"), "1"),
        RequestStep::Invoke(json_integer(9), json_text("params"))
    );
}

#[test]
fn an_unknown_method_is_not_found() {
    let plan = plan(handle_request(request("2.0", "Describe"), "1"));
    assert_eq!(plan.response.id, json_integer(9));
    let error = plan.response.error.unwrap();
    assert_eq!(error.code, -32601);
    assert_eq!(error.message, "Method not found: Describe");
    assert_eq!(error.data, None);
}

#[test]
fn each_line_of_a_value_that_is_broken_over_lines_is_a_parse_error() {
    for line in ["{\n", "  \"jsonrpc\": \"2.0\",\n", "  \"method\": \"describe\"\n", "}\n"] {
        match handle_line(line) {
            LineStep::Respond(plan) => {
                assert_eq!(plan.response.error.unwrap().code, -32700)
            }
            other => panic!("{:?}", other),
        }
    }
}
