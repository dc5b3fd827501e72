use gws_executa::command::CommandOutput;
use gws_executa::credentials::{
    ResolvedCredentials, TextMap, INTERNAL_GWS_TOKEN_ENV, TOKEN_CREDENTIAL_NAME,
};
use gws_executa::json::{json_integer, json_text, parse_json, Json};
use gws_executa::protocol::TransportDir;
use gws_executa::tool::{
    build_gws_failure_response, build_tool_data, describe_failure, tool_data_with, TOOL_NAME,
};

fn resolved() -> ResolvedCredentials {
    let mut env = TextMap::new();
    env.insert(INTERNAL_GWS_TOKEN_ENV, "token-123".to_string());
    ResolvedCredentials {
        env,
        sources: vec![TOKEN_CREDENTIAL_NAME],
    }
}

fn output(stdout: &str, stderr: &str, exit_code: i32) -> CommandOutput {
    CommandOutput {
        stdout: stdout.to_string(),
        stderr: stderr.to_string(),
        exit_code,
        success: exit_code == 0,
        executable: "gws-executa".to_string(),
    }
}

#[test]
fn build_tool_data_parses_json_stdout() {
    let resolved_credentials = resolved();
    let output = CommandOutput {
        stdout: "{\"files\":[]}".to_string(),
        stderr: "warning".to_string(),
        exit_code: 0,
        success: true,
        executable: "gws-executa".to_string(),
    };

    let data = build_tool_data(
        &output,
        &["drive".to_string()],
        &resolved_credentials,
        &TransportDir::Requested("/tmp".to_string()),
    );
    assert_eq!(
        data.get("stdout_json").unwrap().get("files"),
        Some(&Json::List(vec![]))
    );
    assert_eq!(data.get("exit_code"), Some(&json_integer(0)));
    assert_eq!(data.get("embedded_cli"), Some(&Json::Bool(true)));
    assert_eq!(
        data.get("credential_sources"),
        Some(&Json::List(vec![json_text(TOKEN_CREDENTIAL_NAME)]))
    );
}

#[test]
fn build_gws_failure_response_uses_validation_error_shape() {
    let output = CommandOutput {
        stdout: "{\n  \"error\": {\n    \"code\": 400,\n    \"message\": \"error: unrecognized subcommand 'usrs'\",\n    \"reason\": \"validationError\"\n  }\n}\n".to_string(),
        stderr: "error[validation]: error: unrecognized subcommand 'usrs'\n".to_string(),
        exit_code: 3,
        success: false,
        executable: "gws-executa".to_string(),
    };

    let response = build_gws_failure_response(
        json_integer(5),
        &output,
        parse_json("{\"argv\": [\"gmail\", \"usrs\"], \"exit_code\": 3}").unwrap(),
    );

    let error = response.error.expect("expected top-level error");
    assert_eq!(error.code, -32602);
    assert!(error.message.contains("unrecognized subcommand"));
    assert_eq!(response.result, None);
    assert_eq!(error.data.unwrap().get("tool"), Some(&json_text(TOOL_NAME)));
}

#[test]
fn every_part_of_the_report_is_found_under_its_name() {
    let data = build_tool_data(
        &output(" plain \n", "warning", -7),
        &["drive".to_string(), "list".to_string()],
        &resolved(),
        &TransportDir::Executable("/opt/plugin".to_string()),
    );

    assert_eq!(
        data.get("argv"),
        Some(&parse_json("[\"drive\", \"list\"]").unwrap())
    );
    assert_eq!(
        data.get("plugin_executable"),
        Some(&json_text("gws-executa"))
    );
    assert_eq!(
        data.get("file_transport_dir"),
        Some(&json_text("/opt/plugin"))
    );
    assert_eq!(data.get("stdout"), Some(&json_text(" plain \n")));
    assert_eq!(data.get("stderr"), Some(&json_text("warning")));
    assert_eq!(data.get("exit_code"), Some(&json_integer(-7)));
    assert_eq!(data.get("stdout_json"), None);
}

#[test]
fn the_report_holds_what_the_output_was_read_as() {
    let data = tool_data_with(
        &output("anything", "", 0),
        &[],
        &resolved(),
        &TransportDir::Requested("/tmp".to_string()),
        Some(Json::Null),
    );
    assert_eq!(data.get("stdout_json"), Some(&Json::Null));
}

#[test]
fn the_data_of_a_failure_holds_the_report() {
    let response =
        build_gws_failure_response(json_text("id"), &output("", " broken \n", 2), Json::Null);

    assert_eq!(response.id, json_text("id"));
    let error = response.error.unwrap();
    assert_eq!(error.code, -32603);
    assert_eq!(error.message, "broken");
    let data = error.data.unwrap();
    assert_eq!(data.get("gws_exit_code"), Some(&json_integer(2)));
    assert_eq!(data.get("reason"), Some(&Json::Null));
    assert_eq!(data.get("tool_data"), Some(&Json::Null));
}

#[test]
fn the_message_of_a_failure_is_the_first_that_is_not_blank() {
    let read = |text: &str| Some(parse_json(text).unwrap());

    let failure = describe_failure(
        &output("", "on stderr", 1),
        &read("{\"error\": {\"message\": \" told \", \"reason\": \"authError\"}}"),
    );
    assert_eq!(failure.message, " told ");
    assert_eq!(failure.code, -32603);
    assert_eq!(failure.reason, Some("authError".to_string()));

    let failure = describe_failure(
        &output("", "on stderr", 1),
        &read("{\"error\": {\"message\": \"  \", \"reason\": \"validationError\"}}"),
    );
    assert_eq!(failure.message, "on stderr");
    assert_eq!(failure.code, -32602);

    for value in [
        None,
        read("[]"),
        read("{\"error\": \"text\"}"),
        read("{\"error\": {\"message\": 5, \"reason\": 5}}"),
    ] {
        let failure = describe_failure(&output("", " \n", 1), &value);
        assert_eq!(failure.message, "gws command failed");
        assert_eq!(failure.code, -32603);
        assert_eq!(failure.reason, None);
    }
}
