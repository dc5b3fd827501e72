use gws_executa::arguments::INTERNAL_MODE_ARG;
use gws_executa::command::{
    build_embedded_gws_command, CommandOutput, EnvChange, EnvValue, ProcessOutput, PROJECT_ID_ENV,
};
use gws_executa::credentials::{
    AmbientCredentials, TextMap, CREDENTIALS_FILE_CREDENTIAL_NAME, INTERNAL_GWS_TOKEN_ENV,
    TOKEN_CREDENTIAL_NAME,
};
use gws_executa::invoke::{
    finish_invoke, finish_output_with, handle_invoke, resolve_file_transport_dir, resume_invoke,
    CommandRun, Executable, InvokeContext, InvokeParams, InvokeStep, PathStatus,
};
use gws_executa::json::{json_integer, json_text, parse_json, Json, JsonObject};
use gws_executa::protocol::{FileTransportMode, ResponsePlan, RpcError, TransportDir};
use gws_executa::tool::TOOL_NAME;
use gws_executa::transport::{choose_delivery, Delivery};
use tempfile::tempdir;

fn object(text: &str) -> JsonObject {
    match parse_json(text).unwrap() {
        Json::Object(object) => object,
        other => panic!("{:?}", other),
    }
}

/// Parameters as a request gives them.
fn params(text: &str) -> InvokeParams {
    let value = parse_json(text).unwrap();
    let mut credentials = TextMap::new();
    if let Some(Json::Object(given)) = value.get("context").and_then(|c| c.get("credentials")) {
        for (name, value) in &given.entries {
            credentials.insert(name, value.as_text().unwrap().to_string());
        }
    }
    let tool = value.get("tool").unwrap().as_text().unwrap().to_string();
    let arguments = match value {
        Json::Object(object) => object
            .entries
            .into_iter()
            .find(|(name, _)| name == "arguments")
            .map(|(_, value)| value),
        _ => None,
    };
    InvokeParams {
        tool,
        arguments: match arguments {
            Some(Json::Object(object)) => object,
            _ => JsonObject::new(),
        },
        context: InvokeContext { credentials },
    }
}

fn executable() -> Option<Executable> {
    Some(Executable {
        path: "/tmp/gws-executa".to_string(),
        directory: Some("/tmp".to_string()),
    })
}

fn nothing() -> AmbientCredentials {
    AmbientCredentials {
        token: None,
        credentials_file: None,
    }
}

fn plan(step: InvokeStep) -> ResponsePlan {
    match step {
        InvokeStep::Respond(plan) => plan,
        other => panic!("{:?}", other),
    }
}

/// The error that a step refuses an invocation with, and the directory that it goes through.
fn refusal(step: InvokeStep) -> (RpcError, Option<TransportDir>) {
    let plan = plan(step);
    assert_eq!(plan.response.jsonrpc, "2.0");
    assert_eq!(plan.response.id, json_integer(1));
    assert_eq!(plan.response.result, None);
    assert_eq!(
        plan.file_transport_mode,
        if plan.file_transport_dir.is_some() {
            FileTransportMode::Always
        } else {
            FileTransportMode::Auto
        }
    );
    (plan.response.error.unwrap(), plan.file_transport_dir)
}

/// The error of an invocation that is refused on standard output.
fn error(step: InvokeStep) -> RpcError {
    let (error, dir) = refusal(step);
    assert_eq!(dir, None);
    error
}

/// The directory that the executable is in.
fn executable_dir() -> Option<TransportDir> {
    Some(TransportDir::Executable("/tmp".to_string()))
}

fn run(step: InvokeStep) -> CommandRun {
    match step {
        InvokeStep::Run(run) => run,
        other => panic!("{:?}", other),
    }
}

const GOOD: &str = "{\"tool\": \"run_gws\", \"arguments\": {\"argv\": [\"gws\", \"drive\"]}, \
    \"context\": {\"credentials\": {\"GOOGLE_ACCESS_TOKEN\": \"token-123\"}}}";

fn good_run() -> CommandRun {
    run(handle_invoke(
        json_integer(1),
        Ok(params(GOOD)),
        executable(),
        nothing(),
    ))
}

#[test]
fn handle_invoke_rejects_unknown_tool() {
    let response = plan(handle_invoke(
        json_integer(1),
        Ok(params(
            "{\"tool\": \"not_gws\", \"arguments\": {\"argv\": [\"drive\", \"files\", \"list\"]}}",
        )),
        executable(),
        nothing(),
    ));

    assert_eq!(response.response.error.unwrap().code, -32601);
}

#[test]
fn handle_invoke_requires_current_executable() {
    let response = plan(handle_invoke(
        json_integer(1),
        Ok(params(&format!(
            "{{\"tool\": \"{}\", \"arguments\": {{\"argv\": [\"drive\", \"files\", \"list\"]}}}}",
            TOOL_NAME
        ))),
        None,
        nothing(),
    ));

    assert_eq!(response.response.error.unwrap().code, -32603);
}

#[test]
fn resolve_file_transport_dir_uses_cwd_argument() {
    let dir = tempdir().unwrap();
    let cwd = dir.path().to_string_lossy().to_string();
    let mut arguments = object("{\"argv\": [\"--version\"]}");
    arguments.insert("cwd", json_text(&cwd));
    let status = if dir.path().is_dir() {
        PathStatus::Directory
    } else {
        PathStatus::Missing
    };

    let resolved =
        resolve_file_transport_dir(&arguments, &executable().unwrap(), status).unwrap();
    assert_eq!(resolved, TransportDir::Requested(cwd));
}

#[test]
fn the_directory_is_that_of_the_executable_unless_one_is_named() {
    let arguments = object("{}");
    assert_eq!(
        resolve_file_transport_dir(&arguments, &executable().unwrap(), PathStatus::Missing),
        Ok(TransportDir::Executable("/tmp".to_string()))
    );
    let lost = Executable {
        path: "/".to_string(),
        directory: None,
    };
    assert_eq!(
        resolve_file_transport_dir(&arguments, &lost, PathStatus::Directory),
        Err("Failed to determine plugin binary directory".to_string())
    );
}

#[test]
fn a_named_directory_must_be_there() {
    let arguments = object("{\"cwd\": \"/nowhere\"}");
    let exe = executable().unwrap();
    assert_eq!(
        resolve_file_transport_dir(&arguments, &exe, PathStatus::Missing),
        Err("cwd does not exist: /nowhere".to_string())
    );
    assert_eq!(
        resolve_file_transport_dir(&arguments, &exe, PathStatus::NotDirectory),
        Err("cwd is not a directory: /nowhere".to_string())
    );
    assert_eq!(
        resolve_file_transport_dir(&object("{\"cwd\": 1}"), &exe, PathStatus::Directory),
        Err("cwd must be a string when provided".to_string())
    );
}

#[test]
fn parameters_that_are_none_are_refused_with_their_message() {
    let error = error(handle_invoke(
        json_integer(1),
        Err("missing field `tool`".to_string()),
        executable(),
        nothing(),
    ));
    assert_eq!(error.code, -32602);
    assert_eq!(error.message, "Invalid params");
    assert_eq!(
        error.data.unwrap().get("details"),
        Some(&json_text("missing field `tool`"))
    );
}

#[test]
fn an_unknown_tool_is_answered_with_the_known_one() {
    let error = error(handle_invoke(
        json_integer(1),
        Ok(params("{\"tool\": \"other\"}")),
        None,
        nothing(),
    ));
    assert_eq!(error.message, "Unknown tool: other");
    assert_eq!(
        error.data.unwrap().get("available_tools"),
        Some(&Json::List(vec![json_text("run_gws")]))
    );
}

#[test]
fn what_is_refused_is_refused_in_order() {
    let refused = |text: &str, exe: Option<Executable>| {
        let (error, dir) = refusal(handle_invoke(
            json_integer(1),
            Ok(params(text)),
            exe,
            nothing(),
        ));
        assert_eq!(error.data, None);
        (error.code, error.message, dir)
    };

    assert_eq!(
        refused(
            "{\"tool\": \"run_gws\", \"arguments\": {\"argv\": 1, \"project_id\": 1, \"cwd\": 1}}",
            None
        ),
        (-32602, "Missing required array argument: argv".to_string(), None)
    );
    assert_eq!(
        refused(
            "{\"tool\": \"run_gws\", \
              \"arguments\": {\"argv\": [\"a\"], \"project_id\": 1, \"cwd\": 1}}",
            None
        ),
        (-32602, "project_id must be a string when provided".to_string(), None)
    );
    assert_eq!(
        refused(
            "{\"tool\": \"run_gws\", \"arguments\": {\"argv\": [\"a\"], \"cwd\": 1}}",
            None
        ),
        (-32603, "Failed to resolve current executable path".to_string(), None)
    );
    assert_eq!(
        refused(
            "{\"tool\": \"run_gws\", \"arguments\": {\"argv\": 1, \"project_id\": 1, \"cwd\": 1}}",
            executable()
        ),
        (-32602, "Missing required array argument: argv".to_string(), None)
    );
    assert_eq!(
        refused(
            "{\"tool\": \"run_gws\", \"arguments\": {\"argv\": [\"a\"], \"cwd\": 1}}",
            executable()
        ),
        (-32602, "cwd must be a string when provided".to_string(), None)
    );
    let (code, message, dir) = refused(
        "{\"tool\": \"run_gws\", \"arguments\": {\"argv\": [\"a\"]}}",
        executable(),
    );
    assert_eq!(code, -32602);
    assert!(message.contains(TOKEN_CREDENTIAL_NAME));
    assert_eq!(dir, executable_dir());
}

#[test]
fn what_is_refused_goes_through_a_file_where_there_is_a_directory() {
    for (arguments, message) in [
        ("{\"argv\": 1}", "Missing required array argument: argv"),
        (
            "{\"argv\": [\"a\"], \"project_id\": \" \"}",
            "project_id must not be empty",
        ),
    ] {
        let text = format!("{{\"tool\": \"run_gws\", \"arguments\": {}}}", arguments);
        let (error, dir) = refusal(handle_invoke(
            json_integer(1),
            Ok(params(&text)),
            executable(),
            nothing(),
        ));
        assert_eq!(error.code, -32602);
        assert_eq!(error.message, message);
        assert_eq!(dir, executable_dir());
    }

    let lost = Executable {
        path: "/".to_string(),
        directory: None,
    };
    let refused = error(handle_invoke(
        json_integer(1),
        Ok(params("{\"tool\": \"run_gws\", \"arguments\": {\"argv\": []}}")),
        Some(lost),
        nothing(),
    ));
    assert_eq!(refused.message, "argv must contain at least one gws argument");
}

#[test]
fn a_named_directory_is_looked_up_before_the_invocation_is_refused() {
    for (argv, message) in [
        ("[\"\"]", "Command arguments must not be empty"),
        (
            "[\"a\"]",
            "One of 'GOOGLE_ACCESS_TOKEN' or 'GOOGLE_WORKSPACE_CLI_CREDENTIALS_FILE' must be \
             provided in context.credentials or environment",
        ),
    ] {
        let text = format!(
            "{{\"tool\": \"run_gws\", \"arguments\": {{\"argv\": {}, \"cwd\": \"/data\"}}}}",
            argv
        );
        let pending = match handle_invoke(
            json_integer(1),
            Ok(params(&text)),
            executable(),
            nothing(),
        ) {
            InvokeStep::Probe(path, pending) => {
                assert_eq!(path, "/data");
                pending
            }
            other => panic!("{:?}", other),
        };
        let (error, dir) = refusal(resume_invoke(pending, PathStatus::Directory));
        assert_eq!(error.code, -32602);
        assert_eq!(error.message, message);
        assert_eq!(dir, Some(TransportDir::Requested("/data".to_string())));
    }

    let bad_command = "{\"tool\": \"run_gws\", \
        \"arguments\": {\"argv\": [\"\"], \"cwd\": \"/nowhere\"}}";
    match handle_invoke(json_integer(1), Ok(params(bad_command)), executable(), nothing()) {
        InvokeStep::Probe(_, pending) => assert_eq!(
            error(resume_invoke(pending, PathStatus::Missing)).message,
            "Command arguments must not be empty"
        ),
        other => panic!("{:?}", other),
    }
}

#[test]
fn the_reserved_argument_never_reaches_a_command() {
    let (error, dir) = refusal(handle_invoke(
        json_integer(1),
        Ok(params(&format!(
            "{{\"tool\": \"run_gws\", \"arguments\": {{\"argv\": [\"drive\", \"{}\"]}}}}",
            INTERNAL_MODE_ARG
        ))),
        executable(),
        nothing(),
    ));
    assert_eq!(
        error.message,
        "Reserved internal command argument is not allowed"
    );
    assert_eq!(dir, executable_dir());
}

#[test]
fn a_request_in_order_is_run() {
    let run = good_run();
    assert_eq!(run.id, json_integer(1));
    assert_eq!(run.argv, vec!["drive"]);
    assert_eq!(Some(run.executable), executable());
    assert_eq!(
        run.file_transport_dir,
        TransportDir::Executable("/tmp".to_string())
    );
    assert_eq!(
        run.credentials.env.get(INTERNAL_GWS_TOKEN_ENV),
        Some(&"token-123".to_string())
    );
    assert_eq!(run.credentials.env.get(PROJECT_ID_ENV), None);
    assert_eq!(run.credentials.sources, vec![TOKEN_CREDENTIAL_NAME]);
}

#[test]
fn a_named_directory_is_looked_up_before_the_command_is_run() {
    let text = "{\"tool\": \"run_gws\", \
        \"arguments\": {\"argv\": [\"drive\"], \"cwd\": \"/data\", \"project_id\": \"anna\"}}";
    let ambient = || AmbientCredentials {
        token: None,
        credentials_file: Some("/creds.json".to_string()),
    };
    let probe = || {
        match handle_invoke(json_integer(1), Ok(params(text)), executable(), ambient()) {
            InvokeStep::Probe(path, pending) => {
                assert_eq!(path, "/data");
                pending
            }
            other => panic!("{:?}", other),
        }
    };

    let run = run(resume_invoke(probe(), PathStatus::Directory));
    assert_eq!(
        run.file_transport_dir,
        TransportDir::Requested("/data".to_string())
    );
    assert_eq!(
        run.credentials.env.get(PROJECT_ID_ENV),
        Some(&"anna".to_string())
    );
    assert_eq!(
        run.credentials.env.get(CREDENTIALS_FILE_CREDENTIAL_NAME),
        Some(&"/creds.json".to_string())
    );
    assert_eq!(
        error(resume_invoke(probe(), PathStatus::NotDirectory)).message,
        "cwd is not a directory: /data"
    );
    assert_eq!(
        error(resume_invoke(probe(), PathStatus::Missing)).message,
        "cwd does not exist: /data"
    );
}

#[test]
fn a_command_that_succeeded_is_answered_with_a_result_in_a_file() {
    let plan = finish_invoke(
        good_run(),
        Ok(ProcessOutput {
            stdout: b" {\"files\": [1]} \n".to_vec(),
            stderr: vec![],
            code: Some(0),
            success: true,
        }),
    );

    assert_eq!(plan.file_transport_mode, FileTransportMode::Always);
    assert_eq!(
        plan.file_transport_dir,
        Some(TransportDir::Executable("/tmp".to_string()))
    );
    assert_eq!(plan.response.id, json_integer(1));
    assert_eq!(plan.response.error, None);
    let result = plan.response.result.unwrap();
    assert_eq!(result.get("success"), Some(&Json::Bool(true)));
    assert_eq!(result.get("tool"), Some(&json_text("run_gws")));
    let data = result.get("data").unwrap();
    assert_eq!(
        data.get("stdout_json"),
        Some(&parse_json("{\"files\": [1]}").unwrap())
    );
    assert_eq!(
        data.get("plugin_executable"),
        Some(&json_text("/tmp/gws-executa"))
    );
}

#[test]
fn a_command_that_failed_is_answered_with_an_error_in_a_file() {
    let plan = finish_invoke(
        good_run(),
        Ok(ProcessOutput {
            stdout: b"{\"error\": {\"message\": \"no\", \"reason\": \"validationError\"}}".to_vec(),
            stderr: b"told".to_vec(),
            code: Some(3),
            success: false,
        }),
    );

    assert_eq!(plan.file_transport_mode, FileTransportMode::Always);
    assert_eq!(plan.response.result, None);
    let error = plan.response.error.unwrap();
    assert_eq!(error.code, -32602);
    assert_eq!(error.message, "no");
    let data = error.data.unwrap();
    assert_eq!(data.get("reason"), Some(&json_text("validationError")));
    assert_eq!(
        data.get("tool_data").unwrap().get("stderr"),
        Some(&json_text("told"))
    );
    assert!(data.get("tool_data").unwrap().get("stdout_json").is_some());
}

#[test]
fn a_command_that_could_not_be_run_is_an_internal_error() {
    let plan = finish_invoke(good_run(), Err("no such file".to_string()));
    assert_eq!(plan.file_transport_mode, FileTransportMode::Always);
    assert_eq!(plan.file_transport_dir, executable_dir());
    assert_eq!(plan.response.id, json_integer(1));
    assert_eq!(plan.response.result, None);
    let error = plan.response.error.unwrap();
    assert_eq!(error.code, -32603);
    assert_eq!(
        error.message,
        "Failed to execute embedded gws mode from '/tmp/gws-executa': no such file"
    );
}

#[test]
fn the_answer_goes_by_what_the_output_was_read_as() {
    let output = CommandOutput {
        stdout: "unread".to_string(),
        stderr: String::new(),
        exit_code: 1,
        success: false,
        executable: "plugin".to_string(),
    };
    let plan = finish_output_with(
        good_run(),
        output,
        Some(parse_json("{\"error\": {\"message\": \"read\"}}").unwrap()),
    );
    assert_eq!(plan.response.error.unwrap().message, "read");
}

#[test]
fn a_token_under_the_name_of_its_variable_is_enough() {
    let run = run(handle_invoke(
        json_integer(3),
        Ok(params(
            "{\"tool\": \"run_gws\", \"arguments\": {\"argv\": [\"--version\"]}, \
              \"context\": {\"credentials\": {\"GOOGLE_WORKSPACE_CLI_TOKEN\": \"dummy-token\"}}}",
        )),
        executable(),
        nothing(),
    ));
    assert_eq!(run.argv, vec!["--version"]);
    assert_eq!(
        run.credentials.env.get(INTERNAL_GWS_TOKEN_ENV),
        Some(&"dummy-token".to_string())
    );
}

#[test]
fn the_child_process_is_given_the_project_and_the_credentials() {
    let run = run(handle_invoke(
        json_integer(1),
        Ok(params(
            "{\"tool\": \"run_gws\", \
              \"arguments\": {\"argv\": [\"drive\"], \"project_id\": \"anna-project\"}, \
              \"context\": {\"credentials\": {\"GOOGLE_ACCESS_TOKEN\": \"token-123\"}}}",
        )),
        executable(),
        nothing(),
    ));
    let command = build_embedded_gws_command(&run.argv, &run.credentials.env, "MODE");
    for (name, value) in [
        (PROJECT_ID_ENV, "anna-project"),
        (INTERNAL_GWS_TOKEN_ENV, "token-123"),
    ] {
        let last = command
            .env
            .iter()
            .filter(|change| match change {
                EnvChange::Remove(changed) => changed == name,
                EnvChange::Assign(changed, _) => changed == name,
            })
            .last();
        assert_eq!(
            last,
            Some(&EnvChange::Assign(
                name.to_string(),
                EnvValue::Text(value.to_string())
            ))
        );
    }
}

#[test]
fn the_answer_to_a_command_goes_through_a_file() {
    let plan = finish_invoke(
        good_run(),
        Ok(ProcessOutput {
            stdout: vec![],
            stderr: vec![],
            code: Some(0),
            success: true,
        }),
    );
    assert_eq!(
        choose_delivery(b"{}", plan.file_transport_dir, plan.file_transport_mode),
        Ok(Delivery::File(TransportDir::Executable("/tmp".to_string())))
    );
}

#[test]
fn the_answer_does_not_hold_the_credential() {
    let answer = |token: &str| {
        let text = GOOD.replace("token-123", token);
        let run = run(handle_invoke(
            json_integer(1),
            Ok(params(&text)),
            executable(),
            nothing(),
        ));
        assert_eq!(
            run.credentials.env.get(INTERNAL_GWS_TOKEN_ENV),
            Some(&token.to_string())
        );
        finish_invoke(
            run,
            Ok(ProcessOutput {
                stdout: b"{}".to_vec(),
                stderr: vec![],
                code: Some(0),
                success: true,
            }),
        )
    };
    assert_eq!(answer("one"), answer("other"));
}
