use std::collections::HashMap;

use gws_executa::arguments::INTERNAL_MODE_ARG;
use gws_executa::command::{
    build_embedded_gws_command, execute_embedded_gws, internal_cli_args,
    is_internal_cli_mode, isolated_child_env_remove, EnvChange, EnvValue, ProcessOutput,
    CONFIG_DIR_ENV, PROJECT_ID_ENV,
};
use gws_executa::credentials::{TextMap, INTERNAL_GWS_TOKEN_ENV};

const MODE: &str = "ISOLATED_MODE";

/// The environment of a child process with these changes.
fn changed(parent: &[(&str, &str)], changes: &[EnvChange]) -> HashMap<String, EnvValue> {
    let mut env: HashMap<String, EnvValue> = HashMap::new();
    for (name, value) in parent {
        env.insert(name.to_string(), EnvValue::Text(value.to_string()));
    }
    for change in changes {
        match change {
            EnvChange::Remove(name) => {
                env.remove(name);
            }
            EnvChange::Assign(name, EnvValue::Text(value)) => {
                env.insert(name.clone(), EnvValue::Text(value.clone()));
            }
            EnvChange::Assign(name, EnvValue::IsolatedConfigDir) => {
                env.insert(name.clone(), EnvValue::IsolatedConfigDir);
            }
        }
    }
    env
}

#[test]
fn internal_cli_args_rewrite_program_name() {
    let args = vec![
        "/tmp/gws-executa".to_string(),
        INTERNAL_MODE_ARG.to_string(),
        "drive".to_string(),
        "files".to_string(),
        "list".to_string(),
    ];

    assert_eq!(
        internal_cli_args(&args),
        vec!["gws", "drive", "files", "list"]
    );
}

#[test]
fn short_command_lines_leave_only_the_name_of_the_program() {
    assert_eq!(internal_cli_args(&[]), vec!["gws"]);
    assert_eq!(internal_cli_args(&["a".to_string()]), vec!["gws"]);
    assert_eq!(
        internal_cli_args(&["a".to_string(), "b".to_string()]),
        vec!["gws"]
    );
}

#[test]
fn the_internal_mode_is_the_first_argument() {
    let program = "plugin".to_string();
    let mode = INTERNAL_MODE_ARG.to_string();
    assert!(is_internal_cli_mode(&[program.clone(), mode.clone()]));
    assert!(!is_internal_cli_mode(&[mode.clone()]));
    assert!(!is_internal_cli_mode(&[]));
    assert!(!is_internal_cli_mode(&[
        program.clone(),
        "drive".to_string(),
        mode
    ]));
    assert!(!is_internal_cli_mode(&[program]));
}

#[test]
fn the_child_process_runs_the_command() {
    let argv = vec!["drive".to_string(), "files".to_string()];
    let command = build_embedded_gws_command(&argv, &TextMap::new(), MODE);
    assert_eq!(command.args, vec![INTERNAL_MODE_ARG, "drive", "files"]);

    let mut command_line = vec!["/tmp/gws-executa".to_string()];
    command_line.extend(command.args);
    assert!(is_internal_cli_mode(&command_line));
    assert_eq!(
        internal_cli_args(&command_line),
        vec!["gws", "drive", "files"]
    );
}

#[test]
fn the_child_process_sees_its_own_variables_and_no_inherited_ones() {
    let mut variables = TextMap::new();
    variables.insert(INTERNAL_GWS_TOKEN_ENV, "token-123".to_string());
    let command = build_embedded_gws_command(&["drive".to_string()], &variables, MODE);

    let env = changed(
        &[
            ("PATH", "/bin"),
            (INTERNAL_GWS_TOKEN_ENV, "inherited"),
            (PROJECT_ID_ENV, "inherited"),
            (CONFIG_DIR_ENV, "inherited"),
            ("GOOGLE_APPLICATION_CREDENTIALS", "inherited"),
            ("GOOGLE_WORKSPACE_CLI_LOG_FILE", "inherited"),
        ],
        &command.env,
    );
    let mut expected: HashMap<String, EnvValue> = HashMap::new();
    expected.insert("PATH".to_string(), EnvValue::Text("/bin".to_string()));
    expected.insert(MODE.to_string(), EnvValue::Text("1".to_string()));
    expected.insert(CONFIG_DIR_ENV.to_string(), EnvValue::IsolatedConfigDir);
    expected.insert(
        INTERNAL_GWS_TOKEN_ENV.to_string(),
        EnvValue::Text("token-123".to_string()),
    );
    assert_eq!(env, expected);
    assert!(command
        .env
        .contains(&EnvChange::Remove("GOOGLE_APPLICATION_CREDENTIALS".to_string())));
}

#[test]
fn nine_variables_are_isolated() {
    assert_eq!(
        isolated_child_env_remove(),
        vec![
            "GOOGLE_WORKSPACE_CLI_TOKEN",
            "GOOGLE_WORKSPACE_CLI_CREDENTIALS_FILE",
            "GOOGLE_WORKSPACE_PROJECT_ID",
            "GOOGLE_WORKSPACE_CLI_CONFIG_DIR",
            "GOOGLE_APPLICATION_CREDENTIALS",
            "GOOGLE_WORKSPACE_CLI_CLIENT_ID",
            "GOOGLE_WORKSPACE_CLI_CLIENT_SECRET",
            "GOOGLE_WORKSPACE_CLI_KEYRING_BACKEND",
            "GOOGLE_WORKSPACE_CLI_LOG_FILE",
        ]
    );
}

#[test]
fn the_output_of_a_process_becomes_text() {
    let output = execute_embedded_gws(
        Ok(ProcessOutput {
            stdout: "caf\u{e9}\n".as_bytes().to_vec(),
            stderr: vec![b'a', 0xff, b'b'],
            code: None,
            success: false,
        }),
        "plugin",
    )
    .unwrap();

    assert_eq!(output.stdout, "caf\u{e9}\n");
    assert_eq!(output.stderr, "a\u{fffd}b");
    assert_eq!(output.exit_code, -1);
    assert!(!output.success);
    assert_eq!(output.executable, "plugin");
}

#[test]
fn the_exit_code_of_a_process_is_kept() {
    let output = execute_embedded_gws(
        Ok(ProcessOutput {
            stdout: vec![],
            stderr: vec![],
            code: Some(3),
            success: true,
        }),
        "plugin",
    )
    .unwrap();
    assert_eq!(output.exit_code, 3);
    assert!(output.success);
}

#[test]
fn a_process_that_cannot_start_leaves_its_message() {
    assert_eq!(
        execute_embedded_gws(Err("not found".to_string()), "plugin"),
        Err("not found".to_string())
    );
}
