use gws_executa::arguments::{
    extract_argv, extract_cwd, extract_project_id, validate_command_arg, validate_text_input,
    INTERNAL_MODE_ARG, PROJECT_ID_ARG_NAME,
};
use gws_executa::json::{parse_json, Json, JsonObject};

fn arguments(text: &str) -> JsonObject {
    match parse_json(text).unwrap() {
        Json::Object(object) => object,
        other => panic!("{:?}", other),
    }
}

#[test]
fn extract_argv_strips_leading_gws() {
    let arguments = arguments("{\"argv\": [\"gws\", \"drive\", \"files\", \"list\"]}");

    let argv = extract_argv(&arguments).unwrap();
    assert_eq!(argv, vec!["drive", "files", "list"]);
}

#[test]
fn extract_argv_rejects_control_characters() {
    let arguments = arguments("{\"argv\": [\"drive\", \"files\\nlist\"]}");

    let err = extract_argv(&arguments).unwrap_err();
    assert!(err.contains("control characters"));
}

#[test]
fn extract_argv_rejects_internal_mode_arg() {
    let arguments = arguments(&format!(
        "{{\"argv\": [\"{}\", \"drive\", \"files\", \"list\"]}}",
        INTERNAL_MODE_ARG
    ));

    let err = extract_argv(&arguments).unwrap_err();
    assert!(err.contains("Reserved internal command"));
}

#[test]
fn extract_project_id_accepts_string_input() {
    let arguments = arguments(&format!("{{\"{}\": \"anna-project\"}}", PROJECT_ID_ARG_NAME));

    assert_eq!(
        extract_project_id(&arguments).unwrap(),
        Some("anna-project")
    );
}

#[test]
fn extract_project_id_rejects_control_characters() {
    let arguments = arguments(&format!(
        "{{\"{}\": \"anna\\nproject\"}}",
        PROJECT_ID_ARG_NAME
    ));

    let err = extract_project_id(&arguments).unwrap_err();
    assert!(err.contains("control characters"));
}

#[test]
fn one_name_of_the_program_is_taken_off() {
    assert_eq!(
        extract_argv(&arguments("{\"argv\": [\"gws.exe\", \"--help\"]}")),
        Ok(vec!["--help".to_string()])
    );
    assert_eq!(
        extract_argv(&arguments("{\"argv\": [\"gws\", \"gws\"]}")),
        Ok(vec!["gws".to_string()])
    );
    assert_eq!(
        extract_argv(&arguments("{\"argv\": [\"drive\", \"gws\"]}")),
        Ok(vec!["drive".to_string(), "gws".to_string()])
    );
}

#[test]
fn a_command_that_is_missing_or_empty_is_refused() {
    for text in ["{}", "{\"argv\": \"drive\"}", "{\"argv\": null}"] {
        assert_eq!(
            extract_argv(&arguments(text)),
            Err("Missing required array argument: argv".to_string())
        );
    }
    for text in ["{\"argv\": []}", "{\"argv\": [\"gws\"]}"] {
        assert_eq!(
            extract_argv(&arguments(text)),
            Err("argv must contain at least one gws argument".to_string())
        );
    }
}

#[test]
fn the_first_bad_entry_is_named() {
    assert_eq!(
        extract_argv(&arguments("{\"argv\": [\"drive\", 1, \"\"]}")),
        Err("Each argv entry must be a string".to_string())
    );
    assert_eq!(
        extract_argv(&arguments("{\"argv\": [\"drive\", \"\", 1]}")),
        Err("Command arguments must not be empty".to_string())
    );
}

#[test]
fn a_text_must_be_neither_blank_nor_hold_control_characters() {
    assert_eq!(validate_text_input("label", "value"), Ok(()));
    assert_eq!(validate_text_input("label", " value "), Ok(()));
    assert_eq!(
        validate_text_input("label", "\u{3000} "),
        Err("label must not be empty".to_string())
    );
    assert_eq!(
        validate_text_input("label", ""),
        Err("label must not be empty".to_string())
    );
    assert_eq!(
        validate_text_input("label", "\n"),
        Err("label must not contain control characters".to_string())
    );
}

#[test]
fn the_reserved_argument_is_refused_as_such() {
    assert_eq!(validate_command_arg("drive"), Ok(()));
    assert_eq!(
        validate_command_arg(INTERNAL_MODE_ARG),
        Err("Reserved internal command argument is not allowed".to_string())
    );
    assert_eq!(
        validate_command_arg("\t"),
        Err("Command arguments must not contain control characters".to_string())
    );
}

#[test]
fn a_directory_is_a_text_or_left_out() {
    assert_eq!(extract_cwd(&arguments("{}")), Ok(None));
    assert_eq!(
        extract_cwd(&arguments("{\"cwd\": \"/tmp\"}")),
        Ok(Some("/tmp"))
    );
    assert_eq!(
        extract_cwd(&arguments("{\"cwd\": null}")),
        Err("cwd must be a string when provided".to_string())
    );
}

#[test]
fn a_project_is_a_text_or_left_out() {
    assert_eq!(extract_project_id(&arguments("{}")), Ok(None));
    assert_eq!(
        extract_project_id(&arguments("{\"project_id\": 5}")),
        Err("project_id must be a string when provided".to_string())
    );
    assert_eq!(
        extract_project_id(&arguments("{\"project_id\": \" \"}")),
        Err("project_id must not be empty".to_string())
    );
}
