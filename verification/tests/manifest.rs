use gws_executa::json::{json_text, parse_json, Json};
use gws_executa::manifest::manifest;

/// Whether two values are the same, whatever the order of their entries.
fn same(left: &Json, right: &Json) -> bool {
    match (left, right) {
        (Json::Object(left), Json::Object(right)) => {
            left.entries.len() == right.entries.len()
                && left.entries.iter().all(|(key, value)| {
                    right
                        .get(key)
                        .map(|other| same(value, other))
                        .unwrap_or(false)
                })
        }
        (Json::List(left), Json::List(right)) => {
            left.len() == right.len() && left.iter().zip(right).all(|(l, r)| same(l, r))
        }
        _ => left == right,
    }
}

#[test]
fn the_description_of_the_plugin() {
    let expected = parse_json(
        r#"{
            "name": "gws-executa",
            "display_name": "gws-executa",
            "version": "1.0.0",
            "description": "Single-file Anna Executa wrapper with embedded gws runtime.",
            "author": "googleworkspace/cli",
            "credentials": [
                {
                    "name": "GOOGLE_ACCESS_TOKEN",
                    "display_name": "Google Access Token",
                    "description": "OAuth2 access token injected by Anna. The plugin forwards it to the embedded gws runtime as GOOGLE_WORKSPACE_CLI_TOKEN.",
                    "required": false,
                    "sensitive": true
                },
                {
                    "name": "GOOGLE_WORKSPACE_CLI_CREDENTIALS_FILE",
                    "display_name": "Google Workspace Credentials File",
                    "description": "Path to a credentials JSON file forwarded to the embedded gws runtime as GOOGLE_WORKSPACE_CLI_CREDENTIALS_FILE.",
                    "required": false,
                    "sensitive": false
                }
            ],
            "tools": [
                {
                    "name": "run_gws",
                    "description": "Run a gws command with a structured argv array. Do not include shell quoting or a leading gws binary name.",
                    "parameters": [
                        {
                            "name": "argv",
                            "type": "array",
                            "items": { "type": "string" },
                            "description": "gws arguments as a string array, for example [\"drive\", \"files\", \"list\", \"--params\", \"{\\\"pageSize\\\":5}\"].",
                            "required": true
                        },
                        {
                            "name": "project_id",
                            "type": "string",
                            "description": "Optional explicit GCP project ID forwarded as GOOGLE_WORKSPACE_PROJECT_ID. Embedded mode does not infer a project from local gws config files.",
                            "required": false
                        },
                        {
                            "name": "cwd",
                            "type": "string",
                            "description": "Optional existing directory used for file transport temporary files. Defaults to the plugin binary directory.",
                            "required": false
                        }
                    ]
                }
            ],
            "runtime": { "type": "binary", "min_version": "1.0.0" }
        }"#,
    )
    .unwrap();

    assert!(same(&manifest(), &expected));
}

#[test]
fn the_comparison_tells_descriptions_apart() {
    let mut other = manifest();
    if let Json::Object(object) = &mut other {
        object.insert("name", json_text("other"));
    }
    assert!(!same(&other, &manifest()));
}
