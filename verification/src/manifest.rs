//! What the plugin says of itself.

use vstd::prelude::*;
use vstd::string::*;

use crate::arguments::{ARGV_ARG_NAME, CWD_ARG_NAME, PROJECT_ID_ARG_NAME};
use crate::credentials::{CREDENTIALS_FILE_CREDENTIAL_NAME, TOKEN_CREDENTIAL_NAME};
use crate::json::{json_text, lemma_list_view, list_view, Json, JsonObject, JsonView};
use crate::tool::TOOL_NAME;

verus! {

/// The name of the plugin.
pub const PLUGIN_NAME: &'static str = "gws-executa";

/// The version of the plugin.
pub const PLUGIN_VERSION: &'static str = "1.0.0";

/// A credential that the plugin can use; none is required by itself.
pub open spec fn credential_entry(
    name: Seq<char>,
    display_name: Seq<char>,
    description: Seq<char>,
    sensitive: bool,
) -> JsonView {
    JsonView::Object(
        map![
            "name"@ => JsonView::Text(name),
            "display_name"@ => JsonView::Text(display_name),
            "description"@ => JsonView::Text(description),
            "required"@ => JsonView::Bool(false),
            "sensitive"@ => JsonView::Bool(sensitive),
        ],
    )
}

/// The credentials that the plugin can use.
pub open spec fn credential_entries() -> Seq<JsonView> {
    seq![
        credential_entry(
            TOKEN_CREDENTIAL_NAME@,
            "Google Access Token"@,
            "OAuth2 access token injected by Anna. The plugin forwards it to the embedded gws runtime as GOOGLE_WORKSPACE_CLI_TOKEN."@,
            true,
        ),
        credential_entry(
            CREDENTIALS_FILE_CREDENTIAL_NAME@,
            "Google Workspace Credentials File"@,
            "Path to a credentials JSON file forwarded to the embedded gws runtime as GOOGLE_WORKSPACE_CLI_CREDENTIALS_FILE."@,
            false,
        ),
    ]
}

/// The argument that holds the command.
pub open spec fn argv_entry() -> JsonView {
    JsonView::Object(
        map![
            "name"@ => JsonView::Text(ARGV_ARG_NAME@),
            "type"@ => JsonView::Text("array"@),
            "items"@ => JsonView::Object(map!["type"@ => JsonView::Text("string"@)]),
            "description"@ => JsonView::Text(
                "gws arguments as a string array, for example [\"drive\", \"files\", \"list\", \"--params\", \"{\\\"pageSize\\\":5}\"]."@,
            ),
            "required"@ => JsonView::Bool(true),
        ],
    )
}

/// An argument that can be left out and is a text.
pub open spec fn text_parameter_entry(name: Seq<char>, description: Seq<char>) -> JsonView {
    JsonView::Object(
        map![
            "name"@ => JsonView::Text(name),
            "type"@ => JsonView::Text("string"@),
            "description"@ => JsonView::Text(description),
            "required"@ => JsonView::Bool(false),
        ],
    )
}

/// The arguments of the tool.
pub open spec fn parameter_entries() -> Seq<JsonView> {
    seq![
        argv_entry(),
        text_parameter_entry(
            PROJECT_ID_ARG_NAME@,
            "Optional explicit GCP project ID forwarded as GOOGLE_WORKSPACE_PROJECT_ID. Embedded mode does not infer a project from local gws config files."@,
        ),
        text_parameter_entry(
            CWD_ARG_NAME@,
            "Optional existing directory used for file transport temporary files. Defaults to the plugin binary directory."@,
        ),
    ]
}

/// The one tool of the plugin.
pub open spec fn tool_entry() -> JsonView {
    JsonView::Object(
        map![
            "name"@ => JsonView::Text(TOOL_NAME@),
            "description"@ => JsonView::Text(
                "Run a gws command with a structured argv array. Do not include shell quoting or a leading gws binary name."@,
            ),
            "parameters"@ => JsonView::List(parameter_entries()),
        ],
    )
}

/// What the plugin says of itself: its name and version, the credentials that it can use,
/// its one tool, and how it is run.
pub open spec fn manifest_view() -> JsonView {
    JsonView::Object(
        map![
            "name"@ => JsonView::Text(PLUGIN_NAME@),
            "display_name"@ => JsonView::Text(PLUGIN_NAME@),
            "version"@ => JsonView::Text(PLUGIN_VERSION@),
            "description"@ => JsonView::Text(
                "Single-file Anna Executa wrapper with embedded gws runtime."@,
            ),
            "author"@ => JsonView::Text("googleworkspace/cli"@),
            "credentials"@ => JsonView::List(credential_entries()),
            "tools"@ => JsonView::List(seq![tool_entry()]),
            "runtime"@ => JsonView::Object(
                map![
                    "type"@ => JsonView::Text("binary"@),
                    "min_version"@ => JsonView::Text("1.0.0"@),
                ],
            ),
        ],
    )
}

/// A credential that the plugin can use.
fn credential_json(name: &str, display_name: &str, description: &str, sensitive: bool) -> (json:
    Json)
    ensures
        json@ == credential_entry(name@, display_name@, description@, sensitive),
{
    let mut entry = JsonObject::new();
    entry.insert("name", json_text(name));
    entry.insert("display_name", json_text(display_name));
    entry.insert("description", json_text(description));
    entry.insert("required", Json::Bool(false));
    entry.insert("sensitive", Json::Bool(sensitive));
    Json::Object(entry)
}

/// The argument that holds the command.
fn argv_json() -> (json: Json)
    ensures
        json@ == argv_entry(),
{
    let mut items = JsonObject::new();
    items.insert("type", json_text("string"));
    let mut entry = JsonObject::new();
    entry.insert("name", json_text(ARGV_ARG_NAME));
    entry.insert("type", json_text("array"));
    entry.insert("items", Json::Object(items));
    entry.insert(
        "description",
        json_text(
            "gws arguments as a string array, for example [\"drive\", \"files\", \"list\", \"--params\", \"{\\\"pageSize\\\":5}\"].",
        ),
    );
    entry.insert("required", Json::Bool(true));
    Json::Object(entry)
}

/// An argument that can be left out and is a text.
fn text_parameter_json(name: &str, description: &str) -> (json: Json)
    ensures
        json@ == text_parameter_entry(name@, description@),
{
    let mut entry = JsonObject::new();
    entry.insert("name", json_text(name));
    entry.insert("type", json_text("string"));
    entry.insert("description", json_text(description));
    entry.insert("required", Json::Bool(false));
    Json::Object(entry)
}

/// The list of `items`.
fn json_list(items: Vec<Json>) -> (json: Json)
    ensures
        json@ == JsonView::List(items@.map_values(|item: Json| item@)),
{
    proof {
        lemma_list_view(items@);
        assert(list_view(items@) =~= items@.map_values(|item: Json| item@));
    }
    Json::List(items)
}

/// The one tool of the plugin.
fn tool_json() -> (json: Json)
    ensures
        json@ == tool_entry(),
{
    let parameters: Vec<Json> = vec![
        argv_json(),
        text_parameter_json(
            PROJECT_ID_ARG_NAME,
            "Optional explicit GCP project ID forwarded as GOOGLE_WORKSPACE_PROJECT_ID. Embedded mode does not infer a project from local gws config files.",
        ),
        text_parameter_json(
            CWD_ARG_NAME,
            "Optional existing directory used for file transport temporary files. Defaults to the plugin binary directory.",
        ),
    ];
    let ghost views = parameters@.map_values(|item: Json| item@);
    let mut tool = JsonObject::new();
    tool.insert("name", json_text(TOOL_NAME));
    tool.insert(
        "description",
        json_text(
            "Run a gws command with a structured argv array. Do not include shell quoting or a leading gws binary name.",
        ),
    );
    tool.insert("parameters", json_list(parameters));
    assert(views =~= parameter_entries());
    Json::Object(tool)
}

/// What the plugin says of itself.
pub fn manifest() -> (json: Json)
    ensures
        json@ == manifest_view(),
{
    let credentials: Vec<Json> = vec![
        credential_json(
            TOKEN_CREDENTIAL_NAME,
            "Google Access Token",
            "OAuth2 access token injected by Anna. The plugin forwards it to the embedded gws runtime as GOOGLE_WORKSPACE_CLI_TOKEN.",
            true,
        ),
        credential_json(
            CREDENTIALS_FILE_CREDENTIAL_NAME,
            "Google Workspace Credentials File",
            "Path to a credentials JSON file forwarded to the embedded gws runtime as GOOGLE_WORKSPACE_CLI_CREDENTIALS_FILE.",
            false,
        ),
    ];
    let ghost credential_views = credentials@.map_values(|item: Json| item@);
    let tools: Vec<Json> = vec![tool_json()];
    let ghost tool_views = tools@.map_values(|item: Json| item@);
    let mut runtime = JsonObject::new();
    runtime.insert("type", json_text("binary"));
    runtime.insert("min_version", json_text("1.0.0"));
    let mut plugin = JsonObject::new();
    plugin.insert("name", json_text(PLUGIN_NAME));
    plugin.insert("display_name", json_text(PLUGIN_NAME));
    plugin.insert("version", json_text(PLUGIN_VERSION));
    plugin.insert(
        "description",
        json_text("Single-file Anna Executa wrapper with embedded gws runtime."),
    );
    plugin.insert("author", json_text("googleworkspace/cli"));
    plugin.insert("credentials", json_list(credentials));
    plugin.insert("tools", json_list(tools));
    plugin.insert("runtime", Json::Object(runtime));
    assert(credential_views =~= credential_entries());
    assert(tool_views =~= seq![tool_entry()]);
    Json::Object(plugin)
}

} // verus!
