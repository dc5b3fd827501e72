//! An invocation of the tool, step by step: what can be decided at once, what a look at the
//! file system decides, and what the command itself decides.

use vstd::prelude::*;
use vstd::string::*;

use crate::arguments::{
    argv_view, cwd_view, extract_argv, extract_cwd, extract_project_id, law_argv_is_clean,
    law_cwd, project_id_view, INTERNAL_MODE_ARG,
};
use crate::command::{
    child_env, command_output, execute_embedded_gws, isolated_names, lossy_text, reads_bytes,
    CommandOutput, CommandOutputView, EnvView, ProcessOutput, CONFIG_DIR_ENV, PROJECT_ID_ENV,
};
use crate::credentials::{
    found_file, found_token, law_credentials_are_carried, resolution, resolve_credential_env,
    AmbientCredentials, AmbientCredentialsView, ResolvedCredentials, ResolvedCredentialsView,
    TextMap, CREDENTIALS_FILE_CREDENTIAL_NAME, INTERNAL_GWS_TOKEN_ENV,
};
use crate::json::{
    integer_number, json_names, json_text, parsed_json, text_list, Json, JsonObject, JsonView,
};
use crate::protocol::{
    error_response, filed_refusal, refusal, response_plan, success_response, success_view,
    FileTransportMode, ResponsePlan, ResponsePlanView, TransportDir, TransportDirView,
    INTERNAL_ERROR, INVALID_PARAMS, METHOD_NOT_FOUND,
};
use crate::text::{has_control, is_blank, names, same_text, texts, trimmed};
use crate::tool::{
    describe_failure, error_has, failure_response_with, failure_view, law_code_of_a_failure,
    law_failure_holds_the_report, law_message_of_a_failure, law_tool_data_fields,
    law_what_is_reported, parsed_value, stdout_json, tool_data, tool_data_with, TOOL_NAME,
};

verus! {

/// What the caller of a tool knows besides its arguments.
#[derive(Debug, PartialEq, Eq)]
pub struct InvokeContext {
    pub credentials: TextMap,
}

/// The parameters of an invocation.
#[derive(Debug, PartialEq, Eq)]
pub struct InvokeParams {
    pub tool: String,
    pub arguments: JsonObject,
    pub context: InvokeContext,
}

/// What the parameters say.
pub struct InvokeParamsView {
    pub tool: Seq<char>,
    pub arguments: Map<Seq<char>, JsonView>,
    pub credentials: Map<Seq<char>, Seq<char>>,
}

impl View for InvokeParams {
    type V = InvokeParamsView;

    open spec fn view(&self) -> InvokeParamsView {
        InvokeParamsView {
            tool: self.tool@,
            arguments: self.arguments@,
            credentials: self.context.credentials@,
        }
    }
}

/// The plugin's executable: its path and that of the directory it is in, as they are shown.
#[derive(Debug, PartialEq, Eq)]
pub struct Executable {
    pub path: String,
    pub directory: Option<String>,
}

/// Where the executable is.
pub struct ExecutableView {
    pub path: Seq<char>,
    pub directory: Option<Seq<char>>,
}

impl View for Executable {
    type V = ExecutableView;

    open spec fn view(&self) -> ExecutableView {
        ExecutableView {
            path: self.path@,
            directory: match self.directory {
                Some(directory) => Some(directory@),
                None => None,
            },
        }
    }
}

/// What the file system holds under a path.
#[derive(Debug, Clone, Copy, PartialEq, Eq, Structural)]
pub enum PathStatus {
    Missing,
    NotDirectory,
    Directory,
}

/// An invocation of the tool, before the directory for response files is known.
#[derive(Debug, PartialEq, Eq)]
pub struct PendingInvocation {
    pub id: Json,
    pub arguments: JsonObject,
    pub executable: Executable,
    pub credentials: TextMap,
    pub ambient: AmbientCredentials,
}

/// What is known of a pending invocation.
pub struct PendingInvocationView {
    pub id: JsonView,
    pub arguments: Map<Seq<char>, JsonView>,
    pub executable: ExecutableView,
    pub credentials: Map<Seq<char>, Seq<char>>,
    pub ambient: AmbientCredentialsView,
}

impl View for PendingInvocation {
    type V = PendingInvocationView;

    open spec fn view(&self) -> PendingInvocationView {
        PendingInvocationView {
            id: self.id@,
            arguments: self.arguments@,
            executable: self.executable@,
            credentials: self.credentials@,
            ambient: self.ambient@,
        }
    }
}

/// A command that is to be run, and where its response goes.
#[derive(Debug, PartialEq, Eq)]
pub struct CommandRun {
    pub id: Json,
    pub argv: Vec<String>,
    pub executable: Executable,
    pub file_transport_dir: TransportDir,
    pub credentials: ResolvedCredentials,
}

/// What is known of a command that is to be run.
pub struct CommandRunView {
    pub id: JsonView,
    pub argv: Seq<Seq<char>>,
    pub executable: ExecutableView,
    pub file_transport_dir: TransportDirView,
    pub credentials: ResolvedCredentialsView,
}

impl View for CommandRun {
    type V = CommandRunView;

    open spec fn view(&self) -> CommandRunView {
        CommandRunView {
            id: self.id@,
            argv: texts(self.argv@),
            executable: self.executable@,
            file_transport_dir: self.file_transport_dir@,
            credentials: self.credentials@,
        }
    }
}

/// What to do next for an invocation.
#[derive(Debug, PartialEq, Eq)]
pub enum InvokeStep {
    /// Send the response.
    Respond(ResponsePlan),
    /// Look up what is under the path, and go on with it.
    Probe(String, PendingInvocation),
    /// Run the command.
    Run(CommandRun),
}

/// What the next step is.
pub enum InvokeStepView {
    Respond(ResponsePlanView),
    Probe(Seq<char>, PendingInvocationView),
    Run(CommandRunView),
}

impl View for InvokeStep {
    type V = InvokeStepView;

    open spec fn view(&self) -> InvokeStepView {
        match self {
            InvokeStep::Respond(plan) => InvokeStepView::Respond(plan@),
            InvokeStep::Probe(path, pending) => InvokeStepView::Probe(path@, pending@),
            InvokeStep::Run(run) => InvokeStepView::Run(run@),
        }
    }
}

/// The directory for response files: the one that the arguments name, which must be there,
/// or else the one of the executable. `status` is what is under the path that they name.
pub open spec fn transport_dir(
    arguments: Map<Seq<char>, JsonView>,
    executable: ExecutableView,
    status: PathStatus,
) -> Result<TransportDirView, Seq<char>> {
    match cwd_view(arguments) {
        Err(problem) => Err(problem),
        Ok(Some(cwd)) => match status {
            PathStatus::Missing => Err("cwd does not exist: "@ + cwd),
            PathStatus::NotDirectory => Err("cwd is not a directory: "@ + cwd),
            PathStatus::Directory => Ok(TransportDirView::Requested(cwd)),
        },
        Ok(None) => match executable.directory {
            Some(directory) => Ok(TransportDirView::Executable(directory)),
            None => Err("Failed to determine plugin binary directory"@),
        },
    }
}

/// The credentials with the variable that names the project.
pub open spec fn with_project(
    credentials: ResolvedCredentialsView,
    project_id: Option<Seq<char>>,
) -> ResolvedCredentialsView {
    match project_id {
        Some(project_id) => ResolvedCredentialsView {
            env: credentials.env.insert(PROJECT_ID_ENV@, project_id),
            sources: credentials.sources,
        },
        None => credentials,
    }
}

/// The command that the arguments ask for, and the project that they name; or the message that
/// says why they ask for none. The command is looked at first.
pub open spec fn asked_command(arguments: Map<Seq<char>, JsonView>) -> Result<
    (Seq<Seq<char>>, Option<Seq<char>>),
    Seq<char>,
> {
    match argv_view(arguments) {
        Err(problem) => Err(problem),
        Ok(argv) => match project_id_view(arguments) {
            Err(problem) => Err(problem),
            Ok(project_id) => Ok((argv, project_id)),
        },
    }
}

/// The step that follows once it is known what is under the path that the arguments name. What
/// is refused is refused through a file, as soon as there is a directory for it.
pub open spec fn resumed_step(
    pending: PendingInvocationView,
    status: PathStatus,
) -> InvokeStepView {
    let dir = transport_dir(pending.arguments, pending.executable, status);
    match asked_command(pending.arguments) {
        Err(problem) => InvokeStepView::Respond(
            filed_refusal(pending.id, INVALID_PARAMS, problem, dir),
        ),
        Ok((argv, project_id)) => match dir {
            Err(problem) => InvokeStepView::Respond(
                refusal(pending.id, INVALID_PARAMS, problem, None),
            ),
            Ok(file_transport_dir) => match resolution(pending.credentials, pending.ambient) {
                Err(problem) => InvokeStepView::Respond(
                    filed_refusal(pending.id, INVALID_PARAMS, problem, dir),
                ),
                Ok(credentials) => InvokeStepView::Run(
                    CommandRunView {
                        id: pending.id,
                        argv,
                        executable: pending.executable,
                        file_transport_dir,
                        credentials: with_project(credentials, project_id),
                    },
                ),
            },
        },
    }
}

/// The first step of an invocation. `params` are the parameters, or the message that says
/// why they are none. A plugin that does not know its own executable looks nothing up.
pub open spec fn first_step(
    id: JsonView,
    params: Result<InvokeParamsView, Seq<char>>,
    executable: Option<ExecutableView>,
    ambient: AmbientCredentialsView,
) -> InvokeStepView {
    match params {
        Err(details) => InvokeStepView::Respond(
            refusal(
                id,
                INVALID_PARAMS,
                "Invalid params"@,
                Some(JsonView::Object(map!["details"@ => JsonView::Text(details)])),
            ),
        ),
        Ok(params) => if params.tool != TOOL_NAME@ {
            InvokeStepView::Respond(
                refusal(
                    id,
                    METHOD_NOT_FOUND,
                    "Unknown tool: "@ + params.tool,
                    Some(
                        JsonView::Object(
                            map!["available_tools"@ => text_list(seq![TOOL_NAME@])],
                        ),
                    ),
                ),
            )
        } else {
            match executable {
                None => InvokeStepView::Respond(
                    match asked_command(params.arguments) {
                        Err(problem) => refusal(id, INVALID_PARAMS, problem, None),
                        Ok(_) => refusal(
                            id,
                            INTERNAL_ERROR,
                            "Failed to resolve current executable path"@,
                            None,
                        ),
                    },
                ),
                Some(executable) => {
                    let pending = PendingInvocationView {
                        id,
                        arguments: params.arguments,
                        executable,
                        credentials: params.credentials,
                        ambient,
                    };
                    match cwd_view(params.arguments) {
                        Ok(Some(cwd)) => InvokeStepView::Probe(cwd, pending),
                        _ => resumed_step(pending, PathStatus::Missing),
                    }
                },
            }
        },
    }
}

/// The plan for a command that was run: `stdout_json` is what its output was read as.
pub open spec fn finished_plan(
    run: CommandRunView,
    outcome: Result<CommandOutputView, Seq<char>>,
    stdout_json: Option<JsonView>,
) -> ResponsePlanView {
    match outcome {
        Err(message) => filed_refusal(
            run.id,
            INTERNAL_ERROR,
            "Failed to execute embedded gws mode from '"@ + run.executable.path + "': "@ + message,
            Ok(run.file_transport_dir),
        ),
        Ok(output) => {
            let data = tool_data(
                output,
                run.argv,
                run.credentials,
                run.file_transport_dir,
                stdout_json,
            );
            ResponsePlanView {
                response: if output.success {
                    success_view(
                        run.id,
                        JsonView::Object(
                            map![
                                "success"@ => JsonView::Bool(true),
                                "tool"@ => JsonView::Text(TOOL_NAME@),
                                "data"@ => data,
                            ],
                        ),
                    )
                } else {
                    failure_view(run.id, output, data, stdout_json)
                },
                file_transport_dir: Some(run.file_transport_dir),
                file_transport_mode: FileTransportMode::Always,
            }
        },
    }
}

/// The plan for what came of a command: a process that has ended, or the message that says why
/// none was run.
pub open spec fn ended_plan(
    run: CommandRunView,
    outcome: Result<ProcessOutput, Seq<char>>,
) -> ResponsePlanView {
    match outcome {
        Ok(output) => finished_plan(
            run,
            Ok(command_output(output, run.executable.path)),
            parsed_value(parsed_json(trimmed(lossy_text(output.stdout@)))),
        ),
        Err(message) => finished_plan(run, Err(message), None),
    }
}

/// The plan that refuses an invocation through a file, where there is a directory for it.
fn refuse_through_file(id: Json, code: i32, message: String, dir: Result<TransportDir, String>) -> (plan:
    ResponsePlan)
    ensures
        plan@ == filed_refusal(
            id@,
            code,
            message@,
            match dir {
                Ok(dir) => Ok(dir@),
                Err(problem) => Err(problem@),
            },
        ),
{
    let response = error_response(id, code, message, None);
    match dir {
        Ok(dir) => ResponsePlan {
            response,
            file_transport_dir: Some(dir),
            file_transport_mode: FileTransportMode::Always,
        },
        Err(_) => response_plan(response),
    }
}

/// The command that the arguments ask for, and the project that they name.
fn extract_command(arguments: &JsonObject) -> (result: Result<(Vec<String>, Option<String>), String>)
    ensures
        match result {
            Ok((argv, project_id)) => {
                &&& argv_view(arguments@) == Ok::<Seq<Seq<char>>, Seq<char>>(texts(argv@))
                &&& project_id_view(arguments@) == Ok::<Option<Seq<char>>, Seq<char>>(
                    match project_id {
                        Some(project_id) => Some(project_id@),
                        None => None,
                    },
                )
            },
            Err(message) => asked_command(arguments@) == Err::<
                (Seq<Seq<char>>, Option<Seq<char>>),
                Seq<char>,
            >(message@),
        },
{
    let argv = match extract_argv(arguments) {
        Ok(argv) => argv,
        Err(message) => {
            return Err(message);
        },
    };
    match extract_project_id(arguments) {
        Ok(Some(project_id)) => Ok((argv, Some(project_id.to_owned()))),
        Ok(None) => Ok((argv, None)),
        Err(message) => Err(message),
    }
}

/// The step that refuses an invocation on standard output.
fn refuse(id: Json, code: i32, message: String) -> (step: InvokeStep)
    ensures
        step@ == InvokeStepView::Respond(refusal(id@, code, message@, None)),
{
    InvokeStep::Respond(response_plan(error_response(id, code, message, None)))
}

/// The directory for response files. `cwd_status` is what is under the path that the
/// arguments name, where they name one.
pub fn resolve_file_transport_dir(
    arguments: &JsonObject,
    current_exe: &Executable,
    cwd_status: PathStatus,
) -> (result: Result<TransportDir, String>)
    ensures
        match result {
            Ok(dir) => transport_dir(arguments@, current_exe@, cwd_status) == Ok::<
                TransportDirView,
                Seq<char>,
            >(dir@),
            Err(message) => transport_dir(arguments@, current_exe@, cwd_status) == Err::<
                TransportDirView,
                Seq<char>,
            >(message@),
        },
{
    match extract_cwd(arguments) {
        Err(message) => Err(message),
        Ok(Some(cwd)) => match cwd_status {
            PathStatus::Missing => Err("cwd does not exist: ".to_owned().concat(cwd)),
            PathStatus::NotDirectory => Err("cwd is not a directory: ".to_owned().concat(cwd)),
            PathStatus::Directory => Ok(TransportDir::Requested(cwd.to_owned())),
        },
        Ok(None) => match &current_exe.directory {
            Some(directory) => Ok(TransportDir::Executable(directory.clone())),
            None => Err("Failed to determine plugin binary directory".to_owned()),
        },
    }
}

/// Goes on with an invocation once it is known what is under the path that its arguments
/// name, where they name one.
pub fn resume_invoke(pending: PendingInvocation, cwd_status: PathStatus) -> (step: InvokeStep)
    ensures
        step@ == resumed_step(pending@, cwd_status),
{
    let dir = resolve_file_transport_dir(&pending.arguments, &pending.executable, cwd_status);
    let (argv, project_id) = match extract_command(&pending.arguments) {
        Ok(command) => command,
        Err(message) => {
            return InvokeStep::Respond(
                refuse_through_file(pending.id, INVALID_PARAMS, message, dir),
            );
        },
    };
    let file_transport_dir = match dir {
        Ok(dir) => dir,
        Err(message) => {
            return refuse(pending.id, INVALID_PARAMS, message);
        },
    };
    let mut credentials = match resolve_credential_env(&pending.credentials, &pending.ambient) {
        Ok(credentials) => credentials,
        Err(message) => {
            return InvokeStep::Respond(
                refuse_through_file(pending.id, INVALID_PARAMS, message, Ok(file_transport_dir)),
            );
        },
    };
    if let Some(project_id) = project_id {
        credentials.env.insert(PROJECT_ID_ENV, project_id);
    }
    InvokeStep::Run(
        CommandRun {
            id: pending.id,
            argv,
            executable: pending.executable,
            file_transport_dir,
            credentials,
        },
    )
}

/// Starts an invocation. `params` are its parameters, or the message that says why they are
/// none; `ambient` are the credentials in the environment of the plugin.
pub fn handle_invoke(
    id: Json,
    params: Result<InvokeParams, String>,
    current_exe: Option<Executable>,
    ambient: AmbientCredentials,
) -> (step: InvokeStep)
    ensures
        step@ == first_step(
            id@,
            match params {
                Ok(params) => Ok(params@),
                Err(details) => Err(details@),
            },
            match current_exe {
                Some(executable) => Some(executable@),
                None => None,
            },
            ambient@,
        ),
{
    let params = match params {
        Ok(params) => params,
        Err(details) => {
            let mut data = JsonObject::new();
            data.insert("details", Json::Text(details));
            return InvokeStep::Respond(
                response_plan(
                    error_response(
                        id,
                        INVALID_PARAMS,
                        "Invalid params".to_owned(),
                        Some(Json::Object(data)),
                    ),
                ),
            );
        },
    };
    if !same_text(params.tool.as_str(), TOOL_NAME) {
        let tools: Vec<&'static str> = vec![TOOL_NAME];
        assert(names(tools@) =~= seq![TOOL_NAME@]);
        let mut data = JsonObject::new();
        data.insert("available_tools", json_names(&tools));
        return InvokeStep::Respond(
            response_plan(
                error_response(
                    id,
                    METHOD_NOT_FOUND,
                    "Unknown tool: ".to_owned().concat(params.tool.as_str()),
                    Some(Json::Object(data)),
                ),
            ),
        );
    }
    let executable = match current_exe {
        Some(executable) => executable,
        None => {
            return match extract_command(&params.arguments) {
                Err(message) => refuse(id, INVALID_PARAMS, message),
                Ok(_) => refuse(
                    id,
                    INTERNAL_ERROR,
                    "Failed to resolve current executable path".to_owned(),
                ),
            };
        },
    };
    let cwd: Option<String> = match extract_cwd(&params.arguments) {
        Ok(Some(cwd)) => Some(cwd.to_owned()),
        _ => None,
    };
    let pending = PendingInvocation {
        id,
        arguments: params.arguments,
        executable,
        credentials: params.context.credentials,
        ambient,
    };
    match cwd {
        Some(cwd) => InvokeStep::Probe(cwd, pending),
        None => resume_invoke(pending, PathStatus::Missing),
    }
}

/// Ends an invocation with the output of its command, given what that was read as.
pub fn finish_output_with(run: CommandRun, output: CommandOutput, stdout_json: Option<Json>) -> (plan:
    ResponsePlan)
    ensures
        plan@ == finished_plan(
            run@,
            Ok(output@),
            match stdout_json {
                Some(value) => Some(value@),
                None => None,
            },
        ),
{
    let failure = describe_failure(&output, &stdout_json);
    let tool_data = tool_data_with(
        &output,
        run.argv.as_slice(),
        &run.credentials,
        &run.file_transport_dir,
        stdout_json,
    );
    let response = if output.success {
        let mut result = JsonObject::new();
        result.insert("success", Json::Bool(true));
        result.insert("tool", json_text(TOOL_NAME));
        result.insert("data", tool_data);
        success_response(run.id, Json::Object(result))
    } else {
        failure_response_with(run.id, &output, tool_data, failure)
    };
    ResponsePlan {
        response,
        file_transport_dir: Some(run.file_transport_dir),
        file_transport_mode: FileTransportMode::Always,
    }
}

/// Ends an invocation with what came of its command.
pub fn finish_invoke(run: CommandRun, outcome: Result<ProcessOutput, String>) -> (plan:
    ResponsePlan)
    ensures
        plan@ == ended_plan(
            run@,
            match outcome {
                Ok(output) => Ok(output),
                Err(message) => Err(message@),
            },
        ),
        outcome matches Ok(output) ==> {
            &&& reads_bytes(lossy_text(output.stdout@), output.stdout@)
            &&& reads_bytes(lossy_text(output.stderr@), output.stderr@)
        },
{
    match execute_embedded_gws(outcome, run.executable.path.as_str()) {
        Ok(output) => {
            let value = stdout_json(&output);
            finish_output_with(run, output, value)
        },
        Err(message) => refuse_through_file(
            run.id,
            INTERNAL_ERROR,
            "Failed to execute embedded gws mode from '".to_owned().concat(
                run.executable.path.as_str(),
            ).concat("': ").concat(message.as_str()),
            Ok(run.file_transport_dir),
        ),
    }
}

/// A whole invocation up to its command: `status` is what is under the path that its
/// arguments name, where they name one.
pub open spec fn invocation(
    id: JsonView,
    params: Result<InvokeParamsView, Seq<char>>,
    executable: Option<ExecutableView>,
    ambient: AmbientCredentialsView,
    status: PathStatus,
) -> InvokeStepView {
    match first_step(id, params, executable, ambient) {
        InvokeStepView::Probe(_, pending) => resumed_step(pending, status),
        step => step,
    }
}

/// The plan for the answer to an invocation: `outcome` is what came of its command, where one
/// is run.
pub open spec fn invocation_answer(
    id: JsonView,
    params: Result<InvokeParamsView, Seq<char>>,
    executable: Option<ExecutableView>,
    ambient: AmbientCredentialsView,
    status: PathStatus,
    outcome: Result<ProcessOutput, Seq<char>>,
) -> ResponsePlanView {
    match invocation(id, params, executable, ambient, status) {
        InvokeStepView::Run(run) => ended_plan(run, outcome),
        step => step->Respond_0,
    }
}

/// The directory for the file through which an invocation is answered, where there is one: for
/// a call of the tool, by a plugin that knows its own executable, in a directory that is in
/// order.
pub open spec fn answer_dir(
    params: Result<InvokeParamsView, Seq<char>>,
    executable: Option<ExecutableView>,
    status: PathStatus,
) -> Option<TransportDirView> {
    match (params, executable) {
        (Ok(params), Some(executable)) => if params.tool == TOOL_NAME@ {
            match transport_dir(params.arguments, executable, status) {
                Ok(dir) => Some(dir),
                Err(_) => None,
            }
        } else {
            None
        },
        _ => None,
    }
}

/// A command is run exactly where the tool, the command, the project, the directory and the
/// credentials of the request are all in order and the executable is known; it is run with
/// just these.
pub proof fn law_what_is_run(
    id: JsonView,
    params: Result<InvokeParamsView, Seq<char>>,
    executable: Option<ExecutableView>,
    ambient: AmbientCredentialsView,
    status: PathStatus,
)
    ensures
        invocation(id, params, executable, ambient, status) is Run <==> {
            &&& params is Ok
            &&& params->Ok_0.tool == TOOL_NAME@
            &&& argv_view(params->Ok_0.arguments) is Ok
            &&& project_id_view(params->Ok_0.arguments) is Ok
            &&& executable is Some
            &&& transport_dir(params->Ok_0.arguments, executable->0, status) is Ok
            &&& resolution(params->Ok_0.credentials, ambient) is Ok
        },
        invocation(id, params, executable, ambient, status) matches InvokeStepView::Run(run) ==> {
            &&& run.id == id
            &&& argv_view(params->Ok_0.arguments) == Ok::<Seq<Seq<char>>, Seq<char>>(run.argv)
            &&& Some(run.executable) == executable
            &&& transport_dir(params->Ok_0.arguments, executable->0, status) == Ok::<
                TransportDirView,
                Seq<char>,
            >(run.file_transport_dir)
            &&& run.credentials == with_project(
                resolution(params->Ok_0.credentials, ambient)->Ok_0,
                project_id_view(params->Ok_0.arguments)->Ok_0,
            )
        },
{
}

/// No command is run with an argument that is reserved, blank, or holds a control character,
/// nor without any argument, nor without any credential.
pub proof fn law_only_clean_commands_are_run(
    id: JsonView,
    params: Result<InvokeParamsView, Seq<char>>,
    executable: Option<ExecutableView>,
    ambient: AmbientCredentialsView,
    status: PathStatus,
)
    ensures
        invocation(id, params, executable, ambient, status) matches InvokeStepView::Run(run) ==> {
            &&& run.argv.len() > 0
            &&& forall|i: int|
                0 <= i < run.argv.len() ==> {
                    &&& #[trigger] run.argv[i] != INTERNAL_MODE_ARG@
                    &&& !has_control(run.argv[i])
                    &&& !is_blank(run.argv[i])
                }
            &&& {
                ||| run.credentials.env.dom().contains(INTERNAL_GWS_TOKEN_ENV@)
                ||| run.credentials.env.dom().contains(CREDENTIALS_FILE_CREDENTIAL_NAME@)
            }
        },
{
    if let InvokeStepView::Run(run) = invocation(id, params, executable, ambient, status) {
        law_argv_is_clean(params->Ok_0.arguments);
        law_credentials_are_carried(params->Ok_0.credentials, ambient);
    }
}

/// An invocation whose command is not run is answered with an error that carries the id of
/// the request: an unknown tool is not found, a plugin that does not know its own executable
/// is an internal error, and all else is a matter of the parameters. The error goes through a
/// file exactly where the tool is known and there is a directory for response files: the one
/// that the arguments name, or that of the executable.
pub proof fn law_what_is_refused(
    id: JsonView,
    params: Result<InvokeParamsView, Seq<char>>,
    executable: Option<ExecutableView>,
    ambient: AmbientCredentialsView,
    status: PathStatus,
)
    ensures
        match invocation(id, params, executable, ambient, status) {
            InvokeStepView::Run(_) => true,
            InvokeStepView::Probe(_, _) => false,
            InvokeStepView::Respond(plan) => {
                let unknown_tool = params is Ok && params->Ok_0.tool != TOOL_NAME@;
                let lost = {
                    &&& params is Ok
                    &&& asked_command(params->Ok_0.arguments) is Ok
                    &&& executable is None
                };
                let dir = answer_dir(params, executable, status);
                &&& plan.file_transport_dir == dir
                &&& plan.file_transport_mode == if dir is Some {
                    FileTransportMode::Always
                } else {
                    FileTransportMode::Auto
                }
                &&& plan.response.well_formed()
                &&& plan.response.id == id
                &&& plan.response.error is Some
                &&& plan.response.error->0.code == if unknown_tool {
                    METHOD_NOT_FOUND
                } else if lost {
                    INTERNAL_ERROR
                } else {
                    INVALID_PARAMS
                }
            },
        },
{
}

/// The file system is looked at exactly where the arguments of the tool name a directory and
/// the executable is known, and for the path of that directory.
pub proof fn law_what_is_probed(
    id: JsonView,
    params: Result<InvokeParamsView, Seq<char>>,
    executable: Option<ExecutableView>,
    ambient: AmbientCredentialsView,
)
    ensures
        first_step(id, params, executable, ambient) is Probe <==> {
            &&& params is Ok
            &&& params->Ok_0.tool == TOOL_NAME@
            &&& executable is Some
            &&& cwd_view(params->Ok_0.arguments) matches Ok(Some(_))
        },
        first_step(id, params, executable, ambient) matches InvokeStepView::Probe(path, pending)
            ==> {
            &&& cwd_view(params->Ok_0.arguments) == Ok::<Option<Seq<char>>, Seq<char>>(Some(path))
            &&& pending.id == id
            &&& pending.arguments == params->Ok_0.arguments
        },
{
}

/// The response to a command that was run carries the id of the request and always goes
/// through a file in the directory of the run; it is a result where the command succeeded,
/// and an error where it failed.
pub proof fn law_what_a_run_is_answered(
    run: CommandRunView,
    output: CommandOutputView,
    stdout_json: Option<JsonView>,
)
    ensures
        ({
            let plan = finished_plan(run, Ok(output), stdout_json);
            let data = tool_data(
                output,
                run.argv,
                run.credentials,
                run.file_transport_dir,
                stdout_json,
            );
            &&& plan.file_transport_mode == FileTransportMode::Always
            &&& plan.file_transport_dir == Some(run.file_transport_dir)
            &&& plan.response.well_formed()
            &&& plan.response.id == run.id
            &&& output.success ==> {
                &&& plan.response.result is Some
                &&& plan.response.result->0.get("success"@) == Some(JsonView::Bool(true))
                &&& plan.response.result->0.get("tool"@) == Some(JsonView::Text(TOOL_NAME@))
                &&& plan.response.result->0.get("data"@) == Some(data)
                &&& forall|key: Seq<char>| #[trigger]
                    plan.response.result->0.get(key) is Some ==> key == "success"@ || key
                        == "tool"@ || key == "data"@
            }
            &&& !output.success ==> {
                &&& plan.response.error is Some
                &&& plan.response.error->0.data->0.get("tool_data"@) == Some(data)
                &&& plan.response == failure_view(run.id, output, data, stdout_json)
            }
        }),
{
    reveal_strlit("success");
    reveal_strlit("tool");
    reveal_strlit("data");
    assert("success"@.len() == 7);
    assert("tool"@.len() == 4);
    assert("data"@.len() == 4);
    assert("tool"@[0] != "data"@[0]);
    let data = tool_data(output, run.argv, run.credentials, run.file_transport_dir, stdout_json);
    law_failure_holds_the_report(run.id, output, data, stdout_json);
}

/// A command that could not be run is answered with an internal error, which carries the id of
/// the request and goes through a file in the directory of the run.
pub proof fn law_what_no_run_is_answered(run: CommandRunView, message: Seq<char>)
    ensures
        ({
            let plan = finished_plan(run, Err(message), None);
            &&& plan.file_transport_mode == FileTransportMode::Always
            &&& plan.file_transport_dir == Some(run.file_transport_dir)
            &&& plan.response.well_formed()
            &&& plan.response.id == run.id
            &&& plan.response.error is Some
            &&& plan.response.error->0.code == INTERNAL_ERROR
        }),
{
}

/// Every invocation is answered with a well formed response that carries the id of the
/// request. Whatever comes of it, the response goes through a file exactly where the tool is
/// known and there is a directory for response files: none is sent on standard output then,
/// not even one that refuses the invocation.
pub proof fn law_what_an_invocation_is_answered(
    id: JsonView,
    params: Result<InvokeParamsView, Seq<char>>,
    executable: Option<ExecutableView>,
    ambient: AmbientCredentialsView,
    status: PathStatus,
    outcome: Result<ProcessOutput, Seq<char>>,
)
    ensures
        ({
            let plan = invocation_answer(id, params, executable, ambient, status, outcome);
            let dir = answer_dir(params, executable, status);
            &&& plan.response.well_formed()
            &&& plan.response.id == id
            &&& plan.file_transport_dir == dir
            &&& plan.file_transport_mode == if dir is Some {
                FileTransportMode::Always
            } else {
                FileTransportMode::Auto
            }
        }),
{
    law_what_is_refused(id, params, executable, ambient, status);
    if let InvokeStepView::Run(run) = invocation(id, params, executable, ambient, status) {
        match outcome {
            Ok(output) => {
                law_what_a_run_is_answered(
                    run,
                    command_output(output, run.executable.path),
                    parsed_value(parsed_json(trimmed(lossy_text(output.stdout@)))),
                );
            },
            Err(message) => {
                law_what_no_run_is_answered(run, message);
            },
        }
    }
}

/// No credential stands in an answer: invocations whose credentials differ, but are found under
/// the same names, are answered alike where the same comes of their commands.
pub proof fn law_answers_hold_no_credential(
    id: JsonView,
    params: InvokeParamsView,
    other: InvokeParamsView,
    executable: Option<ExecutableView>,
    ambient: AmbientCredentialsView,
    other_ambient: AmbientCredentialsView,
    status: PathStatus,
    outcome: Result<ProcessOutput, Seq<char>>,
)
    requires
        params.tool == other.tool,
        params.arguments == other.arguments,
        match (
            resolution(params.credentials, ambient),
            resolution(other.credentials, other_ambient),
        ) {
            (Ok(resolved), Ok(other_resolved)) => resolved.sources == other_resolved.sources,
            (Err(_), Err(_)) => true,
            _ => false,
        },
    ensures
        invocation_answer(id, Ok(params), executable, ambient, status, outcome)
            == invocation_answer(id, Ok(other), executable, other_ambient, status, outcome),
{
}

/// The child process of a run sees the project, the token and the credentials file that were
/// resolved for it, and no project, token or credentials file of the plugin's own environment
/// in their place. The variable that marks the isolated mode is none of these.
pub proof fn law_child_sees_what_was_resolved(
    credentials: Map<Seq<char>, Seq<char>>,
    ambient: AmbientCredentialsView,
    project_id: Option<Seq<char>>,
    parent: EnvView,
    isolated_mode_env: Seq<char>,
)
    requires
        resolution(credentials, ambient) is Ok,
        !isolated_names().contains(isolated_mode_env),
    ensures
        ({
            let resolved = with_project(resolution(credentials, ambient)->Ok_0, project_id);
            let env = child_env(parent, isolated_mode_env, resolved.env);
            &&& variable(env, PROJECT_ID_ENV@) == project_id
            &&& variable(env, INTERNAL_GWS_TOKEN_ENV@) == match found_token(
                credentials,
                ambient,
            ) {
                Some(found) => Some(found.value),
                None => None,
            }
            &&& variable(env, CREDENTIALS_FILE_CREDENTIAL_NAME@) == found_file(
                credentials,
                ambient,
            )
        }),
{
    reveal_strlit("GOOGLE_WORKSPACE_PROJECT_ID");
    reveal_strlit("GOOGLE_WORKSPACE_CLI_TOKEN");
    reveal_strlit("GOOGLE_WORKSPACE_CLI_CREDENTIALS_FILE");
    reveal_strlit("GOOGLE_WORKSPACE_CLI_CONFIG_DIR");
    assert(PROJECT_ID_ENV@.len() == 27);
    assert(INTERNAL_GWS_TOKEN_ENV@.len() == 26);
    assert(CREDENTIALS_FILE_CREDENTIAL_NAME@.len() == 37);
    assert(CONFIG_DIR_ENV@.len() == 31);
    assert(isolated_names()[0] == INTERNAL_GWS_TOKEN_ENV@);
    assert(isolated_names()[1] == CREDENTIALS_FILE_CREDENTIAL_NAME@);
    assert(isolated_names()[2] == PROJECT_ID_ENV@);
    assert(isolated_names().to_set().contains(PROJECT_ID_ENV@));
    assert(isolated_names().to_set().contains(INTERNAL_GWS_TOKEN_ENV@));
    assert(isolated_names().to_set().contains(CREDENTIALS_FILE_CREDENTIAL_NAME@));
}

/// The text of a variable, where it is set to a text.
pub open spec fn variable(env: EnvView, name: Seq<char>) -> Option<Seq<char>> {
    if env.dom().contains(name) && env[name] is Text {
        Some(env[name]->Text_0)
    } else {
        None
    }
}

/// The directory for response files is the one under `cwd`, exactly where that is a directory;
/// a `cwd` that is none is refused, and never passed over. Only without a `cwd` is it the
/// directory of the executable.
pub proof fn law_which_directory_is_used(
    arguments: Map<Seq<char>, JsonView>,
    executable: ExecutableView,
    status: PathStatus,
)
    ensures
        ({
            let dir = transport_dir(arguments, executable, status);
            let named = arguments.dom().contains("cwd"@);
            let value = arguments["cwd"@];
            &&& named && value is Text && status == PathStatus::Directory ==> dir == Ok::<
                TransportDirView,
                Seq<char>,
            >(TransportDirView::Requested(value->Text_0))
            &&& named && value is Text && status == PathStatus::NotDirectory ==> dir == Err::<
                TransportDirView,
                Seq<char>,
            >("cwd is not a directory: "@ + value->Text_0)
            &&& named && value is Text && status == PathStatus::Missing ==> dir == Err::<
                TransportDirView,
                Seq<char>,
            >("cwd does not exist: "@ + value->Text_0)
            &&& named && !(value is Text) ==> dir == Err::<TransportDirView, Seq<char>>(
                "cwd must be a string when provided"@,
            )
            &&& !named && executable.directory is Some ==> dir == Ok::<
                TransportDirView,
                Seq<char>,
            >(TransportDirView::Executable(executable.directory->0))
            &&& !named && executable.directory is None ==> dir == Err::<
                TransportDirView,
                Seq<char>,
            >("Failed to determine plugin binary directory"@)
        }),
{
    law_cwd(arguments);
}

/// Where a call puts response files.
pub proof fn law_resolve_file_transport_dir(
    arguments: &JsonObject,
    current_exe: &Executable,
    status: PathStatus,
    result: Result<TransportDir, String>,
)
    requires
        call_ensures(resolve_file_transport_dir, (arguments, current_exe, status), result),
    ensures
        ({
            let named = arguments@.dom().contains("cwd"@);
            let value = arguments@["cwd"@];
            &&& result is Ok <==> if named {
                value is Text && status == PathStatus::Directory
            } else {
                current_exe.directory is Some
            }
            &&& result matches Ok(TransportDir::Requested(path)) ==> named && value
                == JsonView::Text(path@)
            &&& result matches Ok(TransportDir::Executable(path)) ==> !named && path@
                == current_exe.directory->0@
        }),
{
    law_which_directory_is_used(arguments@, current_exe@, status);
}

/// The project is added to the variables of a command under its own name, and nothing else is
/// changed; without a project nothing is.
pub proof fn law_project_is_added(
    credentials: ResolvedCredentialsView,
    project_id: Option<Seq<char>>,
    name: Seq<char>,
)
    ensures
        ({
            let added = with_project(credentials, project_id);
            &&& added.sources == credentials.sources
            &&& project_id is None ==> added.env == credentials.env
            &&& project_id is Some ==> {
                &&& added.env.dom().contains("GOOGLE_WORKSPACE_PROJECT_ID"@)
                &&& added.env["GOOGLE_WORKSPACE_PROJECT_ID"@] == project_id->0
                &&& name != "GOOGLE_WORKSPACE_PROJECT_ID"@ ==> {
                    &&& added.env.dom().contains(name) <==> credentials.env.dom().contains(name)
                    &&& added.env[name] == credentials.env[name]
                }
            }
        }),
{
}

/// An invocation of the tool is refused for the first of these that is the matter, and for
/// nothing else: the command, the project, the directory for response files, the credentials.
/// The refusal carries the message of that, and goes through a file where there is a directory.
/// Where nothing is the matter, the command is run as it was asked for.
pub proof fn law_what_becomes_of_a_call(pending: PendingInvocationView, status: PathStatus)
    ensures
        ({
            let step = resumed_step(pending, status);
            let argv = argv_view(pending.arguments);
            let project_id = project_id_view(pending.arguments);
            let dir = transport_dir(pending.arguments, pending.executable, status);
            let credentials = resolution(pending.credentials, pending.ambient);
            let problem = if argv is Err {
                Some(argv->Err_0)
            } else if project_id is Err {
                Some(project_id->Err_0)
            } else if dir is Err {
                Some(dir->Err_0)
            } else if credentials is Err {
                Some(credentials->Err_0)
            } else {
                None
            };
            &&& problem matches Some(message) ==> {
                let plan = step->Respond_0;
                &&& step is Respond
                &&& plan.response.jsonrpc == "2.0"@
                &&& plan.response.id == pending.id
                &&& plan.response.result is None
                &&& plan.response.error is Some
                &&& plan.response.error->0.code == -32602
                &&& plan.response.error->0.message == message
                &&& plan.response.error->0.data is None
                &&& dir is Ok ==> {
                    &&& plan.file_transport_dir == Some(dir->Ok_0)
                    &&& plan.file_transport_mode == FileTransportMode::Always
                }
                &&& dir is Err ==> {
                    &&& plan.file_transport_dir is None
                    &&& plan.file_transport_mode == FileTransportMode::Auto
                }
            }
            &&& problem is None ==> {
                let run = step->Run_0;
                &&& step is Run
                &&& run.id == pending.id
                &&& run.argv == argv->Ok_0
                &&& run.executable == pending.executable
                &&& run.file_transport_dir == dir->Ok_0
                &&& run.credentials.sources == credentials->Ok_0.sources
                &&& run.credentials == with_project(credentials->Ok_0, project_id->Ok_0)
            }
        }),
{
}

/// Parameters that are none are refused with their message, and an unknown tool is not found.
/// An invocation of the tool by a plugin that does not know its own executable is refused for
/// its command or project, and else as an internal error. Any other is looked up where its
/// arguments name a directory, and goes on at once where they do not, with all that the request
/// and the environment gave.
pub proof fn law_how_an_invocation_starts(
    id: JsonView,
    params: Result<InvokeParamsView, Seq<char>>,
    executable: Option<ExecutableView>,
    ambient: AmbientCredentialsView,
    status: PathStatus,
)
    ensures
        ({
            let step = first_step(id, params, executable, ambient);
            let plan = step->Respond_0;
            let error = plan.response.error->0;
            let given = params->Ok_0;
            let known = params is Ok && given.tool == "run_gws"@;
            let argv = argv_view(given.arguments);
            let project_id = project_id_view(given.arguments);
            let pending = PendingInvocationView {
                id,
                arguments: given.arguments,
                executable: executable->0,
                credentials: given.credentials,
                ambient,
            };
            let named = given.arguments.dom().contains("cwd"@) && given.arguments["cwd"@] is Text;
            &&& !known || executable is None ==> {
                &&& step is Respond
                &&& plan.response.jsonrpc == "2.0"@
                &&& plan.response.id == id
                &&& plan.response.result is None
                &&& plan.response.error is Some
                &&& plan.file_transport_dir is None
                &&& plan.file_transport_mode == FileTransportMode::Auto
            }
            &&& params is Err ==> {
                &&& error.code == -32602
                &&& error.message == "Invalid params"@
                &&& error.data is Some
                &&& error.data->0.get("details"@) == Some(JsonView::Text(params->Err_0))
            }
            &&& params is Ok && !known ==> {
                &&& error.code == -32601
                &&& error.message == "Unknown tool: "@ + given.tool
                &&& error.data is Some
                &&& error.data->0.get("available_tools"@) == Some(text_list(seq!["run_gws"@]))
            }
            &&& known && executable is None ==> {
                &&& error.data is None
                &&& argv is Err ==> error.code == -32602 && error.message == argv->Err_0
                &&& argv is Ok && project_id is Err ==> error.code == -32602 && error.message
                    == project_id->Err_0
                &&& argv is Ok && project_id is Ok ==> error.code == -32603 && error.message
                    == "Failed to resolve current executable path"@
            }
            &&& known && executable is Some && named ==> step == InvokeStepView::Probe(
                given.arguments["cwd"@]->Text_0,
                pending,
            )
            &&& known && executable is Some && !named ==> step == resumed_step(pending, status)
        }),
{
    if let Ok(given) = params {
        law_cwd(given.arguments);
    }
}

/// A command that was run is answered with a result exactly where its process succeeded,
/// whatever that put out, and else with an error and no result. Either way the report is about
/// just this run and this process.
/// `text` is any text that `gws` may report.
pub proof fn law_what_a_process_is_answered(
    run: CommandRunView,
    output: ProcessOutput,
    text: Seq<char>,
)
    ensures
        ({
            let response = ended_plan(run, Ok(output)).response;
            let report = if output.success {
                response.result->0.get("data"@)
            } else {
                response.error->0.data->0.get("tool_data"@)
            };
            let stdout = lossy_text(output.stdout@);
            let read = parsed_json(trimmed(stdout));
            let value = if read is Ok {
                Some(read->Ok_0)
            } else {
                None
            };
            let code: i32 = if output.code is Some {
                output.code->0
            } else {
                -1i32
            };
            &&& response.result is Some <==> output.success
            &&& response.error is Some <==> !output.success
            &&& response.jsonrpc == "2.0"@
            &&& response.id == run.id
            &&& report is Some
            &&& report->0.get("argv"@) == Some(text_list(run.argv))
            &&& report->0.get("plugin_executable"@) == Some(JsonView::Text(run.executable.path))
            &&& report->0.get("file_transport_dir"@) == Some(
                JsonView::Text(
                    match run.file_transport_dir {
                        TransportDirView::Requested(path) => path,
                        TransportDirView::Executable(path) => path,
                    },
                ),
            )
            &&& report->0.get("credential_sources"@) == Some(text_list(run.credentials.sources))
            &&& report->0.get("stdout"@) == Some(JsonView::Text(stdout))
            &&& report->0.get("stderr"@) == Some(JsonView::Text(lossy_text(output.stderr@)))
            &&& report->0.get("exit_code"@) == Some(JsonView::Number(integer_number(code as int)))
            &&& report->0.get("embedded_cli"@) == Some(JsonView::Bool(true))
            &&& report->0.get("stdout_json"@) == value
            &&& output.success ==> {
                &&& response.result->0.get("success"@) == Some(JsonView::Bool(true))
                &&& response.result->0.get("tool"@) == Some(JsonView::Text("run_gws"@))
            }
            &&& !output.success ==> {
                let error = response.error->0;
                let invalid = error_has(value, "reason"@, JsonView::Text("validationError"@));
                &&& error.code == if invalid {
                    -32602i32
                } else {
                    -32603i32
                }
                &&& error_has(value, "message"@, JsonView::Text(text)) && !is_blank(text)
                    ==> error.message == text
                &&& value is None ==> error.message == if is_blank(lossy_text(output.stderr@)) {
                    "gws command failed"@
                } else {
                    trimmed(lossy_text(output.stderr@))
                }
                &&& error_has(value, "reason"@, JsonView::Text(text)) ==> error.data->0.get(
                    "reason"@,
                ) == Some(JsonView::Text(text))
                &&& error.data->0.get("tool"@) == Some(JsonView::Text("run_gws"@))
                &&& error.data->0.get("gws_exit_code"@) == Some(
                    JsonView::Number(integer_number(code as int)),
                )
            }
        }),
{
    let command = command_output(output, run.executable.path);
    let value = parsed_value(parsed_json(trimmed(lossy_text(output.stdout@))));
    let data = tool_data(command, run.argv, run.credentials, run.file_transport_dir, value);
    law_what_a_run_is_answered(run, command, value);
    law_tool_data_fields(command, run.argv, run.credentials, run.file_transport_dir, value);
    law_failure_holds_the_report(run.id, command, data, value);
    law_code_of_a_failure(run.id, command, data, value);
    law_message_of_a_failure(run.id, command, data, value, text);
    law_what_is_reported(value, "reason"@, text);
}

/// A command that could not be run is an internal error, which names the executable and says
/// why; it goes through a file in the directory of the run.
pub proof fn law_what_a_failed_start_is_answered(run: CommandRunView, message: Seq<char>)
    ensures
        ({
            let plan = ended_plan(run, Err(message));
            &&& plan.response.jsonrpc == "2.0"@
            &&& plan.response.id == run.id
            &&& plan.response.result is None
            &&& plan.response.error is Some
            &&& plan.response.error->0.code == -32603
            &&& plan.response.error->0.message == "Failed to execute embedded gws mode from '"@
                + run.executable.path + "': "@ + message
            &&& plan.response.error->0.data is None
            &&& plan.file_transport_dir == Some(run.file_transport_dir)
            &&& plan.file_transport_mode == FileTransportMode::Always
        }),
{
}

/// What a call makes of the parameters of an invocation: a command is run at once exactly where
/// all of them are in order and name no directory, and it is the command that was asked for.
pub proof fn law_handle_invoke(
    id: Json,
    params: Result<InvokeParams, String>,
    current_exe: Option<Executable>,
    ambient: AmbientCredentials,
    step: InvokeStep,
)
    requires
        call_ensures(handle_invoke, (id, params, current_exe, ambient), step),
    ensures
        ({
            let given = params->Ok_0;
            let arguments = given.arguments@;
            let known = params is Ok && given.tool@ == "run_gws"@;
            let named = arguments.dom().contains("cwd"@) && arguments["cwd"@] is Text;
            &&& step is Run <==> {
                &&& known
                &&& current_exe is Some
                &&& current_exe->0.directory is Some
                &&& !arguments.dom().contains("cwd"@)
                &&& argv_view(arguments) is Ok
                &&& project_id_view(arguments) is Ok
                &&& resolution(given.context.credentials@, ambient@) is Ok
            }
            &&& step is Probe <==> known && current_exe is Some && named
            &&& step matches InvokeStep::Probe(path, pending) ==> {
                &&& JsonView::Text(path@) == arguments["cwd"@]
                &&& pending.id@ == id@
                &&& pending.arguments@ == arguments
                &&& pending.executable@ == current_exe->0@
                &&& pending.credentials@ == given.context.credentials@
                &&& pending.ambient@ == ambient@
            }
            &&& step matches InvokeStep::Run(run) ==> {
                &&& run.id@ == id@
                &&& texts(run.argv@) == argv_view(arguments)->Ok_0
                &&& run.executable@ == current_exe->0@
                &&& run.file_transport_dir@ == TransportDirView::Executable(
                    current_exe->0.directory->0@,
                )
                &&& run.credentials@ == with_project(
                    resolution(given.context.credentials@, ambient@)->Ok_0,
                    project_id_view(arguments)->Ok_0,
                )
            }
            &&& step matches InvokeStep::Respond(plan) ==> {
                &&& plan.response.id@ == id@
                &&& plan.response.result is None
                &&& plan.response.error is Some
            }
        }),
{
    let given: Result<InvokeParamsView, Seq<char>> = match params {
        Ok(params) => Ok(params@),
        Err(details) => Err(details@),
    };
    let executable: Option<ExecutableView> = match current_exe {
        Some(executable) => Some(executable@),
        None => None,
    };
    law_how_an_invocation_starts(id@, given, executable, ambient@, PathStatus::Missing);
    if params is Ok && current_exe is Some {
        let pending = PendingInvocationView {
            id: id@,
            arguments: params->Ok_0.arguments@,
            executable: current_exe->0@,
            credentials: params->Ok_0.context.credentials@,
            ambient: ambient@,
        };
        law_what_becomes_of_a_call(pending, PathStatus::Missing);
        law_which_directory_is_used(pending.arguments, pending.executable, PathStatus::Missing);
    }
}

/// What a call makes of an invocation once it is known what is under the path that its arguments
/// name: it is run exactly where everything is in order, and refused under its id else.
pub proof fn law_resume_invoke(
    pending: PendingInvocation,
    cwd_status: PathStatus,
    step: InvokeStep,
)
    requires
        call_ensures(resume_invoke, (pending, cwd_status), step),
    ensures
        ({
            let dir = transport_dir(pending.arguments@, pending.executable@, cwd_status);
            &&& step !is Probe
            &&& step is Run <==> {
                &&& argv_view(pending.arguments@) is Ok
                &&& project_id_view(pending.arguments@) is Ok
                &&& dir is Ok
                &&& resolution(pending.credentials@, pending.ambient@) is Ok
            }
            &&& step matches InvokeStep::Run(run) ==> {
                &&& run.id@ == pending.id@
                &&& texts(run.argv@) == argv_view(pending.arguments@)->Ok_0
                &&& run.executable@ == pending.executable@
                &&& run.file_transport_dir@ == dir->Ok_0
            }
            &&& step matches InvokeStep::Respond(plan) ==> {
                &&& plan.response.id@ == pending.id@
                &&& plan.response.error is Some
                &&& plan.response.error->0.code == -32602
                &&& plan.file_transport_mode == if dir is Ok {
                    FileTransportMode::Always
                } else {
                    FileTransportMode::Auto
                }
            }
        }),
{
    law_what_becomes_of_a_call(pending@, cwd_status);
}

/// What a call answers for what came of a command: a result exactly where the process succeeded,
/// always under the id of the run and through a file in its directory.
pub proof fn law_finish_invoke(
    run: CommandRun,
    outcome: Result<ProcessOutput, String>,
    plan: ResponsePlan,
)
    requires
        call_ensures(finish_invoke, (run, outcome), plan),
    ensures
        plan.response.result is Some <==> outcome is Ok && outcome->Ok_0.success,
        plan.response.error is Some <==> !(outcome is Ok && outcome->Ok_0.success),
        plan.response.jsonrpc@ == "2.0"@,
        plan.response.id@ == run.id@,
        plan.file_transport_mode == FileTransportMode::Always,
        plan.file_transport_dir is Some,
        plan.file_transport_dir->0@ == run.file_transport_dir@,
        outcome is Err ==> plan.response.error->0.code == -32603,
{
    match outcome {
        Ok(output) => {
            law_what_a_process_is_answered(run@, output, Seq::empty());
        },
        Err(message) => {
            law_what_a_failed_start_is_answered(run@, message@);
        },
    }
}

/// Every part of an invocation counts.
pub proof fn law_invocations_are_seen_whole(
    params: InvokeParams,
    executable: Executable,
    pending: PendingInvocation,
    run: CommandRun,
    step: InvokeStep,
)
    ensures
        params@.tool == params.tool@,
        params@.arguments == params.arguments@,
        params@.credentials == params.context.credentials@,
        executable@.path == executable.path@,
        executable.directory matches Some(directory) ==> executable@.directory == Some(directory@),
        executable.directory is None ==> executable@.directory is None,
        pending@.id == pending.id@,
        pending@.arguments == pending.arguments@,
        pending@.executable == pending.executable@,
        pending@.credentials == pending.credentials@,
        pending@.ambient == pending.ambient@,
        run@.id == run.id@,
        run@.argv == texts(run.argv@),
        run@.executable == run.executable@,
        run@.file_transport_dir == run.file_transport_dir@,
        run@.credentials == run.credentials@,
        run.credentials@.env == run.credentials.env@,
        run.credentials@.sources == names(run.credentials.sources@),
        pending.ambient.token matches Some(token) ==> pending.ambient@.token == Some(token@),
        pending.ambient.token is None ==> pending.ambient@.token is None,
        pending.ambient.credentials_file matches Some(path) ==> pending.ambient@.credentials_file
            == Some(path@),
        pending.ambient.credentials_file is None ==> pending.ambient@.credentials_file is None,
        step matches InvokeStep::Respond(plan) ==> step@ == InvokeStepView::Respond(plan@),
        step matches InvokeStep::Probe(path, waiting) ==> step@ == InvokeStepView::Probe(
            path@,
            waiting@,
        ),
        step matches InvokeStep::Run(next) ==> step@ == InvokeStepView::Run(next@),
{
}

} // verus!
