//! The child process: how it is started, in which environment, and what came of it.

use vstd::prelude::*;
use vstd::string::*;
use vstd::utf8::{decode_utf8, valid_utf8};

use crate::arguments::INTERNAL_MODE_ARG;
use crate::credentials::{
    text_entries, TextMap, CREDENTIALS_FILE_CREDENTIAL_NAME, INTERNAL_GWS_TOKEN_ENV,
};
use crate::text::{names, same_text, texts};

verus! {

/// The variable that names the project.
pub const PROJECT_ID_ENV: &'static str = "GOOGLE_WORKSPACE_PROJECT_ID";

/// The variable that names the configuration directory.
pub const CONFIG_DIR_ENV: &'static str = "GOOGLE_WORKSPACE_CLI_CONFIG_DIR";

/// The command line, as far as it asks the executable to run as `gws`.
pub open spec fn asks_for_internal_mode(args: Seq<Seq<char>>) -> bool {
    args.len() > 1 && args[1] == INTERNAL_MODE_ARG@
}

/// The command line of `gws` inside of the plugin's own.
pub open spec fn gws_command_line(args: Seq<Seq<char>>) -> Seq<Seq<char>> {
    seq!["gws"@] + if args.len() > 2 {
        args.skip(2)
    } else {
        seq![]
    }
}

/// Whether the plugin was started to run as `gws`.
pub fn is_internal_cli_mode(args: &[String]) -> (result: bool)
    ensures
        result == asks_for_internal_mode(texts(args@)),
{
    args.len() > 1 && same_text(args[1].as_str(), INTERNAL_MODE_ARG)
}

/// The arguments for `gws`: its own name, and what follows the internal mode.
pub fn internal_cli_args(plugin_args: &[String]) -> (cli_args: Vec<String>)
    ensures
        texts(cli_args@) == gws_command_line(texts(plugin_args@)),
{
    let mut cli_args: Vec<String> = Vec::new();
    cli_args.push("gws".to_owned());
    let mut i: usize = 2;
    while i < plugin_args.len()
        invariant
            i == 2 || 2 < i <= plugin_args.len(),
            cli_args.len() == i - 1,
            cli_args@[0]@ == "gws"@,
            forall|j: int| 1 <= j < i - 1 ==> (#[trigger] cli_args@[j])@ == plugin_args@[j + 1]@,
        decreases plugin_args.len() - i,
    {
        cli_args.push(plugin_args[i].clone());
        i += 1;
    }
    assert(texts(cli_args@) =~= gws_command_line(texts(plugin_args@)));
    cli_args
}

/// The value of a variable of the child process.
#[derive(Debug, PartialEq, Eq)]
pub enum EnvValue {
    Text(String),
    /// The path of the plugin's own configuration directory.
    IsolatedConfigDir,
}

/// What the value of a variable is.
pub enum EnvValueView {
    Text(Seq<char>),
    IsolatedConfigDir,
}

impl View for EnvValue {
    type V = EnvValueView;

    open spec fn view(&self) -> EnvValueView {
        match self {
            EnvValue::Text(text) => EnvValueView::Text(text@),
            EnvValue::IsolatedConfigDir => EnvValueView::IsolatedConfigDir,
        }
    }
}

/// A change of the environment that the child process inherits.
#[derive(Debug, PartialEq, Eq)]
pub enum EnvChange {
    Remove(String),
    Assign(String, EnvValue),
}

/// An environment: the value of each variable that is set.
pub type EnvView = Map<Seq<char>, EnvValueView>;

/// The environment after changes made one after another.
pub open spec fn changed_env(parent: EnvView, changes: Seq<EnvChange>) -> EnvView
    decreases changes.len(),
{
    if changes.len() == 0 {
        parent
    } else {
        let before = changed_env(parent, changes.drop_last());
        match changes.last() {
            EnvChange::Remove(name) => before.remove(name@),
            EnvChange::Assign(name, value) => before.insert(name@, value@),
        }
    }
}

/// The variables that the child process does not inherit.
pub open spec fn isolated_names() -> Seq<Seq<char>> {
    seq![
        INTERNAL_GWS_TOKEN_ENV@,
        CREDENTIALS_FILE_CREDENTIAL_NAME@,
        PROJECT_ID_ENV@,
        CONFIG_DIR_ENV@,
        "GOOGLE_APPLICATION_CREDENTIALS"@,
        "GOOGLE_WORKSPACE_CLI_CLIENT_ID"@,
        "GOOGLE_WORKSPACE_CLI_CLIENT_SECRET"@,
        "GOOGLE_WORKSPACE_CLI_KEYRING_BACKEND"@,
        "GOOGLE_WORKSPACE_CLI_LOG_FILE"@,
    ]
}

/// Texts as the values of variables.
pub open spec fn text_env(variables: Map<Seq<char>, Seq<char>>) -> EnvView {
    variables.map_values(|text: Seq<char>| EnvValueView::Text(text))
}

/// The environment of the child process: that of the plugin without the isolated variables,
/// with the mark of the isolated mode and the plugin's own configuration directory, and with
/// the variables of the command in front of everything else.
pub open spec fn child_env(
    parent: EnvView,
    isolated_mode_env: Seq<char>,
    variables: Map<Seq<char>, Seq<char>>,
) -> EnvView {
    parent.remove_keys(isolated_names().to_set()).insert(
        isolated_mode_env,
        EnvValueView::Text("1"@),
    ).insert(CONFIG_DIR_ENV@, EnvValueView::IsolatedConfigDir).union_prefer_right(
        text_env(variables),
    )
}

/// How the child process is started: the arguments for the plugin's executable, and the
/// changes of the environment, in their order.
#[derive(Debug, PartialEq, Eq)]
pub struct EmbeddedCommand {
    pub args: Vec<String>,
    pub env: Vec<EnvChange>,
}

/// The variables that the child process does not inherit.
pub fn isolated_child_env_remove() -> (result: Vec<&'static str>)
    ensures
        names(result@) == isolated_names(),
{
    let result: Vec<&'static str> = vec![
        INTERNAL_GWS_TOKEN_ENV,
        CREDENTIALS_FILE_CREDENTIAL_NAME,
        PROJECT_ID_ENV,
        CONFIG_DIR_ENV,
        "GOOGLE_APPLICATION_CREDENTIALS",
        "GOOGLE_WORKSPACE_CLI_CLIENT_ID",
        "GOOGLE_WORKSPACE_CLI_CLIENT_SECRET",
        "GOOGLE_WORKSPACE_CLI_KEYRING_BACKEND",
        "GOOGLE_WORKSPACE_CLI_LOG_FILE",
    ];
    assert(names(result@) =~= isolated_names());
    result
}

/// How to start `gws` for `argv` with the variables `credential_env`. The variable
/// `isolated_mode_env` tells `gws` that it runs isolated.
pub fn build_embedded_gws_command(
    argv: &[String],
    credential_env: &TextMap,
    isolated_mode_env: &str,
) -> (command: EmbeddedCommand)
    ensures
        texts(command.args@) == seq![INTERNAL_MODE_ARG@] + texts(argv@),
        forall|parent: EnvView| #[trigger]
            changed_env(parent, command.env@) == child_env(
                parent,
                isolated_mode_env@,
                credential_env@,
            ),
{
    let mut args: Vec<String> = Vec::new();
    args.push(INTERNAL_MODE_ARG.to_owned());
    for i in 0..argv.len()
        invariant
            args.len() == i + 1,
            args@[0]@ == INTERNAL_MODE_ARG@,
            forall|j: int| 1 <= j < i + 1 ==> (#[trigger] args@[j])@ == argv@[j - 1]@,
    {
        args.push(argv[i].clone());
    }
    assert(texts(args@) =~= seq![INTERNAL_MODE_ARG@] + texts(argv@));
    let removed = isolated_child_env_remove();
    let mut env: Vec<EnvChange> = Vec::new();
    assert forall|parent: EnvView| #[trigger] changed_env(parent, env@) == parent.remove_keys(
        isolated_names().take(0).to_set(),
    ) by {
        assert(parent.remove_keys(isolated_names().take(0).to_set()) =~= parent);
    }
    for i in 0..removed.len()
        invariant
            names(removed@) == isolated_names(),
            forall|parent: EnvView| #[trigger]
                changed_env(parent, env@) == parent.remove_keys(
                    isolated_names().take(i as int).to_set(),
                ),
    {
        let ghost before = env@;
        env.push(EnvChange::Remove(removed[i].to_owned()));
        proof {
            assert(removed@[i as int]@ == names(removed@)[i as int]);
            assert(env@.drop_last() =~= before);
            lemma_take_next(isolated_names(), i as int);
            assert forall|parent: EnvView| #[trigger] changed_env(parent, env@)
                == parent.remove_keys(isolated_names().take(i + 1).to_set()) by {
                assert(changed_env(parent, before) == parent.remove_keys(
                    isolated_names().take(i as int).to_set(),
                ));
                assert(changed_env(parent, env@) =~= parent.remove_keys(
                    isolated_names().take(i + 1).to_set(),
                ));
            }
        }
    }
    assert(isolated_names().take(removed.len() as int) =~= isolated_names());
    let ghost bare = env@;
    env.push(EnvChange::Assign(isolated_mode_env.to_owned(), EnvValue::Text("1".to_owned())));
    let ghost marked = env@;
    assert(marked.drop_last() =~= bare);
    env.push(EnvChange::Assign(CONFIG_DIR_ENV.to_owned(), EnvValue::IsolatedConfigDir));
    assert(env@.drop_last() =~= marked);
    let ghost base = env@;
    assert forall|parent: EnvView| #[trigger] changed_env(parent, base) == child_env(
        parent,
        isolated_mode_env@,
        Map::empty(),
    ) by {
        assert(changed_env(parent, bare) == parent.remove_keys(isolated_names().to_set()));
        assert(changed_env(parent, marked) == changed_env(parent, bare).insert(
            isolated_mode_env@,
            EnvValueView::Text("1"@),
        ));
        assert(changed_env(parent, base) =~= child_env(parent, isolated_mode_env@, Map::empty()));
    }
    assert(credential_env.entries@.take(0) =~= Seq::empty());
    for i in 0..credential_env.entries.len()
        invariant
            forall|parent: EnvView| #[trigger]
                changed_env(parent, env@) == child_env(
                    parent,
                    isolated_mode_env@,
                    text_entries(credential_env.entries@.take(i as int)),
                ),
    {
        let ghost before = env@;
        let ghost seen = credential_env.entries@.take(i as int);
        let ghost next = credential_env.entries@.take(i + 1);
        env.push(
            EnvChange::Assign(
                credential_env.entries[i].0.clone(),
                EnvValue::Text(credential_env.entries[i].1.clone()),
            ),
        );
        proof {
            assert(env@.drop_last() =~= before);
            assert(next.drop_last() =~= seen);
            assert forall|parent: EnvView| #[trigger] changed_env(parent, env@) == child_env(
                parent,
                isolated_mode_env@,
                text_entries(next),
            ) by {
                assert(changed_env(parent, before) == child_env(
                    parent,
                    isolated_mode_env@,
                    text_entries(seen),
                ));
                assert(changed_env(parent, env@) =~= child_env(
                    parent,
                    isolated_mode_env@,
                    text_entries(next),
                ));
            }
        }
    }
    assert(credential_env.entries@.take(credential_env.entries.len() as int)
        =~= credential_env.entries@);
    EmbeddedCommand { args, env }
}

/// One more item of a sequence is one more element of the set of its items.
proof fn lemma_take_next<A>(items: Seq<A>, i: int)
    requires
        0 <= i < items.len(),
    ensures
        items.take(i + 1).to_set() == items.take(i).to_set().insert(items[i]),
{
    let more = items.take(i + 1);
    assert forall|item: A| more.to_set().contains(item) <==> items.take(i).to_set().insert(
        items[i],
    ).contains(item) by {
        if more.contains(item) {
            let k = choose|k: int| 0 <= k < more.len() && more[k] == item;
            if k < i {
                assert(items.take(i)[k] == item);
            }
        }
        if items.take(i).contains(item) {
            let k = choose|k: int| 0 <= k < i && items.take(i)[k] == item;
            assert(more[k] == item);
        }
        if item == items[i] {
            assert(more[i] == item);
        }
    }
    assert(more.to_set() =~= items.take(i).to_set().insert(items[i]));
}

/// The plugin's executable, started with the arguments of the command, knows that it is to
/// run as `gws`, and runs it with exactly the arguments of the request.
pub proof fn law_child_runs_the_command(executable: Seq<char>, argv: Seq<Seq<char>>)
    ensures
        asks_for_internal_mode(seq![executable, INTERNAL_MODE_ARG@] + argv),
        gws_command_line(seq![executable, INTERNAL_MODE_ARG@] + argv) == seq!["gws"@] + argv,
{
    let whole = seq![executable, INTERNAL_MODE_ARG@] + argv;
    assert(gws_command_line(whole) =~= seq!["gws"@] + argv);
}

/// Two plugins with the same other variables start their child processes in the same
/// environment: none of the isolated variables is inherited.
pub proof fn law_child_is_isolated(
    parent: EnvView,
    other: EnvView,
    isolated_mode_env: Seq<char>,
    variables: Map<Seq<char>, Seq<char>>,
)
    requires
        parent.remove_keys(isolated_names().to_set()) == other.remove_keys(
            isolated_names().to_set(),
        ),
    ensures
        child_env(parent, isolated_mode_env, variables) == child_env(
            other,
            isolated_mode_env,
            variables,
        ),
        forall|i: int|
            0 <= i < isolated_names().len() && #[trigger] isolated_names()[i] != CONFIG_DIR_ENV@
                && isolated_names()[i] != isolated_mode_env && !variables.dom().contains(
                isolated_names()[i],
            ) ==> !child_env(parent, isolated_mode_env, variables).dom().contains(
                isolated_names()[i],
            ),
{
    assert forall|i: int| 0 <= i < isolated_names().len() implies isolated_names().to_set().contains(
        #[trigger] isolated_names()[i],
    ) by {
        assert(isolated_names().contains(isolated_names()[i]));
    }
}

/// The child process sees each variable of the command with its value, the mark of the
/// isolated mode and the plugin's own configuration directory, unless the command sets
/// these itself.
pub proof fn law_child_sees_its_variables(
    parent: EnvView,
    isolated_mode_env: Seq<char>,
    variables: Map<Seq<char>, Seq<char>>,
)
    ensures
        forall|name: Seq<char>| #[trigger]
            variables.dom().contains(name) ==> {
                let env = child_env(parent, isolated_mode_env, variables);
                env.dom().contains(name) && env[name] == EnvValueView::Text(variables[name])
            },
        !variables.dom().contains(CONFIG_DIR_ENV@) ==> {
            let env = child_env(parent, isolated_mode_env, variables);
            env.dom().contains(CONFIG_DIR_ENV@) && env[CONFIG_DIR_ENV@]
                == EnvValueView::IsolatedConfigDir
        },
        !variables.dom().contains(isolated_mode_env) && isolated_mode_env != CONFIG_DIR_ENV@ ==> {
            let env = child_env(parent, isolated_mode_env, variables);
            env.dom().contains(isolated_mode_env) && env[isolated_mode_env] == EnvValueView::Text(
                "1"@,
            )
        },
{
}

/// What is known of a process that has ended.
#[derive(Debug, PartialEq, Eq)]
pub struct ProcessOutput {
    pub stdout: Vec<u8>,
    pub stderr: Vec<u8>,
    pub code: Option<i32>,
    pub success: bool,
}

/// What came of a command.
#[derive(Debug, PartialEq, Eq)]
pub struct CommandOutput {
    pub stdout: String,
    pub stderr: String,
    pub exit_code: i32,
    pub success: bool,
    pub executable: String,
}

/// What came of a command, by its contents.
pub struct CommandOutputView {
    pub stdout: Seq<char>,
    pub stderr: Seq<char>,
    pub exit_code: i32,
    pub success: bool,
    pub executable: Seq<char>,
}

impl View for CommandOutput {
    type V = CommandOutputView;

    open spec fn view(&self) -> CommandOutputView {
        CommandOutputView {
            stdout: self.stdout@,
            stderr: self.stderr@,
            exit_code: self.exit_code,
            success: self.success,
            executable: self.executable@,
        }
    }
}

/// The text that `String::from_utf8_lossy` makes of bytes.
pub uninterp spec fn lossy_text(bytes: Seq<u8>) -> Seq<char>;

/// Wraps `String::from_utf8_lossy`. The text is a function of the bytes; bytes that are UTF-8
/// give the text that they encode, and in the text of others U+FFFD stands for what is not
/// UTF-8. How many of the bytes one such character stands for is left unsaid.
#[verifier::external_body]
fn text_from_utf8_lossy(bytes: &[u8]) -> (text: String)
    ensures
        text@ == lossy_text(bytes@),
        valid_utf8(bytes@) ==> text@ == decode_utf8(bytes@),
        !valid_utf8(bytes@) ==> text@.contains('\u{fffd}'),
{
    String::from_utf8_lossy(bytes).into_owned()
}

/// What is known of the text that was made of bytes.
pub open spec fn reads_bytes(text: Seq<char>, bytes: Seq<u8>) -> bool {
    &&& text == lossy_text(bytes)
    &&& valid_utf8(bytes) ==> text == decode_utf8(bytes)
    &&& !valid_utf8(bytes) ==> text.contains('\u{fffd}')
}

/// What came of a process that has ended.
pub open spec fn command_output(output: ProcessOutput, executable: Seq<char>) -> CommandOutputView {
    CommandOutputView {
        stdout: lossy_text(output.stdout@),
        stderr: lossy_text(output.stderr@),
        exit_code: match output.code {
            Some(code) => code,
            None => -1i32,
        },
        success: output.success,
        executable,
    }
}

/// What came of the child process: its output as text and its exit code, -1 where it has
/// none; or the message that says why it could not be run.
pub fn execute_embedded_gws(outcome: Result<ProcessOutput, String>, current_exe: &str) -> (result:
    Result<CommandOutput, String>)
    ensures
        match outcome {
            Ok(output) => {
                &&& result matches Ok(command)
                &&& command@ == command_output(output, current_exe@)
                &&& reads_bytes(command.stdout@, output.stdout@)
                &&& reads_bytes(command.stderr@, output.stderr@)
            },
            Err(message) => result == Err::<CommandOutput, String>(message),
        },
{
    match outcome {
        Ok(output) => {
            let exit_code: i32 = match output.code {
                Some(code) => code,
                None => -1,
            };
            Ok(
                CommandOutput {
                    stdout: text_from_utf8_lossy(output.stdout.as_slice()),
                    stderr: text_from_utf8_lossy(output.stderr.as_slice()),
                    exit_code,
                    success: output.success,
                    executable: current_exe.to_owned(),
                },
            )
        },
        Err(message) => Err(message),
    }
}

/// The plugin runs as `gws` exactly where its first argument, behind its own name, is the
/// reserved one; `gws` then gets its own name and all that follows the reserved argument, in
/// its order.
pub proof fn law_internal_mode(args: Seq<Seq<char>>)
    ensures
        asks_for_internal_mode(args) <==> args.len() >= 2 && args[1] == "__anna_run_gws_internal"@,
        gws_command_line(args).len() == if args.len() <= 2 {
            1
        } else {
            args.len() - 1
        },
        gws_command_line(args)[0] == "gws"@,
        forall|i: int|
            1 <= i < gws_command_line(args).len() ==> #[trigger] gws_command_line(args)[i]
                == args[i + 1],
{
}

/// What the calls at the start of the plugin say of its arguments.
pub proof fn law_internal_cli_calls(args: &[String], internal: bool, cli_args: Vec<String>)
    requires
        call_ensures(is_internal_cli_mode, (args,), internal),
        call_ensures(internal_cli_args, (args,), cli_args),
    ensures
        internal <==> args@.len() >= 2 && args@[1]@ == "__anna_run_gws_internal"@,
        cli_args@.len() == if args@.len() <= 2 {
            1
        } else {
            args@.len() - 1
        },
        cli_args@[0]@ == "gws"@,
        forall|i: int|
            1 <= i < cli_args@.len() ==> (#[trigger] cli_args@[i])@ == args@[i + 1]@,
{
    let shown = texts(cli_args@);
    law_internal_mode(texts(args@));
    assert(shown[0] == cli_args@[0]@);
    assert forall|i: int| 1 <= i < cli_args@.len() implies (#[trigger] cli_args@[i])@ == args@[i
        + 1]@ by {
        assert(shown[i] == texts(args@)[i + 1]);
    }
}

/// The name that a change is about.
pub open spec fn changed_name(change: EnvChange) -> Seq<char> {
    match change {
        EnvChange::Remove(name) => name@,
        EnvChange::Assign(name, _) => name@,
    }
}

/// The last change that is about a variable decides what becomes of it.
pub proof fn law_the_last_change_decides(
    parent: EnvView,
    changes: Seq<EnvChange>,
    name: Seq<char>,
    last: int,
)
    requires
        0 <= last < changes.len(),
        changed_name(changes[last]) == name,
        forall|i: int| last < i < changes.len() ==> changed_name(#[trigger] changes[i]) != name,
    ensures
        match changes[last] {
            EnvChange::Remove(_) => !changed_env(parent, changes).dom().contains(name),
            EnvChange::Assign(_, value) => {
                &&& changed_env(parent, changes).dom().contains(name)
                &&& changed_env(parent, changes)[name] == value@
            },
        },
    decreases changes.len(),
{
    if last < changes.len() - 1 {
        let front = changes.drop_last();
        assert(changed_name(changes[changes.len() - 1]) != name);
        assert(front[last] == changes[last]);
        law_the_last_change_decides(parent, front, name, last);
    }
}

/// A variable that no change is about stays as it was.
pub proof fn law_what_is_not_changed_stays(
    parent: EnvView,
    changes: Seq<EnvChange>,
    name: Seq<char>,
)
    requires
        forall|i: int| 0 <= i < changes.len() ==> changed_name(#[trigger] changes[i]) != name,
    ensures
        changed_env(parent, changes).dom().contains(name) <==> parent.dom().contains(name),
        parent.dom().contains(name) ==> changed_env(parent, changes)[name] == parent[name],
    decreases changes.len(),
{
    if changes.len() > 0 {
        assert(changed_name(changes[changes.len() - 1]) != name);
        law_what_is_not_changed_stays(parent, changes.drop_last(), name);
    }
}

/// A change is about the variable that it names, and a variable has the value that it is given.
pub proof fn law_what_a_change_is_about(name: String, value: EnvValue, text: String)
    ensures
        changed_name(EnvChange::Remove(name)) == name@,
        changed_name(EnvChange::Assign(name, value)) == name@,
        EnvValue::Text(text)@ == EnvValueView::Text(text@),
        EnvValue::IsolatedConfigDir@ == EnvValueView::IsolatedConfigDir,
{
}

/// The variables that the child process does not inherit, by name.
pub open spec fn is_isolated(name: Seq<char>) -> bool {
    ||| name == "GOOGLE_WORKSPACE_CLI_TOKEN"@
    ||| name == "GOOGLE_WORKSPACE_CLI_CREDENTIALS_FILE"@
    ||| name == "GOOGLE_WORKSPACE_PROJECT_ID"@
    ||| name == "GOOGLE_WORKSPACE_CLI_CONFIG_DIR"@
    ||| name == "GOOGLE_APPLICATION_CREDENTIALS"@
    ||| name == "GOOGLE_WORKSPACE_CLI_CLIENT_ID"@
    ||| name == "GOOGLE_WORKSPACE_CLI_CLIENT_SECRET"@
    ||| name == "GOOGLE_WORKSPACE_CLI_KEYRING_BACKEND"@
    ||| name == "GOOGLE_WORKSPACE_CLI_LOG_FILE"@
}

/// Just these nine variables are isolated: what would hand the child process other credentials,
/// another project or another configuration, or would make it write a log.
pub proof fn law_what_is_isolated(name: Seq<char>)
    ensures
        is_isolated(name) <==> isolated_names().contains(name),
        isolated_names().len() == 9,
        is_isolated("GOOGLE_WORKSPACE_CLI_TOKEN"@),
        is_isolated("GOOGLE_WORKSPACE_CLI_CREDENTIALS_FILE"@),
        is_isolated("GOOGLE_WORKSPACE_PROJECT_ID"@),
        is_isolated("GOOGLE_WORKSPACE_CLI_CONFIG_DIR"@),
        is_isolated("GOOGLE_APPLICATION_CREDENTIALS"@),
        is_isolated("GOOGLE_WORKSPACE_CLI_CLIENT_ID"@),
        is_isolated("GOOGLE_WORKSPACE_CLI_CLIENT_SECRET"@),
        is_isolated("GOOGLE_WORKSPACE_CLI_KEYRING_BACKEND"@),
        is_isolated("GOOGLE_WORKSPACE_CLI_LOG_FILE"@),
{
    let all = isolated_names();
    assert(all[0] == "GOOGLE_WORKSPACE_CLI_TOKEN"@);
    assert(all[1] == "GOOGLE_WORKSPACE_CLI_CREDENTIALS_FILE"@);
    assert(all[2] == "GOOGLE_WORKSPACE_PROJECT_ID"@);
    assert(all[3] == "GOOGLE_WORKSPACE_CLI_CONFIG_DIR"@);
    assert(all[4] == "GOOGLE_APPLICATION_CREDENTIALS"@);
    assert(all[5] == "GOOGLE_WORKSPACE_CLI_CLIENT_ID"@);
    assert(all[6] == "GOOGLE_WORKSPACE_CLI_CLIENT_SECRET"@);
    assert(all[7] == "GOOGLE_WORKSPACE_CLI_KEYRING_BACKEND"@);
    assert(all[8] == "GOOGLE_WORKSPACE_CLI_LOG_FILE"@);
}

/// What the child process sees of any variable: the value that the command sets; else, for the
/// configuration directory, the plugin's own; else, for the mark of the isolated mode, 1; else
/// nothing for an isolated variable, and for any other what the plugin itself sees.
pub proof fn law_what_the_child_sees(
    parent: EnvView,
    isolated_mode_env: Seq<char>,
    variables: Map<Seq<char>, Seq<char>>,
    name: Seq<char>,
)
    ensures
        ({
            let env = child_env(parent, isolated_mode_env, variables);
            if variables.dom().contains(name) {
                env.dom().contains(name) && env[name] == EnvValueView::Text(variables[name])
            } else if name == "GOOGLE_WORKSPACE_CLI_CONFIG_DIR"@ {
                env.dom().contains(name) && env[name] == EnvValueView::IsolatedConfigDir
            } else if name == isolated_mode_env {
                env.dom().contains(name) && env[name] == EnvValueView::Text("1"@)
            } else if is_isolated(name) {
                !env.dom().contains(name)
            } else {
                &&& env.dom().contains(name) <==> parent.dom().contains(name)
                &&& parent.dom().contains(name) ==> env[name] == parent[name]
            }
        }),
{
    law_what_is_isolated(name);
    assert(isolated_names().to_set().contains(name) <==> isolated_names().contains(name));
}

/// What a call plans for the child process: the reserved argument in front of the command, which
/// is left as it is, and an environment in which every variable is as the child is to see it.
pub proof fn law_build_embedded_gws_command(
    argv: &[String],
    credential_env: &TextMap,
    isolated_mode_env: &str,
    command: EmbeddedCommand,
    parent: EnvView,
    name: Seq<char>,
)
    requires
        call_ensures(
            build_embedded_gws_command,
            (argv, credential_env, isolated_mode_env),
            command,
        ),
    ensures
        command.args@.len() == argv@.len() + 1,
        command.args@[0]@ == "__anna_run_gws_internal"@,
        forall|i: int| 0 <= i < argv@.len() ==> (#[trigger] argv@[i])@ == command.args@[i + 1]@,
        ({
            let env = changed_env(parent, command.env@);
            let variables = credential_env@;
            if variables.dom().contains(name) {
                env.dom().contains(name) && env[name] == EnvValueView::Text(variables[name])
            } else if name == "GOOGLE_WORKSPACE_CLI_CONFIG_DIR"@ {
                env.dom().contains(name) && env[name] == EnvValueView::IsolatedConfigDir
            } else if name == isolated_mode_env@ {
                env.dom().contains(name) && env[name] == EnvValueView::Text("1"@)
            } else if is_isolated(name) {
                !env.dom().contains(name)
            } else {
                &&& env.dom().contains(name) <==> parent.dom().contains(name)
                &&& parent.dom().contains(name) ==> env[name] == parent[name]
            }
        }),
{
    let args = texts(command.args@);
    let whole = seq![INTERNAL_MODE_ARG@] + texts(argv@);
    assert(args.len() == whole.len());
    assert(args[0] == command.args@[0]@);
    assert(whole[0] == INTERNAL_MODE_ARG@);
    assert forall|i: int| 0 <= i < argv@.len() implies (#[trigger] argv@[i])@ == command.args@[i
        + 1]@ by {
        assert(args[i + 1] == command.args@[i + 1]@);
        assert(whole[i + 1] == texts(argv@)[i]);
    }
    law_what_the_child_sees(parent, isolated_mode_env@, credential_env@, name);
    assert(changed_env(parent, command.env@) == child_env(
        parent,
        isolated_mode_env@,
        credential_env@,
    ));
}

/// A command is as successful as its process, whatever that put out; its exit code is that of
/// the process, or -1 where it has none; and both of its outputs are kept apart.
pub proof fn law_what_came_of_a_process(output: ProcessOutput, executable: Seq<char>)
    ensures
        command_output(output, executable).success <==> output.success,
        output.code matches Some(code) ==> command_output(output, executable).exit_code == code,
        output.code is None ==> command_output(output, executable).exit_code == -1,
        command_output(output, executable).stdout == lossy_text(output.stdout@),
        command_output(output, executable).stderr == lossy_text(output.stderr@),
        command_output(output, executable).executable == executable,
{
}

/// Every part of what came of a command counts.
pub proof fn law_outputs_are_seen_whole(output: CommandOutput)
    ensures
        output@.stdout == output.stdout@,
        output@.stderr == output.stderr@,
        output@.exit_code == output.exit_code,
        output@.success == output.success,
        output@.executable == output.executable@,
{
}

/// What a call makes of a process: its success, its exit code, and the texts of its outputs,
/// which are exact where these are UTF-8. A process that could not be started gives its message.
pub proof fn law_execute_embedded_gws(
    outcome: Result<ProcessOutput, String>,
    current_exe: &str,
    result: Result<CommandOutput, String>,
)
    requires
        call_ensures(execute_embedded_gws, (outcome, current_exe), result),
    ensures
        outcome is Ok <==> result is Ok,
        outcome matches Err(message) ==> result->Err_0@ == message@,
        outcome matches Ok(output) ==> {
            &&& result->Ok_0.success <==> output.success
            &&& output.code is Some ==> result->Ok_0.exit_code == output.code->0
            &&& output.code is None ==> result->Ok_0.exit_code == -1
            &&& valid_utf8(output.stdout@) ==> result->Ok_0.stdout@ == decode_utf8(output.stdout@)
            &&& valid_utf8(output.stderr@) ==> result->Ok_0.stderr@ == decode_utf8(output.stderr@)
            &&& result->Ok_0.executable@ == current_exe@
        },
{
}

} // verus!
