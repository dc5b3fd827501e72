//! The arguments of the tool: which ones are there, and which are refused.

use vstd::prelude::*;
use vstd::string::*;

use crate::json::{lemma_list_view, list_view, text_list, Json, JsonObject, JsonView};
use crate::text::{
    contains_control, has_control, is_blank, is_whitespace, law_trimmed, same_text, texts, trim,
};

verus! {

/// The first argument that makes the plugin's executable run as `gws`.
pub const INTERNAL_MODE_ARG: &'static str = "__anna_run_gws_internal";

/// The argument that holds the command.
pub const ARGV_ARG_NAME: &'static str = "argv";

/// The argument that names the project.
pub const PROJECT_ID_ARG_NAME: &'static str = "project_id";

/// The argument that names the directory for response files.
pub const CWD_ARG_NAME: &'static str = "cwd";

/// What is wrong with a text that a request gives: a control character, or nothing but
/// white space.
pub open spec fn text_problem(label: Seq<char>, value: Seq<char>) -> Option<Seq<char>> {
    if has_control(value) {
        Some(label + " must not contain control characters"@)
    } else if is_blank(value) {
        Some(label + " must not be empty"@)
    } else {
        None
    }
}

/// What is wrong with an argument of a command.
pub open spec fn command_arg_problem(arg: Seq<char>) -> Option<Seq<char>> {
    if arg == INTERNAL_MODE_ARG@ {
        Some("Reserved internal command argument is not allowed"@)
    } else {
        text_problem("Command arguments"@, arg)
    }
}

/// What is wrong with an entry of the command.
pub open spec fn entry_problem(entry: JsonView) -> Option<Seq<char>> {
    match entry.as_text() {
        Some(arg) => command_arg_problem(arg),
        None => Some("Each argv entry must be a string"@),
    }
}

/// What is wrong with the first entry that has something wrong.
pub open spec fn first_problem(entries: Seq<JsonView>) -> Option<Seq<char>>
    decreases entries.len(),
{
    if entries.len() == 0 {
        None
    } else if entry_problem(entries.first()) is Some {
        entry_problem(entries.first())
    } else {
        first_problem(entries.drop_first())
    }
}

/// The texts of entries that are all texts.
pub open spec fn entry_texts(entries: Seq<JsonView>) -> Seq<Seq<char>> {
    entries.map_values(|entry: JsonView| entry.as_text()->0)
}

/// The name of the program, which a command may start with.
pub open spec fn is_program_name(arg: Seq<char>) -> bool {
    arg == "gws"@ || arg == "gws.exe"@
}

/// The command without the name of the program in front.
pub open spec fn without_program_name(argv: Seq<Seq<char>>) -> Seq<Seq<char>> {
    if argv.len() > 0 && is_program_name(argv.first()) {
        argv.drop_first()
    } else {
        argv
    }
}

/// The value of an argument.
pub open spec fn argument(arguments: Map<Seq<char>, JsonView>, name: Seq<char>) -> Option<
    JsonView,
> {
    if arguments.dom().contains(name) {
        Some(arguments[name])
    } else {
        None
    }
}

/// The command that the arguments give, or why they give none.
pub open spec fn argv_view(arguments: Map<Seq<char>, JsonView>) -> Result<
    Seq<Seq<char>>,
    Seq<char>,
> {
    match argument(arguments, ARGV_ARG_NAME@) {
        Some(JsonView::List(entries)) => match first_problem(entries) {
            Some(problem) => Err(problem),
            None => {
                let argv = without_program_name(entry_texts(entries));
                if argv.len() == 0 {
                    Err("argv must contain at least one gws argument"@)
                } else {
                    Ok(argv)
                }
            },
        },
        _ => Err("Missing required array argument: argv"@),
    }
}

/// The directory that the arguments name, if any.
pub open spec fn cwd_view(arguments: Map<Seq<char>, JsonView>) -> Result<
    Option<Seq<char>>,
    Seq<char>,
> {
    match argument(arguments, CWD_ARG_NAME@) {
        None => Ok(None),
        Some(value) => match value.as_text() {
            Some(cwd) => Ok(Some(cwd)),
            None => Err("cwd must be a string when provided"@),
        },
    }
}

/// The project that the arguments name, if any.
pub open spec fn project_id_view(arguments: Map<Seq<char>, JsonView>) -> Result<
    Option<Seq<char>>,
    Seq<char>,
> {
    match argument(arguments, PROJECT_ID_ARG_NAME@) {
        None => Ok(None),
        Some(value) => match value.as_text() {
            Some(project_id) => match text_problem(PROJECT_ID_ARG_NAME@, project_id) {
                Some(problem) => Err(problem),
                None => Ok(Some(project_id)),
            },
            None => Err(PROJECT_ID_ARG_NAME@ + " must be a string when provided"@),
        },
    }
}

/// Refuses a text with a control character, and a blank one.
pub fn validate_text_input(label: &str, value: &str) -> (result: Result<(), String>)
    ensures
        match result {
            Ok(()) => text_problem(label@, value@) is None,
            Err(message) => text_problem(label@, value@) == Some(message@),
        },
{
    if contains_control(value) {
        return Err(label.to_owned().concat(" must not contain control characters"));
    }
    proof {
        law_trimmed(value@);
    }
    if trim(value).is_empty() {
        return Err(label.to_owned().concat(" must not be empty"));
    }
    Ok(())
}

/// Refuses the reserved argument and what no text may be.
pub fn validate_command_arg(arg: &str) -> (result: Result<(), String>)
    ensures
        match result {
            Ok(()) => command_arg_problem(arg@) is None,
            Err(message) => command_arg_problem(arg@) == Some(message@),
        },
{
    if same_text(arg, INTERNAL_MODE_ARG) {
        return Err("Reserved internal command argument is not allowed".to_owned());
    }
    validate_text_input("Command arguments", arg)
}

/// The command that the arguments give, without the name of the program in front.
pub fn extract_argv(arguments: &JsonObject) -> (result: Result<Vec<String>, String>)
    ensures
        match result {
            Ok(argv) => argv_view(arguments@) == Ok::<Seq<Seq<char>>, Seq<char>>(texts(argv@)),
            Err(message) => argv_view(arguments@) == Err::<Seq<Seq<char>>, Seq<char>>(message@),
        },
{
    let entries: &Vec<Json> = match arguments.get(ARGV_ARG_NAME) {
        Some(Json::List(entries)) => entries,
        _ => {
            return Err("Missing required array argument: argv".to_owned());
        },
    };
    let ghost views = list_view(entries@);
    let mut argv: Vec<String> = Vec::new();
    proof {
        lemma_list_view(entries@);
    }
    assert(views.skip(0) =~= views);
    for i in 0..entries.len()
        invariant
            views == list_view(entries@),
            views.len() == entries.len(),
            forall|j: int| 0 <= j < views.len() ==> #[trigger] views[j] == entries[j]@,
            argv.len() == i,
            forall|j: int| 0 <= j < i ==> (#[trigger] argv[j])@ == views[j].as_text()->0,
            first_problem(views) == first_problem(views.skip(i as int)),
            argument(arguments@, ARGV_ARG_NAME@) == Some(JsonView::List(views)),
    {
        assert(views.skip(i as int).first() == entries[i as int]@);
        assert(views.skip(i as int).drop_first() =~= views.skip(i + 1));
        match entries[i].as_text() {
            Some(arg) => {
                match validate_command_arg(arg) {
                    Ok(()) => {},
                    Err(message) => {
                        return Err(message);
                    },
                }
                argv.push(arg.to_owned());
            },
            None => {
                return Err("Each argv entry must be a string".to_owned());
            },
        }
    }
    assert(first_problem(views) is None);
    assert(texts(argv@) =~= entry_texts(views));
    if argv.len() > 0 && (same_text(argv[0].as_str(), "gws") || same_text(
        argv[0].as_str(),
        "gws.exe",
    )) {
        let ghost whole = argv@;
        argv.remove(0);
        assert(texts(argv@) =~= texts(whole).drop_first());
    }
    if argv.len() == 0 {
        return Err("argv must contain at least one gws argument".to_owned());
    }
    Ok(argv)
}

/// The directory that the arguments name, if any.
pub fn extract_cwd(arguments: &JsonObject) -> (result: Result<Option<&str>, String>)
    ensures
        match result {
            Ok(Some(cwd)) => cwd_view(arguments@) == Ok::<Option<Seq<char>>, Seq<char>>(
                Some(cwd@),
            ),
            Ok(None) => cwd_view(arguments@) == Ok::<Option<Seq<char>>, Seq<char>>(None),
            Err(message) => cwd_view(arguments@) == Err::<Option<Seq<char>>, Seq<char>>(message@),
        },
{
    match arguments.get(CWD_ARG_NAME) {
        None => Ok(None),
        Some(value) => match value.as_text() {
            Some(cwd) => Ok(Some(cwd)),
            None => Err("cwd must be a string when provided".to_owned()),
        },
    }
}

/// The project that the arguments name, if any.
pub fn extract_project_id(arguments: &JsonObject) -> (result: Result<Option<&str>, String>)
    ensures
        match result {
            Ok(Some(project_id)) => project_id_view(arguments@) == Ok::<
                Option<Seq<char>>,
                Seq<char>,
            >(Some(project_id@)),
            Ok(None) => project_id_view(arguments@) == Ok::<Option<Seq<char>>, Seq<char>>(None),
            Err(message) => project_id_view(arguments@) == Err::<Option<Seq<char>>, Seq<char>>(
                message@,
            ),
        },
{
    match arguments.get(PROJECT_ID_ARG_NAME) {
        None => Ok(None),
        Some(value) => match value.as_text() {
            Some(project_id) => match validate_text_input(PROJECT_ID_ARG_NAME, project_id) {
                Ok(()) => Ok(Some(project_id)),
                Err(message) => Err(message),
            },
            None => Err(
                PROJECT_ID_ARG_NAME.to_owned().concat(" must be a string when provided"),
            ),
        },
    }
}

/// Entries without a problem are all texts without a problem.
proof fn lemma_no_problem(entries: Seq<JsonView>)
    ensures
        first_problem(entries) is None <==> forall|i: int|
            0 <= i < entries.len() ==> entry_problem(#[trigger] entries[i]) is None,
    decreases entries.len(),
{
    if entries.len() > 0 {
        let rest = entries.drop_first();
        lemma_no_problem(rest);
        assert(forall|i: int| 0 <= i < rest.len() ==> rest[i] == entries[i + 1]);
        if first_problem(entries) is None {
            assert forall|i: int| 0 <= i < entries.len() implies entry_problem(
                #[trigger] entries[i],
            ) is None by {
                if i > 0 {
                    assert(rest[i - 1] == entries[i]);
                }
            }
        } else if forall|i: int|
            0 <= i < entries.len() ==> entry_problem(#[trigger] entries[i]) is None {
            assert(entry_problem(entries[0]) is None);
            assert(forall|i: int|
                0 <= i < rest.len() ==> entry_problem(#[trigger] rest[i]) is None);
        }
    }
}

/// A command that is handed on has an argument, and none of its arguments is reserved,
/// blank, or holds a control character.
pub proof fn law_argv_is_clean(arguments: Map<Seq<char>, JsonView>)
    ensures
        argv_view(arguments) matches Ok(argv) ==> {
            &&& argv.len() > 0
            &&& forall|i: int|
                0 <= i < argv.len() ==> {
                    &&& #[trigger] argv[i] != "__anna_run_gws_internal"@
                    &&& !has_control(argv[i])
                    &&& !is_blank(argv[i])
                }
        },
{
    if let Ok(argv) = argv_view(arguments) {
        let entries = argument(arguments, ARGV_ARG_NAME@)->0->List_0;
        lemma_no_problem(entries);
        assert forall|i: int| 0 <= i < argv.len() implies {
            &&& #[trigger] argv[i] != INTERNAL_MODE_ARG@
            &&& !has_control(argv[i])
            &&& !is_blank(argv[i])
        } by {
            let k = if is_program_name(entry_texts(entries).first()) {
                i + 1
            } else {
                i
            };
            assert(argv[i] == entry_texts(entries)[k]);
            assert(entry_problem(entries[k]) is None);
        }
    }
}

/// A command of which no argument is reserved, blank, or holds a control character, and that
/// does not start with the name of the program, is handed on as it is, and so it is with that
/// name in front: one such name is taken off.
pub proof fn law_argv_is_handed_on(
    arguments: Map<Seq<char>, JsonView>,
    program: Seq<char>,
    argv: Seq<Seq<char>>,
)
    requires
        argv.len() > 0,
        forall|i: int|
            0 <= i < argv.len() ==> {
                &&& #[trigger] argv[i] != "__anna_run_gws_internal"@
                &&& !has_control(argv[i])
                &&& !is_blank(argv[i])
            },
        program == "gws"@ || program == "gws.exe"@,
        arguments.dom().contains("argv"@),
        arguments["argv"@] == text_list(argv) && argv[0] != "gws"@ && argv[0] != "gws.exe"@
            || arguments["argv"@] == text_list(seq![program] + argv),
    ensures
        argv_view(arguments) == Ok::<Seq<Seq<char>>, Seq<char>>(argv),
{
    lemma_program_name_is_clean(program);
    let entries = argument(arguments, ARGV_ARG_NAME@)->0->List_0;
    lemma_no_problem(entries);
    let whole = seq![program] + argv;
    if argument(arguments, ARGV_ARG_NAME@) == Some(text_list(whole)) {
        assert(entry_texts(entries) =~= whole);
        assert forall|i: int| 0 <= i < entries.len() implies entry_problem(
            #[trigger] entries[i],
        ) is None by {
            if i > 0 {
                assert(whole[i] == argv[i - 1]);
            }
        }
        assert(whole.drop_first() =~= argv);
    } else {
        assert(entry_texts(entries) =~= argv);
        assert forall|i: int| 0 <= i < entries.len() implies entry_problem(
            #[trigger] entries[i],
        ) is None by {
            assert(entries[i] == JsonView::Text(argv[i]));
        }
    }
}

/// The name of the program is itself an argument without a problem.
proof fn lemma_program_name_is_clean(program: Seq<char>)
    requires
        is_program_name(program),
    ensures
        command_arg_problem(program) is None,
{
    reveal_strlit("gws");
    reveal_strlit("gws.exe");
    reveal_strlit("__anna_run_gws_internal");
    assert(program.len() < INTERNAL_MODE_ARG@.len());
    assert(!has_control(program));
    assert(!is_whitespace(program[0]));
}

/// A text that a request gives is refused exactly where it holds a control character or is
/// blank, and the message names the label; all other texts are accepted.
pub proof fn law_text_inputs(label: Seq<char>, value: Seq<char>)
    ensures
        text_problem(label, value) is Some <==> has_control(value) || is_blank(value),
        has_control(value) ==> text_problem(label, value) == Some(
            label + " must not contain control characters"@,
        ),
        is_blank(value) && !has_control(value) ==> text_problem(label, value) == Some(
            label + " must not be empty"@,
        ),
{
}

/// An argument of a command is accepted exactly where it is not the reserved one, holds no
/// control character and is not blank; the message says which of these is the matter.
pub proof fn law_command_args(arg: Seq<char>)
    ensures
        command_arg_problem(arg) is None <==> {
            &&& arg != "__anna_run_gws_internal"@
            &&& !has_control(arg)
            &&& !is_blank(arg)
        },
        arg == "__anna_run_gws_internal"@ ==> command_arg_problem(arg) == Some(
            "Reserved internal command argument is not allowed"@,
        ),
        arg != "__anna_run_gws_internal"@ && has_control(arg) ==> command_arg_problem(arg) == Some(
            "Command arguments"@ + " must not contain control characters"@,
        ),
        arg != "__anna_run_gws_internal"@ && !has_control(arg) && is_blank(arg)
            ==> command_arg_problem(arg) == Some("Command arguments"@ + " must not be empty"@),
{
}

/// An argument that may stand in a command: a text that is not reserved, holds no control
/// character and is not blank.
pub open spec fn may_be_run(entry: JsonView) -> bool {
    &&& entry is Text
    &&& entry->Text_0 != "__anna_run_gws_internal"@
    &&& !has_control(entry->Text_0)
    &&& !is_blank(entry->Text_0)
}

/// Only a text that is not reserved, holds no control character and is not blank may be run.
pub proof fn law_what_may_be_run(entry: JsonView)
    ensures
        may_be_run(entry) <==> (entry matches JsonView::Text(arg) && arg
            != "__anna_run_gws_internal"@ && !has_control(arg) && !is_blank(arg)),
        entry_problem(entry) is None <==> may_be_run(entry),
        !(entry is Text) ==> entry_problem(entry) == Some("Each argv entry must be a string"@),
        entry matches JsonView::Text(arg) ==> entry_problem(entry) == command_arg_problem(arg),
{
}

/// Without a list under `argv` there is no command.
pub proof fn law_a_command_is_a_list(arguments: Map<Seq<char>, JsonView>)
    ensures
        !arguments.dom().contains("argv"@) || !(arguments["argv"@] is List) ==> argv_view(arguments)
            == Err::<Seq<Seq<char>>, Seq<char>>("Missing required array argument: argv"@),
{
}

/// The first entry that may not be run is what a command is refused for, whatever follows it.
pub proof fn law_the_first_bad_entry_is_refused(
    arguments: Map<Seq<char>, JsonView>,
    entries: Seq<JsonView>,
    bad: int,
)
    requires
        arguments.dom().contains("argv"@),
        arguments["argv"@] == JsonView::List(entries),
        0 <= bad < entries.len(),
        !may_be_run(entries[bad]),
        forall|i: int| 0 <= i < bad ==> may_be_run(#[trigger] entries[i]),
    ensures
        argv_view(arguments) is Err,
        !(entries[bad] is Text) ==> argv_view(arguments)->Err_0
            == "Each argv entry must be a string"@,
        entries[bad] matches JsonView::Text(arg) ==> argv_view(arguments)->Err_0 == if arg
            == "__anna_run_gws_internal"@ {
            "Reserved internal command argument is not allowed"@
        } else if has_control(arg) {
            "Command arguments"@ + " must not contain control characters"@
        } else {
            "Command arguments"@ + " must not be empty"@
        },
{
    lemma_first_problem_is_found(entries, bad);
}

/// The first problem is that of the first entry that has one.
proof fn lemma_first_problem_is_found(entries: Seq<JsonView>, bad: int)
    requires
        0 <= bad < entries.len(),
        entry_problem(entries[bad]) is Some,
        forall|i: int| 0 <= i < bad ==> entry_problem(#[trigger] entries[i]) is None,
    ensures
        first_problem(entries) == entry_problem(entries[bad]),
    decreases bad,
{
    if bad > 0 {
        let rest = entries.drop_first();
        assert(entry_problem(entries[0]) is None);
        assert forall|i: int| 0 <= i < bad - 1 implies entry_problem(
            #[trigger] rest[i],
        ) is None by {
            assert(rest[i] == entries[i + 1]);
        }
        lemma_first_problem_is_found(rest, bad - 1);
    }
}

/// A list of arguments that may all be run is the command, in its order and letter for letter,
/// less the name of the program where it is the first of them. Only where nothing is left then
/// is it refused.
pub proof fn law_what_may_be_run_is_handed_on(
    arguments: Map<Seq<char>, JsonView>,
    entries: Seq<JsonView>,
)
    requires
        arguments.dom().contains("argv"@),
        arguments["argv"@] == JsonView::List(entries),
        forall|i: int| 0 <= i < entries.len() ==> may_be_run(#[trigger] entries[i]),
    ensures
        ({
            let named = entries.len() > 0 && (entries[0]->Text_0 == "gws"@ || entries[0]->Text_0
                == "gws.exe"@);
            let skipped: int = if named {
                1
            } else {
                0
            };
            &&& argv_view(arguments) is Ok <==> entries.len() > skipped
            &&& argv_view(arguments) matches Ok(argv) ==> {
                &&& argv.len() == entries.len() - skipped
                &&& forall|i: int|
                    0 <= i < argv.len() ==> #[trigger] argv[i] == entries[i + skipped]->Text_0
            }
            &&& argv_view(arguments) matches Err(problem) ==> problem
                == "argv must contain at least one gws argument"@
        }),
{
    lemma_no_problem(entries);
    assert(argument(arguments, ARGV_ARG_NAME@) == Some(JsonView::List(entries)));
    assert(entries.len() > 0 ==> entry_texts(entries).first() == entries[0]->Text_0);
    assert forall|i: int| 0 <= i < entries.len() implies #[trigger] entry_texts(entries)[i]
        == entries[i]->Text_0 by {
        assert(may_be_run(entries[i]));
    }
}

/// The directory for response files is the text under `cwd`, any text at all; it can be left
/// out, and must not be any other value.
pub proof fn law_cwd(arguments: Map<Seq<char>, JsonView>)
    ensures
        !arguments.dom().contains("cwd"@) ==> cwd_view(arguments) == Ok::<
            Option<Seq<char>>,
            Seq<char>,
        >(None),
        arguments.dom().contains("cwd"@) ==> match arguments["cwd"@] {
            JsonView::Text(cwd) => cwd_view(arguments) == Ok::<Option<Seq<char>>, Seq<char>>(
                Some(cwd),
            ),
            _ => cwd_view(arguments) == Err::<Option<Seq<char>>, Seq<char>>(
                "cwd must be a string when provided"@,
            ),
        },
{
}

/// The project is the text under `project_id`, letter for letter; it can be left out, and is
/// refused exactly where it is no text, holds a control character or is blank.
pub proof fn law_project_id(arguments: Map<Seq<char>, JsonView>)
    ensures
        !arguments.dom().contains("project_id"@) ==> project_id_view(arguments) == Ok::<
            Option<Seq<char>>,
            Seq<char>,
        >(None),
        arguments.dom().contains("project_id"@) ==> match arguments["project_id"@] {
            JsonView::Text(project_id) => if has_control(project_id) {
                project_id_view(arguments) == Err::<Option<Seq<char>>, Seq<char>>(
                    "project_id"@ + " must not contain control characters"@,
                )
            } else if is_blank(project_id) {
                project_id_view(arguments) == Err::<Option<Seq<char>>, Seq<char>>(
                    "project_id"@ + " must not be empty"@,
                )
            } else {
                project_id_view(arguments) == Ok::<Option<Seq<char>>, Seq<char>>(Some(project_id))
            },
            _ => project_id_view(arguments) == Err::<Option<Seq<char>>, Seq<char>>(
                "project_id"@ + " must be a string when provided"@,
            ),
        },
{
}

/// A text input is accepted exactly where it holds no control character and is not blank.
pub proof fn law_validate_text_input(label: &str, value: &str, result: Result<(), String>)
    requires
        call_ensures(validate_text_input, (label, value), result),
    ensures
        result is Ok <==> !has_control(value@) && !is_blank(value@),
        result matches Err(message) ==> message@ == label@ + if has_control(value@) {
            " must not contain control characters"@
        } else {
            " must not be empty"@
        },
{
}

/// An argument of a command is accepted exactly where it is not the reserved one, holds no
/// control character and is not blank.
pub proof fn law_validate_command_arg(arg: &str, result: Result<(), String>)
    requires
        call_ensures(validate_command_arg, (arg,), result),
    ensures
        result is Ok <==> {
            &&& arg@ != "__anna_run_gws_internal"@
            &&& !has_control(arg@)
            &&& !is_blank(arg@)
        },
{
}

/// The command is taken from the list under `argv` exactly where each of its entries may be run
/// and one is left behind the name of the program; it is then just these entries.
pub proof fn law_extract_argv(arguments: &JsonObject, result: Result<Vec<String>, String>)
    requires
        call_ensures(extract_argv, (arguments,), result),
    ensures
        ({
            let entries = arguments@["argv"@]->List_0;
            let named = entries.len() > 0 && (entries[0] == JsonView::Text("gws"@) || entries[0]
                == JsonView::Text("gws.exe"@));
            let skipped: int = if named {
                1
            } else {
                0
            };
            &&& result is Ok <==> {
                &&& arguments@.dom().contains("argv"@)
                &&& arguments@["argv"@] is List
                &&& entries.len() > skipped
                &&& forall|i: int| 0 <= i < entries.len() ==> may_be_run(#[trigger] entries[i])
            }
            &&& result matches Ok(argv) ==> {
                &&& argv@.len() == entries.len() - skipped
                &&& forall|i: int|
                    0 <= i < argv@.len() ==> JsonView::Text((#[trigger] argv@[i])@) == entries[i
                        + skipped]
            }
        }),
{
    let entries = arguments@["argv"@]->List_0;
    if arguments@.dom().contains("argv"@) && arguments@["argv"@] is List {
        lemma_no_problem(entries);
        if forall|i: int| 0 <= i < entries.len() ==> may_be_run(#[trigger] entries[i]) {
            law_what_may_be_run_is_handed_on(arguments@, entries);
            if let Ok(argv) = result {
                let skipped: int = entries.len() - argv@.len();
                assert forall|i: int| 0 <= i < argv@.len() implies JsonView::Text(
                    (#[trigger] argv@[i])@,
                ) == entries[i + skipped] by {
                    assert(texts(argv@)[i] == argv@[i]@);
                    assert(may_be_run(entries[i + skipped]));
                }
            }
        } else {
            let some = choose|i: int| 0 <= i < entries.len() && !may_be_run(#[trigger] entries[i]);
            assert(entry_problem(entries[some]) is Some);
        }
    }
}

/// The directory and the project that are found are the texts under their names.
pub proof fn law_extract_cwd_and_project_id<'a>(
    arguments: &'a JsonObject,
    cwd: Result<Option<&'a str>, String>,
    project_id: Result<Option<&'a str>, String>,
)
    requires
        call_ensures(extract_cwd, (arguments,), cwd),
        call_ensures(extract_project_id, (arguments,), project_id),
    ensures
        (cwd matches Ok(None)) <==> !arguments@.dom().contains("cwd"@),
        cwd matches Ok(Some(path)) ==> arguments@["cwd"@] == JsonView::Text(path@),
        cwd is Err <==> arguments@.dom().contains("cwd"@) && !(arguments@["cwd"@] is Text),
        (project_id matches Ok(None)) <==> !arguments@.dom().contains("project_id"@),
        project_id matches Ok(Some(name)) ==> arguments@["project_id"@] == JsonView::Text(name@),
        project_id is Err <==> {
            &&& arguments@.dom().contains("project_id"@)
            &&& {
                ||| !(arguments@["project_id"@] is Text)
                ||| has_control(arguments@["project_id"@]->Text_0)
                ||| is_blank(arguments@["project_id"@]->Text_0)
            }
        },
{
    law_cwd(arguments@);
    law_project_id(arguments@);
}

} // verus!
