//! The credentials for a command: where they come from and which variables carry them.

use vstd::prelude::*;
use vstd::string::*;

use crate::text::{
    find_last_entry, is_blank, last_entry, law_trimmed, lemma_last_entry, names, same_text, trim,
};

verus! {

/// The credential that holds an access token.
pub const TOKEN_CREDENTIAL_NAME: &'static str = "GOOGLE_ACCESS_TOKEN";

/// The variable that hands `gws` an access token; also a credential of that name.
pub const INTERNAL_GWS_TOKEN_ENV: &'static str = "GOOGLE_WORKSPACE_CLI_TOKEN";

/// The credential, and the variable, that holds the path of a credentials file.
pub const CREDENTIALS_FILE_CREDENTIAL_NAME: &'static str = "GOOGLE_WORKSPACE_CLI_CREDENTIALS_FILE";

/// Texts by name. A later entry for a name stands in front of an earlier one.
#[derive(Debug, PartialEq, Eq)]
pub struct TextMap {
    pub entries: Vec<(String, String)>,
}

/// What entries stand for.
pub open spec fn text_entries(entries: Seq<(String, String)>) -> Map<Seq<char>, Seq<char>>
    decreases entries.len(),
{
    if entries.len() == 0 {
        Map::empty()
    } else {
        text_entries(entries.drop_last()).insert(entries.last().0@, entries.last().1@)
    }
}

impl View for TextMap {
    type V = Map<Seq<char>, Seq<char>>;

    open spec fn view(&self) -> Map<Seq<char>, Seq<char>> {
        text_entries(self.entries@)
    }
}

/// The last entry under a name is the one that counts.
proof fn lemma_text_under_name(entries: Seq<(String, String)>, name: Seq<char>)
    ensures
        match last_entry(entries, name) {
            Some(i) => {
                &&& text_entries(entries).dom().contains(name)
                &&& text_entries(entries)[name] == entries[i].1@
            },
            None => !text_entries(entries).dom().contains(name),
        },
    decreases entries.len(),
{
    if entries.len() > 0 {
        lemma_text_under_name(entries.drop_last(), name);
        lemma_last_entry(entries.drop_last(), name);
    }
}

impl TextMap {
    /// A map without entries.
    pub fn new() -> (map: TextMap)
        ensures
            map@ == Map::<Seq<char>, Seq<char>>::empty(),
            map.entries@.len() == 0,
    {
        TextMap { entries: Vec::new() }
    }

    /// Gives `name` the text `value`, in place of the one that it had.
    pub fn insert(&mut self, name: &str, value: String)
        ensures
            final(self)@ == old(self)@.insert(name@, value@),
    {
        self.entries.push((name.to_owned(), value));
        assert(self.entries@.drop_last() =~= old(self).entries@);
    }

    /// The text under `name`.
    pub fn get(&self, name: &str) -> (value: Option<&String>)
        ensures
            match value {
                Some(value) => self@.dom().contains(name@) && value@ == self@[name@],
                None => !self@.dom().contains(name@),
            },
    {
        proof {
            lemma_text_under_name(self.entries@, name@);
        }
        match find_last_entry(&self.entries, name) {
            Some(i) => Some(&self.entries[i].1),
            None => None,
        }
    }
}

/// The credentials in the environment of the plugin itself: the values of
/// [`INTERNAL_GWS_TOKEN_ENV`] and [`CREDENTIALS_FILE_CREDENTIAL_NAME`].
#[derive(Debug, PartialEq, Eq)]
pub struct AmbientCredentials {
    pub token: Option<String>,
    pub credentials_file: Option<String>,
}

/// What the environment holds.
pub struct AmbientCredentialsView {
    pub token: Option<Seq<char>>,
    pub credentials_file: Option<Seq<char>>,
}

impl View for AmbientCredentials {
    type V = AmbientCredentialsView;

    open spec fn view(&self) -> AmbientCredentialsView {
        AmbientCredentialsView {
            token: match self.token {
                Some(token) => Some(token@),
                None => None,
            },
            credentials_file: match self.credentials_file {
                Some(path) => Some(path@),
                None => None,
            },
        }
    }
}

/// The variables that carry the credentials, and the names under which they were found.
#[derive(Debug, PartialEq, Eq)]
pub struct ResolvedCredentials {
    pub env: TextMap,
    pub sources: Vec<&'static str>,
}

/// What was resolved.
pub struct ResolvedCredentialsView {
    pub env: Map<Seq<char>, Seq<char>>,
    pub sources: Seq<Seq<char>>,
}

impl View for ResolvedCredentials {
    type V = ResolvedCredentialsView;

    open spec fn view(&self) -> ResolvedCredentialsView {
        ResolvedCredentialsView { env: self.env@, sources: names(self.sources@) }
    }
}

/// A value that is there and not blank.
pub open spec fn usable(value: Option<Seq<char>>) -> Option<Seq<char>> {
    match value {
        Some(value) => if is_blank(value) {
            None
        } else {
            Some(value)
        },
        None => None,
    }
}

/// The credential `name` of the request, where it is not blank.
pub open spec fn credential(
    credentials: Map<Seq<char>, Seq<char>>,
    name: Seq<char>,
) -> Option<Seq<char>> {
    if credentials.dom().contains(name) {
        usable(Some(credentials[name]))
    } else {
        None
    }
}

/// A text and the name under which it was found.
pub struct Found {
    pub value: Seq<char>,
    pub source: Seq<char>,
}

/// The access token: one that the request gives comes before the one of the environment.
pub open spec fn found_token(
    credentials: Map<Seq<char>, Seq<char>>,
    ambient: AmbientCredentialsView,
) -> Option<Found> {
    if let Some(value) = credential(credentials, TOKEN_CREDENTIAL_NAME@) {
        Some(Found { value, source: TOKEN_CREDENTIAL_NAME@ })
    } else if let Some(value) = credential(credentials, INTERNAL_GWS_TOKEN_ENV@) {
        Some(Found { value, source: INTERNAL_GWS_TOKEN_ENV@ })
    } else if let Some(value) = usable(ambient.token) {
        Some(Found { value, source: INTERNAL_GWS_TOKEN_ENV@ })
    } else {
        None
    }
}

/// The credentials file: the one that the request gives comes before the one of the
/// environment.
pub open spec fn found_file(
    credentials: Map<Seq<char>, Seq<char>>,
    ambient: AmbientCredentialsView,
) -> Option<Seq<char>> {
    if let Some(path) = credential(credentials, CREDENTIALS_FILE_CREDENTIAL_NAME@) {
        Some(path)
    } else {
        usable(ambient.credentials_file)
    }
}

/// The variables that carry a token and a credentials file.
pub open spec fn credential_env(token: Option<Found>, file: Option<Seq<char>>) -> Map<
    Seq<char>,
    Seq<char>,
> {
    let with_token = match token {
        Some(found) => Map::<Seq<char>, Seq<char>>::empty().insert(
            INTERNAL_GWS_TOKEN_ENV@,
            found.value,
        ),
        None => Map::<Seq<char>, Seq<char>>::empty(),
    };
    match file {
        Some(path) => with_token.insert(CREDENTIALS_FILE_CREDENTIAL_NAME@, path),
        None => with_token,
    }
}

/// The names under which a token and a credentials file were found, in alphabetical order.
pub open spec fn credential_sources(token: Option<Found>, file: Option<Seq<char>>) -> Seq<
    Seq<char>,
> {
    let token_source = match token {
        Some(found) => seq![found.source],
        None => seq![],
    };
    let file_source = if file is Some {
        seq![CREDENTIALS_FILE_CREDENTIAL_NAME@]
    } else {
        seq![]
    };
    if token_source == seq![TOKEN_CREDENTIAL_NAME@] {
        token_source + file_source
    } else {
        file_source + token_source
    }
}

/// The message where no credential is found.
pub open spec fn no_credential_message() -> Seq<char> {
    "One of '"@ + TOKEN_CREDENTIAL_NAME@ + "' or '"@ + CREDENTIALS_FILE_CREDENTIAL_NAME@
        + "' must be provided in context.credentials or environment"@
}

/// What the credentials of a request and of the environment come to.
pub open spec fn resolution(
    credentials: Map<Seq<char>, Seq<char>>,
    ambient: AmbientCredentialsView,
) -> Result<ResolvedCredentialsView, Seq<char>> {
    let token = found_token(credentials, ambient);
    let file = found_file(credentials, ambient);
    if token is None && file is None {
        Err(no_credential_message())
    } else {
        Ok(
            ResolvedCredentialsView {
                env: credential_env(token, file),
                sources: credential_sources(token, file),
            },
        )
    }
}

/// A copy of the value, where it is there and not blank.
fn usable_value(value: Option<&String>) -> (result: Option<String>)
    ensures
        match result {
            Some(text) => value matches Some(value) && usable(Some(value@)) == Some(text@),
            None => value matches Some(value) ==> usable(Some(value@)) is None,
        },
{
    match value {
        Some(value) => {
            proof {
                law_trimmed(value@);
            }
            if trim(value.as_str()).is_empty() {
                None
            } else {
                Some(value.clone())
            }
        },
        None => None,
    }
}

/// The access token for a command, and the name under which it was found.
fn resolve_token(credentials: &TextMap, ambient: &AmbientCredentials) -> (result: Option<
    (String, &'static str),
>)
    ensures
        match result {
            Some((value, source)) => found_token(credentials@, ambient@) == Some(
                (Found { value: value@, source: source@ }),
            ),
            None => found_token(credentials@, ambient@) is None,
        },
{
    if let Some(value) = usable_value(credentials.get(TOKEN_CREDENTIAL_NAME)) {
        return Some((value, TOKEN_CREDENTIAL_NAME));
    }
    if let Some(value) = usable_value(credentials.get(INTERNAL_GWS_TOKEN_ENV)) {
        return Some((value, INTERNAL_GWS_TOKEN_ENV));
    }
    match usable_value(ambient.token.as_ref()) {
        Some(value) => Some((value, INTERNAL_GWS_TOKEN_ENV)),
        None => None,
    }
}

/// The credentials file for a command.
fn resolve_file(credentials: &TextMap, ambient: &AmbientCredentials) -> (result: Option<String>)
    ensures
        match result {
            Some(path) => found_file(credentials@, ambient@) == Some(path@),
            None => found_file(credentials@, ambient@) is None,
        },
{
    if let Some(path) = usable_value(credentials.get(CREDENTIALS_FILE_CREDENTIAL_NAME)) {
        return Some(path);
    }
    usable_value(ambient.credentials_file.as_ref())
}

/// Finds the credentials for a command: in those of the request, and for what is missing
/// there, in the environment of the plugin. A blank one counts as missing.
pub fn resolve_credential_env(
    credentials: &TextMap,
    ambient: &AmbientCredentials,
) -> (result: Result<ResolvedCredentials, String>)
    ensures
        match result {
            Ok(resolved) => resolution(credentials@, ambient@) == Ok::<
                ResolvedCredentialsView,
                Seq<char>,
            >(resolved@),
            Err(message) => resolution(credentials@, ambient@) == Err::<
                ResolvedCredentialsView,
                Seq<char>,
            >(message@),
        },
{
    let mut env = TextMap::new();
    let mut sources: Vec<&'static str> = Vec::new();
    let token = resolve_token(credentials, ambient);
    let file = resolve_file(credentials, ambient);
    if token.is_none() && file.is_none() {
        return Err(
            "One of '".to_owned().concat(TOKEN_CREDENTIAL_NAME).concat("' or '").concat(
                CREDENTIALS_FILE_CREDENTIAL_NAME,
            ).concat("' must be provided in context.credentials or environment"),
        );
    }
    let ghost found = found_token(credentials@, ambient@);
    let ghost found_path = found_file(credentials@, ambient@);
    let mut last_source: Option<&'static str> = None;
    if let Some((value, source)) = token {
        env.insert(INTERNAL_GWS_TOKEN_ENV, value);
        if same_text(source, TOKEN_CREDENTIAL_NAME) {
            sources.push(source);
        } else {
            last_source = Some(source);
        }
    }
    if let Some(path) = file {
        env.insert(CREDENTIALS_FILE_CREDENTIAL_NAME, path);
        sources.push(CREDENTIALS_FILE_CREDENTIAL_NAME);
    }
    if let Some(source) = last_source {
        sources.push(source);
    }
    proof {
        assert(found matches Some(f) ==> seq![f.source][0] == f.source);
        assert(names(sources@) =~= credential_sources(found, found_path));
    }
    Ok(ResolvedCredentials { env, sources })
}

/// One text comes before another, character by character.
pub open spec fn comes_before(left: Seq<char>, right: Seq<char>) -> bool {
    exists|i: int|
        {
            &&& 0 <= i <= left.len()
            &&& i < right.len()
            &&& left.take(i) == #[trigger] right.take(i)
            &&& i < left.len() ==> (left[i] as u32) < (right[i] as u32)
        }
}

/// The sources are named in alphabetical order, each once.
pub proof fn law_sources_are_sorted(
    credentials: Map<Seq<char>, Seq<char>>,
    ambient: AmbientCredentialsView,
)
    ensures
        resolution(credentials, ambient) matches Ok(resolved) ==> {
            &&& 1 <= resolved.sources.len() <= 2
            &&& resolved.sources.len() == 2 ==> comes_before(
                resolved.sources[0],
                resolved.sources[1],
            )
        },
{
    reveal_strlit("GOOGLE_ACCESS_TOKEN");
    reveal_strlit("GOOGLE_WORKSPACE_CLI_TOKEN");
    reveal_strlit("GOOGLE_WORKSPACE_CLI_CREDENTIALS_FILE");
    let access = TOKEN_CREDENTIAL_NAME@;
    let internal = INTERNAL_GWS_TOKEN_ENV@;
    let file = CREDENTIALS_FILE_CREDENTIAL_NAME@;
    assert(access.take(7) =~= file.take(7));
    assert(file.take(21) =~= internal.take(21));
    assert(access[7] == 'A' && file[7] == 'W');
    assert(file[21] == 'C' && internal[21] == 'T');
    assert(comes_before(access, file));
    assert(comes_before(file, internal));
    if let Some(found) = found_token(credentials, ambient) {
        assert(seq![found.source][0] == found.source);
        assert(seq![access][0] == access);
        assert(seq![found.source] =~= seq![access] <==> found.source == access);
    }
}

/// Credentials are found exactly where the request or the environment gives one that is
/// not blank; each variable then carries the value of the request, where it gives one, and
/// else that of the environment, and there is no other variable.
pub proof fn law_credentials_are_carried(
    credentials: Map<Seq<char>, Seq<char>>,
    ambient: AmbientCredentialsView,
)
    ensures
        resolution(credentials, ambient) is Ok <==> {
            ||| credential(credentials, TOKEN_CREDENTIAL_NAME@) is Some
            ||| credential(credentials, INTERNAL_GWS_TOKEN_ENV@) is Some
            ||| credential(credentials, CREDENTIALS_FILE_CREDENTIAL_NAME@) is Some
            ||| usable(ambient.token) is Some
            ||| usable(ambient.credentials_file) is Some
        },
        resolution(credentials, ambient) matches Ok(resolved) ==> {
            &&& credential(resolved.env, INTERNAL_GWS_TOKEN_ENV@) == match found_token(
                credentials,
                ambient,
            ) {
                Some(found) => Some(found.value),
                None => None,
            }
            &&& credential(resolved.env, CREDENTIALS_FILE_CREDENTIAL_NAME@) == found_file(
                credentials,
                ambient,
            )
            &&& forall|name: Seq<char>| #[trigger]
                resolved.env.dom().contains(name) ==> name == INTERNAL_GWS_TOKEN_ENV@ || name
                    == CREDENTIALS_FILE_CREDENTIAL_NAME@
        },
{
    reveal_strlit("GOOGLE_WORKSPACE_CLI_TOKEN");
    reveal_strlit("GOOGLE_WORKSPACE_CLI_CREDENTIALS_FILE");
    assert(INTERNAL_GWS_TOKEN_ENV@.len() != CREDENTIALS_FILE_CREDENTIAL_NAME@.len());
}

/// The credentials give something under `name` that is not blank.
pub open spec fn gives(credentials: Map<Seq<char>, Seq<char>>, name: Seq<char>) -> bool {
    credentials.dom().contains(name) && !is_blank(credentials[name])
}

/// The environment gives something that is not blank.
pub open spec fn holds(value: Option<Seq<char>>) -> bool {
    value is Some && !is_blank(value->0)
}

/// What is given is there and is not blank, and nothing else is given.
pub proof fn law_what_is_given(
    credentials: Map<Seq<char>, Seq<char>>,
    name: Seq<char>,
    value: Option<Seq<char>>,
)
    ensures
        gives(credentials, name) <==> credentials.dom().contains(name) && !is_blank(
            credentials[name],
        ),
        holds(value) <==> (value matches Some(text) && !is_blank(text)),
{
}

/// A token of the request is used as it is, whatever the environment holds:
/// `GOOGLE_ACCESS_TOKEN` before `GOOGLE_WORKSPACE_CLI_TOKEN`. Only a request without either
/// leaves it to the environment. The source is named under which the token was found, and no
/// other source of a token.
pub proof fn law_which_token_is_used(
    credentials: Map<Seq<char>, Seq<char>>,
    ambient: AmbientCredentialsView,
)
    ensures
        ({
            let access = "GOOGLE_ACCESS_TOKEN"@;
            let internal = "GOOGLE_WORKSPACE_CLI_TOKEN"@;
            let resolved = resolution(credentials, ambient)->Ok_0;
            &&& gives(credentials, access) ==> {
                &&& resolution(credentials, ambient) is Ok
                &&& resolved.env.dom().contains(internal)
                &&& resolved.env[internal] == credentials[access]
                &&& resolved.sources.contains(access)
                &&& !resolved.sources.contains(internal)
            }
            &&& !gives(credentials, access) && gives(credentials, internal) ==> {
                &&& resolution(credentials, ambient) is Ok
                &&& resolved.env.dom().contains(internal)
                &&& resolved.env[internal] == credentials[internal]
                &&& resolved.sources.contains(internal)
                &&& !resolved.sources.contains(access)
            }
            &&& !gives(credentials, access) && !gives(credentials, internal) && holds(ambient.token)
                ==> {
                &&& resolution(credentials, ambient) is Ok
                &&& resolved.env.dom().contains(internal)
                &&& resolved.env[internal] == ambient.token->0
                &&& resolved.sources.contains(internal)
                &&& !resolved.sources.contains(access)
            }
            &&& !gives(credentials, access) && !gives(credentials, internal) && !holds(
                ambient.token,
            ) && resolution(credentials, ambient) is Ok ==> {
                &&& !resolved.env.dom().contains(internal)
                &&& !resolved.sources.contains(internal)
                &&& !resolved.sources.contains(access)
            }
        }),
{
    lemma_sources(credentials, ambient);
    lemma_names_differ();
}

/// A credentials file of the request is used as it is, whatever the environment holds. Only a
/// request without one leaves it to the environment. The file is named as a source exactly
/// where there is one.
pub proof fn law_which_file_is_used(
    credentials: Map<Seq<char>, Seq<char>>,
    ambient: AmbientCredentialsView,
)
    ensures
        ({
            let file = "GOOGLE_WORKSPACE_CLI_CREDENTIALS_FILE"@;
            let resolved = resolution(credentials, ambient)->Ok_0;
            &&& gives(credentials, file) ==> {
                &&& resolution(credentials, ambient) is Ok
                &&& resolved.env.dom().contains(file)
                &&& resolved.env[file] == credentials[file]
                &&& resolved.sources.contains(file)
            }
            &&& !gives(credentials, file) && holds(ambient.credentials_file) ==> {
                &&& resolution(credentials, ambient) is Ok
                &&& resolved.env.dom().contains(file)
                &&& resolved.env[file] == ambient.credentials_file->0
                &&& resolved.sources.contains(file)
            }
            &&& !gives(credentials, file) && !holds(ambient.credentials_file) && resolution(
                credentials,
                ambient,
            ) is Ok ==> {
                &&& !resolved.env.dom().contains(file)
                &&& !resolved.sources.contains(file)
            }
        }),
{
    lemma_sources(credentials, ambient);
    lemma_names_differ();
}

/// Where neither the request nor the environment gives a credential, and only there, none is
/// found; the message names both credentials. No other variable is set, and each source is
/// named once, the access token before the file and the file before the other token.
pub proof fn law_when_credentials_are_missing(
    credentials: Map<Seq<char>, Seq<char>>,
    ambient: AmbientCredentialsView,
)
    ensures
        resolution(credentials, ambient) is Err <==> {
            &&& !gives(credentials, "GOOGLE_ACCESS_TOKEN"@)
            &&& !gives(credentials, "GOOGLE_WORKSPACE_CLI_TOKEN"@)
            &&& !gives(credentials, "GOOGLE_WORKSPACE_CLI_CREDENTIALS_FILE"@)
            &&& !holds(ambient.token)
            &&& !holds(ambient.credentials_file)
        },
        resolution(credentials, ambient) matches Err(message) ==> message == "One of '"@
            + "GOOGLE_ACCESS_TOKEN"@ + "' or '"@ + "GOOGLE_WORKSPACE_CLI_CREDENTIALS_FILE"@
            + "' must be provided in context.credentials or environment"@,
        resolution(credentials, ambient) matches Ok(resolved) ==> {
            &&& forall|name: Seq<char>| #[trigger]
                resolved.env.dom().contains(name) ==> name == "GOOGLE_WORKSPACE_CLI_TOKEN"@ || name
                    == "GOOGLE_WORKSPACE_CLI_CREDENTIALS_FILE"@
            &&& resolved.sources.no_duplicates()
            &&& resolved.sources.len() == resolved.env.dom().len()
            &&& resolved.sources.len() == 2 ==> {
                &&& resolved.sources[0] != "GOOGLE_WORKSPACE_CLI_TOKEN"@
                &&& resolved.sources[1] != "GOOGLE_ACCESS_TOKEN"@
            }
            &&& forall|i: int|
                0 <= i < resolved.sources.len() ==> {
                    ||| #[trigger] resolved.sources[i] == "GOOGLE_ACCESS_TOKEN"@
                    ||| resolved.sources[i] == "GOOGLE_WORKSPACE_CLI_TOKEN"@
                    ||| resolved.sources[i] == "GOOGLE_WORKSPACE_CLI_CREDENTIALS_FILE"@
                }
        },
{
    lemma_sources(credentials, ambient);
    lemma_names_differ();
}

/// The names of the credentials differ.
proof fn lemma_names_differ()
    ensures
        TOKEN_CREDENTIAL_NAME@ != INTERNAL_GWS_TOKEN_ENV@,
        TOKEN_CREDENTIAL_NAME@ != CREDENTIALS_FILE_CREDENTIAL_NAME@,
        INTERNAL_GWS_TOKEN_ENV@ != CREDENTIALS_FILE_CREDENTIAL_NAME@,
{
    reveal_strlit("GOOGLE_ACCESS_TOKEN");
    reveal_strlit("GOOGLE_WORKSPACE_CLI_TOKEN");
    reveal_strlit("GOOGLE_WORKSPACE_CLI_CREDENTIALS_FILE");
    assert(TOKEN_CREDENTIAL_NAME@.len() == 19);
    assert(INTERNAL_GWS_TOKEN_ENV@.len() == 26);
    assert(CREDENTIALS_FILE_CREDENTIAL_NAME@.len() == 37);
}

/// The sources, one by one.
proof fn lemma_sources(credentials: Map<Seq<char>, Seq<char>>, ambient: AmbientCredentialsView)
    ensures
        ({
            let token = found_token(credentials, ambient);
            let file = found_file(credentials, ambient);
            let sources = credential_sources(token, file);
            &&& token matches Some(found) ==> sources.contains(found.source)
            &&& file is Some ==> sources.contains(CREDENTIALS_FILE_CREDENTIAL_NAME@)
            &&& forall|i: int|
                0 <= i < sources.len() ==> {
                    ||| token is Some && #[trigger] sources[i] == token->0.source
                    ||| file is Some && sources[i] == CREDENTIALS_FILE_CREDENTIAL_NAME@
                }
            &&& sources.no_duplicates()
            &&& sources.len() == credential_env(token, file).dom().len()
            &&& sources.len() == 2 ==> {
                &&& sources[0] != INTERNAL_GWS_TOKEN_ENV@
                &&& sources[1] != TOKEN_CREDENTIAL_NAME@
            }
        }),
{
    lemma_names_differ();
    let token = found_token(credentials, ambient);
    let file = found_file(credentials, ambient);
    let sources = credential_sources(token, file);
    if let Some(found) = token {
        assert(seq![found.source][0] == found.source);
        if found.source == TOKEN_CREDENTIAL_NAME@ {
            assert(seq![found.source] =~= seq![TOKEN_CREDENTIAL_NAME@]);
            assert(sources[0] == found.source);
            assert(file is Some ==> sources[1] == CREDENTIALS_FILE_CREDENTIAL_NAME@);
        } else {
            assert(seq![found.source][0] != seq![TOKEN_CREDENTIAL_NAME@][0]);
            assert(sources[sources.len() - 1] == found.source);
            assert(file is Some ==> sources[0] == CREDENTIALS_FILE_CREDENTIAL_NAME@);
        }
    } else {
        assert(file is Some ==> sources[0] == CREDENTIALS_FILE_CREDENTIAL_NAME@);
    }
}

/// What a call finds for a command: the token and the file of the request where it gives them,
/// and else those of the environment, each under its variable.
pub proof fn law_resolve_credential_env(
    credentials: &TextMap,
    ambient: &AmbientCredentials,
    result: Result<ResolvedCredentials, String>,
)
    requires
        call_ensures(resolve_credential_env, (credentials, ambient), result),
    ensures
        ({
            let access = "GOOGLE_ACCESS_TOKEN"@;
            let internal = "GOOGLE_WORKSPACE_CLI_TOKEN"@;
            let file = "GOOGLE_WORKSPACE_CLI_CREDENTIALS_FILE"@;
            let given_token = gives(credentials@, access) || gives(credentials@, internal);
            let ambient_token = ambient.token is Some && !is_blank(ambient.token->0@);
            let ambient_file = ambient.credentials_file is Some && !is_blank(
                ambient.credentials_file->0@,
            );
            &&& result is Ok <==> given_token || gives(credentials@, file) || ambient_token
                || ambient_file
            &&& result matches Ok(resolved) ==> {
                &&& resolved.env@.dom().contains(internal) <==> given_token || ambient_token
                &&& resolved.env@.dom().contains(file) <==> gives(credentials@, file)
                    || ambient_file
                &&& given_token || ambient_token ==> resolved.env@[internal] == if gives(
                    credentials@,
                    access,
                ) {
                    credentials@[access]
                } else if gives(credentials@, internal) {
                    credentials@[internal]
                } else {
                    ambient.token->0@
                }
                &&& gives(credentials@, file) || ambient_file ==> resolved.env@[file] == if gives(
                    credentials@,
                    file,
                ) {
                    credentials@[file]
                } else {
                    ambient.credentials_file->0@
                }
                &&& names(resolved.sources@).contains(access) <==> gives(credentials@, access)
                &&& names(resolved.sources@).contains(file) <==> gives(credentials@, file)
                    || ambient_file
            }
        }),
{
    law_which_token_is_used(credentials@, ambient@);
    law_which_file_is_used(credentials@, ambient@);
    law_when_credentials_are_missing(credentials@, ambient@);
}

/// Texts by name stand for just their entries: of two under one name the last counts.
pub proof fn law_what_texts_by_name_stand_for(map: TextMap, name: Seq<char>)
    ensures
        match last_entry(map.entries@, name) {
            Some(i) => map@.dom().contains(name) && map@[name] == map.entries@[i].1@,
            None => !map@.dom().contains(name),
        },
{
    lemma_text_under_name(map.entries@, name);
}

} // verus!
