use gws_executa::credentials::{
    resolve_credential_env, AmbientCredentials, TextMap, CREDENTIALS_FILE_CREDENTIAL_NAME,
    INTERNAL_GWS_TOKEN_ENV, TOKEN_CREDENTIAL_NAME,
};

fn credentials(entries: &[(&str, &str)]) -> TextMap {
    let mut map = TextMap::new();
    for (name, value) in entries {
        map.insert(name, value.to_string());
    }
    map
}

fn ambient(token: Option<&str>, credentials_file: Option<&str>) -> AmbientCredentials {
    AmbientCredentials {
        token: token.map(str::to_string),
        credentials_file: credentials_file.map(str::to_string),
    }
}

#[test]
fn resolve_credential_env_accepts_credentials_file_only() {
    let credentials = credentials(&[(CREDENTIALS_FILE_CREDENTIAL_NAME, "/tmp/creds.json")]);

    let env = resolve_credential_env(&credentials, &ambient(None, None)).unwrap();
    assert_eq!(
        env.env.get(CREDENTIALS_FILE_CREDENTIAL_NAME),
        Some(&"/tmp/creds.json".to_string())
    );
    assert_eq!(env.sources, vec![CREDENTIALS_FILE_CREDENTIAL_NAME]);
}

#[test]
fn resolve_credential_env_maps_google_access_token_to_internal_gws_env() {
    let credentials = credentials(&[(TOKEN_CREDENTIAL_NAME, "token-123")]);

    let env = resolve_credential_env(&credentials, &ambient(None, None)).unwrap();
    assert_eq!(
        env.env.get(INTERNAL_GWS_TOKEN_ENV),
        Some(&"token-123".to_string())
    );
    assert_eq!(env.sources, vec![TOKEN_CREDENTIAL_NAME]);
}

#[test]
fn resolve_credential_env_uses_ambient_internal_env_when_context_missing() {
    let env =
        resolve_credential_env(&TextMap::new(), &ambient(Some("ambient-token"), None)).unwrap();

    assert_eq!(
        env.env.get(INTERNAL_GWS_TOKEN_ENV),
        Some(&"ambient-token".to_string())
    );
    assert_eq!(env.sources, vec![INTERNAL_GWS_TOKEN_ENV]);
}

#[test]
fn resolve_credential_env_requires_one_credential_source() {
    let err = resolve_credential_env(&TextMap::new(), &ambient(None, None)).unwrap_err();
    assert!(err.contains(TOKEN_CREDENTIAL_NAME));
    assert!(err.contains(CREDENTIALS_FILE_CREDENTIAL_NAME));
}

#[test]
fn the_message_names_both_credentials() {
    assert_eq!(
        resolve_credential_env(&TextMap::new(), &ambient(Some(" "), Some(""))),
        Err(
            "One of 'GOOGLE_ACCESS_TOKEN' or 'GOOGLE_WORKSPACE_CLI_CREDENTIALS_FILE' must be \
             provided in context.credentials or environment"
                .to_string()
        )
    );
}

#[test]
fn a_token_can_be_given_under_the_name_of_its_variable() {
    let credentials = credentials(&[(INTERNAL_GWS_TOKEN_ENV, "dummy-token")]);

    let env = resolve_credential_env(&credentials, &ambient(Some("ambient"), None)).unwrap();
    assert_eq!(
        env.env.get(INTERNAL_GWS_TOKEN_ENV),
        Some(&"dummy-token".to_string())
    );
    assert_eq!(env.sources, vec![INTERNAL_GWS_TOKEN_ENV]);
}

#[test]
fn the_request_comes_before_the_environment() {
    let credentials = credentials(&[
        (INTERNAL_GWS_TOKEN_ENV, "second"),
        (TOKEN_CREDENTIAL_NAME, "first"),
        (CREDENTIALS_FILE_CREDENTIAL_NAME, "/own"),
    ]);

    let env =
        resolve_credential_env(&credentials, &ambient(Some("third"), Some("/other"))).unwrap();
    assert_eq!(
        env.env.get(INTERNAL_GWS_TOKEN_ENV),
        Some(&"first".to_string())
    );
    assert_eq!(
        env.env.get(CREDENTIALS_FILE_CREDENTIAL_NAME),
        Some(&"/own".to_string())
    );
    assert_eq!(env.env.get(TOKEN_CREDENTIAL_NAME), None);
    assert_eq!(
        env.sources,
        vec![TOKEN_CREDENTIAL_NAME, CREDENTIALS_FILE_CREDENTIAL_NAME]
    );
}

#[test]
fn a_blank_credential_counts_as_missing() {
    let credentials = credentials(&[
        (TOKEN_CREDENTIAL_NAME, " \t"),
        (CREDENTIALS_FILE_CREDENTIAL_NAME, ""),
    ]);

    let env =
        resolve_credential_env(&credentials, &ambient(Some("ambient"), Some("/file"))).unwrap();
    assert_eq!(
        env.env.get(INTERNAL_GWS_TOKEN_ENV),
        Some(&"ambient".to_string())
    );
    assert_eq!(
        env.env.get(CREDENTIALS_FILE_CREDENTIAL_NAME),
        Some(&"/file".to_string())
    );
}

#[test]
fn the_sources_are_sorted() {
    for (context, surroundings) in [
        (vec![], ambient(Some("t"), Some("/f"))),
        (
            vec![(CREDENTIALS_FILE_CREDENTIAL_NAME, "/f")],
            ambient(Some("t"), None),
        ),
        (vec![(TOKEN_CREDENTIAL_NAME, "t")], ambient(None, Some("/f"))),
        (vec![(INTERNAL_GWS_TOKEN_ENV, "t")], ambient(None, Some("/f"))),
    ] {
        let sources = resolve_credential_env(&credentials(&context), &surroundings)
            .unwrap()
            .sources;
        let mut sorted = sources.clone();
        sorted.sort_unstable();
        assert_eq!(sources, sorted);
        assert_eq!(sources.len(), 2);
    }
}
