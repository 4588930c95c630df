use event_handler::config::Settings;
use event_handler::interfaces::Error;
use event_handler::prefect::{
    build_bearer_header, build_create_run_body, build_create_run_path, build_filter_body,
    build_filter_path, escape_json_string, extract_deployment_id, extract_run_name,
    get_token_directive, TokenDirective,
};

#[test]
fn filter_body_matches_service_shape() {
    assert_eq!(
        build_filter_body("HelloFlow", "prod"),
        "{\"flows\":{\"name\":{\"like_\":\"HelloFlow\"}},\"deployments\":{\"name\":{\"like_\":\"prod\"}}}"
    );
}

#[test]
fn filter_body_escapes_names() {
    assert_eq!(
        build_filter_body("say \"hi\"", "a\\b"),
        "{\"flows\":{\"name\":{\"like_\":\"say \\\"hi\\\"\"}},\"deployments\":{\"name\":{\"like_\":\"a\\\\b\"}}}"
    );
}

#[test]
fn escaping_agrees_with_the_json_encoder() {
    let samples = ["plain", "say \"hi\"", "tab\there", "line\nbreak", "back\\slash", "ctl\u{1}x"];
    for sample in samples {
        let encoded = serde_json::to_string(sample).expect("strings always encode");
        let expected = &encoded[1..encoded.len() - 1];
        assert_eq!(escape_json_string(sample), expected, "sample {:?}", sample);
    }
}

#[test]
fn paths_and_header_are_exact() {
    assert_eq!(build_filter_path("http://prefect"), "http://prefect/deployments/filter");
    assert_eq!(
        build_create_run_path("http://prefect", "abc"),
        "http://prefect/deployments/abc/create_flow_run"
    );
    assert_eq!(build_bearer_header("tok"), "Bearer tok");
}

#[test]
fn create_run_body_passes_parameters_through() {
    assert_eq!(
        build_create_run_body(&Some("{\"x\":1}".to_string())),
        "{\"parameters\":{\"x\":1}}"
    );
    assert_eq!(build_create_run_body(&None), "{}");
}

#[test]
fn deployment_id_extracted_from_first_result() {
    assert_eq!(
        extract_deployment_id("[{\"id\":\"abc\"},{\"id\":\"def\"}]"),
        Ok("abc".to_string())
    );
}

#[test]
fn deployment_lookup_without_id_is_not_found() {
    assert_eq!(
        extract_deployment_id("[]").unwrap_err(),
        Error::PrefectApiError("Unable to find deployment ID for the given flow/deployment".to_string())
    );
    assert!(matches!(
        extract_deployment_id("{\"detail\":\"nope\"}").unwrap_err(),
        Error::PrefectApiError(_)
    ));
}

#[test]
fn deployment_lookup_non_json_names_credentials() {
    match extract_deployment_id("<html>forbidden</html>") {
        Err(Error::PrefectApiError(m)) => {
            assert!(m.starts_with("Deployment ID call does not return JSON. Got "));
            assert!(m.ends_with(". Are credentials set correctly?"));
        }
        other => panic!("expected a remote-api error, got {:?}", other),
    }
}

#[test]
fn run_name_extracted_or_missing() {
    assert_eq!(extract_run_name("{\"name\":\"run-123\"}"), Ok("run-123".to_string()));
    assert_eq!(
        extract_run_name("{}").unwrap_err(),
        Error::PrefectApiError("Unable to get name from the returned json".to_string())
    );
    assert!(matches!(extract_run_name("not json").unwrap_err(), Error::PrefectApiError(_)));
}

#[test]
fn token_directive_uses_installed_msal_credentials() {
    let mut settings = Settings::new(Some(true));
    settings.set_azure_credentials((
        "id".to_string(),
        "secret".to_string(),
        "tenant".to_string(),
        "scope".to_string(),
    ));
    let d = get_token_directive(&settings, Some("ignored-key".to_string())).expect("resolves");
    assert!(matches!(d, TokenDirective::UseMsal(c) if c.0 == "id" && c.3 == "scope"));
}

#[test]
fn token_directive_msal_without_credentials_is_configuration_error() {
    let settings = Settings::new(Some(true));
    assert_eq!(
        get_token_directive(&settings, None).unwrap_err(),
        Error::ConfigurationError("Unable to source credentials from the shared settings".to_string())
    );
}

#[test]
fn token_directive_falls_back_to_static_key_or_anonymous() {
    let settings = Settings::new(Some(false));
    let d = get_token_directive(&settings, Some("api-key".to_string())).expect("resolves");
    assert!(matches!(d, TokenDirective::StaticKey(k) if k == "api-key"));
    let settings = Settings::new(None);
    let d = get_token_directive(&settings, None).expect("resolves");
    assert!(matches!(d, TokenDirective::Anonymous));
}
