use event_handler::config::{config_from_str, ConfigFile, Settings};
use event_handler::interfaces::Error;
use event_handler::publishers::PublisherType;

#[test]
fn config_parses_publishers_and_settings() {
    let text = "{\"threads\":[{\"publisher_type\":\"StdInput\"},{\"publisher_type\":\"AzureStorageQueue\",\"storage_account\":\"acct\",\"queue_name\":\"q1\",\"message_flow_actions\":{\"Greet\":\"HelloFlow/prod\"}}],\"settings\":{\"prefect_use_msal_auth\":true}}";
    let config = config_from_str(text).expect("valid config file");
    assert_eq!(config.iter().len(), 2);
    assert!(matches!(config.iter()[0], PublisherType::StdInput(_)));
    assert!(matches!(config.iter()[1], PublisherType::AzureStorageQueue(_)));
    assert_eq!(config.settings.prefect_use_msal_auth, Some(true));
}

#[test]
fn config_settings_flag_may_be_null_or_absent() {
    let config = config_from_str("{\"threads\":[],\"settings\":{\"prefect_use_msal_auth\":null}}")
        .expect("valid config file");
    assert_eq!(config.settings.prefect_use_msal_auth, None);
    let config = config_from_str("{\"threads\":[],\"settings\":{}}").expect("valid config file");
    assert_eq!(config.settings.prefect_use_msal_auth, None);
}

#[test]
fn invalid_config_text_is_fatal() {
    assert_eq!(
        config_from_str("definitely not json").unwrap_err(),
        Error::ConfigurationError("File does not appear to be a valid config file".to_string())
    );
}

#[test]
fn config_without_threads_is_fatal() {
    assert_eq!(
        config_from_str("{\"settings\":{}}").unwrap_err(),
        Error::ConfigurationError("Config file must hold a threads array".to_string())
    );
}

#[test]
fn config_without_settings_object_is_fatal() {
    assert_eq!(
        config_from_str("{\"threads\":[]}").unwrap_err(),
        Error::ConfigurationError("Config file must hold a settings object".to_string())
    );
    assert_eq!(
        config_from_str("{\"threads\":[],\"settings\":7}").unwrap_err(),
        Error::ConfigurationError("Config file must hold a settings object".to_string())
    );
}

#[test]
fn config_with_non_array_threads_is_fatal() {
    assert_eq!(
        config_from_str("{\"threads\":7,\"settings\":{}}").unwrap_err(),
        Error::ConfigurationError("Config file must hold a threads array".to_string())
    );
}

#[test]
fn config_with_bad_publisher_entry_is_fatal() {
    let r = config_from_str("{\"threads\":[{\"publisher_type\":\"Nope\"}],\"settings\":{}}");
    assert_eq!(
        r.unwrap_err(),
        Error::InputError("Unable to parse json as a valid publisher type".to_string())
    );
}

#[test]
fn settings_share_credentials_through_the_pointer() {
    let mut settings = Settings::new(Some(true));
    assert!(settings.get_azure_credentials().is_none());
    settings.set_azure_credentials((
        "id".to_string(),
        "secret".to_string(),
        "tenant".to_string(),
        "scope".to_string(),
    ));
    let config = ConfigFile::new(Vec::new(), settings);
    let shared = config.get_settings_ptr();
    let creds = shared.get_azure_credentials().expect("credentials were installed");
    assert_eq!(creds.0, "id");
    assert_eq!(creds.3, "scope");
    assert_eq!(shared.prefect_use_msal_auth, Some(true));
}
