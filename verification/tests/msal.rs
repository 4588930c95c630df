use event_handler::interfaces::Error;
use event_handler::msal::{get_key_or_value, resolve_credential_plan, CredentialEnv, ParamSource};

fn s(v: &str) -> Option<String> {
    Some(v.to_string())
}

#[test]
fn direct_value_wins_and_never_consults_vault() {
    let r = get_key_or_value("PREFECT_API_CLIENT_ID", s("direct-id"), s("vault-key"));
    assert!(matches!(r, Ok(ParamSource::Direct(v)) if v == "direct-id"));
}

#[test]
fn vault_key_used_when_direct_value_absent() {
    let r = get_key_or_value("PREFECT_API_CLIENT_ID", None, s("vault-key"));
    assert!(matches!(r, Ok(ParamSource::VaultKey(k)) if k == "vault-key"));
}

#[test]
fn missing_both_values_is_configuration_error_naming_parameter() {
    let r = get_key_or_value("PREFECT_API_SCOPE", None, None);
    assert_eq!(
        r.unwrap_err(),
        Error::ConfigurationError(
            "Instance requires MSAL but unable to determine required env var PREFECT_API_SCOPE or PREFECT_API_SCOPE_KV"
                .to_string()
        )
    );
}

fn all_direct_env() -> CredentialEnv {
    CredentialEnv {
        vault_uri: None,
        client_id: s("id"),
        client_id_kv: None,
        client_secret: s("secret"),
        client_secret_kv: None,
        tenant_id: s("tenant"),
        tenant_id_kv: None,
        scope: s("scope"),
        scope_kv: None,
    }
}

#[test]
fn all_direct_plan_needs_no_vault() {
    let plan = resolve_credential_plan(all_direct_env()).expect("all parameters are direct");
    assert!(matches!(plan.client_id, ParamSource::Direct(v) if v == "id"));
    assert!(matches!(plan.client_secret, ParamSource::Direct(v) if v == "secret"));
    assert!(matches!(plan.tenant_id, ParamSource::Direct(v) if v == "tenant"));
    assert!(matches!(plan.scope, ParamSource::Direct(v) if v == "scope"));
}

fn all_kv_env(vault_uri: Option<String>) -> CredentialEnv {
    CredentialEnv {
        vault_uri,
        client_id: None,
        client_id_kv: s("id-key"),
        client_secret: None,
        client_secret_kv: s("secret-key"),
        tenant_id: None,
        tenant_id_kv: s("tenant-key"),
        scope: None,
        scope_kv: s("scope-key"),
    }
}

#[test]
fn all_kv_plan_fetches_each_parameter_once() {
    let plan = resolve_credential_plan(all_kv_env(s("https://vault.example")))
        .expect("vault-indirected parameters resolve");
    assert!(matches!(plan.client_id, ParamSource::VaultKey(k) if k == "id-key"));
    assert!(matches!(plan.client_secret, ParamSource::VaultKey(k) if k == "secret-key"));
    assert!(matches!(plan.tenant_id, ParamSource::VaultKey(k) if k == "tenant-key"));
    assert!(matches!(plan.scope, ParamSource::VaultKey(k) if k == "scope-key"));
}

#[test]
fn vault_keys_without_vault_endpoint_are_rejected() {
    let r = resolve_credential_plan(all_kv_env(None));
    assert_eq!(
        r.unwrap_err(),
        Error::ConfigurationError(
            "Key vault must be specified if any of the auth env vars were marked as being a vault key"
                .to_string()
        )
    );
}

#[test]
fn first_missing_parameter_wins() {
    let mut env = all_direct_env();
    env.client_secret = None;
    env.scope = None;
    let r = resolve_credential_plan(env);
    assert_eq!(
        r.unwrap_err(),
        Error::ConfigurationError(
            "Instance requires MSAL but unable to determine required env var PREFECT_API_CLIENT_SECRET or PREFECT_API_CLIENT_SECRET_KV"
                .to_string()
        )
    );
}
