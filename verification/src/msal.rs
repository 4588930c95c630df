//! The credential resolution chain for outbound trigger calls. Each of the
//! four OAuth client-credentials parameters is resolved from a pair of
//! environment values: the direct value wins; otherwise a `_KV`-suffixed value
//! names a key in the secret vault; neither is a configuration error naming
//! the parameter. The driver reads the environment and performs the vault
//! fetches and the token exchange; what stands here decides, once at start-up,
//! what it must fetch and from where.

use vstd::prelude::*;
use vstd::string::StringExecFns;

use crate::interfaces::Error;

verus! {

/// Where one resolved parameter comes from: its value stood directly in the
/// environment, or the environment named the vault key holding it.
#[derive(Debug)]
pub enum ParamSource {
    Direct(String),
    VaultKey(String),
}

/// The snapshot of the environment values the resolver consults: the vault
/// endpoint, and for each required parameter its direct value and its
/// `_KV`-suffixed vault-key value.
#[derive(Debug)]
pub struct CredentialEnv {
    pub vault_uri: Option<String>,
    pub client_id: Option<String>,
    pub client_id_kv: Option<String>,
    pub client_secret: Option<String>,
    pub client_secret_kv: Option<String>,
    pub tenant_id: Option<String>,
    pub tenant_id_kv: Option<String>,
    pub scope: Option<String>,
    pub scope_kv: Option<String>,
}

/// The resolved plan: one source per required parameter. The driver performs
/// one vault fetch for each `VaultKey` source and none for a `Direct` one.
#[derive(Debug)]
pub struct CredentialPlan {
    pub client_id: ParamSource,
    pub client_secret: ParamSource,
    pub tenant_id: ParamSource,
    pub scope: ParamSource,
}

/// The detail reported when neither the direct nor the vault-key environment
/// value of a parameter is present.
pub open spec fn missing_param_message(name: Seq<char>) -> Seq<char> {
    "Instance requires MSAL but unable to determine required env var "@ + name + " or "@ + name
        + "_KV"@
}

/// The detail reported when a parameter names a vault key but no vault
/// endpoint is configured.
pub open spec fn missing_vault_message() -> Seq<char> {
    "Key vault must be specified if any of the auth env vars were marked as being a vault key"@
}

/// Whether the pair of environment values can resolve the parameter at all.
pub open spec fn param_available(direct: Option<String>, vault_key: Option<String>) -> bool {
    direct is Some || vault_key is Some
}

/// The source a resolvable parameter is taken from: the direct value wins.
pub open spec fn param_source_spec(direct: Option<String>, vault_key: Option<String>) -> ParamSource {
    if direct is Some {
        ParamSource::Direct(direct->0)
    } else {
        ParamSource::VaultKey(vault_key->0)
    }
}

/// Whether resolving this pair sends the driver to the vault.
pub open spec fn uses_vault(direct: Option<String>, vault_key: Option<String>) -> bool {
    direct is None && vault_key is Some
}

/// Whether any of the four parameters sends the driver to the vault.
pub open spec fn needs_vault(env: CredentialEnv) -> bool {
    uses_vault(env.client_id, env.client_id_kv) || uses_vault(env.client_secret, env.client_secret_kv)
        || uses_vault(env.tenant_id, env.tenant_id_kv) || uses_vault(env.scope, env.scope_kv)
}

/// Resolves one parameter from its pair of environment values: the direct
/// value when present, else the value naming a vault key, else a configuration
/// error naming both environment variables.
pub fn get_key_or_value(name: &str, direct: Option<String>, vault_key: Option<String>) -> (r:
    Result<ParamSource, Error>)
    ensures
        param_available(direct, vault_key) ==> r == Ok::<ParamSource, Error>(
            param_source_spec(direct, vault_key),
        ),
        !param_available(direct, vault_key) ==> (r matches Err(e) && e matches
            Error::ConfigurationError(m) && m@ == missing_param_message(name@)),
{
    match direct {
        Some(v) => Ok(ParamSource::Direct(v)),
        None => match vault_key {
            Some(k) => Ok(ParamSource::VaultKey(k)),
            None => Err(
                Error::ConfigurationError(
                    String::from_str(
                        "Instance requires MSAL but unable to determine required env var ",
                    ).concat(name).concat(" or ").concat(name).concat("_KV"),
                ),
            ),
        },
    }
}

/// Resolves the whole plan from the environment snapshot, in the order client
/// id, client secret, tenant id, scope; the first unresolvable parameter wins.
/// A plan that sends the driver to the vault is an error when no vault
/// endpoint is configured.
pub fn resolve_credential_plan(env: CredentialEnv) -> (r: Result<CredentialPlan, Error>)
    ensures
        !param_available(env.client_id, env.client_id_kv) ==> (r matches Err(e) && e matches
            Error::ConfigurationError(m) && m@ == missing_param_message("PREFECT_API_CLIENT_ID"@)),
        param_available(env.client_id, env.client_id_kv) && !param_available(
            env.client_secret,
            env.client_secret_kv,
        ) ==> (r matches Err(e) && e matches Error::ConfigurationError(m) && m@
            == missing_param_message("PREFECT_API_CLIENT_SECRET"@)),
        param_available(env.client_id, env.client_id_kv) && param_available(
            env.client_secret,
            env.client_secret_kv,
        ) && !param_available(env.tenant_id, env.tenant_id_kv) ==> (r matches Err(e) && e matches
            Error::ConfigurationError(m) && m@ == missing_param_message("PREFECT_API_TENANT_ID"@)),
        param_available(env.client_id, env.client_id_kv) && param_available(
            env.client_secret,
            env.client_secret_kv,
        ) && param_available(env.tenant_id, env.tenant_id_kv) && !param_available(
            env.scope,
            env.scope_kv,
        ) ==> (r matches Err(e) && e matches Error::ConfigurationError(m) && m@
            == missing_param_message("PREFECT_API_SCOPE"@)),
        all_params_available(env) && needs_vault(env) && env.vault_uri is None ==> (r matches Err(e)
            && e matches Error::ConfigurationError(m) && m@ == missing_vault_message()),
        all_params_available(env) && (!needs_vault(env) || env.vault_uri is Some) ==> (r matches Ok(
            plan,
        ) && plan.client_id == param_source_spec(env.client_id, env.client_id_kv)
            && plan.client_secret == param_source_spec(env.client_secret, env.client_secret_kv)
            && plan.tenant_id == param_source_spec(env.tenant_id, env.tenant_id_kv) && plan.scope
            == param_source_spec(env.scope, env.scope_kv)),
{
    let CredentialEnv {
        vault_uri,
        client_id,
        client_id_kv,
        client_secret,
        client_secret_kv,
        tenant_id,
        tenant_id_kv,
        scope,
        scope_kv,
    } = env;
    let client_id = get_key_or_value("PREFECT_API_CLIENT_ID", client_id, client_id_kv)?;
    let client_secret = get_key_or_value("PREFECT_API_CLIENT_SECRET", client_secret, client_secret_kv)?;
    let tenant_id = get_key_or_value("PREFECT_API_TENANT_ID", tenant_id, tenant_id_kv)?;
    let scope = get_key_or_value("PREFECT_API_SCOPE", scope, scope_kv)?;
    let any_vault = matches!(client_id, ParamSource::VaultKey(_)) || matches!(
        client_secret,
        ParamSource::VaultKey(_),
    ) || matches!(tenant_id, ParamSource::VaultKey(_)) || matches!(scope, ParamSource::VaultKey(_));
    if any_vault && vault_uri.is_none() {
        return Err(
            Error::ConfigurationError(
                String::from_str(
                    "Key vault must be specified if any of the auth env vars were marked as being a vault key",
                ),
            ),
        );
    }
    Ok(CredentialPlan { client_id, client_secret, tenant_id, scope })
}

/// Whether every required parameter can be resolved from the snapshot.
pub open spec fn all_params_available(env: CredentialEnv) -> bool {
    param_available(env.client_id, env.client_id_kv) && param_available(
        env.client_secret,
        env.client_secret_kv,
    ) && param_available(env.tenant_id, env.tenant_id_kv) && param_available(env.scope, env.scope_kv)
}

/// How many vault fetches carrying out the plan takes: one per parameter whose
/// source is a vault key.
pub open spec fn vault_fetch_count(plan: CredentialPlan) -> nat {
    (if plan.client_id is VaultKey {
        1nat
    } else {
        0nat
    }) + (if plan.client_secret is VaultKey {
        1nat
    } else {
        0nat
    }) + (if plan.tenant_id is VaultKey {
        1nat
    } else {
        0nat
    }) + (if plan.scope is VaultKey {
        1nat
    } else {
        0nat
    })
}

/// Given every parameter's direct environment value, resolution never consults
/// the vault: the plan resolves each parameter directly and asks for no fetch.
pub proof fn lemma_direct_env_never_consults_vault(env: CredentialEnv, plan: CredentialPlan)
    requires
        env.client_id is Some,
        env.client_secret is Some,
        env.tenant_id is Some,
        env.scope is Some,
        plan.client_id == param_source_spec(env.client_id, env.client_id_kv),
        plan.client_secret == param_source_spec(env.client_secret, env.client_secret_kv),
        plan.tenant_id == param_source_spec(env.tenant_id, env.tenant_id_kv),
        plan.scope == param_source_spec(env.scope, env.scope_kv),
    ensures
        !needs_vault(env),
        vault_fetch_count(plan) == 0,
{
}

/// Given only the `_KV`-suffixed values, resolution asks for exactly one vault
/// fetch per required parameter, each under the key the environment named.
pub proof fn lemma_kv_env_fetches_once_per_param(env: CredentialEnv, plan: CredentialPlan)
    requires
        env.client_id is None && env.client_id_kv is Some,
        env.client_secret is None && env.client_secret_kv is Some,
        env.tenant_id is None && env.tenant_id_kv is Some,
        env.scope is None && env.scope_kv is Some,
        plan.client_id == param_source_spec(env.client_id, env.client_id_kv),
        plan.client_secret == param_source_spec(env.client_secret, env.client_secret_kv),
        plan.tenant_id == param_source_spec(env.tenant_id, env.tenant_id_kv),
        plan.scope == param_source_spec(env.scope, env.scope_kv),
    ensures
        needs_vault(env),
        vault_fetch_count(plan) == 4,
        plan.client_id == ParamSource::VaultKey(env.client_id_kv->0),
        plan.client_secret == ParamSource::VaultKey(env.client_secret_kv->0),
        plan.tenant_id == ParamSource::VaultKey(env.tenant_id_kv->0),
        plan.scope == ParamSource::VaultKey(env.scope_kv->0),
{
}

} // verus!
