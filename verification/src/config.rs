//! Process-wide configuration: the settings shared read-only by every dispatch
//! loop, and the configuration file naming one publisher per source. Both are
//! built once at start-up and never mutated afterwards; each loop reads the
//! settings through a reference-counted handle.

use std::sync::Arc;
use vstd::prelude::*;
use vstd::string::StringExecFns;

use crate::interfaces::Error;
use crate::json::{
    config_has_settings_of, config_msal_of, config_threads_of, json_ok, read_config, texts_view,
};
use crate::publishers::{
    entry_accepted, entry_publisher_matches, publisher_from_json_text, PublisherType,
};

verus! {

/// The raw shape of the configuration text, as the JSON boundary reads it:
/// each `threads` entry as its compact JSON text (absent when the text holds
/// no such array), whether a `settings` object is present, and its optional
/// auth flag.
#[derive(Debug)]
pub struct RawConfig {
    pub thread_texts: Option<Vec<String>>,
    pub has_settings: bool,
    pub msal_flag: Option<bool>,
}

/// Settings shared by all dispatch loops: whether outbound calls authenticate
/// through the OAuth client-credentials exchange, and, once resolved, the four
/// parameters of that exchange (client id, client secret, tenant id, scope).
#[derive(Debug, Clone)]
pub struct Settings {
    pub prefect_use_msal_auth: Option<bool>,
    pub azure_msal_credentials: Option<(String, String, String, String)>,
}

impl Settings {
    pub fn new(prefect_use_msal_auth: Option<bool>) -> (r: Settings)
        ensures
            r.prefect_use_msal_auth == prefect_use_msal_auth,
            r.azure_msal_credentials is None,
    {
        Settings { prefect_use_msal_auth, azure_msal_credentials: None }
    }

    /// Installs the resolved exchange parameters, once, at start-up.
    pub fn set_azure_credentials(&mut self, credentials: (String, String, String, String))
        ensures
            final(self).azure_msal_credentials == Some(credentials),
            final(self).prefect_use_msal_auth == old(self).prefect_use_msal_auth,
    {
        self.azure_msal_credentials = Some(credentials);
    }

    pub fn get_azure_credentials(&self) -> (r: Option<&(String, String, String, String)>)
        ensures
            r matches Some(c) ==> self.azure_msal_credentials == Some(*c),
            r is None <==> self.azure_msal_credentials is None,
    {
        self.azure_msal_credentials.as_ref()
    }

    /// A field-for-field copy; the settings handle shared across loops is made
    /// from it.
    pub fn clone_settings(&self) -> (r: Settings)
        ensures
            r == *self,
    {
        let azure_msal_credentials = match &self.azure_msal_credentials {
            Some(c) => Some((c.0.clone(), c.1.clone(), c.2.clone(), c.3.clone())),
            None => None,
        };
        Settings { prefect_use_msal_auth: self.prefect_use_msal_auth, azure_msal_credentials }
    }
}

/// The configuration file: one publisher entry per source under `threads`, and
/// the shared settings.
#[derive(Debug, Clone)]
pub struct ConfigFile {
    pub threads: Vec<PublisherType>,
    pub settings: Settings,
}

impl ConfigFile {
    pub fn new(threads: Vec<PublisherType>, settings: Settings) -> (r: ConfigFile)
        ensures
            r.threads == threads,
            r.settings == settings,
    {
        ConfigFile { threads, settings }
    }

    /// The configured publishers, one loop to be spawned for each.
    pub fn iter(&self) -> (r: &Vec<PublisherType>)
        ensures
            r == &self.threads,
    {
        &self.threads
    }

    /// The reference-counted read-only handle to the settings that every loop
    /// shares; cloning the handle never copies or re-reads the settings.
    pub fn get_settings_ptr(&self) -> (r: Arc<Settings>)
        ensures
            r == self.settings,
    {
        Arc::new(self.settings.clone_settings())
    }
}

/// Builds the configuration from the file's JSON text: one publisher per entry
/// of the `threads` array, and the shared settings with their optional
/// `prefect_use_msal_auth` flag (absent or null means unset). Text that is not
/// valid JSON, a missing `threads` array, a missing `settings` object, and any
/// invalid publisher entry are fatal start-up errors: no configuration value
/// is produced and no loop is spawned.
pub fn config_from_str(config_str: &str) -> (r: Result<ConfigFile, Error>)
    ensures
        !json_ok(config_str@) ==> (r matches Err(e) && e matches Error::ConfigurationError(m) && m@
            == "File does not appear to be a valid config file"@),
        json_ok(config_str@) && config_threads_of(config_str@) is None ==> (r matches Err(e)
            && e matches Error::ConfigurationError(m) && m@
            == "Config file must hold a threads array"@),
        (json_ok(config_str@) && config_threads_of(config_str@) is Some && !config_has_settings_of(
            config_str@,
        )) ==> (r matches Err(e) && e matches Error::ConfigurationError(m) && m@
            == "Config file must hold a settings object"@),
        (json_ok(config_str@) && config_threads_of(config_str@) is Some && config_has_settings_of(
            config_str@,
        )) ==> {
            let ts = config_threads_of(config_str@)->0;
            &&& (forall|i: int| 0 <= i < ts.len() ==> entry_accepted(ts[i])) ==> (r matches Ok(c) && (
            c.settings.prefect_use_msal_auth == config_msal_of(config_str@)
                && c.settings.azure_msal_credentials is None && c.threads@.len() == ts.len()
                && forall|i: int|
                0 <= i < ts.len() ==> entry_publisher_matches(ts[i], c.threads@[i])))
            &&& (exists|i: int| 0 <= i < ts.len() && !entry_accepted(ts[i])) ==> r is Err
        },
{
    let raw = match read_config(config_str) {
        Ok(c) => c,
        Err(_) => {
            return Err(
                Error::ConfigurationError(
                    String::from_str("File does not appear to be a valid config file"),
                ),
            );
        },
    };
    let texts = match raw.thread_texts {
        Some(t) => t,
        None => {
            return Err(
                Error::ConfigurationError(String::from_str("Config file must hold a threads array")),
            );
        },
    };
    if !raw.has_settings {
        return Err(
            Error::ConfigurationError(String::from_str("Config file must hold a settings object")),
        );
    }
    let ghost ts = config_threads_of(config_str@)->0;
    let mut threads: Vec<PublisherType> = Vec::new();
    let n = texts.len();
    let mut idx: usize = 0;
    while idx < n
        invariant
            n == texts@.len(),
            idx <= n,
            json_ok(config_str@),
            config_threads_of(config_str@) is Some,
            config_has_settings_of(config_str@),
            ts == config_threads_of(config_str@)->0,
            texts_view(texts@) == ts,
            threads@.len() == idx,
            forall|j: int| 0 <= j < idx ==> entry_accepted(ts[j]),
            forall|j: int| 0 <= j < idx ==> entry_publisher_matches(ts[j], threads@[j]),
        decreases n - idx,
    {
        proof {
            assert(texts_view(texts@)[idx as int] == texts@[idx as int]@);
        }
        match publisher_from_json_text(texts[idx].as_str()) {
            Ok(p) => {
                assert(entry_accepted(ts[idx as int]));
                threads.push(p);
            },
            Err(e) => {
                assert(!entry_accepted(ts[idx as int]));
                return Err(e);
            },
        }
        idx = idx + 1;
    }
    Ok(ConfigFile { threads, settings: Settings::new(raw.msal_flag) })
}

} // verus!
