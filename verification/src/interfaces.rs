use vstd::prelude::*;
use vstd::string::StringExecFns;

verus! {

/// The failure kinds the dispatcher reports; each carries a human-readable detail.
///
/// `InputError` marks a malformed inbound message or an unmapped message type;
/// `PrefectApiError` marks a bad response from the orchestration service;
/// `ConfigurationError` marks a missing required setting or environment value;
/// `AuthError` marks a failed credential exchange that was explicitly requested.
#[derive(Debug, Clone, PartialEq, Eq)]
pub enum Error {
    PrefectApiError(String),
    InputError(String),
    ConfigurationError(String),
    AuthError(String),
}

impl Error {
    /// The log form of an error: the kind's name, a colon, and the detail.
    pub open spec fn to_string_spec(&self) -> Seq<char> {
        match self {
            Error::PrefectApiError(s) => "PrefectApiError: "@ + s@,
            Error::InputError(s) => "InputError: "@ + s@,
            Error::ConfigurationError(s) => "ConfigurationError: "@ + s@,
            Error::AuthError(s) => "AuthError: "@ + s@,
        }
    }

    pub fn to_string(&self) -> (r: String)
        ensures
            r@ == self.to_string_spec(),
    {
        match self {
            Error::PrefectApiError(s) => String::from_str("PrefectApiError: ").concat(s.as_str()),
            Error::InputError(s) => String::from_str("InputError: ").concat(s.as_str()),
            Error::ConfigurationError(s) => String::from_str("ConfigurationError: ").concat(
                s.as_str(),
            ),
            Error::AuthError(s) => String::from_str("AuthError: ").concat(s.as_str()),
        }
    }
}

/// A backend-specific inbound message: one uniform capability, its text content.
pub trait RawMessage {
    /// The model of the message: the text it carries.
    spec fn content_spec(&self) -> Seq<char>;

    fn get_content_str(&self) -> (r: String)
        ensures
            r@ == self.content_spec(),
    ;
}

/// A component that knows which flow and deployment it triggers.
pub trait LinkedPrefectJob {
    /// The model: the flow name and the deployment name.
    spec fn flow_deployment_spec(&self) -> (Seq<char>, Seq<char>);

    /// Returns (flow_name, deployment_name).
    fn get_flow_deployment(&self) -> (r: (String, String))
        ensures
            r.0@ == self.flow_deployment_spec().0,
            r.1@ == self.flow_deployment_spec().1,
    ;
}

/// A source-specific configuration that yields inbound messages. The
/// connection handling of each variant suspends on outside transports and
/// stays with the driver; what a variant states here is its pure capability,
/// the stable identity string used for diagnostics.
pub trait Publisher {
    type PubMessage: RawMessage;

    /// The model of the identity string.
    spec fn repr_spec(&self) -> Seq<char>;

    /// Stable human-readable identity of the source (for example
    /// "storage-account-name/queue"), used only for diagnostics.
    fn repr(&self) -> (r: String)
        ensures
            r@ == self.repr_spec(),
    ;
}

/// The fully resolved job envelope: which flow and deployment to trigger, with
/// the optional parameters carried as their JSON text, passed through
/// untouched from the inbound message.
#[derive(Debug, Clone)]
pub struct QMessage {
    pub flow_name: String,
    pub deployment_name: String,
    pub payload: Option<String>,
}

impl QMessage {
    pub fn get_flow_parameters(&self) -> (r: &Option<String>)
        ensures
            r == &self.payload,
    {
        &self.payload
    }

    pub fn get_flow_deployment(&self) -> (r: (String, String))
        ensures
            r.0 == self.flow_name,
            r.1 == self.deployment_name,
    {
        (self.flow_name.clone(), self.deployment_name.clone())
    }
}

impl LinkedPrefectJob for QMessage {
    open spec fn flow_deployment_spec(&self) -> (Seq<char>, Seq<char>) {
        (self.flow_name@, self.deployment_name@)
    }

    fn get_flow_deployment(&self) -> (r: (String, String)) {
        (self.flow_name.clone(), self.deployment_name.clone())
    }
}

} // verus!
