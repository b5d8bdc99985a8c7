use vstd::prelude::*;
use crate::headers::str_equal;

verus! {

/// Why the worker configuration could not be built. Every variant but the
/// first carries the backend name, so that the caller can still forward the
/// request to the origin untouched.
#[derive(Debug, Clone, PartialEq, Eq)]
pub enum ConfigurationError {
    MissingBackendName,
    MissingToken(String),
    MissingInstanceName(String),
    MissingAddRuleIdsHeader(String),
}

impl ConfigurationError {
    /// The human readable description of the error.
    pub fn message(&self) -> (r: String)
        ensures
            r@ == configuration_error_message(*self),
    {
        match self {
            ConfigurationError::MissingBackendName => String::from_str("missing \"backend_name\""),
            ConfigurationError::MissingToken(_) => String::from_str("missing \"token\""),
            ConfigurationError::MissingInstanceName(_) => String::from_str(
                "missing \"instance name\"",
            ),
            ConfigurationError::MissingAddRuleIdsHeader(_) => String::from_str(
                "missing \"add_rule_ids_header\"",
            ),
        }
    }

    /// The backend the request can still be forwarded to, when the error
    /// allows it.
    pub fn backend_name(&self) -> (r: Option<String>)
        ensures
            match *self {
                ConfigurationError::MissingBackendName => r is None,
                ConfigurationError::MissingToken(b) => r == Some(b),
                ConfigurationError::MissingInstanceName(b) => r == Some(b),
                ConfigurationError::MissingAddRuleIdsHeader(b) => r == Some(b),
            },
    {
        match self {
            ConfigurationError::MissingBackendName => None,
            ConfigurationError::MissingToken(b) => Some(b.clone()),
            ConfigurationError::MissingInstanceName(b) => Some(b.clone()),
            ConfigurationError::MissingAddRuleIdsHeader(b) => Some(b.clone()),
        }
    }
}

pub open spec fn configuration_error_message(e: ConfigurationError) -> Seq<char> {
    match e {
        ConfigurationError::MissingBackendName => "missing \"backend_name\""@,
        ConfigurationError::MissingToken(_) => "missing \"token\""@,
        ConfigurationError::MissingInstanceName(_) => "missing \"instance name\""@,
        ConfigurationError::MissingAddRuleIdsHeader(_) => "missing \"add_rule_ids_header\""@,
    }
}

/// What the worker does when it cannot be configured.
pub enum ConfigurationFallback {
    /// Answer with an error page holding this message: without a backend the
    /// request cannot go anywhere.
    ErrorPage(String),
    /// Forward the request untouched to this backend, and report the message.
    Forward(String, String),
}

/// The message reported for a configuration error.
pub open spec fn fallback_message(e: ConfigurationError) -> Seq<char> {
    "Fastly worker configuration error: "@ + configuration_error_message(e) + ".\n"@
}

/// Decides what to do with a request the worker could not be configured for:
/// forward it to the origin where the backend is known, else answer with an
/// error page.
pub fn configuration_fallback(e: &ConfigurationError) -> (r: ConfigurationFallback)
    ensures
        match *e {
            ConfigurationError::MissingBackendName => r matches ConfigurationFallback::ErrorPage(
                m,
            ) && m@ == fallback_message(*e),
            ConfigurationError::MissingToken(b) => r matches ConfigurationFallback::Forward(
                backend,
                m,
            ) && backend == b && m@ == fallback_message(*e),
            ConfigurationError::MissingInstanceName(b) => r matches ConfigurationFallback::Forward(
                backend,
                m,
            ) && backend == b && m@ == fallback_message(*e),
            ConfigurationError::MissingAddRuleIdsHeader(b) => r matches ConfigurationFallback::Forward(
                backend,
                m,
            ) && backend == b && m@ == fallback_message(*e),
        },
{
    let mut message = String::from_str("Fastly worker configuration error: ");
    let detail = e.message();
    message.append(detail.as_str());
    message.append(".\n");
    match e.backend_name() {
        None => ConfigurationFallback::ErrorPage(message),
        Some(backend) => ConfigurationFallback::Forward(backend, message),
    }
}

/// The settings of one worker instance.
pub struct Configuration {
    pub backend_name: String,
    pub token: String,
    pub instance_name: String,
    pub add_rule_ids_header: bool,
}

/// The flag is on only for the exact text `true`.
pub open spec fn flag_enabled(value: Option<String>) -> bool {
    match value {
        Some(v) => v@ == "true"@,
        None => false,
    }
}

impl Configuration {
    /// Builds the configuration from the values read from the store. The
    /// backend name, the token and the instance name are required, checked in
    /// that order; the rule ids flag is on only for the text `true`.
    pub fn new(
        backend_name: Option<String>,
        token: Option<String>,
        instance_name: Option<String>,
        add_rule_ids_header: Option<String>,
    ) -> (r: Result<Configuration, ConfigurationError>)
        ensures
            backend_name is None ==> r == Err::<Configuration, _>(
                ConfigurationError::MissingBackendName,
            ),
            backend_name is Some && token is None ==> r == Err::<Configuration, _>(
                ConfigurationError::MissingToken(backend_name.unwrap()),
            ),
            backend_name is Some && token is Some && instance_name is None ==> r == Err::<
                Configuration,
                _,
            >(ConfigurationError::MissingInstanceName(backend_name.unwrap())),
            r is Ok <==> (backend_name is Some && token is Some && instance_name is Some),
            r matches Ok(c) ==> {
                &&& c.backend_name == backend_name.unwrap()
                &&& c.token == token.unwrap()
                &&& c.instance_name == instance_name.unwrap()
                &&& c.add_rule_ids_header == flag_enabled(add_rule_ids_header)
            },
    {
        let backend_name = match backend_name {
            Some(b) => b,
            None => return Err(ConfigurationError::MissingBackendName),
        };
        let token = match token {
            Some(t) => t,
            None => return Err(ConfigurationError::MissingToken(backend_name)),
        };
        let instance_name = match instance_name {
            Some(i) => i,
            None => return Err(ConfigurationError::MissingInstanceName(backend_name)),
        };
        let add_rule_ids_header = match &add_rule_ids_header {
            Some(v) => str_equal(v.as_str(), "true"),
            None => false,
        };
        Ok(Configuration { backend_name, token, instance_name, add_rule_ids_header })
    }
}

} // verus!
