//! The configuration of a client, and the builder that collects it.

use crate::trusted::{is_hyphenated_uuid, random_id};
use crate::API_ENDPOINT;
use vstd::prelude::*;

verus! {

/// How long a request may take unless the options say otherwise, in seconds.
pub const DEFAULT_TIMEOUT_SECONDS: u64 = 30;

/// The configuration of a client.
#[derive(Debug, PartialEq, Eq)]
pub struct ClientOptions {
    api_endpoint: String,
    api_key: String,
    request_timeout_seconds: u64,
    default_distinct_id: String,
    enable_panic_capturing: bool,
}

/// The mathematical value of [`ClientOptions`].
pub struct ClientOptionsView {
    pub api_endpoint: Seq<char>,
    pub api_key: Seq<char>,
    pub request_timeout_seconds: u64,
    pub default_distinct_id: Seq<char>,
    pub enable_panic_capturing: bool,
}

impl View for ClientOptions {
    type V = ClientOptionsView;

    closed spec fn view(&self) -> ClientOptionsView {
        ClientOptionsView {
            api_endpoint: self.api_endpoint@,
            api_key: self.api_key@,
            request_timeout_seconds: self.request_timeout_seconds,
            default_distinct_id: self.default_distinct_id@,
            enable_panic_capturing: self.enable_panic_capturing,
        }
    }
}

/// The options that an account's key alone gives: the default endpoint and
/// timeout, panics captured, and the given default distinct id.
pub open spec fn default_options(api_key: Seq<char>, distinct_id: Seq<char>) -> ClientOptionsView {
    ClientOptionsView {
        api_endpoint: API_ENDPOINT@,
        api_key,
        request_timeout_seconds: DEFAULT_TIMEOUT_SECONDS,
        default_distinct_id: distinct_id,
        enable_panic_capturing: true,
    }
}

impl Clone for ClientOptions {
    /// Copies the options; the copy has the same view.
    fn clone(&self) -> (copy: ClientOptions)
        ensures
            copy@ == self@,
    {
        ClientOptions {
            api_endpoint: self.api_endpoint.clone(),
            api_key: self.api_key.clone(),
            request_timeout_seconds: self.request_timeout_seconds,
            default_distinct_id: self.default_distinct_id.clone(),
            enable_panic_capturing: self.enable_panic_capturing,
        }
    }
}

/// Why a builder could not make options.
#[derive(Debug, PartialEq, Eq)]
pub enum ClientOptionsBuilderError {
    /// The named field has no default and was not set.
    UninitializedField(&'static str),
}

/// Collects the fields of [`ClientOptions`] one by one.
#[derive(Debug, PartialEq, Eq)]
pub struct ClientOptionsBuilder {
    api_endpoint: Option<String>,
    api_key: Option<String>,
    request_timeout_seconds: Option<u64>,
    default_distinct_id: Option<String>,
    enable_panic_capturing: Option<bool>,
}

/// The mathematical value of a [`ClientOptionsBuilder`]: what was set so far.
pub struct ClientOptionsBuilderView {
    pub api_endpoint: Option<Seq<char>>,
    pub api_key: Option<Seq<char>>,
    pub request_timeout_seconds: Option<u64>,
    pub default_distinct_id: Option<Seq<char>>,
    pub enable_panic_capturing: Option<bool>,
}

impl View for ClientOptionsBuilder {
    type V = ClientOptionsBuilderView;

    closed spec fn view(&self) -> ClientOptionsBuilderView {
        ClientOptionsBuilderView {
            api_endpoint: self.api_endpoint.deep_view(),
            api_key: self.api_key.deep_view(),
            request_timeout_seconds: self.request_timeout_seconds,
            default_distinct_id: self.default_distinct_id.deep_view(),
            enable_panic_capturing: self.enable_panic_capturing,
        }
    }
}

impl ClientOptionsBuilderView {
    /// A builder on which nothing was set.
    pub open spec fn empty() -> ClientOptionsBuilderView {
        ClientOptionsBuilderView {
            api_endpoint: None,
            api_key: None,
            request_timeout_seconds: None,
            default_distinct_id: None,
            enable_panic_capturing: None,
        }
    }

    /// The options that the builder makes once it has a key: each field as
    /// it was set, or its default; for the default distinct id the given
    /// fallback.
    pub open spec fn built(self, fallback_id: Seq<char>) -> ClientOptionsView {
        ClientOptionsView {
            api_endpoint: match self.api_endpoint {
                Some(endpoint) => endpoint,
                None => API_ENDPOINT@,
            },
            api_key: self.api_key->0,
            request_timeout_seconds: match self.request_timeout_seconds {
                Some(seconds) => seconds,
                None => DEFAULT_TIMEOUT_SECONDS,
            },
            default_distinct_id: match self.default_distinct_id {
                Some(id) => id,
                None => fallback_id,
            },
            enable_panic_capturing: match self.enable_panic_capturing {
                Some(enabled) => enabled,
                None => true,
            },
        }
    }
}

impl Default for ClientOptionsBuilder {
    /// A builder on which nothing is set.
    fn default() -> (builder: ClientOptionsBuilder)
        ensures
            builder@ == ClientOptionsBuilderView::empty(),
    {
        ClientOptionsBuilder {
            api_endpoint: None,
            api_key: None,
            request_timeout_seconds: None,
            default_distinct_id: None,
            enable_panic_capturing: None,
        }
    }
}

impl ClientOptionsBuilder {
    /// Sets the endpoint that requests go to.
    pub fn api_endpoint(&mut self, value: String) -> (builder: &mut ClientOptionsBuilder)
        ensures
            builder@ == (ClientOptionsBuilderView { api_endpoint: Some(value@), ..old(self)@ }),
            *final(self) == *final(builder),
    {
        self.api_endpoint = Some(value);
        self
    }

    /// Sets the account's key.
    pub fn api_key(&mut self, value: String) -> (builder: &mut ClientOptionsBuilder)
        ensures
            builder@ == (ClientOptionsBuilderView { api_key: Some(value@), ..old(self)@ }),
            *final(self) == *final(builder),
    {
        self.api_key = Some(value);
        self
    }

    /// Sets how long a request may take, in seconds.
    pub fn request_timeout_seconds(&mut self, value: u64) -> (builder: &mut ClientOptionsBuilder)
        ensures
            builder@ == (ClientOptionsBuilderView {
                request_timeout_seconds: Some(value),
                ..old(self)@
            }),
            *final(self) == *final(builder),
    {
        self.request_timeout_seconds = Some(value);
        self
    }

    /// Sets the distinct id under which captured panics are reported.
    pub fn default_distinct_id(&mut self, value: String) -> (builder: &mut ClientOptionsBuilder)
        ensures
            builder@ == (ClientOptionsBuilderView {
                default_distinct_id: Some(value@),
                ..old(self)@
            }),
            *final(self) == *final(builder),
    {
        self.default_distinct_id = Some(value);
        self
    }

    /// Sets whether panics are captured.
    pub fn enable_panic_capturing(&mut self, value: bool) -> (builder: &mut ClientOptionsBuilder)
        ensures
            builder@ == (ClientOptionsBuilderView {
                enable_panic_capturing: Some(value),
                ..old(self)@
            }),
            *final(self) == *final(builder),
    {
        self.enable_panic_capturing = Some(value);
        self
    }

    /// Makes the options. A builder without a key makes none; every other
    /// field has a default, and where no default distinct id was set a
    /// random UUID is drawn for it.
    pub fn build(&self) -> (made: Result<ClientOptions, ClientOptionsBuilderError>)
        ensures
            match made {
                Ok(options) => {
                    &&& self@.api_key is Some
                    &&& options@ == self@.built(options@.default_distinct_id)
                    &&& self@.default_distinct_id is None ==> is_hyphenated_uuid(
                        options@.default_distinct_id,
                    )
                },
                Err(ClientOptionsBuilderError::UninitializedField(field)) => self@.api_key is None
                    && field@ == "api_key"@,
            },
    {
        match &self.default_distinct_id {
            Some(_) => self.build_with_fallback(String::new()),
            None => self.build_with_fallback(random_id()),
        }
    }

    /// Makes the options, with the given default distinct id where none was
    /// set.
    pub fn build_with_fallback(&self, fallback_id: String) -> (made: Result<
        ClientOptions,
        ClientOptionsBuilderError,
    >)
        ensures
            match made {
                Ok(options) => self@.api_key is Some && options@ == self@.built(fallback_id@),
                Err(ClientOptionsBuilderError::UninitializedField(field)) => self@.api_key is None
                    && field@ == "api_key"@,
            },
    {
        let api_key = match &self.api_key {
            Some(key) => key.clone(),
            None => {
                return Err(ClientOptionsBuilderError::UninitializedField("api_key"));
            },
        };
        Ok(
            ClientOptions {
                api_endpoint: match &self.api_endpoint {
                    Some(endpoint) => endpoint.clone(),
                    None => API_ENDPOINT.to_owned(),
                },
                api_key,
                request_timeout_seconds: match self.request_timeout_seconds {
                    Some(seconds) => seconds,
                    None => DEFAULT_TIMEOUT_SECONDS,
                },
                default_distinct_id: match &self.default_distinct_id {
                    Some(id) => id.clone(),
                    None => fallback_id,
                },
                enable_panic_capturing: match self.enable_panic_capturing {
                    Some(enabled) => enabled,
                    None => true,
                },
            },
        )
    }
}


impl From<&str> for ClientOptions {
    /// The default options for the account's key, with a random UUID as the
    /// default distinct id.
    fn from(api_key: &str) -> (options: ClientOptions)
        ensures
            options@ == default_options(api_key@, options@.default_distinct_id),
            is_hyphenated_uuid(options@.default_distinct_id),
    {
        ClientOptionsBuilder::default().api_key(api_key.to_owned()).build().expect(
            "We always set the API key, so this is infallible",
        )
    }
}

impl vstd::std_specs::convert::FromSpecImpl<&str> for ClientOptions {
    open spec fn obeys_from_spec() -> bool {
        false
    }

    open spec fn from_spec(api_key: &str) -> ClientOptions {
        arbitrary()
    }
}

impl ClientOptions {
    /// The endpoint that requests go to.
    pub fn api_endpoint(&self) -> (endpoint: &String)
        ensures
            endpoint@ == self@.api_endpoint,
    {
        &self.api_endpoint
    }

    /// The account's key.
    pub fn api_key(&self) -> (key: &String)
        ensures
            key@ == self@.api_key,
    {
        &self.api_key
    }

    /// How long a request may take, in seconds.
    pub fn request_timeout_seconds(&self) -> (seconds: u64)
        ensures
            seconds == self@.request_timeout_seconds,
    {
        self.request_timeout_seconds
    }

    /// The distinct id under which captured panics are reported.
    pub fn default_distinct_id(&self) -> (id: &String)
        ensures
            id@ == self@.default_distinct_id,
    {
        &self.default_distinct_id
    }

    /// Whether panics are captured.
    pub fn enable_panic_capturing(&self) -> (enabled: bool)
        ensures
            enabled == self@.enable_panic_capturing,
    {
        self.enable_panic_capturing
    }
}

} // verus!
