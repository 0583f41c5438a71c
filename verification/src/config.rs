//! From client options to the configuration that the engine is started
//! with.
use crate::error::{prefixed, FliptError, FliptErrorView};
use crate::json::{
    insert_member, json_text, json_view, new_object, number_value, object_value, text_value,
    write_text, Json, Members,
};
use vstd::prelude::*;

verus! {

/// What a client may set. Every field may be left out.
#[derive(Debug, PartialEq)]
pub struct ClientOptions {
    pub environment: Option<String>,
    pub namespace: Option<String>,
    pub url: Option<String>,
    pub update_interval: Option<u64>,
    pub reference: Option<String>,
    pub client_token: Option<String>,
    pub fetch_mode: Option<String>,
}

/// The mathematical value of [`ClientOptions`].
pub struct ClientOptionsView {
    pub environment: Option<Seq<char>>,
    pub namespace: Option<Seq<char>>,
    pub url: Option<Seq<char>>,
    pub update_interval: Option<u64>,
    pub reference: Option<Seq<char>>,
    pub client_token: Option<Seq<char>>,
    pub fetch_mode: Option<Seq<char>>,
}

impl View for ClientOptions {
    type V = ClientOptionsView;

    open spec fn view(&self) -> ClientOptionsView {
        ClientOptionsView {
            environment: self.environment.deep_view(),
            namespace: self.namespace.deep_view(),
            url: self.url.deep_view(),
            update_interval: self.update_interval,
            reference: self.reference.deep_view(),
            client_token: self.client_token.deep_view(),
            fetch_mode: self.fetch_mode.deep_view(),
        }
    }
}

/// The configuration that the engine is started with: the three fields
/// that it always needs, and the optional ones that the client supplied.
#[derive(Debug, PartialEq)]
pub struct EngineConfiguration {
    pub url: String,
    pub namespace: String,
    pub environment: String,
    pub client_token: Option<String>,
    pub reference: Option<String>,
    pub update_interval: Option<u64>,
    pub fetch_mode: Option<String>,
}

/// The mathematical value of an [`EngineConfiguration`].
pub struct EngineConfigurationView {
    pub url: Seq<char>,
    pub namespace: Seq<char>,
    pub environment: Seq<char>,
    pub client_token: Option<Seq<char>>,
    pub reference: Option<Seq<char>>,
    pub update_interval: Option<u64>,
    pub fetch_mode: Option<Seq<char>>,
}

impl View for EngineConfiguration {
    type V = EngineConfigurationView;

    open spec fn view(&self) -> EngineConfigurationView {
        EngineConfigurationView {
            url: self.url@,
            namespace: self.namespace@,
            environment: self.environment@,
            client_token: self.client_token.deep_view(),
            reference: self.reference.deep_view(),
            update_interval: self.update_interval,
            fetch_mode: self.fetch_mode.deep_view(),
        }
    }
}

/// A text that was given, or else the default.
pub open spec fn given_or(text: Option<Seq<char>>, default: Seq<char>) -> Seq<char> {
    match text {
        Some(given) => given,
        None => default,
    }
}

/// An optional text as it is forwarded: an empty text counts as none.
pub open spec fn supplied(text: Option<Seq<char>>) -> Option<Seq<char>> {
    match text {
        Some(given) => if given.len() == 0 {
            None
        } else {
            Some(given)
        },
        None => None,
    }
}

impl ClientOptionsView {
    /// Options that set nothing.
    pub open spec fn unset(self) -> bool {
        &&& self.environment is None
        &&& self.namespace is None
        &&& self.url is None
        &&& self.update_interval is None
        &&& self.reference is None
        &&& self.client_token is None
        &&& self.fetch_mode is None
    }

    /// The configuration that these options resolve to.
    pub open spec fn resolved(self) -> EngineConfigurationView {
        EngineConfigurationView {
            url: given_or(self.url, "http://localhost:8080"@),
            namespace: given_or(self.namespace, "default"@),
            environment: given_or(self.environment, "default"@),
            client_token: supplied(self.client_token),
            reference: supplied(self.reference),
            update_interval: self.update_interval,
            fetch_mode: supplied(self.fetch_mode),
        }
    }
}

impl EngineConfigurationView {
    /// Whether every optional text that is present is non-empty.
    pub open spec fn well_formed(self) -> bool {
        &&& self.client_token matches Some(token) ==> token.len() > 0
        &&& self.reference matches Some(reference) ==> reference.len() > 0
        &&& self.fetch_mode matches Some(mode) ==> mode.len() > 0
    }

    /// The members of the configuration's JSON object: `url`, `namespace`
    /// and `environment` always; `authentication`, an object that holds the
    /// client token under `token`, `reference`, `update_interval` and
    /// `fetch_mode` where the configuration has them.
    pub open spec fn members(self) -> Members {
        let required = Members::empty().insert("url"@, Json::Text(self.url)).insert(
            "namespace"@,
            Json::Text(self.namespace),
        ).insert("environment"@, Json::Text(self.environment));
        let with_token = match self.client_token {
            Some(token) => required.insert(
                "authentication"@,
                Json::Object(Members::empty().insert("token"@, Json::Text(token))),
            ),
            None => required,
        };
        let with_reference = match self.reference {
            Some(reference) => with_token.insert("reference"@, Json::Text(reference)),
            None => with_token,
        };
        let with_interval = match self.update_interval {
            Some(interval) => with_reference.insert(
                "update_interval"@,
                Json::Integer(interval as int),
            ),
            None => with_reference,
        };
        match self.fetch_mode {
            Some(mode) => with_interval.insert("fetch_mode"@, Json::Text(mode)),
            None => with_interval,
        }
    }

    /// The configuration as a JSON document.
    pub open spec fn document(self) -> Json {
        Json::Object(self.members())
    }
}

/// The error for a configuration that could not be written as JSON.
pub open spec fn serialization_failure(detail: Seq<char>) -> FliptErrorView {
    FliptErrorView::InvalidRequest {
        message: "Failed to serialize client configuration: "@ + detail,
    }
}

/// Builds the error for a configuration that could not be written as
/// JSON, from the diagnostic of the failure.
pub fn serialization_error(detail: &str) -> (error: FliptError)
    ensures
        error@ == serialization_failure(detail@),
{
    FliptError::InvalidRequest {
        message: prefixed("Failed to serialize client configuration: ", detail),
    }
}

fn text_or(text: Option<String>, default: &str) -> (out: String)
    ensures
        out@ == given_or(text.deep_view(), default@),
{
    match text {
        Some(given) => given,
        None => default.to_string(),
    }
}

fn non_empty(text: Option<String>) -> (out: Option<String>)
    ensures
        out.deep_view() == supplied(text.deep_view()),
{
    match text {
        Some(given) => if given.as_str().is_empty() {
            None
        } else {
            Some(given)
        },
        None => None,
    }
}

impl ClientOptions {
    /// Resolves the options: what is left out takes its default, and an
    /// optional text that is empty is dropped.
    pub fn resolve(self) -> (config: EngineConfiguration)
        ensures
            config@ == self@.resolved(),
            config@.well_formed(),
    {
        EngineConfiguration {
            url: text_or(self.url, "http://localhost:8080"),
            namespace: text_or(self.namespace, "default"),
            environment: text_or(self.environment, "default"),
            client_token: non_empty(self.client_token),
            reference: non_empty(self.reference),
            update_interval: self.update_interval,
            fetch_mode: non_empty(self.fetch_mode),
        }
    }
}

impl EngineConfiguration {
    /// Builds the configuration's JSON document.
    pub fn to_json(&self) -> (value: serde_json::Value)
        ensures
            json_view(value) == self@.document(),
    {
        let mut object = new_object();
        let _ = insert_member(&mut object, "url".to_string(), text_value(self.url.clone()));
        let _ = insert_member(
            &mut object,
            "namespace".to_string(),
            text_value(self.namespace.clone()),
        );
        let _ = insert_member(
            &mut object,
            "environment".to_string(),
            text_value(self.environment.clone()),
        );
        if let Some(token) = &self.client_token {
            let mut authentication = new_object();
            let _ = insert_member(
                &mut authentication,
                "token".to_string(),
                text_value(token.clone()),
            );
            let _ = insert_member(
                &mut object,
                "authentication".to_string(),
                object_value(authentication),
            );
        }
        if let Some(reference) = &self.reference {
            let _ = insert_member(
                &mut object,
                "reference".to_string(),
                text_value(reference.clone()),
            );
        }
        if let Some(interval) = self.update_interval {
            let _ = insert_member(
                &mut object,
                "update_interval".to_string(),
                number_value(interval),
            );
        }
        if let Some(mode) = &self.fetch_mode {
            let _ = insert_member(&mut object, "fetch_mode".to_string(), text_value(mode.clone()));
        }
        object_value(object)
    }

    /// Writes the configuration as the JSON text that the engine is
    /// started with. Every configuration can be written. Should the writer
    /// fail all the same, the failure comes back as an invalid request that
    /// carries its diagnostic.
    pub fn encode(&self) -> (result: Result<String, FliptError>)
        ensures
            result matches Ok(payload) && payload@ == json_text(self@.document()),
    {
        let value = self.to_json();
        match write_text(&value) {
            Ok(payload) => Ok(payload),
            Err(failure) => Err(serialization_error(failure.to_string().as_str())),
        }
    }
}

/// The seven keys of the configuration object are seven different texts.
proof fn lemma_keys_differ()
    ensures
        "url"@.len() == 3,
        "namespace"@.len() == 9,
        "environment"@.len() == 11,
        "authentication"@.len() == 14,
        "reference"@.len() == 9,
        "update_interval"@.len() == 15,
        "fetch_mode"@.len() == 10,
        "namespace"@[0] == 'n',
        "reference"@[0] == 'r',
{
    reveal_strlit("url");
    reveal_strlit("namespace");
    reveal_strlit("environment");
    reveal_strlit("authentication");
    reveal_strlit("reference");
    reveal_strlit("update_interval");
    reveal_strlit("fetch_mode");
}

/// What the configuration object holds, key by key: the three required
/// members always, each optional member exactly when the configuration has
/// it, and no member under any other key.
pub proof fn lemma_members_by_key(config: EngineConfigurationView)
    ensures
        config.members().contains_key("url"@),
        config.members()["url"@] == Json::Text(config.url),
        config.members().contains_key("namespace"@),
        config.members()["namespace"@] == Json::Text(config.namespace),
        config.members().contains_key("environment"@),
        config.members()["environment"@] == Json::Text(config.environment),
        config.members().contains_key("authentication"@) <==> config.client_token is Some,
        config.client_token matches Some(token) ==> config.members()["authentication"@]
            == Json::Object(Members::empty().insert("token"@, Json::Text(token))),
        config.members().contains_key("reference"@) <==> config.reference is Some,
        config.reference matches Some(reference) ==> config.members()["reference"@] == Json::Text(
            reference,
        ),
        config.members().contains_key("update_interval"@) <==> config.update_interval is Some,
        config.update_interval matches Some(interval) ==> config.members()["update_interval"@]
            == Json::Integer(interval as int),
        config.members().contains_key("fetch_mode"@) <==> config.fetch_mode is Some,
        config.fetch_mode matches Some(mode) ==> config.members()["fetch_mode"@] == Json::Text(
            mode,
        ),
        forall|key: Seq<char>| #[trigger]
            config.members().contains_key(key) ==> key == "url"@ || key == "namespace"@ || key
                == "environment"@ || key == "authentication"@ || key == "reference"@ || key
                == "update_interval"@ || key == "fetch_mode"@,
{
    lemma_keys_differ();
}

/// Options that set nothing resolve to the three defaults: the URL
/// `http://localhost:8080`, the namespace `default` and the environment
/// `default`. The configuration object then holds these three members and no
/// other.
pub proof fn lemma_unset_options_give_defaults(options: ClientOptionsView)
    requires
        options.unset(),
    ensures
        options.resolved() == (EngineConfigurationView {
            url: "http://localhost:8080"@,
            namespace: "default"@,
            environment: "default"@,
            client_token: None,
            reference: None,
            update_interval: None,
            fetch_mode: None,
        }),
        options.resolved().members().dom() =~= set!["url"@, "namespace"@, "environment"@],
        options.resolved().members()["url"@] == Json::Text("http://localhost:8080"@),
        options.resolved().members()["namespace"@] == Json::Text("default"@),
        options.resolved().members()["environment"@] == Json::Text("default"@),
        !options.resolved().members().contains_key("authentication"@),
        !options.resolved().members().contains_key("reference"@),
        !options.resolved().members().contains_key("update_interval"@),
        !options.resolved().members().contains_key("fetch_mode"@),
{
    lemma_members_by_key(options.resolved());
}

/// An optional text that is empty counts as left out: with an empty client
/// token the configuration has no token and its object no `authentication`
/// member, and likewise for the reference and the fetch mode.
pub proof fn lemma_empty_text_is_not_forwarded(options: ClientOptionsView)
    ensures
        options.client_token == Some(Seq::<char>::empty()) ==> options.resolved().client_token
            is None && !options.resolved().members().contains_key("authentication"@),
        options.reference == Some(Seq::<char>::empty()) ==> options.resolved().reference is None
            && !options.resolved().members().contains_key("reference"@),
        options.fetch_mode == Some(Seq::<char>::empty()) ==> options.resolved().fetch_mode
            is None && !options.resolved().members().contains_key("fetch_mode"@),
{
    lemma_members_by_key(options.resolved());
}

} // verus!
