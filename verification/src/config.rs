//! The daemon's configuration surface: the contract-deployment settings, the
//! endpoint of the circuit-management daemon, and the builder that resolves
//! them from command-line values. Reading the configuration file and the
//! node-lookup requests are the caller's work; the response bodies are
//! decoded here.

use vstd::prelude::*;

use crate::error::{ConfigurationError, GetNodeError};
use crate::json::{
    json_error_text, json_from_slice, json_str_member, spec_json_is_document,
    spec_json_str_member,
};

verus! {

/// The deployment-time settings of the application smart contract.
#[derive(Clone, Debug, PartialEq)]
pub struct DeploymentConfig {
    pub tp_name: String,
    pub tp_version: String,
    pub tp_prefix: String,
    pub tp_path: String,
    pub kafka_url: String,
    pub kafka_topic: String,
}

impl DeploymentConfig {
    /// Builds a deployment configuration from its settings.
    pub fn new(
        tp_name: String,
        tp_version: String,
        tp_prefix: String,
        tp_path: String,
        kafka_url: String,
        kafka_topic: String,
    ) -> (c: DeploymentConfig)
        ensures
            c == (DeploymentConfig { tp_name, tp_version, tp_prefix, tp_path, kafka_url, kafka_topic }),
    {
        DeploymentConfig { tp_name, tp_version, tp_prefix, tp_path, kafka_url, kafka_topic }
    }

    /// The contract's name.
    pub fn tp_name(&self) -> (r: &str)
        ensures
            r@ == self.tp_name@,
    {
        self.tp_name.as_str()
    }

    /// The contract's version.
    pub fn tp_version(&self) -> (r: &str)
        ensures
            r@ == self.tp_version@,
    {
        self.tp_version.as_str()
    }

    /// The contract's six-character address prefix.
    pub fn tp_prefix(&self) -> (r: &str)
        ensures
            r@ == self.tp_prefix@,
    {
        self.tp_prefix.as_str()
    }

    /// The path of the compiled contract.
    pub fn tp_path(&self) -> (r: &str)
        ensures
            r@ == self.tp_path@,
    {
        self.tp_path.as_str()
    }

    /// The durable queue's endpoint.
    pub fn kafka_url(&self) -> (r: &str)
        ensures
            r@ == self.kafka_url@,
    {
        self.kafka_url.as_str()
    }

    /// The topic the envelopes are published under.
    pub fn kafka_topic(&self) -> (r: &str)
        ensures
            r@ == self.kafka_topic@,
    {
        self.kafka_topic.as_str()
    }
}

/// The resolved configuration the event listener runs with.
#[derive(Clone, Debug, PartialEq)]
pub struct EventListenerConfig {
    pub splinterd_url: String,
    pub deployment_config: DeploymentConfig,
}

impl EventListenerConfig {
    /// Builds a configuration from a daemon endpoint and deployment settings.
    pub fn new(splinterd_url: String, deployment_config: DeploymentConfig) -> (c:
        EventListenerConfig)
        ensures
            c.splinterd_url == splinterd_url,
            c.deployment_config == deployment_config,
    {
        EventListenerConfig { splinterd_url, deployment_config }
    }

    /// The endpoint of the circuit-management daemon's REST API.
    pub fn splinterd_url(&self) -> (r: &str)
        ensures
            r@ == self.splinterd_url@,
    {
        self.splinterd_url.as_str()
    }

    /// The contract-deployment settings.
    pub fn deployment_config(&self) -> (r: &DeploymentConfig)
        ensures
            r == &self.deployment_config,
    {
        &self.deployment_config
    }
}

/// Resolves the listener's configuration from defaults and command-line
/// values.
#[derive(Debug)]
pub struct DataReaderConfigBuilder {
    pub splinterd_url: Option<String>,
    pub config_file: Option<String>,
}

impl Default for DataReaderConfigBuilder {
    /// The built-in defaults: the local daemon endpoint and the deployment
    /// configuration file in the working directory.
    fn default() -> (r: Self)
        ensures
            r.splinterd_url matches Some(u) && u@ == "http://127.0.0.1:8080"@,
            r.config_file matches Some(f) && f@ == "deployment-config.yaml"@,
    {
        Self {
            splinterd_url: Some(String::from_str("http://127.0.0.1:8080")),
            config_file: Some(String::from_str("deployment-config.yaml")),
        }
    }
}

impl DataReaderConfigBuilder {
    /// Overlays command-line values on this builder: a given value wins,
    /// otherwise the builder's own value moves into the result.
    pub fn with_cli_args(&mut self, splinterd_url: Option<String>, config_file: Option<String>) -> (r:
        Self)
        ensures
            r.splinterd_url == (if splinterd_url is Some {
                splinterd_url
            } else {
                old(self).splinterd_url
            }),
            r.config_file == (if config_file is Some {
                config_file
            } else {
                old(self).config_file
            }),
            final(self).splinterd_url == (if splinterd_url is Some {
                old(self).splinterd_url
            } else {
                Option::<String>::None
            }),
            final(self).config_file == (if config_file is Some {
                old(self).config_file
            } else {
                Option::<String>::None
            }),
    {
        Self {
            splinterd_url: (match splinterd_url {
                Some(u) => Some(u),
                None => self.splinterd_url.take(),
            }),
            config_file: (match config_file {
                Some(f) => Some(f),
                None => self.config_file.take(),
            }),
        }
    }

    /// The configured deployment-file path, for the caller that reads it.
    pub fn config_file(&self) -> (r: &Option<String>)
        ensures
            r == &self.config_file,
    {
        &self.config_file
    }

    /// Finishes the build. The caller parses the deployment file and hands
    /// the result in; a missing endpoint or missing deployment settings is a
    /// configuration error, named in that order.
    pub fn build(self, deployment_config: Option<DeploymentConfig>) -> (r: Result<
        EventListenerConfig,
        ConfigurationError,
    >)
        ensures
            self.splinterd_url is None ==> (r matches Err(ConfigurationError::MissingValue(m))
                && m@ == "splinterd_url"@),
            self.splinterd_url is Some && deployment_config is None ==> (r matches Err(
                ConfigurationError::MissingValue(m),
            ) && m@ == "Deployment configuration file is missing"@),
            self.splinterd_url matches Some(u) ==> deployment_config matches Some(d) ==> (r
                matches Ok(c) && c == (EventListenerConfig {
                splinterd_url: u,
                deployment_config: d,
            })),
    {
        match (self.splinterd_url, deployment_config) {
            (None, _) => Err(
                ConfigurationError::MissingValue(String::from_str("splinterd_url")),
            ),
            (Some(_), None) => Err(
                ConfigurationError::MissingValue(
                    String::from_str("Deployment configuration file is missing"),
                ),
            ),
            (Some(splinterd_url), Some(deployment_config)) => Ok(
                EventListenerConfig { splinterd_url, deployment_config },
            ),
        }
    }
}

/// A node of the network registry; only the identity is read here.
#[derive(Clone, Debug, PartialEq)]
pub struct Node {
    pub identity: String,
}

/// Decodes the daemon's status response and reads the node id out of it:
/// an error exactly when the body is not a JSON document, the document's
/// string `node_id` member otherwise, and the empty id when the member is
/// absent or not a string, as the lookup treats the id as advisory.
pub fn parse_node_status(body: &[u8]) -> (r: Result<String, GetNodeError>)
    ensures
        r is Ok <==> spec_json_is_document(body@),
        r matches Ok(id) ==> id@ == (match spec_json_str_member(body@, "node_id"@) {
            Some(s) => s,
            None => Seq::<char>::empty(),
        }),
{
    if let Err(e) = json_from_slice(body) {
        return Err(
            GetNodeError(
                String::from_str("Failed to get splinter node metadata: ").concat(
                    json_error_text(&e).as_str(),
                ),
            ),
        );
    }
    match json_str_member(body, "node_id") {
        Some(id) => Ok(id),
        None => Ok(String::new()),
    }
}

/// Decodes a node-registry response into a node record: an error exactly
/// when the body is not a JSON document with a string `identity` member,
/// since the daemon cannot run without one; otherwise that identity.
pub fn parse_node(body: &[u8]) -> (r: Result<Node, GetNodeError>)
    ensures
        r is Ok <==> (spec_json_is_document(body@) && spec_json_str_member(body@, "identity"@)
            is Some),
        r matches Ok(node) ==> Some(node.identity@) == spec_json_str_member(body@, "identity"@),
{
    if let Err(e) = json_from_slice(body) {
        return Err(
            GetNodeError(
                String::from_str("Failed to get splinter node: ").concat(
                    json_error_text(&e).as_str(),
                ),
            ),
        );
    }
    match json_str_member(body, "identity") {
        Some(identity) => Ok(Node { identity }),
        None => Err(GetNodeError(String::from_str("Failed to get splinter node: no identity"))),
    }
}

} // verus!
