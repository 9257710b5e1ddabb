//! Gateway configuration records and their defaults.
use vstd::prelude::*;
use tracing::Level as TracingLevel;

verus! {

/// Declares `tracing::Level` so that a configured log level can be carried.
#[verifier::external_type_specification]
#[verifier::external_body]
pub struct ExTracingLevel(TracingLevel);

pub struct ConductorConfig {
    pub server: ServerConfig,
    pub logger: LoggerConfig,
    pub sources: Vec<SourceDefinition>,
    pub endpoints: Vec<EndpointDefinition>,
}

pub struct EndpointDefinition {
    pub path: String,
    pub from: String,
    pub graphiql: bool,
}

/// A log level, by the names that the `tracing` crate gives its levels.
#[derive(Clone, Copy, Debug, PartialEq, Eq, Structural)]
pub enum Level {
    Trace,
    Debug,
    Info,
    Warn,
    Error,
}

/// Relies on `tracing::Level`'s five constants, one for each level.
#[verifier::external_body]
fn tracing_level(l: Level) -> TracingLevel {
    match l {
        Level::Trace => TracingLevel::TRACE,
        Level::Debug => TracingLevel::DEBUG,
        Level::Info => TracingLevel::INFO,
        Level::Warn => TracingLevel::WARN,
        Level::Error => TracingLevel::ERROR,
    }
}

impl Level {
    /// The `tracing` level of the same name.
    pub fn into_level(self) -> TracingLevel {
        tracing_level(self)
    }
}

pub struct LoggerConfig {
    pub level: Level,
}

pub struct ServerConfig {
    pub port: u16,
    pub host: String,
}

pub enum SourceDefinition {
    GraphQL { id: String, config: GraphQLSourceConfig },
}

pub struct GraphQLSourceConfig {
    pub endpoint: String,
}

pub fn default_endpoint_graphiql() -> (r: bool)
    ensures
        r,
{
    true
}

pub fn default_logger_level() -> (r: Level)
    ensures
        r == Level::Info,
{
    Level::Info
}

pub fn default_server_port() -> (r: u16)
    ensures
        r == 9000,
{
    9000
}

pub fn default_server_host() -> (r: String)
    ensures
        r@ == "127.0.0.1"@,
{
    let r = String::from_str("127.0.0.1");
    r
}

} // verus!
