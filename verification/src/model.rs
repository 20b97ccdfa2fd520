//! The data model of a deploy manifest.
//!
//! Keyed sections keep the order in which they were written, in an
//! `indexmap::IndexMap`; what the validation rules read of such a map goes
//! through the trusted items at the end of this file.

use vstd::prelude::*;
use indexmap::IndexMap;

verus! {

/// `indexmap::IndexMap`, held as an opaque value.
#[verifier::external_type_specification]
#[verifier::external_body]
#[verifier::reject_recursive_types(K)]
#[verifier::reject_recursive_types(V)]
#[verifier::reject_recursive_types(S)]
pub struct ExIndexMap<K, V, S>(IndexMap<K, V, S>);

/// `Clone::clone` on an `IndexMap`, which the derived clones of the model call.
/// Nothing is claimed of the copy.
pub assume_specification<K, V, S>[ <IndexMap<K, V, S> as Clone>::clone ](m: &IndexMap<K, V, S>) -> IndexMap<K, V, S>
    where
        K: Clone,
        S: Clone,
        V: Clone,
;

/// `serde_json::Value`, held as an opaque value.
#[verifier::external_type_specification]
#[verifier::external_body]
pub struct ExJsonValue(serde_json::Value);

/// A whole manifest.
#[derive(Debug, Clone)]
pub struct DeployManifest {
    pub version: u32,
    pub app: App,
    pub runtime: Runtime,
    pub build: Option<Build>,
    pub start: Start,
    pub workers: Option<IndexMap<String, Worker>>,
    pub env: Option<IndexMap<String, EnvValue>>,
    pub network: Option<Network>,
    pub storage: Option<Vec<Storage>>,
    pub services: Option<IndexMap<String, Service>>,
    pub health: Option<Health>,
    pub scaling: Option<Scaling>,
    pub cron: Option<Vec<CronJob>>,
    /// Top-level keys that the specification does not define, kept as written.
    pub extensions: IndexMap<String, serde_json::Value>,
}

/// What the application is.
#[derive(Debug, Clone)]
pub struct App {
    pub name: String,
    pub description: Option<String>,
    pub homepage: Option<String>,
    pub repository: Option<String>,
    pub labels: Option<IndexMap<String, String>>,
}

/// The language runtime the application runs on.
#[derive(Debug, Clone)]
pub struct Runtime {
    /// Written `type` in a manifest.
    pub runtime_type: String,
    pub version: Option<String>,
}

/// How the application is built.
#[derive(Debug, Clone)]
pub struct Build {
    pub strategy: String,
    pub commands: Option<Vec<String>>,
    pub variables: Option<IndexMap<String, EnvValue>>,
}

/// How the application starts: one command, or named processes.
#[derive(Debug, Clone)]
pub enum Start {
    Simple(StartCommand),
    Multi(IndexMap<String, String>),
}

#[derive(Debug, Clone)]
pub struct StartCommand {
    pub command: String,
}

/// A background process and the number of its copies.
#[derive(Debug, Clone)]
pub struct Worker {
    pub command: String,
    pub replicas: u32,
}

/// An environment value: written out, or the name of a secret.
#[derive(Debug, Clone, PartialEq, Eq)]
pub enum EnvValue {
    Plain(String),
    Secret { secret: String },
}

#[derive(Debug, Clone)]
pub struct Network {
    pub port: Option<u16>,
    pub domains: Option<Vec<String>>,
    pub routes: Option<Vec<String>>,
}

/// A volume mounted into the application.
#[derive(Debug, Clone)]
pub struct Storage {
    pub name: String,
    pub mount: String,
    pub size: Option<String>,
    pub ephemeral: bool,
}

/// A backing service, such as a database.
#[derive(Debug, Clone)]
pub struct Service {
    /// Written `type` in a manifest.
    pub service_type: String,
    pub version: Option<String>,
}

/// The health check: an HTTP path or a command.
#[derive(Debug, Clone)]
pub enum Health {
    Path { path: String, interval: Option<String>, timeout: Option<String> },
    Command { command: String, interval: Option<String>, timeout: Option<String> },
}

#[derive(Debug, Clone)]
pub struct Scaling {
    pub min: Option<u32>,
    pub max: Option<u32>,
    pub cpu_target: Option<u32>,
}

#[derive(Debug, Clone)]
pub struct CronJob {
    pub name: String,
    pub schedule: String,
    pub command: String,
}

impl DeployManifest {
    /// Checks the manifest against the rules of the specification and reports
    /// the first one that it breaks.
    pub fn validate(&self) -> (r: Result<(), crate::error::ValidationError>)
        ensures
            crate::validation::reports(r, crate::validation::manifest_violation(*self)),
    {
        crate::validation::Validate::validate(self)
    }
}

/// Whether a flag is off; a flag that is off is left out when a manifest is written.
pub fn is_false(b: &bool) -> (r: bool)
    ensures
        r == !*b,
{
    !*b
}

/// What a worker map holds, in its order: each worker's name, command and replicas.
pub uninterp spec fn worker_entries(m: IndexMap<String, Worker>) -> Seq<(Seq<char>, Seq<char>, u32)>;

/// What a variable map holds, in its order: each name, the value's text,
/// and whether that text names a secret.
pub uninterp spec fn variable_entries(m: IndexMap<String, EnvValue>) -> Seq<(Seq<char>, Seq<char>, bool)>;

/// What a process map holds, in its order: each process's name and command.
pub uninterp spec fn process_entries(m: IndexMap<String, String>) -> Seq<(Seq<char>, Seq<char>)>;

/// `IndexMap::len` on a worker map: the number of its entries.
#[verifier::external_body]
pub(crate) fn worker_count(m: &IndexMap<String, Worker>) -> (n: usize)
    ensures
        n == worker_entries(*m).len(),
{
    m.len()
}

/// `IndexMap::get_index` on a worker map, at an index below its length:
/// the entry at that place in the map's order.
#[verifier::external_body]
pub(crate) fn worker_at(m: &IndexMap<String, Worker>, i: usize) -> (entry: (&String, &Worker))
    requires
        i < worker_entries(*m).len(),
    ensures
        (entry.0@, entry.1.command@, entry.1.replicas) == worker_entries(*m)[i as int],
{
    m.get_index(i).unwrap()
}

/// `IndexMap::len` on a variable map: the number of its entries.
#[verifier::external_body]
pub(crate) fn variable_count(m: &IndexMap<String, EnvValue>) -> (n: usize)
    ensures
        n == variable_entries(*m).len(),
{
    m.len()
}

/// `IndexMap::get_index` on a variable map, at an index below its length:
/// the name of the entry at that place in the map's order.
#[verifier::external_body]
pub(crate) fn variable_name_at(m: &IndexMap<String, EnvValue>, i: usize) -> (name: &String)
    requires
        i < variable_entries(*m).len(),
    ensures
        name@ == variable_entries(*m)[i as int].0,
{
    m.get_index(i).unwrap().0
}

/// `IndexMap::is_empty` on a process map: whether it has no entry.
#[verifier::external_body]
pub(crate) fn processes_empty(m: &IndexMap<String, String>) -> (r: bool)
    ensures
        r == (process_entries(*m).len() == 0),
{
    m.is_empty()
}

/// `IndexMap::len` on a process map: the number of its entries.
#[verifier::external_body]
pub(crate) fn process_count(m: &IndexMap<String, String>) -> (n: usize)
    ensures
        n == process_entries(*m).len(),
{
    m.len()
}

} // verus!
