//! The rules that a manifest must meet, stated as spec functions, and the
//! checks that find the first rule a manifest breaks.

use vstd::prelude::*;
use indexmap::IndexMap;
use crate::error::{ValidationError, Violation};
use crate::model::{
    processes_empty, variable_count, variable_name_at, worker_at, worker_count, App, Build,
    DeployManifest, EnvValue, Health, Network, Runtime, Scaling, Start, Storage, Worker,
};
use crate::text::{contains_str, decimal_string, join_strs, str_eq};

verus! {

/// Whether a check's outcome reports exactly the violation `v`: success
/// when there is none, else an error whose content is `v`.
pub open spec fn reports(r: Result<(), ValidationError>, v: Option<Violation>) -> bool {
    match r {
        Ok(_) => v is None,
        Err(e) => v == Some(e@),
    }
}

/// The earlier of two findings: `a` if it found a violation, else `b`.
pub open spec fn first_of(a: Option<Violation>, b: Option<Violation>) -> Option<Violation> {
    if a is Some { a } else { b }
}

/// A value that can be held to the manifest rules.
pub trait Validate {
    /// The first rule that this value breaks, or `None` when it meets them all.
    spec fn violation(&self) -> Option<Violation>;

    /// Checks this value against the rules and reports the first one it breaks.
    fn validate(&self) -> (r: Result<(), ValidationError>)
        ensures
            reports(r, self.violation()),
    ;
}

/// A character that may stand in a DNS label: a lowercase ASCII letter, an
/// ASCII digit, or a hyphen.
pub open spec fn dns_safe_char(c: char) -> bool {
    ('a' <= c && c <= 'z') || ('0' <= c && c <= '9') || c == '-'
}

/// Whether every character of `s` may stand in a DNS label.
pub open spec fn dns_safe(s: Seq<char>) -> bool {
    forall|i: int| 0 <= i < s.len() ==> dns_safe_char(#[trigger] s[i])
}

/// The number of bytes of the UTF-8 encoding of `s`.
pub open spec fn utf8_len(s: Seq<char>) -> nat {
    vstd::utf8::encode_utf8(s).len()
}

/// The longest application name, in bytes.
pub const MAX_APP_NAME_LEN: usize = 64;

/// The rule on an application name: present, at most 64 bytes long, and
/// made only of lowercase letters, digits and hyphens.
pub open spec fn app_name_violation(name: Seq<char>) -> Option<Violation> {
    if name.len() == 0 {
        Some(Violation::MissingField("app.name"@))
    } else if utf8_len(name) > 64 {
        Some(Violation::InvalidValue("app.name"@, "maximum 64 characters, got "@ + crate::text::decimal(utf8_len(name))))
    } else if !dns_safe(name) {
        Some(Violation::InvalidValue("app.name"@, "must be DNS-safe (lowercase alphanumeric and hyphens only)"@))
    } else {
        None
    }
}

fn dns_safe_str(s: &str) -> (r: bool)
    ensures
        r == dns_safe(s@),
{
    let n = s.unicode_len();
    let mut i: usize = 0;
    while i < n
        invariant
            n == s@.len(),
            i <= n,
            forall|j: int| 0 <= j < i ==> dns_safe_char(#[trigger] s@[j]),
        decreases n - i,
    {
        let c = s.get_char(i);
        if !(('a' <= c && c <= 'z') || ('0' <= c && c <= '9') || c == '-') {
            return false;
        }
        i = i + 1;
    }
    true
}

impl Validate for App {
    open spec fn violation(&self) -> Option<Violation> {
        app_name_violation(self.name@)
    }

    fn validate(&self) -> (r: Result<(), ValidationError>) {
        let name = self.name.as_str();
        if name.is_empty() {
            return Err(ValidationError::MissingField("app.name"));
        }
        let len = name.as_bytes().len();
        if len > MAX_APP_NAME_LEN {
            let mut detail = String::from_str("maximum 64 characters, got ");
            let digits = decimal_string(len as u64);
            detail.append(digits.as_str());
            return Err(ValidationError::InvalidValue { field: "app.name", detail });
        }
        if !dns_safe_str(name) {
            return Err(ValidationError::InvalidValue {
                field: "app.name",
                detail: String::from_str("must be DNS-safe (lowercase alphanumeric and hyphens only)"),
            });
        }
        Ok(())
    }
}

/// The runtimes that a manifest may name, in the order in which messages list them.
pub open spec fn supported_runtimes() -> Seq<Seq<char>> {
    seq![
        "php"@, "node"@, "python"@, "rust"@, "go"@, "java"@, "bun"@, "deno"@, "static"@,
        "custom"@,
    ]
}

fn runtime_list() -> (v: Vec<&'static str>)
    ensures
        crate::text::texts(v@) == supported_runtimes(),
{
    let v = vec!["php", "node", "python", "rust", "go", "java", "bun", "deno", "static", "custom"];
    assert(crate::text::texts(v@) =~= supported_runtimes());
    v
}

/// The rule on a runtime: its type is present and is one of the supported runtimes.
pub open spec fn runtime_violation(runtime_type: Seq<char>) -> Option<Violation> {
    if runtime_type.len() == 0 {
        Some(Violation::MissingField("runtime.type"@))
    } else if !supported_runtimes().contains(runtime_type) {
        Some(Violation::InvalidValue(
            "runtime.type"@,
            "unsupported runtime '"@ + runtime_type + "', expected one of: "@
                + crate::text::join(supported_runtimes(), ", "@),
        ))
    } else {
        None
    }
}

impl Validate for Runtime {
    open spec fn violation(&self) -> Option<Violation> {
        runtime_violation(self.runtime_type@)
    }

    fn validate(&self) -> (r: Result<(), ValidationError>) {
        let rt = self.runtime_type.as_str();
        if rt.is_empty() {
            return Err(ValidationError::MissingField("runtime.type"));
        }
        let supported = runtime_list();
        if !contains_str(&supported, rt) {
            let mut detail = String::from_str("unsupported runtime '");
            detail.append(rt);
            detail.append("', expected one of: ");
            let listed = join_strs(&supported, ", ");
            detail.append(listed.as_str());
            return Err(ValidationError::InvalidValue { field: "runtime.type", detail });
        }
        Ok(())
    }
}

/// The build strategies that a manifest may name, in the order in which
/// messages list them.
pub open spec fn supported_strategies() -> Seq<Seq<char>> {
    seq!["auto"@, "custom"@, "dockerfile"@, "buildpack"@, "nixpacks"@, "none"@]
}

fn strategy_list() -> (v: Vec<&'static str>)
    ensures
        crate::text::texts(v@) == supported_strategies(),
{
    let v = vec!["auto", "custom", "dockerfile", "buildpack", "nixpacks", "none"];
    assert(crate::text::texts(v@) =~= supported_strategies());
    v
}

/// Whether some variable of a build has an empty name.
pub open spec fn has_unnamed_variable(entries: Seq<(Seq<char>, Seq<char>, bool)>) -> bool {
    exists|i: int| 0 <= i < entries.len() && (#[trigger] entries[i]).0.len() == 0
}

/// The rule on a build: a supported strategy; commands when the strategy is
/// "custom"; and no variable with an empty name.
pub open spec fn build_violation(
    strategy: Seq<char>,
    has_commands: bool,
    variables: Option<Seq<(Seq<char>, Seq<char>, bool)>>,
) -> Option<Violation> {
    if !supported_strategies().contains(strategy) {
        Some(Violation::InvalidValue(
            "build.strategy"@,
            "unsupported strategy '"@ + strategy + "', expected one of: "@
                + crate::text::join(supported_strategies(), ", "@),
        ))
    } else if strategy == "custom"@ && !has_commands {
        Some(Violation::MissingField("build.commands"@))
    } else if variables matches Some(vars) && has_unnamed_variable(vars) {
        Some(Violation::InvalidValue("build.variables"@, "variable name must not be empty"@))
    } else {
        None
    }
}

fn has_unnamed_variable_in(vars: &IndexMap<String, EnvValue>) -> (r: bool)
    ensures
        r == has_unnamed_variable(crate::model::variable_entries(*vars)),
{
    let n = variable_count(vars);
    let mut i: usize = 0;
    while i < n
        invariant
            n == crate::model::variable_entries(*vars).len(),
            i <= n,
            forall|j: int| 0 <= j < i ==> (#[trigger] crate::model::variable_entries(*vars)[j]).0.len() != 0,
        decreases n - i,
    {
        let name = variable_name_at(vars, i);
        if name.as_str().is_empty() {
            return true;
        }
        i = i + 1;
    }
    false
}

impl Validate for Build {
    open spec fn violation(&self) -> Option<Violation> {
        build_violation(
            self.strategy@,
            self.commands is Some,
            match self.variables {
                Some(vars) => Some(crate::model::variable_entries(vars)),
                None => None,
            },
        )
    }

    fn validate(&self) -> (r: Result<(), ValidationError>) {
        let strategy = self.strategy.as_str();
        let supported = strategy_list();
        if !contains_str(&supported, strategy) {
            let mut detail = String::from_str("unsupported strategy '");
            detail.append(strategy);
            detail.append("', expected one of: ");
            let listed = join_strs(&supported, ", ");
            detail.append(listed.as_str());
            return Err(ValidationError::InvalidValue { field: "build.strategy", detail });
        }
        if str_eq(strategy, "custom") && self.commands.is_none() {
            return Err(ValidationError::MissingField("build.commands"));
        }
        match &self.variables {
            Some(vars) => {
                if has_unnamed_variable_in(vars) {
                    return Err(ValidationError::InvalidValue {
                        field: "build.variables",
                        detail: String::from_str("variable name must not be empty"),
                    });
                }
            },
            None => {},
        }
        Ok(())
    }
}

impl Validate for Start {
    open spec fn violation(&self) -> Option<Violation> {
        match self {
            Start::Simple(cmd) => if cmd.command@.len() == 0 {
                Some(Violation::MissingField("start.command"@))
            } else {
                None
            },
            Start::Multi(processes) => if crate::model::process_entries(*processes).len() == 0 {
                Some(Violation::MissingField("start"@))
            } else {
                None
            },
        }
    }

    fn validate(&self) -> (r: Result<(), ValidationError>) {
        match self {
            Start::Simple(cmd) => {
                if cmd.command.as_str().is_empty() {
                    return Err(ValidationError::MissingField("start.command"));
                }
            },
            Start::Multi(processes) => {
                if processes_empty(processes) {
                    return Err(ValidationError::MissingField("start"));
                }
            },
        }
        Ok(())
    }
}

/// The rule on a worker: a command, and at least one replica.
pub open spec fn worker_violation(command: Seq<char>, replicas: u32) -> Option<Violation> {
    if command.len() == 0 {
        Some(Violation::MissingField("workers.command"@))
    } else if replicas < 1 {
        Some(Violation::InvalidValue("workers.replicas"@, "must be >= 1"@))
    } else {
        None
    }
}

impl Validate for Worker {
    open spec fn violation(&self) -> Option<Violation> {
        worker_violation(self.command@, self.replicas)
    }

    fn validate(&self) -> (r: Result<(), ValidationError>) {
        if self.command.as_str().is_empty() {
            return Err(ValidationError::MissingField("workers.command"));
        }
        if self.replicas < 1 {
            return Err(ValidationError::InvalidValue {
                field: "workers.replicas",
                detail: String::from_str("must be >= 1"),
            });
        }
        Ok(())
    }
}

/// The rule on one named worker: the worker's own rule, then a non-empty name.
pub open spec fn named_worker_violation(entry: (Seq<char>, Seq<char>, u32)) -> Option<Violation> {
    first_of(
        worker_violation(entry.1, entry.2),
        if entry.0.len() == 0 {
            Some(Violation::InvalidValue("workers"@, "worker name must not be empty"@))
        } else {
            None
        },
    )
}

/// The first violation among named workers, taken in their order.
pub open spec fn workers_violation(entries: Seq<(Seq<char>, Seq<char>, u32)>) -> Option<Violation>
    decreases entries.len(),
{
    if entries.len() == 0 {
        None
    } else {
        first_of(named_worker_violation(entries[0]), workers_violation(entries.drop_first()))
    }
}

fn validate_workers(workers: &IndexMap<String, Worker>) -> (r: Result<(), ValidationError>)
    ensures
        reports(r, workers_violation(crate::model::worker_entries(*workers))),
{
    let ghost entries = crate::model::worker_entries(*workers);
    let n = worker_count(workers);
    let mut i: usize = 0;
    assert(entries.skip(0) =~= entries);
    while i < n
        invariant
            entries == crate::model::worker_entries(*workers),
            n == entries.len(),
            i <= n,
            workers_violation(entries) == workers_violation(entries.skip(i as int)),
        decreases n - i,
    {
        let (name, worker) = worker_at(workers, i);
        assert(entries.skip(i as int).drop_first() =~= entries.skip(i + 1));
        assert(entries.skip(i as int)[0] == entries[i as int]);
        match worker.validate() {
            Err(e) => return Err(e),
            Ok(()) => {},
        }
        if name.as_str().is_empty() {
            return Err(ValidationError::InvalidValue {
                field: "workers",
                detail: String::from_str("worker name must not be empty"),
            });
        }
        i = i + 1;
    }
    assert(entries.skip(n as int).len() == 0);
    Ok(())
}

impl Validate for Network {
    open spec fn violation(&self) -> Option<Violation> {
        if self.port == Some(0u16) {
            Some(Violation::InvalidValue("network.port"@, "must be between 1 and 65535"@))
        } else {
            None
        }
    }

    fn validate(&self) -> (r: Result<(), ValidationError>) {
        match self.port {
            Some(port) => {
                if port == 0 {
                    return Err(ValidationError::InvalidValue {
                        field: "network.port",
                        detail: String::from_str("must be between 1 and 65535"),
                    });
                }
            },
            None => {},
        }
        Ok(())
    }
}

/// The rule on scaling: the minimum is not above the maximum when both are
/// given, and a CPU target lies between 1 and 100.
pub open spec fn scaling_violation(min: Option<u32>, max: Option<u32>, cpu: Option<u32>) -> Option<Violation> {
    if min is Some && max is Some && min->0 > max->0 {
        Some(Violation::InvalidValue(
            "scaling"@,
            "min ("@ + crate::text::decimal(min->0 as nat) + ") must be <= max ("@
                + crate::text::decimal(max->0 as nat) + ")"@,
        ))
    } else if cpu is Some && (cpu->0 == 0 || cpu->0 > 100) {
        Some(Violation::InvalidValue("scaling.cpu_target"@, "must be between 1 and 100"@))
    } else {
        None
    }
}

impl Validate for Scaling {
    open spec fn violation(&self) -> Option<Violation> {
        scaling_violation(self.min, self.max, self.cpu_target)
    }

    fn validate(&self) -> (r: Result<(), ValidationError>) {
        match (self.min, self.max) {
            (Some(min), Some(max)) => {
                if min > max {
                    let mut detail = String::from_str("min (");
                    let lo = decimal_string(min as u64);
                    detail.append(lo.as_str());
                    detail.append(") must be <= max (");
                    let hi = decimal_string(max as u64);
                    detail.append(hi.as_str());
                    detail.append(")");
                    return Err(ValidationError::InvalidValue { field: "scaling", detail });
                }
            },
            _ => {},
        }
        match self.cpu_target {
            Some(cpu) => {
                if cpu == 0 || cpu > 100 {
                    return Err(ValidationError::InvalidValue {
                        field: "scaling.cpu_target",
                        detail: String::from_str("must be between 1 and 100"),
                    });
                }
            },
            None => {},
        }
        Ok(())
    }
}

impl Validate for Health {
    open spec fn violation(&self) -> Option<Violation> {
        match self {
            Health::Path { path, .. } => if path@.len() == 0 {
                Some(Violation::MissingField("health.path"@))
            } else {
                None
            },
            Health::Command { command, .. } => if command@.len() == 0 {
                Some(Violation::MissingField("health.command"@))
            } else {
                None
            },
        }
    }

    fn validate(&self) -> (r: Result<(), ValidationError>) {
        match self {
            Health::Path { path, .. } => {
                if path.as_str().is_empty() {
                    return Err(ValidationError::MissingField("health.path"));
                }
            },
            Health::Command { command, .. } => {
                if command.as_str().is_empty() {
                    return Err(ValidationError::MissingField("health.command"));
                }
            },
        }
        Ok(())
    }
}

/// The rule on storage: every volume has a name.
pub open spec fn storage_violation(storage: Seq<Storage>) -> Option<Violation> {
    if exists|i: int| 0 <= i < storage.len() && (#[trigger] storage[i]).name@.len() == 0 {
        Some(Violation::InvalidValue("storage.name"@, "storage name must not be empty"@))
    } else {
        None
    }
}

fn validate_storage(storage: &Vec<Storage>) -> (r: Result<(), ValidationError>)
    ensures
        reports(r, storage_violation(storage@)),
{
    let mut i: usize = 0;
    while i < storage.len()
        invariant
            i <= storage.len(),
            forall|j: int| 0 <= j < i ==> (#[trigger] storage@[j]).name@.len() != 0,
        decreases storage.len() - i,
    {
        if storage[i].name.as_str().is_empty() {
            return Err(ValidationError::InvalidValue {
                field: "storage.name",
                detail: String::from_str("storage name must not be empty"),
            });
        }
        i = i + 1;
    }
    Ok(())
}

/// The finding of an optional part: `None` when the part is absent.
pub open spec fn optional_violation<T: Validate>(part: Option<T>) -> Option<Violation> {
    match part {
        Some(p) => p.violation(),
        None => None,
    }
}

/// The rules on a whole manifest, in the order in which they are checked:
/// the version, the application, the runtime, the start command, the build,
/// the workers, the network, scaling, the health check, and storage.
pub open spec fn manifest_violation(m: DeployManifest) -> Option<Violation> {
    if m.version != 1 {
        Some(Violation::UnsupportedVersion(m.version))
    } else {
        first_of(m.app.violation(),
        first_of(m.runtime.violation(),
        first_of(m.start.violation(),
        first_of(optional_violation(m.build),
        first_of(match m.workers {
                    Some(w) => workers_violation(crate::model::worker_entries(w)),
                    None => None,
                },
        first_of(optional_violation(m.network),
        first_of(optional_violation(m.scaling),
        first_of(optional_violation(m.health),
                match m.storage {
                    Some(s) => storage_violation(s@),
                    None => None,
                }))))))))
    }
}

impl Validate for DeployManifest {
    open spec fn violation(&self) -> Option<Violation> {
        manifest_violation(*self)
    }

    fn validate(&self) -> (r: Result<(), ValidationError>) {
        if self.version != 1 {
            return Err(ValidationError::UnsupportedVersion(self.version));
        }
        self.app.validate()?;
        self.runtime.validate()?;
        self.start.validate()?;
        match &self.build {
            Some(build) => build.validate()?,
            None => {},
        }
        match &self.workers {
            Some(workers) => validate_workers(workers)?,
            None => {},
        }
        match &self.network {
            Some(network) => network.validate()?,
            None => {},
        }
        match &self.scaling {
            Some(scaling) => scaling.validate()?,
            None => {},
        }
        match &self.health {
            Some(health) => health.validate()?,
            None => {},
        }
        match &self.storage {
            Some(storage) => validate_storage(storage)?,
            None => {},
        }
        Ok(())
    }
}

/// Every rule of the specification at once, each stated on its own: the
/// conditions that a manifest must meet to be accepted.
pub open spec fn manifest_conforms(m: DeployManifest) -> bool {
    &&& m.version == 1
    &&& m.app.name@.len() > 0
    &&& utf8_len(m.app.name@) <= 64
    &&& dns_safe(m.app.name@)
    &&& m.runtime.runtime_type@.len() > 0
    &&& supported_runtimes().contains(m.runtime.runtime_type@)
    &&& match m.start {
        Start::Simple(cmd) => cmd.command@.len() > 0,
        Start::Multi(processes) => crate::model::process_entries(processes).len() > 0,
    }
    &&& (m.build matches Some(b) ==> {
        &&& supported_strategies().contains(b.strategy@)
        &&& (b.strategy@ == "custom"@ ==> b.commands is Some)
        &&& (b.variables matches Some(vars) ==> forall|i: int|
            0 <= i < crate::model::variable_entries(vars).len()
                ==> (#[trigger] crate::model::variable_entries(vars)[i]).0.len() > 0)
    })
    &&& (m.workers matches Some(w) ==> forall|i: int|
        0 <= i < crate::model::worker_entries(w).len() ==> {
            let e = #[trigger] crate::model::worker_entries(w)[i];
            e.0.len() > 0 && e.1.len() > 0 && e.2 >= 1
        })
    &&& (m.network matches Some(n) ==> n.port != Some(0u16))
    &&& (m.scaling matches Some(sc) ==> {
        &&& (sc.min is Some && sc.max is Some ==> sc.min->0 <= sc.max->0)
        &&& (sc.cpu_target matches Some(cpu) ==> 1 <= cpu <= 100)
    })
    &&& (m.health matches Some(h) ==> match h {
        Health::Path { path, .. } => path@.len() > 0,
        Health::Command { command, .. } => command@.len() > 0,
    })
    &&& (m.storage matches Some(st) ==> forall|i: int|
        0 <= i < st@.len() ==> (#[trigger] st@[i]).name@.len() > 0)
}

/// Named workers pass exactly when each of them has a name, a command and
/// at least one replica.
pub proof fn lemma_workers_pass(entries: Seq<(Seq<char>, Seq<char>, u32)>)
    ensures
        workers_violation(entries) is None <==> forall|i: int|
            0 <= i < entries.len() ==> {
                let e = #[trigger] entries[i];
                e.0.len() > 0 && e.1.len() > 0 && e.2 >= 1
            },
    decreases entries.len(),
{
    if entries.len() > 0 {
        lemma_workers_pass(entries.drop_first());
        if workers_violation(entries) is None {
            assert forall|i: int| 0 <= i < entries.len() implies {
                let e = #[trigger] entries[i];
                e.0.len() > 0 && e.1.len() > 0 && e.2 >= 1
            } by {
                if i > 0 {
                    assert(entries[i] == entries.drop_first()[i - 1]);
                }
            }
        } else {
            let e0 = entries[0];
            if named_worker_violation(e0) is None {
                let k = choose|k: int| 0 <= k < entries.drop_first().len() && !({
                    let e = #[trigger] entries.drop_first()[k];
                    e.0.len() > 0 && e.1.len() > 0 && e.2 >= 1
                });
                assert(entries[k + 1] == entries.drop_first()[k]);
            }
        }
    }
}

/// Validation accepts a manifest exactly when it meets every rule of the
/// specification; any violation is reported as an error.
pub proof fn lemma_accepts_exactly_conforming(m: DeployManifest)
    ensures
        manifest_violation(m) is None <==> manifest_conforms(m),
{
    match m.workers {
        Some(w) => lemma_workers_pass(crate::model::worker_entries(w)),
        None => {},
    }
    reveal_strlit("custom");
    match m.build {
        Some(b) => {
            if b.strategy@ == "custom"@ {
                assert(supported_strategies()[1] == "custom"@);
            }
        },
        None => {},
    }
    if m.runtime.runtime_type@.len() == 0 {
        assert(!supported_runtimes().contains(m.runtime.runtime_type@)) by {
            if supported_runtimes().contains(m.runtime.runtime_type@) {
                let k = choose|k: int| 0 <= k < supported_runtimes().len() && supported_runtimes()[k] == m.runtime.runtime_type@;
                reveal_strlit("php");
                reveal_strlit("node");
                reveal_strlit("python");
                reveal_strlit("rust");
                reveal_strlit("go");
                reveal_strlit("java");
                reveal_strlit("bun");
                reveal_strlit("deno");
                reveal_strlit("static");
                assert(supported_runtimes()[k].len() > 0);
            }
        }
    }
}

/// A manifest that validates has parts that each validate on their own:
/// its application, runtime and start section, and its build, workers,
/// network, scaling and health check where they are given.
pub proof fn lemma_accepted_parts_pass(m: DeployManifest)
    requires
        manifest_violation(m) is None,
    ensures
        m.app.violation() is None,
        m.runtime.violation() is None,
        m.start.violation() is None,
        m.build matches Some(b) ==> b.violation() is None,
        m.network matches Some(n) ==> n.violation() is None,
        m.scaling matches Some(sc) ==> sc.violation() is None,
        m.health matches Some(h) ==> h.violation() is None,
        m.workers matches Some(w) ==> forall|i: int|
            0 <= i < crate::model::worker_entries(w).len() ==> worker_violation(
                (#[trigger] crate::model::worker_entries(w)[i]).1,
                crate::model::worker_entries(w)[i].2,
            ) is None,
{
    match m.workers {
        Some(w) => lemma_workers_pass(crate::model::worker_entries(w)),
        None => {},
    }
}

/// An application name is rejected as missing when empty, and as too long,
/// with its length in bytes in the message, when its UTF-8 encoding takes
/// more than 64 bytes.
pub proof fn lemma_app_name_presence_and_length(name: Seq<char>)
    ensures
        name.len() == 0 ==> app_name_violation(name) == Some(Violation::MissingField("app.name"@)),
        name.len() > 0 && utf8_len(name) > 64 ==> app_name_violation(name) == Some(
            Violation::InvalidValue(
                "app.name"@,
                "maximum 64 characters, got "@ + crate::text::decimal(utf8_len(name)),
            ),
        ),
        name.len() > 0 && utf8_len(name) <= 64 ==> !(app_name_violation(name) matches Some(
            Violation::MissingField(_),
        )),
{
}

/// A non-empty application name of at most 64 bytes is accepted exactly when
/// every one of its characters is a lowercase ASCII letter `a` to `z`, an
/// ASCII digit `0` to `9`, or a hyphen; any other character makes it rejected
/// as not DNS-safe.
pub proof fn lemma_app_name_characters(name: Seq<char>)
    requires
        name.len() > 0,
        utf8_len(name) <= 64,
    ensures
        (forall|i: int| 0 <= i < name.len() ==> {
            let c = #[trigger] name[i];
            ('a' <= c && c <= 'z') || ('0' <= c && c <= '9') || c == '-'
        }) ==> app_name_violation(name) is None,
        (exists|i: int| 0 <= i < name.len() && {
            let c = #[trigger] name[i];
            !(('a' <= c && c <= 'z') || ('0' <= c && c <= '9') || c == '-')
        }) ==> app_name_violation(name) == Some(Violation::InvalidValue(
            "app.name"@,
            "must be DNS-safe (lowercase alphanumeric and hyphens only)"@,
        )),
{
}

/// Every lowercase ASCII letter, every ASCII digit and the hyphen may stand
/// in an application name.
pub proof fn lemma_dns_safe_alphabet(c: char)
    requires
        ('a' <= c && c <= 'z') || ('0' <= c && c <= '9') || c == '-',
    ensures
        dns_safe_char(c),
{
}

proof fn lemma_join_push(list: Seq<Seq<char>>, x: Seq<char>, sep: Seq<char>)
    requires
        list.len() >= 1,
    ensures
        crate::text::join(list.push(x), sep) == crate::text::join(list, sep) + sep + x,
{
    assert(list.push(x).drop_last() =~= list);
}

/// The runtime types that validation accepts are exactly php, node, python,
/// rust, go, java, bun, deno, static and custom; any other non-empty type is
/// rejected with a message that names it and lists those ten in that order.
pub proof fn lemma_runtime_types(t: Seq<char>)
    ensures
        runtime_violation(t) is None <==> (t == "php"@ || t == "node"@ || t == "python"@
            || t == "rust"@ || t == "go"@ || t == "java"@ || t == "bun"@ || t == "deno"@
            || t == "static"@ || t == "custom"@),
        t.len() > 0 && runtime_violation(t) is Some ==> runtime_violation(t) == Some(
            Violation::InvalidValue(
                "runtime.type"@,
                "unsupported runtime '"@ + t
                    + "', expected one of: php, node, python, rust, go, java, bun, deno, static, custom"@,
            ),
        ),
{
    reveal_strlit("php");
    reveal_strlit("node");
    reveal_strlit("python");
    reveal_strlit("rust");
    reveal_strlit("go");
    reveal_strlit("java");
    reveal_strlit("bun");
    reveal_strlit("deno");
    reveal_strlit("static");
    reveal_strlit("custom");
    reveal_strlit(", ");
    reveal_strlit("', expected one of: ");
    reveal_strlit("', expected one of: php, node, python, rust, go, java, bun, deno, static, custom");
    let list = supported_runtimes();
    assert(list[0] == "php"@ && list[1] == "node"@ && list[2] == "python"@ && list[3] == "rust"@
        && list[4] == "go"@ && list[5] == "java"@ && list[6] == "bun"@ && list[7] == "deno"@
        && list[8] == "static"@ && list[9] == "custom"@);
    if list.contains(t) {
        let k = choose|k: int| 0 <= k < list.len() && list[k] == t;
        assert(0 <= k < 10);
    }
    reveal_strlit("php, node, python, rust, go, java, bun, deno, static, custom");
    let sep = ", "@;
    let l1 = seq!["php"@];
    assert(crate::text::join(l1, sep) == "php"@);
    lemma_join_push(l1, "node"@, sep);
    let l2 = l1.push("node"@);
    lemma_join_push(l2, "python"@, sep);
    let l3 = l2.push("python"@);
    lemma_join_push(l3, "rust"@, sep);
    let l4 = l3.push("rust"@);
    lemma_join_push(l4, "go"@, sep);
    let l5 = l4.push("go"@);
    lemma_join_push(l5, "java"@, sep);
    let l6 = l5.push("java"@);
    lemma_join_push(l6, "bun"@, sep);
    let l7 = l6.push("bun"@);
    lemma_join_push(l7, "deno"@, sep);
    let l8 = l7.push("deno"@);
    lemma_join_push(l8, "static"@, sep);
    let l9 = l8.push("static"@);
    lemma_join_push(l9, "custom"@, sep);
    let l10 = l9.push("custom"@);
    assert(list =~= l10);
    assert(crate::text::join(list, ", "@) =~= "php, node, python, rust, go, java, bun, deno, static, custom"@);
    assert("', expected one of: "@ + crate::text::join(list, ", "@)
        =~= "', expected one of: php, node, python, rust, go, java, bun, deno, static, custom"@);
    assert("unsupported runtime '"@ + t + "', expected one of: "@ + crate::text::join(list, ", "@)
        =~= "unsupported runtime '"@ + t
            + "', expected one of: php, node, python, rust, go, java, bun, deno, static, custom"@);
}

/// The build strategies that validation accepts are exactly auto, custom,
/// dockerfile, buildpack, nixpacks and none; any other strategy is rejected
/// first, with a message that names it and lists those six in that order.
pub proof fn lemma_build_strategies(
    strategy: Seq<char>,
    has_commands: bool,
    variables: Option<Seq<(Seq<char>, Seq<char>, bool)>>,
)
    ensures
        !(strategy == "auto"@ || strategy == "custom"@ || strategy == "dockerfile"@
            || strategy == "buildpack"@ || strategy == "nixpacks"@ || strategy == "none"@)
            ==> build_violation(strategy, has_commands, variables) == Some(Violation::InvalidValue(
                "build.strategy"@,
                "unsupported strategy '"@ + strategy
                    + "', expected one of: auto, custom, dockerfile, buildpack, nixpacks, none"@,
            )),
        (strategy == "auto"@ || strategy == "custom"@ || strategy == "dockerfile"@
            || strategy == "buildpack"@ || strategy == "nixpacks"@ || strategy == "none"@)
            ==> (build_violation(strategy, has_commands, variables) is None <==> (
                (strategy == "custom"@ ==> has_commands)
                && !(variables matches Some(vars) && has_unnamed_variable(vars)))),
{
    reveal_strlit("auto");
    reveal_strlit("custom");
    reveal_strlit("dockerfile");
    reveal_strlit("buildpack");
    reveal_strlit("nixpacks");
    reveal_strlit("none");
    reveal_strlit(", ");
    reveal_strlit("', expected one of: ");
    reveal_strlit("', expected one of: auto, custom, dockerfile, buildpack, nixpacks, none");
    let list = supported_strategies();
    assert(list[0] == "auto"@ && list[1] == "custom"@ && list[2] == "dockerfile"@
        && list[3] == "buildpack"@ && list[4] == "nixpacks"@ && list[5] == "none"@);
    if list.contains(strategy) {
        let k = choose|k: int| 0 <= k < list.len() && list[k] == strategy;
        assert(0 <= k < 6);
    }
    reveal_strlit("auto, custom, dockerfile, buildpack, nixpacks, none");
    let sep = ", "@;
    let l1 = seq!["auto"@];
    assert(crate::text::join(l1, sep) == "auto"@);
    lemma_join_push(l1, "custom"@, sep);
    let l2 = l1.push("custom"@);
    lemma_join_push(l2, "dockerfile"@, sep);
    let l3 = l2.push("dockerfile"@);
    lemma_join_push(l3, "buildpack"@, sep);
    let l4 = l3.push("buildpack"@);
    lemma_join_push(l4, "nixpacks"@, sep);
    let l5 = l4.push("nixpacks"@);
    lemma_join_push(l5, "none"@, sep);
    let l6 = l5.push("none"@);
    assert(list =~= l6);
    assert(crate::text::join(list, ", "@) =~= "auto, custom, dockerfile, buildpack, nixpacks, none"@);
    assert("', expected one of: "@ + crate::text::join(list, ", "@)
        =~= "', expected one of: auto, custom, dockerfile, buildpack, nixpacks, none"@);
    assert("unsupported strategy '"@ + strategy + "', expected one of: "@ + crate::text::join(list, ", "@)
        =~= "unsupported strategy '"@ + strategy
            + "', expected one of: auto, custom, dockerfile, buildpack, nixpacks, none"@);
}

} // verus!
