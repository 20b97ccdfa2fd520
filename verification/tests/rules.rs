use deploy_manifest::validation::Validate;
use deploy_manifest::{
    App, Build, DeployManifest, EnvValue, Health, Network, Runtime, Scaling, Start, StartCommand,
    Storage, ValidationError, Worker,
};
use indexmap::IndexMap;

fn base() -> DeployManifest {
    DeployManifest {
        version: 1,
        app: App {
            name: "store".into(),
            description: None,
            homepage: None,
            repository: None,
            labels: None,
        },
        runtime: Runtime { runtime_type: "php".into(), version: Some("8.3".into()) },
        build: None,
        start: Start::Simple(StartCommand { command: "php-fpm".into() }),
        workers: None,
        env: None,
        network: None,
        storage: None,
        services: None,
        health: None,
        scaling: None,
        cron: None,
        extensions: IndexMap::new(),
    }
}

fn invalid(e: ValidationError) -> (&'static str, String) {
    match e {
        ValidationError::InvalidValue { field, detail } => (field, detail),
        other => panic!("expected an invalid value, got {:?}", other),
    }
}

fn missing(e: ValidationError) -> &'static str {
    match e {
        ValidationError::MissingField(f) => f,
        other => panic!("expected a missing field, got {:?}", other),
    }
}

#[test]
fn minimal_manifest_is_valid() {
    assert!(base().validate().is_ok());
}

#[test]
fn version_is_checked_first() {
    let mut m = base();
    m.version = 2;
    m.app.name = "".into();
    match m.validate() {
        Err(ValidationError::UnsupportedVersion(2)) => {}
        other => panic!("unexpected {:?}", other),
    }
}

#[test]
fn empty_app_name_is_missing() {
    let mut m = base();
    m.app.name = "".into();
    assert_eq!(missing(m.validate().unwrap_err()), "app.name");
}

#[test]
fn long_app_name_reports_its_length() {
    let mut m = base();
    m.app.name = "a".repeat(65);
    let (field, detail) = invalid(m.validate().unwrap_err());
    assert_eq!(field, "app.name");
    assert_eq!(detail, "maximum 64 characters, got 65");
    m.app.name = "a".repeat(64);
    assert!(m.validate().is_ok());
}

#[test]
fn app_name_length_counts_bytes() {
    let app = App {
        name: "\u{e9}".repeat(33),
        description: None,
        homepage: None,
        repository: None,
        labels: None,
    };
    let (_, detail) = invalid(app.validate().unwrap_err());
    assert_eq!(detail, "maximum 64 characters, got 66");
}

#[test]
fn app_name_must_be_dns_safe() {
    for name in ["Store", "my_app", "caf\u{e9}", "a b"] {
        let mut m = base();
        m.app.name = name.into();
        let (field, detail) = invalid(m.validate().unwrap_err());
        assert_eq!(field, "app.name");
        assert_eq!(detail, "must be DNS-safe (lowercase alphanumeric and hyphens only)");
    }
    let mut m = base();
    m.app.name = "my-app-2".into();
    assert!(m.validate().is_ok());
}

#[test]
fn unsupported_runtime_lists_the_supported_ones() {
    let mut m = base();
    m.runtime.runtime_type = "cobol".into();
    let (field, detail) = invalid(m.validate().unwrap_err());
    assert_eq!(field, "runtime.type");
    assert_eq!(
        detail,
        "unsupported runtime 'cobol', expected one of: php, node, python, rust, go, java, bun, deno, static, custom"
    );
}

#[test]
fn every_supported_runtime_is_accepted() {
    for rt in ["php", "node", "python", "rust", "go", "java", "bun", "deno", "static", "custom"] {
        let mut m = base();
        m.runtime.runtime_type = rt.into();
        assert!(m.validate().is_ok(), "{}", rt);
    }
}

#[test]
fn empty_runtime_is_missing() {
    let mut m = base();
    m.runtime.runtime_type = "".into();
    assert_eq!(missing(m.validate().unwrap_err()), "runtime.type");
}

fn build(strategy: &str) -> Build {
    Build { strategy: strategy.into(), commands: None, variables: None }
}

#[test]
fn build_strategy_must_be_supported() {
    let (field, detail) = invalid(build("make").validate().unwrap_err());
    assert_eq!(field, "build.strategy");
    assert_eq!(
        detail,
        "unsupported strategy 'make', expected one of: auto, custom, dockerfile, buildpack, nixpacks, none"
    );
    for s in ["auto", "dockerfile", "buildpack", "nixpacks", "none"] {
        assert!(build(s).validate().is_ok());
    }
}

#[test]
fn custom_build_needs_commands() {
    assert_eq!(missing(build("custom").validate().unwrap_err()), "build.commands");
    let mut b = build("custom");
    b.commands = Some(vec!["make".into()]);
    assert!(b.validate().is_ok());
}

#[test]
fn build_variables_need_names() {
    let mut vars = IndexMap::new();
    vars.insert("API_URL".to_string(), EnvValue::Plain("https://api.example.com".into()));
    vars.insert("".to_string(), EnvValue::Secret { secret: "key".into() });
    let mut b = build("auto");
    b.variables = Some(vars);
    let mut m = base();
    m.build = Some(b);
    let (field, detail) = invalid(m.validate().unwrap_err());
    assert_eq!(field, "build.variables");
    assert_eq!(detail, "variable name must not be empty");
}

#[test]
fn start_rules() {
    let mut m = base();
    m.start = Start::Simple(StartCommand { command: "".into() });
    assert_eq!(missing(m.validate().unwrap_err()), "start.command");
    m.start = Start::Multi(IndexMap::new());
    assert_eq!(missing(m.validate().unwrap_err()), "start");
    let mut processes = IndexMap::new();
    processes.insert("web".to_string(), "php-fpm".to_string());
    m.start = Start::Multi(processes);
    assert!(m.validate().is_ok());
}

#[test]
fn worker_rules() {
    assert_eq!(
        missing(Worker { command: "".into(), replicas: 1 }.validate().unwrap_err()),
        "workers.command"
    );
    let (field, detail) = invalid(Worker { command: "q".into(), replicas: 0 }.validate().unwrap_err());
    assert_eq!((field, detail.as_str()), ("workers.replicas", "must be >= 1"));
    assert!(Worker { command: "q".into(), replicas: 3 }.validate().is_ok());
}

#[test]
fn workers_are_checked_in_order() {
    let mut workers = IndexMap::new();
    workers.insert("queue".to_string(), Worker { command: "work".into(), replicas: 1 });
    workers.insert("".to_string(), Worker { command: "work".into(), replicas: 1 });
    workers.insert("bad".to_string(), Worker { command: "".into(), replicas: 1 });
    let mut m = base();
    m.workers = Some(workers);
    let (field, detail) = invalid(m.validate().unwrap_err());
    assert_eq!(field, "workers");
    assert_eq!(detail, "worker name must not be empty");

    let mut workers = IndexMap::new();
    workers.insert("".to_string(), Worker { command: "".into(), replicas: 1 });
    m.workers = Some(workers);
    assert_eq!(missing(m.validate().unwrap_err()), "workers.command");
}

#[test]
fn network_port_zero_is_rejected() {
    let mut m = base();
    m.network = Some(Network { port: Some(0), domains: None, routes: None });
    let (field, detail) = invalid(m.validate().unwrap_err());
    assert_eq!((field, detail.as_str()), ("network.port", "must be between 1 and 65535"));
    m.network = Some(Network { port: Some(8080), domains: None, routes: None });
    assert!(m.validate().is_ok());
}

#[test]
fn scaling_rules() {
    let s = Scaling { min: Some(5), max: Some(3), cpu_target: None };
    let (field, detail) = invalid(s.validate().unwrap_err());
    assert_eq!(field, "scaling");
    assert_eq!(detail, "min (5) must be <= max (3)");
    for cpu in [0, 101] {
        let s = Scaling { min: Some(1), max: Some(1), cpu_target: Some(cpu) };
        let (field, detail) = invalid(s.validate().unwrap_err());
        assert_eq!((field, detail.as_str()), ("scaling.cpu_target", "must be between 1 and 100"));
    }
    assert!(Scaling { min: Some(1), max: None, cpu_target: Some(100) }.validate().is_ok());
    assert!(Scaling { min: None, max: Some(0), cpu_target: Some(1) }.validate().is_ok());
}

#[test]
fn health_rules() {
    let h = Health::Path { path: "".into(), interval: None, timeout: None };
    assert_eq!(missing(h.validate().unwrap_err()), "health.path");
    let h = Health::Command { command: "".into(), interval: None, timeout: None };
    assert_eq!(missing(h.validate().unwrap_err()), "health.command");
    let h = Health::Path { path: "/up".into(), interval: Some("10s".into()), timeout: None };
    assert!(h.validate().is_ok());
}

#[test]
fn storage_needs_names() {
    let mut m = base();
    m.storage = Some(vec![
        Storage { name: "data".into(), mount: "/data".into(), size: None, ephemeral: false },
        Storage { name: "".into(), mount: "/tmp".into(), size: None, ephemeral: true },
    ]);
    let (field, detail) = invalid(m.validate().unwrap_err());
    assert_eq!((field, detail.as_str()), ("storage.name", "storage name must not be empty"));
}

#[test]
fn errors_follow_the_checking_order() {
    let mut m = base();
    m.scaling = Some(Scaling { min: None, max: None, cpu_target: Some(0) });
    m.network = Some(Network { port: Some(0), domains: None, routes: None });
    let (field, _) = invalid(m.validate().unwrap_err());
    assert_eq!(field, "network.port");
}

#[test]
fn parts_of_a_valid_manifest_validate() {
    let mut m = base();
    let mut workers = IndexMap::new();
    workers.insert("queue".to_string(), Worker { command: "work".into(), replicas: 2 });
    m.workers = Some(workers);
    m.build = Some(build("auto"));
    m.network = Some(Network { port: Some(443), domains: None, routes: None });
    m.scaling = Some(Scaling { min: Some(1), max: Some(4), cpu_target: Some(70) });
    m.health = Some(Health::Path { path: "/up".into(), interval: None, timeout: None });
    assert!(m.validate().is_ok());
    assert!(m.app.validate().is_ok());
    assert!(m.runtime.validate().is_ok());
    assert!(m.start.validate().is_ok());
    assert!(m.build.as_ref().unwrap().validate().is_ok());
    assert!(m.network.as_ref().unwrap().validate().is_ok());
    assert!(m.scaling.as_ref().unwrap().validate().is_ok());
    assert!(m.health.as_ref().unwrap().validate().is_ok());
    for (_, w) in m.workers.as_ref().unwrap() {
        assert!(w.validate().is_ok());
    }
}
