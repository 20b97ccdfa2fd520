use deploy_manifest::cli::{parse_args, summary, ArgsError, Invocation};
use deploy_manifest::model::is_false;
use deploy_manifest::parser::{attach_path, detect_format, format_for_extension, parse_failure};
use deploy_manifest::text::{contains_str, join_strs};
use deploy_manifest::{
    decimal_string, str_eq, App, Build, DeployError, DeployManifest, Format, Runtime, Start,
    StartCommand, ValidationError,
};
use indexmap::IndexMap;

#[test]
fn format_from_path_uses_the_extension() {
    assert_eq!(Format::from_path("deploy.yaml"), Some(Format::Yaml));
    assert_eq!(Format::from_path("config/deploy.yml"), Some(Format::Yaml));
    assert_eq!(Format::from_path("deploy.json"), Some(Format::Json));
    assert_eq!(Format::from_path("./deploy.toml"), Some(Format::Toml));
    assert_eq!(Format::from_path("deploy.txt"), None);
    assert_eq!(Format::from_path("deploy"), None);
    assert_eq!(Format::from_path(".yaml"), None);
    assert_eq!(Format::from_path("deploy.YAML"), None);
}

#[test]
fn format_names_round_trip() {
    for f in [Format::Yaml, Format::Json, Format::Toml] {
        assert_eq!(Format::from_extension(f.as_str()), Some(f));
    }
    assert_eq!(Format::Yaml.as_str(), "yaml");
    assert_eq!(Format::Json.as_str(), "json");
    assert_eq!(Format::Toml.as_str(), "toml");
    assert_eq!(Format::from_extension("yml"), Some(Format::Yaml));
    assert_eq!(Format::from_extension("xml"), None);
}

#[test]
fn detect_format_reports_the_extension() {
    assert_eq!(detect_format("a/b/deploy.json").unwrap(), Format::Json);
    match detect_format("deploy.txt") {
        Err(DeployError::UnsupportedFormat(ext)) => assert_eq!(ext, "txt"),
        other => panic!("unexpected {:?}", other),
    }
    match detect_format("Makefile") {
        Err(DeployError::UnsupportedFormat(ext)) => assert_eq!(ext, "unknown"),
        other => panic!("unexpected {:?}", other),
    }
    match format_for_extension(Some("ini")) {
        Err(DeployError::UnsupportedFormat(ext)) => assert_eq!(ext, "ini"),
        other => panic!("unexpected {:?}", other),
    }
    assert_eq!(format_for_extension(Some("toml")).unwrap(), Format::Toml);
}

#[test]
fn parse_failures_name_their_place() {
    let e = parse_failure(Format::Json, "expected value".into());
    match &e {
        DeployError::Parse { path, source } => {
            assert_eq!(path, "<json>");
            assert_eq!(source, "expected value");
        }
        other => panic!("unexpected {:?}", other),
    }
    let e = attach_path(e, "deploy.json".into());
    assert_eq!(e.to_string(), "parse error in deploy.json: expected value");
    let e = attach_path(e, "other.json".into());
    assert_eq!(e.to_string(), "parse error in other.json: expected value");
    let kept = attach_path(DeployError::UnsupportedFormat("txt".into()), "x.txt".into());
    assert_eq!(kept.to_string(), "unsupported format: txt");
}

#[test]
fn error_messages() {
    assert_eq!(ValidationError::MissingField("app.name").to_string(), "missing required field: app.name");
    assert_eq!(
        ValidationError::InvalidValue { field: "network.port", detail: "must be between 1 and 65535".into() }
            .to_string(),
        "invalid value for network.port: must be between 1 and 65535"
    );
    assert_eq!(ValidationError::UnsupportedVersion(999).to_string(), "version 999 is not supported");
    assert_eq!(ValidationError::Custom("anything".into()).to_string(), "anything");
    let e: DeployError = ValidationError::UnsupportedVersion(0).into();
    assert_eq!(e.to_string(), "validation error: version 0 is not supported");
    let e = DeployError::Io { path: "deploy.yaml".into(), source: "not found".into() };
    assert_eq!(e.to_string(), "I/O error reading deploy.yaml: not found");
    assert_eq!(
        parse_failure(Format::Yaml, "bad".into()).to_string(),
        "parse error in <yaml>: bad"
    );
    assert_eq!(parse_failure(Format::Toml, "bad".into()).to_string(), "parse error in <toml>: bad");
}

#[test]
fn decimal_rendering() {
    for n in [0u64, 7, 10, 64, 999, 1000, 4294967295, u64::MAX] {
        assert_eq!(decimal_string(n), n.to_string());
    }
}

#[test]
fn text_helpers() {
    assert!(str_eq("caf\u{e9}", "caf\u{e9}"));
    assert!(!str_eq("cafe", "caf\u{e9}"));
    assert!(!str_eq("ab", "abc"));
    assert!(str_eq("", ""));
    let list = vec!["a", "bc", "d"];
    assert_eq!(join_strs(&list, ", "), "a, bc, d");
    assert_eq!(join_strs(&vec![], ", "), "");
    assert!(contains_str(&list, "bc"));
    assert!(!contains_str(&list, "b"));
    assert!(is_false(&false));
    assert!(!is_false(&true));
}

fn args(list: &[&str]) -> Vec<String> {
    list.iter().map(|s| s.to_string()).collect()
}

#[test]
fn command_line_selects_a_file() {
    match parse_args(&args(&["deploy-manifest", "deploy.yaml"])).unwrap() {
        Invocation::File { path, format } => {
            assert_eq!(path, "deploy.yaml");
            assert_eq!(format, None);
        }
        other => panic!("unexpected {:?}", other),
    }
    match parse_args(&args(&["deploy-manifest", "deploy.json", "--format", "json"])).unwrap() {
        Invocation::File { path, format } => {
            assert_eq!(path, "deploy.json");
            assert_eq!(format, Some(Format::Json));
        }
        other => panic!("unexpected {:?}", other),
    }
    match parse_args(&args(&["deploy-manifest", "a.yaml", "-f", "yml", "b.toml"])).unwrap() {
        Invocation::File { path, format } => {
            assert_eq!(path, "b.toml");
            assert_eq!(format, Some(Format::Yaml));
        }
        other => panic!("unexpected {:?}", other),
    }
}

#[test]
fn command_line_selects_standard_input() {
    match parse_args(&args(&["deploy-manifest", "--stdin"])).unwrap() {
        Invocation::Stdin { format } => assert_eq!(format, Format::Yaml),
        other => panic!("unexpected {:?}", other),
    }
    match parse_args(&args(&["deploy-manifest", "deploy.yaml", "--stdin", "--format", "toml"])).unwrap() {
        Invocation::Stdin { format } => assert_eq!(format, Format::Toml),
        other => panic!("unexpected {:?}", other),
    }
    match parse_args(&args(&["deploy-manifest"])).unwrap() {
        Invocation::Stdin { format } => assert_eq!(format, Format::Yaml),
        other => panic!("unexpected {:?}", other),
    }
}

#[test]
fn command_line_errors() {
    match parse_args(&args(&["deploy-manifest", "deploy.yaml", "--format"])) {
        Err(e @ ArgsError::MissingFormatValue) => {
            assert_eq!(e.to_string(), "--format requires an argument")
        }
        other => panic!("unexpected {:?}", other),
    }
    match parse_args(&args(&["deploy-manifest", "-f", "xml", "deploy.yaml"])) {
        Err(e @ ArgsError::UnsupportedFormat(_)) => {
            assert_eq!(e.to_string(), "unsupported format 'xml'")
        }
        other => panic!("unexpected {:?}", other),
    }
}

#[test]
fn summary_of_a_valid_manifest() {
    let mut m = DeployManifest {
        version: 1,
        app: App { name: "store".into(), description: None, homepage: None, repository: None, labels: None },
        runtime: Runtime { runtime_type: "php".into(), version: Some("8.3".into()) },
        build: Some(Build { strategy: "custom".into(), commands: Some(vec!["a".into(), "b".into()]), variables: None }),
        start: Start::Simple(StartCommand { command: "php-fpm".into() }),
        workers: None,
        env: None,
        network: None,
        storage: None,
        services: None,
        health: None,
        scaling: None,
        cron: None,
        extensions: IndexMap::new(),
    };
    assert_eq!(
        summary(&m),
        vec![
            "\u{2713} manifest valid",
            "  app:  store",
            "  runtime: php",
            "  version: 8.3",
            "  build: custom (2 commands)",
            "  start processes: 1",
        ]
    );
    let mut processes = IndexMap::new();
    processes.insert("web".to_string(), "a".to_string());
    processes.insert("queue".to_string(), "b".to_string());
    processes.insert("cron".to_string(), "c".to_string());
    m.start = Start::Multi(processes);
    m.runtime.version = None;
    m.build = Some(Build { strategy: "auto".into(), commands: None, variables: None });
    assert_eq!(
        summary(&m),
        vec![
            "\u{2713} manifest valid",
            "  app:  store",
            "  runtime: php",
            "  build: auto ( commands)",
            "  start processes: 3",
        ]
    );
}
