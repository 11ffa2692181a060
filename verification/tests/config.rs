use std::path::PathBuf;

use chessbench::config::{ConfigError, EngineConfig, EngineConfigFile};

fn text_field(table: &toml::Table, key: &str) -> Option<String> {
    table.get(key).map(|value| value.as_str().expect("string field").to_string())
}

fn parse_config(input: &str) -> Result<EngineConfigFile, toml::de::Error> {
    let document: toml::Table = input.parse()?;
    let entries = document
        .get("engine")
        .and_then(|value| value.as_array())
        .expect("engine tables");
    let mut engine = Vec::new();
    for entry in entries {
        let table = entry.as_table().expect("engine table");
        let args = match table.get("args") {
            Some(value) => value
                .as_array()
                .expect("args array")
                .iter()
                .map(|arg| arg.as_str().expect("string argument").to_string())
                .collect(),
            None => Vec::new(),
        };
        engine.push(EngineConfig {
            id: text_field(table, "id").expect("id"),
            path: text_field(table, "path").expect("path"),
            args,
            working_dir: text_field(table, "working_dir"),
        });
    }
    Ok(EngineConfigFile { engine })
}

fn entry(id: &str, path: &str) -> EngineConfig {
    EngineConfig {
        id: id.to_string(),
        path: path.to_string(),
        args: Vec::new(),
        working_dir: None,
    }
}

#[test]
fn parses_engine_config_with_optional_args() {
    let input = r#"
            [[engine]]
            id = "stockfish-16"
            path = "/opt/stockfish"
            args = ["-threads", "4"]

            [[engine]]
            id = "lc0-0.30"
            path = "/opt/lc0"
        "#;

    let config = parse_config(input).expect("parse config");
    config.validate().expect("validate config");

    assert_eq!(config.engine.len(), 2);
    assert_eq!(config.engine[0].id, "stockfish-16");
    assert_eq!(
        PathBuf::from(config.engine[0].path.clone()),
        PathBuf::from("/opt/stockfish")
    );
    assert_eq!(config.engine[0].args, vec!["-threads", "4"]);
    assert_eq!(config.engine[0].working_dir, None);

    assert_eq!(config.engine[1].id, "lc0-0.30");
    assert_eq!(
        PathBuf::from(config.engine[1].path.clone()),
        PathBuf::from("/opt/lc0")
    );
    assert!(config.engine[1].args.is_empty());
}

#[test]
fn rejects_duplicate_ids() {
    let input = r#"
            [[engine]]
            id = "dup"
            path = "/opt/one"

            [[engine]]
            id = "dup"
            path = "/opt/two"
        "#;

    let config = parse_config(input).expect("parse config");
    let err = config.validate().expect_err("validate should fail");

    match err {
        ConfigError::DuplicateId(id) => assert_eq!(id, "dup"),
        _ => panic!("expected duplicate id error"),
    }
}

#[test]
fn rejects_empty_path() {
    let input = r#"
            [[engine]]
            id = "empty-path"
            path = ""
        "#;

    let config = parse_config(input).expect("parse config");
    let err = config.validate().expect_err("validate should fail");

    assert!(matches!(err, ConfigError::EmptyPath));
}

#[test]
fn rejects_empty_engine_list() {
    let config = EngineConfigFile { engine: Vec::new() };
    let err = config.validate().expect_err("validate should fail");
    assert!(matches!(err, ConfigError::EmptyEngineList));
    assert_eq!(err.message(), "engine list is empty");
}

#[test]
fn rejects_blank_id() {
    let config = EngineConfigFile {
        engine: vec![entry("ok", "/opt/ok"), entry(" \t\u{a0}", "/opt/blank")],
    };
    let err = config.validate().expect_err("validate should fail");
    assert!(matches!(err, ConfigError::EmptyId));
    assert_eq!(err.message(), "engine id is empty");
}

#[test]
fn blank_id_is_reported_before_empty_path() {
    let config = EngineConfigFile {
        engine: vec![entry("", "")],
    };
    let err = config.validate().expect_err("validate should fail");
    assert!(matches!(err, ConfigError::EmptyId));
}

#[test]
fn empty_path_is_reported_before_duplicate_id() {
    let config = EngineConfigFile {
        engine: vec![entry("a", "/opt/a"), entry("a", "")],
    };
    let err = config.validate().expect_err("validate should fail");
    assert!(matches!(err, ConfigError::EmptyPath));
    assert_eq!(err.message(), "engine path is empty");
}

#[test]
fn first_faulty_entry_decides() {
    let config = EngineConfigFile {
        engine: vec![
            entry("a", "/opt/a"),
            entry("b", "/opt/b"),
            entry("a", "/opt/c"),
            entry("", "/opt/d"),
        ],
    };
    let err = config.validate().expect_err("validate should fail");
    match &err {
        ConfigError::DuplicateId(id) => assert_eq!(id, "a"),
        _ => panic!("expected duplicate id error"),
    }
    assert_eq!(err.message(), "duplicate engine id: a");
}

#[test]
fn ids_that_differ_in_whitespace_are_distinct() {
    let config = EngineConfigFile {
        engine: vec![entry("a", "/opt/a"), entry("a ", "/opt/b")],
    };
    assert!(config.validate().is_ok());
}
