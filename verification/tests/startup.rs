use athen::cli::interpret_command;
use athen::cli::ArgCommand;
use athen::generator::generate_files;
use athen::generator::get_demo_data;
use athen::generator::get_lib_data;
use athen::generator::get_rs_lib_data;
use athen::generator::get_toml_data;
use athen::handle_cli;
use athen::handle_generate_command;
use athen::reader::config_file_path;
use athen::reader::default_safe_async;
use athen::reader::hydrate_config;
use athen::reader::strip_trailing_slash;
use athen::reader::AsyncOptions;
use athen::reader::Config;
use athen::reader::ConfigValue;

#[test]
fn command_words() {
    match interpret_command("run", "./") {
        Ok(args) => match args.get_command() {
            ArgCommand::Run => {},
            _ => panic!("run selects serving"),
        },
        Err(_) => panic!("run is a valid command"),
    }
    match interpret_command("gen", "proj/") {
        Ok(args) => match args.get_command() {
            ArgCommand::Generate(p) => assert_eq!(p, "proj/"),
            _ => panic!("gen selects generation"),
        },
        Err(_) => panic!("gen is a valid command"),
    }
    assert!(interpret_command("bogus", "./").is_err());
    assert!(interpret_command("", "./").is_err());
}

#[test]
fn cli_decision() {
    let run = interpret_command("run", "./").ok().unwrap();
    let (go_on, plan) = handle_cli(&run);
    assert!(go_on);
    assert!(plan.is_none());

    let generate = interpret_command("gen", "./proj").ok().unwrap();
    let (go_on, plan) = handle_cli(&generate);
    assert!(!go_on);
    assert!(plan.is_some());
}

#[test]
fn generation_plan() {
    let plan = generate_files("./proj/");
    assert_eq!(plan.dirs, vec!["./endpoints/".to_string()]);
    assert_eq!(plan.files.len(), 4);
    assert_eq!(plan.files[0].0, "./proj/Athen.toml");
    assert_eq!(plan.files[0].1, get_toml_data());
    assert_eq!(plan.files[1].0, "./proj/athen.py");
    assert_eq!(plan.files[1].1, get_lib_data());
    assert_eq!(plan.files[2].0, "./proj/athen_rs.py");
    assert_eq!(plan.files[2].1, get_rs_lib_data());
    assert_eq!(plan.files[3].0, "./proj/endpoints/hello.py");
    assert_eq!(plan.files[3].1, get_demo_data());

    let same = handle_generate_command("./proj");
    assert_eq!(same.files[0].0, "./proj/Athen.toml");
}

#[test]
fn template_contents() {
    assert!(get_toml_data().contains("port = 8080"));
    assert!(get_lib_data().contains("def register"));
    assert_eq!(get_rs_lib_data(), "\n");
    assert!(get_demo_data().contains("Hello World!"));
}

#[test]
fn path_stripping() {
    assert_eq!(strip_trailing_slash("./x/"), "./x");
    assert_eq!(strip_trailing_slash("./x"), "./x");
    assert_eq!(strip_trailing_slash(""), "");
    assert_eq!(config_file_path("./"), "./Athen.toml");
    assert_eq!(config_file_path("proj"), "proj/Athen.toml");
}

#[test]
fn hydration_applies_defaults() {
    let data = Config {
        ip: "0.0.0.0".to_string(),
        port: None,
        async_opts: None,
        documents: vec![("hello".to_string(), ConfigValue::Text("endpoints/hello.py".to_string()))],
    };
    let config = hydrate_config(data, "./").ok().unwrap();
    assert_eq!(config.get_ip(), "0.0.0.0");
    assert_eq!(config.get_port(), 8000);
    assert_eq!(config.get_safe_async(), true);
    let documents = config.get_documents();
    assert_eq!(documents.len(), 1);
    assert_eq!(documents[0].0, "hello");
    assert_eq!(documents[0].1, "./endpoints/hello.py");
}

#[test]
fn hydration_keeps_explicit_values() {
    let data = Config {
        ip: "10.0.0.1".to_string(),
        port: Some(8080),
        async_opts: Some(AsyncOptions { safe_async: Some(false) }),
        documents: vec![
            ("a".to_string(), ConfigValue::Text("a.py".to_string())),
            ("b".to_string(), ConfigValue::Text("sub/b.py".to_string())),
        ],
    };
    let config = hydrate_config(data, "proj/").ok().unwrap();
    assert_eq!(config.get_port(), 8080);
    assert_eq!(config.get_safe_async(), false);
    let documents = config.get_documents();
    assert_eq!(documents[0].1, "proj/a.py");
    assert_eq!(documents[1].1, "proj/sub/b.py");
}

#[test]
fn async_table_without_flag_defaults_to_true() {
    let data = Config {
        ip: "x".to_string(),
        port: Some(1),
        async_opts: Some(AsyncOptions { safe_async: None }),
        documents: vec![],
    };
    assert!(hydrate_config(data, ".").ok().unwrap().get_safe_async());
    assert!(default_safe_async());
}

#[test]
fn non_string_document_value_is_fatal() {
    let data = Config {
        ip: "x".to_string(),
        port: None,
        async_opts: None,
        documents: vec![
            ("ok".to_string(), ConfigValue::Text("ok.py".to_string())),
            ("bad".to_string(), ConfigValue::Other),
        ],
    };
    assert!(hydrate_config(data, ".").is_err());
}
