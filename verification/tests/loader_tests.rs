use rapid_mcp_server::is_yaml_file;
use rapid_mcp_server::registry::CommandRegistry;
use rapid_mcp_server::types::LoadError;
use rapid_mcp_server::yamlval::parse_command;

#[test]
fn yaml_file_names() {
    assert!(is_yaml_file("greet.yaml"));
    assert!(is_yaml_file("a.b.yaml"));
    assert!(is_yaml_file(".hidden.yaml"));
    assert!(!is_yaml_file("greet.yml"));
    assert!(!is_yaml_file("greet.YAML"));
    assert!(!is_yaml_file(".yaml"));
    assert!(!is_yaml_file("yaml"));
    assert!(!is_yaml_file("greet.yaml.txt"));
    assert!(!is_yaml_file(""));
}

#[test]
fn parse_full_command() {
    let doc = "name: greet\nversion: \"1\"\ndescription: Greet\nprompt: \"Hello, {{who}}!\"\nparameters:\n  - name: who\n    type: string\n    description: whom to greet\n    required: true\n  - name: tone\n    type: string\n    description: voice\n    default: warm\n";
    let cmd = parse_command(doc).expect("a well-formed command");
    assert_eq!(cmd.name, "greet");
    assert_eq!(cmd.version, "1");
    assert_eq!(cmd.description, "Greet");
    assert_eq!(cmd.prompt, "Hello, {{who}}!");
    assert_eq!(cmd.parameters.len(), 2);
    assert_eq!(cmd.parameters[0].name, "who");
    assert_eq!(cmd.parameters[0].param_type, "string");
    assert_eq!(cmd.parameters[0].description, "whom to greet");
    assert!(cmd.parameters[0].required);
    assert!(cmd.parameters[0].default.is_none());
    assert_eq!(cmd.parameters[1].name, "tone");
    assert!(!cmd.parameters[1].required);
    assert_eq!(cmd.parameters[1].default.as_deref(), Some("warm"));
}

#[test]
fn parse_minimal_command_defaults_parameters_to_empty() {
    let doc = "name: greet\nversion: \"1\"\ndescription: Greet\nprompt: Hello!\n";
    let cmd = parse_command(doc).expect("a well-formed command");
    assert!(cmd.parameters.is_empty());
}

#[test]
fn unknown_top_level_keys_are_ignored() {
    let doc = "name: greet\nversion: \"1\"\ndescription: Greet\nprompt: Hello!\nauthor: me\n";
    assert!(parse_command(doc).is_ok());
}

#[test]
fn syntax_error() {
    assert!(matches!(parse_command("{{{: ::"), Err(LoadError::Syntax)));
}

#[test]
fn schema_errors() {
    // missing prompt
    let doc = "name: greet\nversion: \"1\"\ndescription: Greet\n";
    assert!(matches!(parse_command(doc), Err(LoadError::Schema)));
    // version is a number, not a string
    let doc = "name: greet\nversion: 1\ndescription: Greet\nprompt: Hello!\n";
    assert!(matches!(parse_command(doc), Err(LoadError::Schema)));
    // parameters is not a sequence
    let doc = "name: greet\nversion: \"1\"\ndescription: Greet\nprompt: Hello!\nparameters: 3\n";
    assert!(matches!(parse_command(doc), Err(LoadError::Schema)));
    // a parameter lacks its type
    let doc = "name: greet\nversion: \"1\"\ndescription: Greet\nprompt: Hello!\nparameters:\n  - name: who\n    description: whom\n";
    assert!(matches!(parse_command(doc), Err(LoadError::Schema)));
    // required is not a boolean
    let doc = "name: greet\nversion: \"1\"\ndescription: Greet\nprompt: Hello!\nparameters:\n  - name: who\n    type: string\n    description: whom\n    required: maybe\n";
    assert!(matches!(parse_command(doc), Err(LoadError::Schema)));
    // the document is not a mapping
    assert!(matches!(parse_command("- 1\n- 2\n"), Err(LoadError::Schema)));
}

#[test]
fn explicit_null_default_counts_as_absent() {
    let doc = "name: greet\nversion: \"1\"\ndescription: Greet\nprompt: Hello!\nparameters:\n  - name: who\n    type: string\n    description: whom\n    default: ~\n";
    let cmd = parse_command(doc).expect("a well-formed command");
    assert_eq!(cmd.parameters.len(), 1);
    assert!(cmd.parameters[0].default.is_none());
    assert!(!cmd.parameters[0].required);
}

#[test]
fn empty_parameter_sequence_is_accepted() {
    let doc = "name: greet\nversion: \"1\"\ndescription: Greet\nprompt: Hello!\nparameters: []\n";
    let cmd = parse_command(doc).expect("a well-formed command");
    assert!(cmd.parameters.is_empty());
}

#[test]
fn empty_name_is_rejected() {
    let doc = "name: \"\"\nversion: \"1\"\ndescription: Greet\nprompt: Hello!\n";
    assert!(matches!(parse_command(doc), Err(LoadError::EmptyName)));
}

#[test]
fn loaded_command_is_found_under_its_name() {
    // a command parsed from a file is returned by get under its own name
    let doc = "name: greet\nversion: \"1\"\ndescription: Greet\nprompt: Hello!\n";
    let cmd = parse_command(doc).expect("a well-formed command");
    let mut registry = CommandRegistry::new();
    registry.insert(cmd);
    let found = registry.get("greet").expect("the loaded command");
    assert_eq!(found.name, "greet");
    assert_eq!(found.version, "1");
    assert_eq!(found.description, "Greet");
    assert_eq!(found.prompt, "Hello!");
    assert!(found.parameters.is_empty());
    assert!(registry.get("other").is_none());
}

#[test]
fn later_load_wins() {
    let first = parse_command("name: dup\nversion: \"1\"\ndescription: a\nprompt: one\n").unwrap();
    let second = parse_command("name: dup\nversion: \"2\"\ndescription: b\nprompt: two\n").unwrap();
    let mut registry = CommandRegistry::new();
    registry.insert(first);
    registry.insert(second);
    assert_eq!(registry.len(), 1);
    assert_eq!(registry.get("dup").unwrap().prompt, "two");
    assert_eq!(registry.list().len(), 1);
}

#[test]
fn list_keeps_catalog_order() {
    let mut registry = CommandRegistry::new();
    registry.insert(parse_command("name: a\nversion: \"1\"\ndescription: a\nprompt: pa\n").unwrap());
    registry.insert(parse_command("name: b\nversion: \"1\"\ndescription: b\nprompt: pb\n").unwrap());
    let all = registry.list();
    assert_eq!(all.len(), 2);
    assert_eq!(all[0].name, "a");
    assert_eq!(all[1].name, "b");
}
