use pylot::cli::{Cli, Commands, VenvCommands};
use pylot::cli::UvCommands;
use pylot::cli::ParseError;

fn argv(args: &[&str]) -> Vec<String> {
    args.iter().map(|s| s.to_string()).collect()
}

#[test]
fn test_activate_command() {
    let args = Cli::try_parse_from(argv(&["program", "venv", "activate", "my-venv"])).unwrap();

    if let Some(Commands::Venv { command: VenvCommands::Activate { name_pos, name } }) =
        args.commands
    {
        assert_eq!(name_pos, Some("my-venv".to_string()));
        assert_eq!(name, None);
    } else {
        panic!("Failed to parse activate command");
    }
}

#[test]
fn test_activate_with_flag() {
    let args =
        Cli::try_parse_from(argv(&["program", "venv", "activate", "--name", "my-venv"])).unwrap();

    if let Some(Commands::Venv { command: VenvCommands::Activate { name_pos, name } }) =
        args.commands
    {
        assert_eq!(name, Some("my-venv".to_string()));
        assert_eq!(name_pos, None);
    } else {
        panic!("Failed to parse activate command with flag");
    }
}

#[test]
fn test_create_command() {
    let args = Cli::try_parse_from(argv(&[
        "program",
        "venv",
        "create",
        "my-venv",
        "--python-version",
        "3.11",
        "--packages",
        "requests",
        "numpy",
        "--default",
    ]))
    .unwrap();

    if let Some(Commands::Venv {
        command: VenvCommands::Create { name_pos, python_version, packages, default, .. },
    }) = args.commands
    {
        assert_eq!(name_pos, Some("my-venv".to_string()));
        assert_eq!(python_version, "3.11");
        assert_eq!(packages, vec!["requests", "numpy"]);
        assert!(default);
    } else {
        panic!("Failed to parse create command");
    }
}

#[test]
fn test_list_command() {
    let args = Cli::try_parse_from(argv(&["program", "venv", "list"])).unwrap();

    assert!(matches!(
        args.commands,
        Some(Commands::Venv { command: VenvCommands::List })
    ));
}

#[test]
fn test_no_command() {
    let result = Cli::try_parse_from(argv(&["program"]));

    assert!(result.is_err());
}

#[test]
fn test_complete_bash() {
    let args = Cli::try_parse_from(argv(&["program", "complete", "bash"])).unwrap();

    if let Some(Commands::Complete { shell }) = args.commands {
        assert_eq!(shell, Some("bash".to_string()));
    } else {
        panic!("Failed to parse complete command for bash");
    }
}

#[test]
fn test_complete_zsh() {
    let args = Cli::try_parse_from(argv(&["program", "complete", "zsh"])).unwrap();

    if let Some(Commands::Complete { shell }) = args.commands {
        assert_eq!(shell, Some("zsh".to_string()));
    } else {
        panic!("Failed to parse complete command for zsh");
    }
}

#[test]
fn test_complete_powershell() {
    let args = Cli::try_parse_from(argv(&["program", "complete", "powershell"])).unwrap();

    if let Some(Commands::Complete { shell }) = args.commands {
        assert_eq!(shell, Some("powershell".to_string()));
    } else {
        panic!("Failed to parse complete command for powershell");
    }
}

#[test]
fn test_uv_subcommands() {
    let args = Cli::try_parse_from(argv(&["program", "uv", "check"])).unwrap();
    assert!(matches!(
        args.commands,
        Some(Commands::Uv { command: UvCommands::Check })
    ));
    let args = Cli::try_parse_from(argv(&["program", "u", "i"])).unwrap();
    assert!(matches!(
        args.commands,
        Some(Commands::Uv { command: UvCommands::Install })
    ));
    let args = Cli::try_parse_from(argv(&["program", "uv", "up"])).unwrap();
    assert!(matches!(
        args.commands,
        Some(Commands::Uv { command: UvCommands::Update })
    ));
    let args = Cli::try_parse_from(argv(&["program", "u", "u"])).unwrap();
    assert!(matches!(
        args.commands,
        Some(Commands::Uv { command: UvCommands::Uninstall })
    ));
}

#[test]
fn test_parse_errors() {
    assert_eq!(
        Cli::try_parse_from(argv(&["program", "frobnicate"])).unwrap_err(),
        ParseError::UnknownCommand
    );
    assert_eq!(
        Cli::try_parse_from(argv(&["program", "venv", "activate", "--name"])).unwrap_err(),
        ParseError::MissingValue
    );
    assert_eq!(
        Cli::try_parse_from(argv(&["program", "venv", "activate", "a", "b"])).unwrap_err(),
        ParseError::UnexpectedArgument
    );
    assert_eq!(
        Cli::try_parse_from(argv(&["program", "venv", "activate", "--frob"])).unwrap_err(),
        ParseError::UnknownFlag
    );
    assert_eq!(
        Cli::try_parse_from(argv(&["program", "complete", "tcsh"])).unwrap_err(),
        ParseError::InvalidValue
    );
    assert_eq!(
        Cli::try_parse_from(argv(&["program", "venv"])).unwrap_err(),
        ParseError::MissingCommand
    );
    assert_eq!(
        Cli::try_parse_from(argv(&["program", "venv", "create", "--packages", "--default"]))
            .unwrap_err(),
        ParseError::MissingValue
    );
}

#[test]
fn test_create_flag_name_wins() {
    let args = Cli::try_parse_from(argv(&[
        "program", "venv", "create", "pos-name", "--name", "flag-name",
    ]))
    .unwrap();
    if let Some(Commands::Venv {
        command: VenvCommands::Create { name, name_pos, python_version, default, .. },
    }) = args.commands
    {
        assert_eq!(name, Some("flag-name".to_string()));
        assert_eq!(name_pos, Some("pos-name".to_string()));
        assert_eq!(python_version, "3.10");
        assert!(!default);
    } else {
        panic!("Failed to parse create command");
    }
}
