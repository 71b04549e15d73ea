use pylot::cli::{Cli, Commands};

fn argv(args: &[&str]) -> Vec<String> {
    args.iter().map(|s| s.to_string()).collect()
}

#[test]
fn main_test_activate_command() {
    let args = Cli::try_parse_from(argv(&["program", "activate", "my-venv"])).unwrap();

    match args.commands {
        Some(Commands::Activate { name_pos, name }) => {
            assert_eq!(name_pos, Some("my-venv".to_string()));
            assert_eq!(name, None);
        }
        _ => panic!("Expected Activate command"),
    }
}

#[test]
fn main_test_activate_with_flag() {
    let args = Cli::try_parse_from(argv(&["program", "activate", "--name", "my-venv"])).unwrap();

    match args.commands {
        Some(Commands::Activate { name_pos, name }) => {
            assert_eq!(name_pos, None);
            assert_eq!(name, Some("my-venv".to_string()));
        }
        _ => panic!("Expected Activate command"),
    }
}

#[test]
fn main_test_create_command() {
    let args = Cli::try_parse_from(argv(&[
        "program",
        "create",
        "my-venv",
        "--python-version",
        "3.11",
        "--packages",
        "requests",
        "numpy",
        "--default",
    ]))
    .unwrap();

    match args.commands {
        Some(Commands::Create { name_pos, python_version, packages, default, .. }) => {
            assert_eq!(name_pos, Some("my-venv".to_string()));
            assert_eq!(python_version, "3.11");
            assert_eq!(packages, vec!["requests", "numpy"]);
            assert!(default);
        }
        _ => panic!("Expected Create command"),
    }
}

#[test]
fn main_test_list_command() {
    let args = Cli::try_parse_from(argv(&["program", "list"])).unwrap();

    assert!(matches!(args.commands, Some(Commands::List)));
}

#[test]
fn main_test_no_command() {
    let result = Cli::try_parse_from(argv(&["program"]));

    assert!(result.is_err());
}

#[test]
fn main_test_complete_bash() {
    let args = Cli::try_parse_from(argv(&["program", "complete", "bash"])).unwrap();

    if let Some(Commands::Complete { shell }) = args.commands {
        assert_eq!(shell, Some("bash".to_string()));
    } else {
        panic!("Failed to parse complete command for bash");
    }
}

#[test]
fn main_test_complete_zsh() {
    let args = Cli::try_parse_from(argv(&["program", "complete", "zsh"])).unwrap();

    if let Some(Commands::Complete { shell }) = args.commands {
        assert_eq!(shell, Some("zsh".to_string()));
    } else {
        panic!("Failed to parse complete command for zsh");
    }
}

#[test]
fn main_test_complete_powershell() {
    let args = Cli::try_parse_from(argv(&["program", "complete", "powershell"])).unwrap();

    if let Some(Commands::Complete { shell }) = args.commands {
        assert_eq!(shell, Some("powershell".to_string()));
    } else {
        panic!("Failed to parse complete command for powershell");
    }
}

#[test]
fn main_test_install_update_flag() {
    let args = Cli::try_parse_from(argv(&["program", "install", "--update"])).unwrap();
    match args.commands {
        Some(Commands::Install { update }) => assert!(update),
        _ => panic!("Expected Install command"),
    }
    let args = Cli::try_parse_from(argv(&["program", "install"])).unwrap();
    match args.commands {
        Some(Commands::Install { update }) => assert!(!update),
        _ => panic!("Expected Install command"),
    }
}
