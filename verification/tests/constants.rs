use pylot::constants::{
    POWERSHELL_CMD, PWSH_CMD, SH_CMD, UNIX_PYTHON3_EXEC, UNIX_PYTHON_EXEC, UV_COMMAND,
    WINGET_CMD, WIN_PYTHON_EXEC,
};
use pylot::constants::BASH_CMD;
use pylot::constants::{DEFAULT_VENV_HOME, ERROR_CREATING_VENV, ERROR_VENV_NOT_EXISTS};

#[test]
fn test_constants() {
    assert_eq!(WINGET_CMD, "winget");
    assert_eq!(SH_CMD, "sh");
    assert_eq!(PWSH_CMD, "pwsh");
    assert_eq!(POWERSHELL_CMD, "powershell");
    assert_eq!(WIN_PYTHON_EXEC, "Scripts/python.exe");
    assert_eq!(UNIX_PYTHON3_EXEC, "bin/python3");
    assert_eq!(UNIX_PYTHON_EXEC, "bin/python");
    assert_eq!(UV_COMMAND, "uv");
}

#[test]
fn constants_test_constants() {
    assert_eq!(WINGET_CMD, "winget");
    assert_eq!(BASH_CMD, "bash");
    assert_eq!(PWSH_CMD, "pwsh");
    assert_eq!(POWERSHELL_CMD, "powershell");
    assert_eq!(WIN_PYTHON_EXEC, "Scripts/python.exe");
    assert_eq!(UNIX_PYTHON3_EXEC, "bin/python3");
    assert_eq!(UNIX_PYTHON_EXEC, "bin/python");
}

#[test]
fn constants_error_messages() {
    assert_eq!(ERROR_CREATING_VENV, "Error creating virtual environment");
    assert_eq!(ERROR_VENV_NOT_EXISTS, "Virtual environment does not exist");
    assert_eq!(DEFAULT_VENV_HOME, "~/pylot/venvs/");
}
