//! Names of the external programs this tool drives, the relative paths
//! that identify an environment on disk, and shared message text.
use vstd::prelude::*;

verus! {

// Windows-specific constants
pub const PWSH_CMD: &'static str = "pwsh";

pub const POWERSHELL_CMD: &'static str = "powershell";

pub const WIN_PYTHON_EXEC: &'static str = "Scripts/python.exe";

pub const WINGET_CMD: &'static str = "winget";

// Unix-specific constants
pub const SH_CMD: &'static str = "sh";

pub const BASH_CMD: &'static str = "bash";

pub const UNIX_PYTHON3_EXEC: &'static str = "bin/python3";

pub const UNIX_PYTHON_EXEC: &'static str = "bin/python";

// Shared constants
pub const UV_COMMAND: &'static str = "uv";

pub const DEFAULT_VENV_HOME: &'static str = "~/pylot/venvs/";

// Error messages
pub const ERROR_CREATING_VENV: &'static str = "Error creating virtual environment";

pub const ERROR_VENV_NOT_EXISTS: &'static str = "Virtual environment does not exist";

} // verus!
