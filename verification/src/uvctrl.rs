//! Managing the external tool itself: the commands that install, update
//! and uninstall it on each platform, the presence check, and the
//! confirmation step before the destructive ones.
use vstd::prelude::*;

use crate::utils::{command_on_path, is_affirmative, read_line_from};
use crate::venv::Platform;

verus! {

/// The command that installs the external tool: the program and its
/// arguments.
pub fn install_plan(platform: Platform) -> (r: (String, Vec<String>))
    ensures
        platform == Platform::Windows ==> r.0@ == "winget"@ && r.1.deep_view() =~= seq![
            "install"@,
            "astral-sh.uv"@,
        ],
        platform == Platform::Posix ==> r.0@ == "sh"@ && r.1.deep_view() =~= seq![
            "-c"@,
            "curl -LsSf https://astral.sh/uv/install.sh | sh"@,
        ],
{
    match platform {
        Platform::Windows => {
            let mut args: Vec<String> = Vec::new();
            args.push("install".to_owned());
            args.push("astral-sh.uv".to_owned());
            ("winget".to_owned(), args)
        },
        Platform::Posix => {
            let mut args: Vec<String> = Vec::new();
            args.push("-c".to_owned());
            args.push("curl -LsSf https://astral.sh/uv/install.sh | sh".to_owned());
            ("sh".to_owned(), args)
        },
    }
}

/// The command that updates the external tool.
pub fn update_plan(platform: Platform) -> (r: (String, Vec<String>))
    ensures
        platform == Platform::Windows ==> r.0@ == "winget"@ && r.1.deep_view() =~= seq![
            "upgrade"@,
            "astral-sh.uv"@,
        ],
        platform == Platform::Posix ==> r.0@ == "uv"@ && r.1.deep_view() =~= seq![
            "self"@,
            "update"@,
        ],
{
    match platform {
        Platform::Windows => {
            let mut args: Vec<String> = Vec::new();
            args.push("upgrade".to_owned());
            args.push("astral-sh.uv".to_owned());
            ("winget".to_owned(), args)
        },
        Platform::Posix => {
            let mut args: Vec<String> = Vec::new();
            args.push("self".to_owned());
            args.push("update".to_owned());
            ("uv".to_owned(), args)
        },
    }
}

/// The command that uninstalls the external tool.
pub fn uninstall_plan(platform: Platform) -> (r: (String, Vec<String>))
    ensures
        platform == Platform::Windows ==> r.0@ == "winget"@ && r.1.deep_view() =~= seq![
            "uninstall"@,
            "astral-sh.uv"@,
        ],
        platform == Platform::Posix ==> r.0@ == "sh"@ && r.1.deep_view() =~= seq![
            "-c"@,
            "rm ~/.local/bin/uv ~/.local/bin/uvx"@,
        ],
{
    match platform {
        Platform::Windows => {
            let mut args: Vec<String> = Vec::new();
            args.push("uninstall".to_owned());
            args.push("astral-sh.uv".to_owned());
            ("winget".to_owned(), args)
        },
        Platform::Posix => {
            let mut args: Vec<String> = Vec::new();
            args.push("-c".to_owned());
            args.push("rm ~/.local/bin/uv ~/.local/bin/uvx".to_owned());
            ("sh".to_owned(), args)
        },
    }
}

/// Whether a program of this name is present on the search path, with
/// the report the caller shows. The probe's answer depends on the
/// machine; whichever way it goes, the message is fixed by it.
pub fn check(name: &str) -> (r: Result<String, String>)
    ensures
        r matches Ok(m) ==> m@ == name@ + " is installed."@,
        r matches Err(m) ==> m@ == name@ + " not found"@,
{
    if command_on_path(name) {
        let mut m = String::new();
        m.append(name);
        m.append(" is installed.");
        proof {
            assert(m@ =~= name@ + " is installed."@);
        }
        Ok(m)
    } else {
        let mut m = String::new();
        m.append(name);
        m.append(" not found");
        proof {
            assert(m@ =~= name@ + " not found"@);
        }
        Err(m)
    }
}

/// What a consent line means before running a destructive command:
/// `Some(Ok(()))` backs out without running anything, `None` lets the
/// command run.
pub fn confirm_cmd_decision(line: Option<&String>) -> (r: Option<Result<(), String>>)
    ensures
        ({
            let consented = match line {
                Some(l) => is_affirmative(l@),
                None => false,
            };
            if consented {
                r is None
            } else {
                r matches Some(inner) && inner is Ok
            }
        }),
{
    let consented = match line {
        Some(l) => crate::utils::confirm_answer(l.as_str()),
        None => false,
    };
    if consented {
        None
    } else {
        Some(Ok(()))
    }
}

/// Reads the consent line for a destructive command from `input`; the
/// decision taken on it is exactly `confirm_cmd_decision`'s, and a
/// refusal (or failed read) always backs out with `Some(Ok(()))`.
pub fn confirm_cmd<R: std::io::Read>(input: R) -> (r: Option<Result<(), String>>)
    ensures
        r matches Some(inner) ==> inner is Ok,
{
    let line = read_line_from(input);
    confirm_cmd_decision(line.as_ref())
}

} // verus!
