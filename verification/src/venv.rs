//! The environment entity and the lifecycle decisions around it: the
//! argument vector that creates an environment, the shell command that
//! installs packages into it, the command that activates it, the version
//! read from its on-disk configuration, and the verdicts for create,
//! delete and activate.
//!
//! Running the resulting commands, probing the filesystem and reading the
//! configuration file are the caller's business: every function here is a
//! pure computation from the values the caller hands in.
use vstd::prelude::*;

use crate::settings::Settings;
use crate::strutil::{join, join_with, split_char, split_on, starts_with, trim, trim_spec};
use crate::utils::{confirm_answer, merge_packages, merge_unique_spec, read_line_from};

verus! {

/// The platform a command is built for.
#[derive(Clone, Copy, Debug, PartialEq, Eq, Structural)]
pub enum Platform {
    Windows,
    Posix,
}

/// The directory of the environment `name` under `root`.
pub open spec fn venv_dir_spec(root: Seq<char>, name: Seq<char>) -> Seq<char> {
    root + "/"@ + name
}

/// The path of the activation script of `name` under `root`.
pub open spec fn activation_script_spec(root: Seq<char>, name: Seq<char>, platform: Platform) -> Seq<char> {
    if platform == Platform::Windows {
        venv_dir_spec(root, name) + "/scripts/activate.ps1"@
    } else {
        venv_dir_spec(root, name) + "/bin/activate"@
    }
}

/// The one-line shell command that sources the activation script of
/// `name` and then installs `pkgs` through the external tool.
pub open spec fn install_command_spec(
    root: Seq<char>,
    name: Seq<char>,
    pkgs: Seq<Seq<char>>,
    platform: Platform,
) -> Seq<char> {
    if platform == Platform::Windows {
        activation_script_spec(root, name, platform) + " && uv pip install "@ + join_with(
            pkgs,
            " "@,
        )
    } else {
        ". "@ + activation_script_spec(root, name, platform) + " && uv pip install "@ + join_with(
            pkgs,
            " "@,
        )
    }
}

/// The directory of the environment `name` under `root`, as a path string.
pub fn venv_dir(root: &str, name: &str) -> (r: String)
    ensures
        r@ == venv_dir_spec(root@, name@),
{
    let mut out = String::new();
    out.append(root);
    out.append("/");
    out.append(name);
    proof {
        assert(out@ =~= venv_dir_spec(root@, name@));
    }
    out
}

/// The path of the activation script of `name` under `root`.
pub fn activation_script(root: &str, name: &str, platform: Platform) -> (r: String)
    ensures
        r@ == activation_script_spec(root@, name@, platform),
{
    let mut out = venv_dir(root, name);
    match platform {
        Platform::Windows => out.append("/scripts/activate.ps1"),
        Platform::Posix => out.append("/bin/activate"),
    }
    out
}

/// A named, directory-backed Python virtual environment.
#[derive(Debug)]
pub struct Venv {
    pub name: String,
    pub path: String,
    pub python_version: String,
    pub packages: Vec<String>,
    pub default: bool,
    pub settings: Settings,
}

/// What the version scan of a configuration file's text yields: the
/// trimmed right-hand side of the last line that starts with `version`
/// and holds exactly one `=`.
pub open spec fn cfg_version_scan(lines: Seq<Seq<char>>) -> Option<Seq<char>>
    decreases lines.len(),
{
    if lines.len() == 0 {
        None
    } else {
        let l = lines.last();
        let parts = split_char(l, '=');
        if crate::strutil::has_prefix(l, "version"@) && parts.len() == 2 {
            Some(trim_spec(parts[1]))
        } else {
            cfg_version_scan(lines.drop_last())
        }
    }
}

/// The interpreter version that a `pyvenv.cfg`-style text states, if any.
pub open spec fn version_from_cfg(content: Seq<char>) -> Option<Seq<char>> {
    cfg_version_scan(split_char(content, '\n'))
}

impl Venv {
    /// A fresh environment value carrying the built-in settings.
    pub fn new(
        name: String,
        path: String,
        python_version: String,
        packages: Vec<String>,
        default: bool,
    ) -> (v: Venv)
        ensures
            v.name@ == name@,
            v.path@ == path@,
            v.python_version@ == python_version@,
            v.packages == packages,
            v.default == default,
            v.settings.venvs_path@ == "~/pylot/venvs"@,
            v.settings.default_pkgs.deep_view() == Seq::<Seq<char>>::empty(),
    {
        Venv {
            name,
            path,
            python_version,
            packages,
            default,
            settings: Settings::get_settings(),
        }
    }

    /// A fresh environment value carrying the given settings.
    pub fn with_settings(
        name: String,
        path: String,
        python_version: String,
        packages: Vec<String>,
        default: bool,
        settings: Settings,
    ) -> (v: Venv)
        ensures
            v.name@ == name@,
            v.path@ == path@,
            v.python_version@ == python_version@,
            v.packages == packages,
            v.default == default,
            v.settings == settings,
    {
        Venv { name, path, python_version, packages, default, settings }
    }

    /// The arguments that ask the external tool to materialize this
    /// environment at the requested interpreter version.
    pub fn create_args(&self) -> (r: Vec<String>)
        ensures
            r.deep_view() =~= seq!["venv"@, self.name@, "--python"@, self.python_version@],
    {
        let mut args: Vec<String> = Vec::new();
        args.push("venv".to_owned());
        args.push(self.name.clone());
        args.push("--python".to_owned());
        args.push(self.python_version.clone());
        args
    }

    /// The packages to install: the requested ones, with the default list
    /// unioned in (deduplicated by exact string match) when asked for.
    pub fn install_packages(&self) -> (r: Vec<String>)
        ensures
            r.deep_view() == if self.default {
                merge_unique_spec(self.packages.deep_view(), self.settings.default_pkgs.deep_view())
            } else {
                self.packages.deep_view()
            },
    {
        let mut pkgs: Vec<String> = Vec::new();
        let mut i: usize = 0;
        while i < self.packages.len()
            invariant
                0 <= i <= self.packages.len(),
                pkgs.deep_view() =~= self.packages.deep_view().subrange(0, i as int),
            decreases self.packages.len() - i,
        {
            let ghost pre = pkgs.deep_view();
            pkgs.push(self.packages[i].clone());
            proof {
                assert(pkgs.deep_view() =~= pre.push(self.packages.deep_view()[i as int]));
                assert(pkgs.deep_view() =~= self.packages.deep_view().subrange(0, i as int + 1));
            }
            i = i + 1;
        }
        proof {
            let pv = self.packages.deep_view();
            assert(pv.subrange(0, pv.len() as int) =~= pv);
        }
        if self.default {
            merge_packages(&mut pkgs, &self.settings.default_pkgs);
        }
        pkgs
    }

    /// The command that installs `pkgs` into this environment: the
    /// program to run, the token that introduces the inline command, and
    /// the command line itself. `venv_path` is the expanded environments
    /// root; on Windows the PowerShell flavour follows `pwsh_present`.
    pub fn generate_command(
        &self,
        pkgs: &Vec<String>,
        venv_path: &str,
        platform: Platform,
        pwsh_present: bool,
    ) -> (r: (String, String, String))
        ensures
            platform == Platform::Windows ==> r.0@ == (if pwsh_present {
                "pwsh"@
            } else {
                "powershell"@
            }) && r.1@ == "-Command"@,
            platform == Platform::Posix ==> r.0@ == "sh"@ && r.1@ == "-c"@,
            r.2@ == install_command_spec(venv_path@, self.name@, pkgs.deep_view(), platform),
    {
        let joined = join(pkgs, " ");
        let script = activation_script(venv_path, self.name.as_str(), platform);
        match platform {
            Platform::Windows => {
                let cmd: String = if pwsh_present {
                    "pwsh".to_owned()
                } else {
                    "powershell".to_owned()
                };
                let mut line = String::new();
                line.append(script.as_str());
                line.append(" && uv pip install ");
                line.append(joined.as_str());
                proof {
                    assert(line@ =~= install_command_spec(
                        venv_path@,
                        self.name@,
                        pkgs.deep_view(),
                        Platform::Windows,
                    ));
                }
                (cmd, "-Command".to_owned(), line)
            },
            Platform::Posix => {
                let mut line = String::new();
                line.append(". ");
                line.append(script.as_str());
                line.append(" && uv pip install ");
                line.append(joined.as_str());
                proof {
                    assert(line@ =~= install_command_spec(
                        venv_path@,
                        self.name@,
                        pkgs.deep_view(),
                        Platform::Posix,
                    ));
                }
                ("sh".to_owned(), "-c".to_owned(), line)
            },
        }
    }

    /// The interactive take-over command that activates this environment:
    /// the argument vector for the shell, and the activation script path
    /// whose existence the caller must check first. `root` is the
    /// expanded environments root and `shell` the user's parent shell.
    pub fn get_shell_cmd(&self, root: &str, shell: &str, platform: Platform) -> (r: (
        Vec<String>,
        String,
    ))
        ensures
            r.1@ == activation_script_spec(root@, self.name@, platform),
            platform == Platform::Windows ==> r.0.deep_view() =~= seq![
                activation_script_spec(root@, self.name@, platform) + " && "@ + shell@,
            ],
            platform == Platform::Posix ==> r.0.deep_view() =~= seq![
                "-c"@,
                ". "@ + activation_script_spec(root@, self.name@, platform) + " && "@ + shell@
                    + " -i"@,
            ],
    {
        let script = activation_script(root, self.name.as_str(), platform);
        match platform {
            Platform::Windows => {
                let mut line = String::new();
                line.append(script.as_str());
                line.append(" && ");
                line.append(shell);
                proof {
                    assert(line@ =~= activation_script_spec(root@, self.name@, Platform::Windows)
                        + " && "@ + shell@);
                }
                let mut cmd: Vec<String> = Vec::new();
                cmd.push(line);
                (cmd, script)
            },
            Platform::Posix => {
                let mut line = String::new();
                line.append(". ");
                line.append(script.as_str());
                line.append(" && ");
                line.append(shell);
                line.append(" -i");
                proof {
                    assert(line@ =~= ". "@ + activation_script_spec(
                        root@,
                        self.name@,
                        Platform::Posix,
                    ) + " && "@ + shell@ + " -i"@);
                }
                let mut cmd: Vec<String> = Vec::new();
                cmd.push("-c".to_owned());
                cmd.push(line);
                (cmd, script)
            },
        }
    }

    /// Re-derives the interpreter version from the text of the
    /// environment's on-disk configuration file; `None` (file missing or
    /// unreadable) leaves the value as it was.
    pub fn set_python_version(&mut self, cfg: Option<&str>)
        ensures
            final(self).name == old(self).name,
            final(self).path == old(self).path,
            final(self).packages == old(self).packages,
            final(self).default == old(self).default,
            final(self).settings == old(self).settings,
            final(self).python_version@ == match cfg {
                None => old(self).python_version@,
                Some(c) => match version_from_cfg(c@) {
                    Some(v) => v,
                    None => old(self).python_version@,
                },
            },
    {
        let content = match cfg {
            None => {
                return ;
            },
            Some(c) => c,
        };
        let lines = split_on(content, '\n');
        let mut found: Option<String> = None;
        let mut i: usize = 0;
        proof {
            let lv = lines.deep_view();
            assert(lv.subrange(0, 0) =~= Seq::<Seq<char>>::empty());
        }
        while i < lines.len()
            invariant
                0 <= i <= lines.len(),
                match found {
                    Some(v) => cfg_version_scan(lines.deep_view().subrange(0, i as int))
                        == Some(v@),
                    None => cfg_version_scan(lines.deep_view().subrange(0, i as int))
                        is None,
                },
            decreases lines.len() - i,
        {
            proof {
                let lv = lines.deep_view();
                assert(lv.subrange(0, i as int + 1).drop_last() =~= lv.subrange(0, i as int));
                assert(lv.subrange(0, i as int + 1).last() == lv[i as int]);
            }
            let line = &lines[i];
            if starts_with(line.as_str(), "version") {
                let parts = split_on(line.as_str(), '=');
                if parts.len() == 2 {
                    found = Some(trim(parts[1].as_str()));
                }
            }
            i = i + 1;
        }
        proof {
            let lv = lines.deep_view();
            assert(lv.subrange(0, lv.len() as int) =~= lv);
        }
        match found {
            Some(v) => {
                self.python_version = v;
            },
            None => {},
        }
    }
}

/// How a create run ended.
#[derive(Clone, Copy, Debug, PartialEq, Eq, Structural)]
pub enum CreateStatus {
    /// The tool materialized the directory and every requested package
    /// went in.
    Succeeded,
    /// The tool invocation itself failed.
    FailedTool,
    /// The directory was materialized but installing packages failed.
    FailedInstall,
}

/// The verdict of a create run, from its step outcomes: `tool_ok` is the
/// tool invocation's result, `install_needed` whether a package-install
/// step was planned, and `install_ok` that step's result (meaningful only
/// when it was needed).
pub open spec fn create_outcome_spec(
    tool_ok: bool,
    install_needed: bool,
    install_ok: bool,
) -> CreateStatus {
    if !tool_ok {
        CreateStatus::FailedTool
    } else if install_needed && !install_ok {
        CreateStatus::FailedInstall
    } else {
        CreateStatus::Succeeded
    }
}

/// Whether a create verdict requires deleting the partially created
/// directory: exactly on every failure.
pub open spec fn rollback_required_spec(status: CreateStatus) -> bool {
    status != CreateStatus::Succeeded
}

/// The verdict of a create run from its step outcomes.
pub fn create_outcome(tool_ok: bool, install_needed: bool, install_ok: bool) -> (r: CreateStatus)
    ensures
        r == create_outcome_spec(tool_ok, install_needed, install_ok),
        r == CreateStatus::Succeeded <==> tool_ok && (!install_needed || install_ok),
        r == CreateStatus::FailedTool <==> !tool_ok,
        r == CreateStatus::FailedInstall <==> tool_ok && install_needed && !install_ok,
{
    if !tool_ok {
        CreateStatus::FailedTool
    } else if install_needed && !install_ok {
        CreateStatus::FailedInstall
    } else {
        CreateStatus::Succeeded
    }
}

/// Whether a create run's verdict requires deleting the partially created
/// directory.
pub fn rollback_required(status: CreateStatus) -> (r: bool)
    ensures
        r == rollback_required_spec(status),
{
    match status {
        CreateStatus::Succeeded => false,
        CreateStatus::FailedTool => true,
        CreateStatus::FailedInstall => true,
    }
}

/// Rollback invariant: a create run directs removal of the partial
/// directory exactly when one of its steps failed, so a run that was not
/// a full success never leaves the directory behind once the caller has
/// carried the directive out.
pub proof fn lemma_create_rollback(tool_ok: bool, install_needed: bool, install_ok: bool)
    ensures
        rollback_required_spec(create_outcome_spec(tool_ok, install_needed, install_ok)) <==> !(
        tool_ok && (!install_needed || install_ok)),
{
}

/// What a delete request decides, given what is on disk and what the user
/// answered.
#[derive(Clone, Copy, Debug, PartialEq, Eq, Structural)]
pub enum DeleteAction {
    /// The environment does not exist: report and touch nothing.
    RejectMissing,
    /// Consent was required and not given: a user-chosen no-op.
    Skip,
    /// Remove the directory tree.
    Remove,
}

/// The delete decision: a missing environment is rejected before anything
/// else; with confirmation required, only an affirmative answer (a failed
/// read counts as refusal) lets the removal proceed; without it the
/// removal always proceeds.
pub fn delete_decision(exists: bool, confirm_required: bool, line: Option<&String>) -> (r:
    DeleteAction)
    ensures
        !exists ==> r == DeleteAction::RejectMissing,
        exists && !confirm_required ==> r == DeleteAction::Remove,
        exists && confirm_required ==> r == (match line {
            Some(l) => if crate::utils::is_affirmative(l@) {
                DeleteAction::Remove
            } else {
                DeleteAction::Skip
            },
            None => DeleteAction::Skip,
        }),
{
    if !exists {
        return DeleteAction::RejectMissing;
    }
    if !confirm_required {
        return DeleteAction::Remove;
    }
    match line {
        Some(l) => {
            if confirm_answer(l.as_str()) {
                DeleteAction::Remove
            } else {
                DeleteAction::Skip
            }
        },
        None => DeleteAction::Skip,
    }
}

/// The delete decision, reading the consent line from `input` when
/// confirmation is required. The decision taken on what was read is
/// exactly `delete_decision`'s; an `Ok` result never removes a missing
/// environment.
pub fn delete<R: std::io::Read>(input: R, exists: bool, confirm_required: bool) -> (r:
    DeleteAction)
    ensures
        !exists ==> r == DeleteAction::RejectMissing,
        exists && !confirm_required ==> r == DeleteAction::Remove,
        r == DeleteAction::RejectMissing ==> !exists,
{
    if exists && confirm_required {
        let line = read_line_from(input);
        delete_decision(exists, confirm_required, line.as_ref())
    } else {
        delete_decision(exists, confirm_required, None)
    }
}

/// The activate precondition: the activation script must exist; a missing
/// script fails with the non-existence message before any shell runs.
pub fn activate_decision(script_exists: bool) -> (r: Result<(), String>)
    ensures
        script_exists <==> r is Ok,
        !script_exists ==> (r matches Err(m) && m@ == "Virtual environment does not exist"@),
{
    if script_exists {
        Ok(())
    } else {
        Err("Virtual environment does not exist".to_owned())
    }
}

} // verus!
