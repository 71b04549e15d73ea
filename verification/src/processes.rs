//! The process-runner model: the argument vector a spawn gets, the
//! verdict drawn from a finished run, and the choice of the parent shell.
//!
//! Spawning and draining are the caller's business. The runner's design
//! is fixed here only in what can be decided on values: both output
//! streams must be drained concurrently, and success requires a
//! successful exit together with both drains finishing cleanly.
use vstd::prelude::*;

use crate::venv::Platform;

verus! {

/// The argument vector of a spawn: the program, then the optional
/// leading token (dropped when empty), then the arguments.
pub open spec fn child_argv_spec(cmd: Seq<char>, args: Seq<Seq<char>>, run: Seq<char>) -> Seq<
    Seq<char>,
> {
    if run.len() > 0 {
        seq![cmd, run] + args
    } else {
        seq![cmd] + args
    }
}

/// Builds the argument vector of a spawn, program first; an empty `run`
/// token is dropped, a non-empty one stands before the arguments.
pub fn create_child_cmd(cmd: &str, args: &Vec<String>, run: &str) -> (r: Vec<String>)
    ensures
        r.deep_view() == child_argv_spec(cmd@, args.deep_view(), run@),
{
    let mut argv: Vec<String> = Vec::new();
    argv.push(cmd.to_owned());
    if run.unicode_len() > 0 {
        argv.push(run.to_owned());
    }
    let mut i: usize = 0;
    let ghost head = argv.deep_view();
    proof {
        if run@.len() > 0 {
            assert(head =~= seq![cmd@, run@]);
        } else {
            assert(head =~= seq![cmd@]);
        }
    }
    while i < args.len()
        invariant
            0 <= i <= args.len(),
            argv.deep_view() == head + args.deep_view().subrange(0, i as int),
        decreases args.len() - i,
    {
        let ghost pre = argv.deep_view();
        argv.push(args[i].clone());
        proof {
            assert(argv.deep_view() =~= pre.push(args.deep_view()[i as int]));
            assert(argv.deep_view() =~= head + args.deep_view().subrange(0, i as int + 1));
        }
        i = i + 1;
    }
    proof {
        assert(args.deep_view().subrange(0, args.deep_view().len() as int) =~= args.deep_view());
        assert(argv.deep_view() =~= child_argv_spec(cmd@, args.deep_view(), run@));
    }
    argv
}

/// What the caller observed of one finished run: the exit status, and
/// whether each of the two concurrent stream drains reached end of
/// stream without an I/O error.
#[derive(Clone, Copy, Debug, PartialEq, Eq, Structural)]
pub struct RunObservation {
    pub exit_success: bool,
    pub stdout_ok: bool,
    pub stderr_ok: bool,
}

/// How a run failed.
#[derive(Clone, Copy, Debug, PartialEq, Eq, Structural)]
pub enum ProcessError {
    /// Draining standard output hit an I/O error.
    StdoutStream,
    /// Draining standard error hit an I/O error.
    StderrStream,
    /// The process exited without success.
    CommandFailed,
}

/// Decides how a finished run went. Only a run whose process exited well
/// and whose two stream readers both hit end of stream counts as `Ok`;
/// otherwise the standard-output reader's failure is named first, then
/// the standard-error reader's, then the exit status.
pub fn run_verdict(o: RunObservation) -> (r: Result<(), ProcessError>)
    ensures
        r is Ok <==> o.exit_success && o.stdout_ok && o.stderr_ok,
        !o.stdout_ok ==> r == Err::<(), ProcessError>(ProcessError::StdoutStream),
        o.stdout_ok && !o.stderr_ok ==> r == Err::<(), ProcessError>(ProcessError::StderrStream),
        o.stdout_ok && o.stderr_ok && !o.exit_success ==> r == Err::<(), ProcessError>(
            ProcessError::CommandFailed,
        ),
{
    if !o.stdout_ok {
        Err(ProcessError::StdoutStream)
    } else if !o.stderr_ok {
        Err(ProcessError::StderrStream)
    } else if !o.exit_success {
        Err(ProcessError::CommandFailed)
    } else {
        Ok(())
    }
}

/// The parent shell to hand the activation command to: on Windows the
/// PowerShell flavour that is present, elsewhere whatever the
/// environment names (`None` when it names none; the caller decides how
/// fatal that is).
pub fn get_parent_shell(platform: Platform, pwsh_present: bool, shell_var: Option<String>) -> (r:
    Option<String>)
    ensures
        platform == Platform::Windows && pwsh_present ==> (r matches Some(s) && s@ == "pwsh"@),
        platform == Platform::Windows && !pwsh_present ==> (r matches Some(s) && s@
            == "powershell"@),
        platform == Platform::Posix ==> r.deep_view() == shell_var.deep_view(),
{
    match platform {
        Platform::Windows => {
            if pwsh_present {
                Some("pwsh".to_owned())
            } else {
                Some("powershell".to_owned())
            }
        },
        Platform::Posix => shell_var,
    }
}

} // verus!
