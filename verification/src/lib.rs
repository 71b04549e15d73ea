pub mod cli;
pub mod constants;
pub mod processes;
pub mod settings;
pub mod utils;
pub mod uvctrl;
pub mod venv;
pub mod venvmanager;
pub mod strutil;
pub mod tui;

use vstd::prelude::*;

use crate::utils::{merge_packages, merge_unique_spec, parse_requirements, requirements_of};

verus! {

/// What the preflight of Create answers, in order: a name is required,
/// the external tool must be present, and no environment of that name
/// may exist yet.
pub open spec fn create_checks_spec(name: Seq<char>, uv_present: bool, exists: bool) -> Result<
    (),
    Seq<char>,
> {
    if name.len() == 0 {
        Err("A valid name is required"@)
    } else if !uv_present {
        Err("Astral UV is not installed. Please run 'pylot uv install' to install it."@)
    } else if exists {
        Err("A virtual environment with the name "@ + name + " already exists"@)
    } else {
        Ok(())
    }
}

/// The preflight of Create: rejects an empty name, a missing external
/// tool (`uv_present` is the presence probe's answer), and a name that
/// already exists, each with its fixed message, in that order.
pub fn create_checks(name: &str, uv_present: bool, exists: bool) -> (r: Result<(), String>)
    ensures
        r is Ok <==> create_checks_spec(name@, uv_present, exists) is Ok,
        ({
            match r {
                Ok(()) => true,
                Err(m) => create_checks_spec(name@, uv_present, exists) matches Err(em) && m@
                    == em,
            }
        }),
{
    if name.unicode_len() == 0 {
        Err("A valid name is required".to_owned())
    } else if !uv_present {
        Err("Astral UV is not installed. Please run 'pylot uv install' to install it.".to_owned())
    } else if exists {
        let mut m = String::new();
        m.append("A virtual environment with the name ");
        m.append(name);
        m.append(" already exists");
        proof {
            assert(m@ =~= "A virtual environment with the name "@ + name@ + " already exists"@);
        }
        Err(m)
    } else {
        Ok(())
    }
}

/// Folds a requirements file into the requested package list: an empty
/// file name asks for nothing; a named file that could not be read
/// (`content` is `None`) fails and changes nothing; otherwise the
/// specifiers the text names are appended, skipping those already
/// present, by exact string match and in file order.
pub fn update_packages_from_requirements(
    packages: &mut Vec<String>,
    requirements: &str,
    content: Option<&str>,
) -> (r: Result<(), String>)
    ensures
        requirements@.len() == 0 ==> r is Ok && *final(packages) == *old(packages),
        requirements@.len() > 0 && content is None ==> (r matches Err(m) && m@
            == "Requirements file does not exist"@) && *final(packages) == *old(packages),
        requirements@.len() > 0 ==> (content matches Some(c) ==> r is Ok
            && final(packages).deep_view() == merge_unique_spec(
            old(packages).deep_view(),
            requirements_of(c@),
        )),
{
    if requirements.unicode_len() == 0 {
        return Ok(());
    }
    match content {
        None => Err("Requirements file does not exist".to_owned()),
        Some(c) => {
            let reqs = parse_requirements(c);
            merge_packages(packages, &reqs);
            Ok(())
        },
    }
}

} // verus!
