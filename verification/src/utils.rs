//! The confirmation gate, the interactive index selection, the probe for
//! required external commands, and the requirements-file line filter.
//!
//! Reading from an input source is behind a trusted wrapper; every decision
//! taken on what was read is verified against the spec functions here.
use vstd::prelude::*;

use crate::strutil::{
    all_digits, join_with, parse_usize, split_char, split_on, str_eq, str_to_nat, trim, trim_spec,
    vec_contains_str,
};

verus! {

/// Relies on `std::io::BufRead::read_line` (through a `std::io::BufReader`):
/// returns the first line of `input`, or `None` if reading fails.
#[verifier::external_body]
pub(crate) fn read_line_from<R: std::io::Read>(input: R) -> (r: Option<String>) {
    let mut reader = std::io::BufReader::new(input);
    let mut line = String::new();
    match std::io::BufRead::read_line(&mut reader, &mut line) {
        Ok(_) => Some(line),
        Err(_) => None,
    }
}

/// Relies on `which::which`: whether a program of this name can be found
/// on the search path. The answer depends on the machine, so nothing more
/// is assumed about it.
#[verifier::external_body]
pub(crate) fn command_on_path(name: &str) -> (r: bool) {
    which::which(name).is_ok()
}

/// Relies on `shellexpand::tilde`: expands a leading `~` to the user's
/// home directory. Its source returns the input unchanged whenever the
/// input does not start with `~`; what a `~` expands to depends on the
/// machine, so nothing is assumed about that case.
#[verifier::external_body]
pub(crate) fn expand_tilde(path: &str) -> (r: String)
    ensures
        path@.len() == 0 || path@[0] != '~' ==> r@ == path@,
{
    shellexpand::tilde(path).to_string()
}

/// Whether an input line, once trimmed, is one of the four accepted
/// affirmative answers: exactly `y`, `Y`, `yes` or `YES`. The set is
/// deliberately these four tokens and no other casing — `Yes` or `yEs`
/// count as refusal.
pub open spec fn is_affirmative(line: Seq<char>) -> bool {
    let t = trim_spec(line);
    t == "y"@ || t == "yes"@ || t == "Y"@ || t == "YES"@
}

/// Decides consent from one already-read input line.
pub fn confirm_answer(line: &str) -> (r: bool)
    ensures
        r == is_affirmative(line@),
{
    let t = trim(line);
    str_eq(t.as_str(), "y") || str_eq(t.as_str(), "yes") || str_eq(t.as_str(), "Y") || str_eq(
        t.as_str(),
        "YES",
    )
}

/// Whitespace around an answer never changes what it means: wrapping
/// `s` in spaces, tabs or line breaks leaves `is_affirmative` exactly
/// where it was, so the four accepted tokens keep being accepted and
/// every other answer keeps being refused.
pub proof fn lemma_affirmative_ignores_padding(p: Seq<char>, s: Seq<char>, q: Seq<char>)
    requires
        crate::strutil::all_spaces(p),
        crate::strutil::all_spaces(q),
    ensures
        is_affirmative(p + s + q) == is_affirmative(s),
{
    crate::strutil::lemma_trim_spec_padded(p, s, q);
}

/// What one read attempt means as consent: a line that was read
/// answers by `is_affirmative`; `None` — the read did not succeed —
/// always answers no.
pub fn confirm_decision(line: Option<&String>) -> (r: bool)
    ensures
        r == (match line {
            Some(l) => is_affirmative(l@),
            None => false,
        }),
{
    match line {
        Some(l) => confirm_answer(l.as_str()),
        None => false,
    }
}

/// Reads one line from `input` and returns true only for an affirmative
/// answer. The decision taken on the read attempt is exactly
/// `confirm_decision`'s: whatever was read answers by `is_affirmative`,
/// and a failed read counts as refusal.
pub fn confirm<R: std::io::Read>(input: R) -> bool {
    let line = read_line_from(input);
    confirm_decision(line.as_ref())
}

/// Why an interactive selection did not produce an index.
#[derive(Clone, Copy, Debug, PartialEq, Eq, Structural)]
pub enum SelectError {
    /// The user typed one of the cancel tokens.
    Cancelled,
    /// The input was empty or not a number.
    NotANumber,
    /// The number was outside the listed range.
    OutOfRange,
}

impl SelectError {
    /// The message shown for this failure.
    pub open spec fn message_spec(&self) -> Seq<char> {
        match self {
            SelectError::Cancelled => "Cancelled by user"@,
            SelectError::NotANumber => "Please provide a valid number!"@,
            SelectError::OutOfRange => "Index out of range!"@,
        }
    }

    /// The message shown for this failure.
    pub fn message(&self) -> (r: String)
        ensures
            r@ == self.message_spec(),
    {
        match self {
            SelectError::Cancelled => "Cancelled by user".to_owned(),
            SelectError::NotANumber => "Please provide a valid number!".to_owned(),
            SelectError::OutOfRange => "Index out of range!".to_owned(),
        }
    }
}

/// Whether a trimmed input line is one of the cancel tokens, compared
/// without regard to case.
pub open spec fn is_cancel_token(t: Seq<char>) -> bool {
    t == "q"@ || t == "Q"@ || t == "c"@ || t == "C"@
}

/// What one input line means as a selection against a listing of `size`
/// items: a cancel token cancels; anything that is not a number is
/// rejected; a number is accepted exactly when it lies in `1 ..= size`.
pub open spec fn selection_of(line: Seq<char>, size: int) -> Result<int, SelectError> {
    let t = trim_spec(line);
    if is_cancel_token(t) {
        Err(SelectError::Cancelled)
    } else if t.len() == 0 || !all_digits(t) || str_to_nat(t) > usize::MAX {
        Err(SelectError::NotANumber)
    } else if 1 <= str_to_nat(t) && str_to_nat(t) <= size {
        Ok(str_to_nat(t) as int)
    } else {
        Err(SelectError::OutOfRange)
    }
}

/// Parses one input line as a 1-based selection against a listing of
/// `size` items. The input is parsed once; there is no re-prompting.
pub fn parse_selection(line: &str, size: usize) -> (r: Result<usize, SelectError>)
    ensures
        ({
            let s = selection_of(line@, size as int);
            match r {
                Ok(v) => s == Ok::<int, SelectError>(v as int),
                Err(e) => s == Err::<int, SelectError>(e),
            }
        }),
{
    let t = trim(line);
    if str_eq(t.as_str(), "q") || str_eq(t.as_str(), "Q") || str_eq(t.as_str(), "c") || str_eq(
        t.as_str(),
        "C",
    ) {
        return Err(SelectError::Cancelled);
    }
    match parse_usize(t.as_str()) {
        None => Err(SelectError::NotANumber),
        Some(v) => {
            if 1 <= v && v <= size {
                Ok(v)
            } else {
                Err(SelectError::OutOfRange)
            }
        },
    }
}

/// A command name surrounded by double quotes.
pub open spec fn quote_name(m: Seq<char>) -> Seq<char> {
    "\""@ + m + "\""@
}

/// Each name of `ms`, quoted.
pub open spec fn quoted_names(ms: Seq<Seq<char>>) -> Seq<Seq<char>>
    decreases ms.len(),
{
    if ms.len() == 0 {
        Seq::empty()
    } else {
        quoted_names(ms.drop_last()).push(quote_name(ms.last()))
    }
}

/// The message that reports missing commands: the names, quoted, between
/// brackets, after a fixed heading.
pub open spec fn missing_message_spec(missing: Seq<Seq<char>>) -> Seq<char> {
    "Missing required commands: ["@ + join_with(quoted_names(missing), ", "@) + "]"@
}

/// Renders the report of missing commands.
pub fn missing_message(missing: &Vec<String>) -> (r: String)
    ensures
        r@ == missing_message_spec(missing.deep_view()),
{
    let mut quoted: Vec<String> = Vec::new();
    let mut i: usize = 0;
    while i < missing.len()
        invariant
            0 <= i <= missing.len(),
            quoted.deep_view() == quoted_names(missing.deep_view().subrange(0, i as int)),
        decreases missing.len() - i,
    {
        let mut q = String::new();
        q.append("\"");
        q.append(missing[i].as_str());
        q.append("\"");
        proof {
            assert(q@ =~= quote_name(missing.deep_view()[i as int]));
        }
        quoted.push(q);
        proof {
            let mv = missing.deep_view();
            assert(mv.subrange(0, i as int + 1).drop_last() =~= mv.subrange(0, i as int));
            assert(quoted.deep_view() =~= quoted_names(mv.subrange(0, i as int + 1)));
        }
        i = i + 1;
    }
    proof {
        assert(missing.deep_view().subrange(0, missing.deep_view().len() as int)
            =~= missing.deep_view());
    }
    let body = crate::strutil::join(&quoted, ", ");
    let mut out = String::new();
    out.append("Missing required commands: [");
    out.append(body.as_str());
    out.append("]");
    out
}

/// The commands whose probe answered false: exactly the `cmds[i]` with
/// `!present[i]`, in input order.
pub open spec fn missing_spec(cmds: Seq<Seq<char>>, present: Seq<bool>) -> Seq<Seq<char>>
    decreases cmds.len(),
{
    if cmds.len() == 0 {
        Seq::empty()
    } else {
        let rest = missing_spec(cmds.drop_last(), present.drop_last());
        if !present[cmds.len() - 1] {
            rest.push(cmds.last())
        } else {
            rest
        }
    }
}

/// Selects the commands whose probe answered false, in input order.
pub fn missing_of(cmds: &Vec<String>, present: &Vec<bool>) -> (r: Vec<String>)
    requires
        present@.len() == cmds@.len(),
    ensures
        r.deep_view() == missing_spec(cmds.deep_view(), present@),
{
    let mut out: Vec<String> = Vec::new();
    let mut i: usize = 0;
    while i < cmds.len()
        invariant
            0 <= i <= cmds.len(),
            present@.len() == cmds@.len(),
            out.deep_view() == missing_spec(
                cmds.deep_view().subrange(0, i as int),
                present@.subrange(0, i as int),
            ),
        decreases cmds.len() - i,
    {
        proof {
            let cv = cmds.deep_view();
            assert(cv.subrange(0, i as int + 1).drop_last() =~= cv.subrange(0, i as int));
            assert(present@.subrange(0, i as int + 1).drop_last() =~= present@.subrange(
                0,
                i as int,
            ));
            assert(cv.subrange(0, i as int + 1).last() == cv[i as int]);
        }
        if !present[i] {
            let ghost pre = out.deep_view();
            out.push(cmds[i].clone());
            proof {
                assert(out.deep_view() =~= pre.push(cmds.deep_view()[i as int]));
            }
        }
        i = i + 1;
    }
    proof {
        let cv = cmds.deep_view();
        assert(cv.subrange(0, cv.len() as int) =~= cv);
        assert(present@.subrange(0, present@.len() as int) =~= present@);
    }
    out
}

/// Probes every command of `cmds` on the search path and reports the
/// ones that are missing. No commands means nothing can be missing, so
/// the result is `Ok`; a failure carries the fixed report over exactly
/// the probe-rejected subset of `cmds`, in input order, as
/// `missing_spec` selects it.
pub fn which_check(cmds: &Vec<String>) -> (r: Result<(), String>)
    ensures
        cmds.deep_view().len() == 0 ==> r is Ok,
        ({
            match r {
                Ok(()) => true,
                Err(m) => exists|present: Seq<bool>|
                    {
                        &&& present.len() == cmds.deep_view().len()
                        &&& missing_spec(cmds.deep_view(), present).len() > 0
                        &&& m@ == missing_message_spec(missing_spec(cmds.deep_view(), present))
                    },
            }
        }),
{
    let mut present: Vec<bool> = Vec::new();
    let mut i: usize = 0;
    while i < cmds.len()
        invariant
            0 <= i <= cmds.len(),
            present@.len() == i,
        decreases cmds.len() - i,
    {
        present.push(command_on_path(cmds[i].as_str()));
        i = i + 1;
    }
    let missing = missing_of(cmds, &present);
    if missing.len() == 0 {
        Ok(())
    } else {
        let m = missing_message(&missing);
        proof {
            assert(present@.len() == cmds.deep_view().len());
            assert(missing_spec(cmds.deep_view(), present@).len() > 0);
            assert(m@ == missing_message_spec(missing_spec(cmds.deep_view(), present@)));
        }
        Err(m)
    }
}

/// Whether a trimmed requirements line is kept: not empty and not a
/// comment.
pub open spec fn keep_requirement(t: Seq<char>) -> bool {
    t.len() > 0 && t[0] != '#'
}

/// The trimmed, kept lines of a requirements file, in order.
pub open spec fn filter_requirement_lines(lines: Seq<Seq<char>>) -> Seq<Seq<char>>
    decreases lines.len(),
{
    if lines.len() == 0 {
        Seq::empty()
    } else {
        let rest = filter_requirement_lines(lines.drop_last());
        let t = trim_spec(lines.last());
        if keep_requirement(t) {
            rest.push(t)
        } else {
            rest
        }
    }
}

/// The package specifiers that a requirements file's text names: each
/// line trimmed, with empty lines and `#` comments dropped.
pub open spec fn requirements_of(content: Seq<char>) -> Seq<Seq<char>> {
    filter_requirement_lines(split_char(content, '\n'))
}

/// Reads requirements-file text into the package specifiers it names.
pub fn parse_requirements(content: &str) -> (r: Vec<String>)
    ensures
        r.deep_view() == requirements_of(content@),
{
    let lines = split_on(content, '\n');
    let mut out: Vec<String> = Vec::new();
    let mut i: usize = 0;
    while i < lines.len()
        invariant
            0 <= i <= lines.len(),
            out.deep_view() == filter_requirement_lines(lines.deep_view().subrange(0, i as int)),
        decreases lines.len() - i,
    {
        proof {
            let lv = lines.deep_view();
            assert(lv.subrange(0, i as int + 1).drop_last() =~= lv.subrange(0, i as int));
            assert(lv.subrange(0, i as int + 1).last() == lv[i as int]);
        }
        let t = trim(lines[i].as_str());
        if t.unicode_len() > 0 && t.as_str().get_char(0) != '#' {
            let ghost pre = out.deep_view();
            out.push(t);
            proof {
                assert(out.deep_view() =~= pre.push(trim_spec(lines.deep_view()[i as int])));
            }
        }
        i = i + 1;
    }
    proof {
        let lv = lines.deep_view();
        assert(lv.subrange(0, lv.len() as int) =~= lv);
    }
    out
}

/// `base` with every string of `extra` appended that `base` (as grown so
/// far) does not already hold; order is kept, matching is exact.
pub open spec fn merge_unique_spec(base: Seq<Seq<char>>, extra: Seq<Seq<char>>) -> Seq<Seq<char>>
    decreases extra.len(),
{
    if extra.len() == 0 {
        base
    } else {
        let next = if base.contains(extra[0]) {
            base
        } else {
            base.push(extra[0])
        };
        merge_unique_spec(next, extra.drop_first())
    }
}

/// Appends to `packages` every string of `extra` that is not already
/// present, by exact string match, keeping order.
pub fn merge_packages(packages: &mut Vec<String>, extra: &Vec<String>)
    ensures
        final(packages).deep_view() == merge_unique_spec(
            old(packages).deep_view(),
            extra.deep_view(),
        ),
{
    let mut i: usize = 0;
    proof {
        let ev = extra.deep_view();
        assert(ev.subrange(0, ev.len() as int) =~= ev);
    }
    while i < extra.len()
        invariant
            0 <= i <= extra.len(),
            merge_unique_spec(packages.deep_view(), extra.deep_view().subrange(i as int, extra.deep_view().len() as int))
                == merge_unique_spec(old(packages).deep_view(), extra.deep_view()),
        decreases extra.len() - i,
    {
        let ghost ev = extra.deep_view();
        let ghost rest = ev.subrange(i as int, ev.len() as int);
        proof {
            assert(rest[0] == ev[i as int]);
            assert(rest.drop_first() =~= ev.subrange(i as int + 1, ev.len() as int));
        }
        if !vec_contains_str(packages, extra[i].as_str()) {
            let ghost pre = packages.deep_view();
            packages.push(extra[i].clone());
            proof {
                assert(packages.deep_view() =~= pre.push(ev[i as int]));
            }
        }
        i = i + 1;
    }
    proof {
        let ev = extra.deep_view();
        assert(ev.subrange(ev.len() as int, ev.len() as int) =~= Seq::<Seq<char>>::empty());
        assert(ev.subrange(0, ev.len() as int) =~= ev);
    }
}

} // verus!
