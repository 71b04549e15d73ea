//! The registry of environments: turning a directory scan into the list
//! of environments, projecting the list for display, and resolving a
//! target environment by explicit name or by interactive selection.
//!
//! The filesystem scan itself is the caller's business; it hands in one
//! `DirEntryInfo` per directory entry and this module decides, exactly as
//! the interpreter-binary probe dictates, which entries are environments.
use vstd::prelude::*;

use crate::settings::Settings;
use crate::utils::{expand_tilde, read_line_from, parse_selection, selection_of, SelectError};
use crate::venv::{venv_dir_spec, Venv};

verus! {

/// What a filesystem scan saw of one directory entry: its name, its full
/// path, whether it is a directory, and whether an interpreter binary was
/// found at each of the platform-specific relative paths
/// (`Scripts/python.exe`, `bin/python`, `bin/python3`).
#[derive(Debug)]
pub struct DirEntryInfo {
    pub name: String,
    pub path: String,
    pub is_dir: bool,
    pub has_win_python: bool,
    pub has_unix_python: bool,
    pub has_unix_python3: bool,
}

/// The interpreter-binary probe: an entry counts as an environment when
/// it is a directory and any of the probed interpreter paths exists.
pub open spec fn entry_is_env(e: DirEntryInfo) -> bool {
    e.is_dir && (e.has_win_python || e.has_unix_python || e.has_unix_python3)
}

/// The (name, path) pairs of the entries that count as environments, in
/// scan order.
pub open spec fn venvs_of(entries: Seq<DirEntryInfo>) -> Seq<(Seq<char>, Seq<char>)>
    decreases entries.len(),
{
    if entries.len() == 0 {
        Seq::empty()
    } else {
        let rest = venvs_of(entries.drop_last());
        if entry_is_env(entries.last()) {
            rest.push((entries.last().name@, entries.last().path@))
        } else {
            rest
        }
    }
}

/// Why resolving a target environment failed.
#[derive(Clone, Copy, Debug, PartialEq, Eq, Structural)]
pub enum ResolveError {
    /// There was nothing to select from.
    NoEnvironments,
    /// The interactive selection ended without an index.
    Selection(SelectError),
}

impl ResolveError {
    /// The message shown for this failure.
    pub fn message(&self) -> (r: String)
        ensures
            *self == ResolveError::NoEnvironments ==> r@ == "No virtual environments found"@,
            forall|e: SelectError| *self == ResolveError::Selection(e) ==> r@ == e.message_spec(),
    {
        match self {
            ResolveError::NoEnvironments => "No virtual environments found".to_owned(),
            ResolveError::Selection(e) => e.message(),
        }
    }
}

/// The registry: scans are interpreted, and targets resolved, against
/// these settings.
#[derive(Debug)]
pub struct VenvManager {
    pub settings: Settings,
}

impl VenvManager {
    /// A registry over the built-in settings.
    pub fn new() -> (m: VenvManager)
        ensures
            m.settings.venvs_path@ == "~/pylot/venvs"@,
            m.settings.default_pkgs.deep_view() == Seq::<Seq<char>>::empty(),
    {
        VenvManager { settings: Settings::get_settings() }
    }

    /// A registry over the given settings.
    pub fn with_settings(settings: Settings) -> (m: VenvManager)
        ensures
            m.settings == settings,
    {
        VenvManager { settings }
    }

    /// The expanded path under which the environment `name` would live:
    /// the environments root (with a leading `~` expanded) joined with
    /// the name. This is the path whose existence decides `exists`.
    pub fn venv_path(&self, name: &str) -> (r: String)
        ensures
            exists|root: Seq<char>| r@ == venv_dir_spec(root, name@),
            (self.settings.venvs_path@.len() == 0 || self.settings.venvs_path@[0] != '~')
                ==> r@ == venv_dir_spec(self.settings.venvs_path@, name@),
    {
        let root = expand_tilde(self.settings.venvs_path.as_str());
        let r = crate::venv::venv_dir(root.as_str(), name);
        proof {
            assert(r@ == venv_dir_spec(root@, name@));
        }
        r
    }

    /// Turns a directory scan into environments: exactly the entries the
    /// interpreter-binary probe accepts, in scan order, each with its
    /// name and path and everything else left blank.
    pub fn collect_venvs(&self, entries: &Vec<DirEntryInfo>) -> (r: Vec<Venv>)
        ensures
            r@.len() == venvs_of(entries@).len(),
            forall|i: int| 0 <= i < r@.len() ==> {
                &&& r@[i].name@ == venvs_of(entries@)[i].0
                &&& r@[i].path@ == venvs_of(entries@)[i].1
                &&& r@[i].python_version@ == Seq::<char>::empty()
                &&& r@[i].packages.deep_view() == Seq::<Seq<char>>::empty()
                &&& r@[i].default == false
            },
    {
        let mut out: Vec<Venv> = Vec::new();
        let mut i: usize = 0;
        while i < entries.len()
            invariant
                0 <= i <= entries.len(),
                out@.len() == venvs_of(entries@.subrange(0, i as int)).len(),
                forall|k: int| 0 <= k < out@.len() ==> {
                    &&& out@[k].name@ == venvs_of(entries@.subrange(0, i as int))[k].0
                    &&& out@[k].path@ == venvs_of(entries@.subrange(0, i as int))[k].1
                    &&& out@[k].python_version@ == Seq::<char>::empty()
                    &&& out@[k].packages.deep_view() == Seq::<Seq<char>>::empty()
                    &&& out@[k].default == false
                },
            decreases entries.len() - i,
        {
            proof {
                assert(entries@.subrange(0, i as int + 1).drop_last() =~= entries@.subrange(
                    0,
                    i as int,
                ));
            }
            let e = &entries[i];
            if e.is_dir && (e.has_win_python || e.has_unix_python || e.has_unix_python3) {
                let v = Venv::new(
                    e.name.clone(),
                    e.path.clone(),
                    String::new(),
                    Vec::new(),
                    false,
                );
                proof {
                    assert(v.packages.deep_view() =~= Seq::<Seq<char>>::empty());
                }
                out.push(v);
            }
            i = i + 1;
        }
        proof {
            assert(entries@.subrange(0, entries@.len() as int) =~= entries@);
        }
        out
    }

    /// The registry listing: the environments that a scan shows, in scan
    /// order (which is filesystem enumeration order; nothing is sorted).
    pub fn list(&self, entries: &Vec<DirEntryInfo>) -> (r: Vec<Venv>)
        ensures
            r@.len() == venvs_of(entries@).len(),
            forall|i: int| 0 <= i < r@.len() ==> {
                &&& r@[i].name@ == venvs_of(entries@)[i].0
                &&& r@[i].path@ == venvs_of(entries@)[i].1
                &&& r@[i].python_version@ == Seq::<char>::empty()
                &&& r@[i].packages.deep_view() == Seq::<Seq<char>>::empty()
                &&& r@[i].default == false
            },
    {
        self.collect_venvs(entries)
    }

    /// The List report: a root that could not be read at all (`entries`
    /// is `None`) is reported as an error, distinctly from a readable
    /// root that simply holds no environments, which yields an empty
    /// listing.
    pub fn list_report(&self, entries: Option<&Vec<DirEntryInfo>>) -> (r: Result<
        Vec<Venv>,
        String,
    >)
        ensures
            entries is None ==> (r matches Err(m) && m@
                == "Error reading environments directory"@),
            ({
                match entries {
                    None => true,
                    Some(e) => r matches Ok(v) && v@.len() == venvs_of(e@).len() && (forall|
                        i: int,
                    |
                        0 <= i < v@.len() ==> {
                            &&& v@[i].name@ == venvs_of(e@)[i].0
                            &&& v@[i].path@ == venvs_of(e@)[i].1
                            &&& v@[i].python_version@ == Seq::<char>::empty()
                            &&& v@[i].packages.deep_view() == Seq::<Seq<char>>::empty()
                            &&& v@[i].default == false
                        }),
                }
            }),
    {
        match entries {
            None => Err("Error reading environments directory".to_owned()),
            Some(e) => Ok(self.list(e)),
        }
    }

    /// The read-only rows of an indexed listing: 1-based index, name and
    /// interpreter version of each environment, valid only for this one
    /// listing.
    pub fn listing_rows(&self, venvs: &Vec<Venv>) -> (r: Vec<(usize, String, String)>)
        ensures
            r@.len() == venvs@.len(),
            forall|i: int| 0 <= i < r@.len() ==> {
                &&& r@[i].0 == i + 1
                &&& r@[i].1@ == venvs@[i].name@
                &&& r@[i].2@ == venvs@[i].python_version@
            },
    {
        let mut out: Vec<(usize, String, String)> = Vec::new();
        let mut i: usize = 0;
        while i < venvs.len()
            invariant
                0 <= i <= venvs.len(),
                out@.len() == i,
                forall|k: int| 0 <= k < out@.len() ==> {
                    &&& out@[k].0 == k + 1
                    &&& out@[k].1@ == venvs@[k].name@
                    &&& out@[k].2@ == venvs@[k].python_version@
                },
            decreases venvs.len() - i,
        {
            out.push((i + 1, venvs[i].name.clone(), venvs[i].python_version.clone()));
            i = i + 1;
        }
        out
    }

    /// Reads one line from `input` and parses it as a 1-based selection
    /// against a listing of `size` items; a failed read reads as empty
    /// input. An index is returned only when it lies in `1 ..= size`,
    /// and every failure carries one of the three fixed messages.
    pub fn get_index<R: std::io::Read>(&self, input: R, size: usize) -> (r: Result<usize, String>)
        ensures
            r matches Ok(v) ==> 1 <= v <= size,
            r matches Err(m) ==> (m@ == "Cancelled by user"@ || m@
                == "Please provide a valid number!"@ || m@ == "Index out of range!"@),
    {
        let line = match read_line_from(input) {
            Some(l) => l,
            None => String::new(),
        };
        match parse_selection(line.as_str(), size) {
            Ok(v) => Ok(v),
            Err(e) => Err(e.message()),
        }
    }

    /// Resolution on values alone. An explicit name wins, the flag over
    /// the positional, and is not checked against the listing (existence
    /// is the operation's business). Otherwise the input line selects
    /// from the listing: an empty listing fails with `NoEnvironments`, a
    /// missing line (failed read) reads as empty input, and the line is
    /// parsed once against the listing's size.
    pub fn resolve(
        &self,
        name_pos: Option<String>,
        name: Option<String>,
        venvs: &Vec<Venv>,
        line: Option<&String>,
    ) -> (r: Result<Venv, ResolveError>)
        ensures
            ({
                let chosen: Option<Seq<char>> = match (name, name_pos) {
                    (Some(n), _) => Some(n@),
                    (None, Some(p)) => Some(p@),
                    (None, None) => None,
                };
                match chosen {
                    Some(n) => r matches Ok(v) && v.name@ == n && v.path@ == Seq::<char>::empty()
                        && v.python_version@ == Seq::<char>::empty() && v.packages.deep_view()
                        == Seq::<Seq<char>>::empty() && v.default == false,
                    None => if venvs@.len() == 0 {
                        r == Err::<Venv, ResolveError>(ResolveError::NoEnvironments)
                    } else {
                        let l: Seq<char> = match line {
                            Some(l) => l@,
                            None => Seq::empty(),
                        };
                        match selection_of(l, venvs@.len() as int) {
                            Ok(idx) => r matches Ok(v) && v.name@ == venvs@[idx - 1].name@
                                && v.path@ == Seq::<char>::empty() && v.python_version@
                                == Seq::<char>::empty() && v.packages.deep_view()
                                == Seq::<Seq<char>>::empty() && v.default == false,
                            Err(e) => r == Err::<Venv, ResolveError>(ResolveError::Selection(e)),
                        }
                    },
                }
            }),
    {
        let chosen: Option<String> = match name {
            Some(n) => Some(n),
            None => name_pos,
        };
        match chosen {
            Some(n) => {
                let v = Venv::new(n, String::new(), String::new(), Vec::new(), false);
                proof {
                    assert(v.packages.deep_view() =~= Seq::<Seq<char>>::empty());
                }
                Ok(v)
            },
            None => {
                if venvs.len() == 0 {
                    return Err(ResolveError::NoEnvironments);
                }
                let empty = String::new();
                let l: &String = match line {
                    Some(l) => l,
                    None => &empty,
                };
                match parse_selection(l.as_str(), venvs.len()) {
                    Err(e) => Err(ResolveError::Selection(e)),
                    Ok(idx) => {
                        let v = Venv::new(
                            venvs[idx - 1].name.clone(),
                            String::new(),
                            String::new(),
                            Vec::new(),
                            false,
                        );
                        proof {
                            assert(v.packages.deep_view() =~= Seq::<Seq<char>>::empty());
                        }
                        Ok(v)
                    },
                }
            },
        }
    }

    /// Resolves a target environment, reading the selection line from
    /// `input` when no explicit name was given. The decision taken on
    /// what was read is exactly `resolve`'s; the parts that do not
    /// depend on the read are pinned here: an explicit name yields the
    /// bare handle for that name (existence is the operation's
    /// business, nothing is read), an empty listing fails, and any
    /// resolved handle is bare and carries a listed name.
    pub fn find_venv<R: std::io::Read>(
        &self,
        input: R,
        name_pos: Option<String>,
        name: Option<String>,
        venvs: &Vec<Venv>,
    ) -> (r: Result<Venv, ResolveError>)
        ensures
            ({
                let chosen: Option<Seq<char>> = match (name, name_pos) {
                    (Some(n), _) => Some(n@),
                    (None, Some(p)) => Some(p@),
                    (None, None) => None,
                };
                match chosen {
                    Some(n) => r matches Ok(v) && v.name@ == n,
                    None => if venvs@.len() == 0 {
                        r == Err::<Venv, ResolveError>(ResolveError::NoEnvironments)
                    } else {
                        r matches Ok(v) ==> exists|i: int|
                            0 <= i < venvs@.len() && v.name@ == venvs@[i].name@
                    },
                }
            }),
            r matches Ok(v) ==> {
                &&& v.path@ == Seq::<char>::empty()
                &&& v.python_version@ == Seq::<char>::empty()
                &&& v.packages.deep_view() == Seq::<Seq<char>>::empty()
                &&& v.default == false
            },
    {
        let named = name.is_some() || name_pos.is_some();
        if named || venvs.len() == 0 {
            self.resolve(name_pos, name, venvs, None)
        } else {
            let line = read_line_from(input);
            let r = self.resolve(name_pos, name, venvs, line.as_ref());
            proof {
                let l: Seq<char> = match line {
                    Some(l) => l@,
                    None => Seq::empty(),
                };
                if r is Ok {
                    let idx = selection_of(l, venvs@.len() as int)->Ok_0;
                    assert(0 <= idx - 1 < venvs@.len());
                }
            }
            r
        }
    }
}

/// Every entry that passes the interpreter-binary probe shows up in the
/// listing: a scan taken right after a successful create, which
/// materialized the environment's directory, therefore shows its name.
pub proof fn lemma_venvs_of_complete(entries: Seq<DirEntryInfo>, i: int)
    requires
        0 <= i < entries.len(),
        entry_is_env(entries[i]),
    ensures
        exists|j: int|
            0 <= j < venvs_of(entries).len() && venvs_of(entries)[j] == (
            entries[i].name@,
            entries[i].path@,
            ),
    decreases entries.len(),
{
    if i == entries.len() - 1 {
        let v = venvs_of(entries);
        assert(v[v.len() - 1] == (entries[i].name@, entries[i].path@));
    } else {
        assert(entries.drop_last()[i] == entries[i]);
        lemma_venvs_of_complete(entries.drop_last(), i);
        let rest = venvs_of(entries.drop_last());
        let j = choose|j: int|
            0 <= j < rest.len() && rest[j] == (entries[i].name@, entries[i].path@);
        assert(venvs_of(entries)[j] == (entries[i].name@, entries[i].path@));
    }
}

/// Only entries that pass the interpreter-binary probe show up in the
/// listing: a scan in which no entry carries a name — say, right after
/// that environment's directory tree was removed by a successful delete
/// — yields a listing without it.
pub proof fn lemma_venvs_of_sound(entries: Seq<DirEntryInfo>, j: int)
    requires
        0 <= j < venvs_of(entries).len(),
    ensures
        exists|i: int|
            0 <= i < entries.len() && entry_is_env(entries[i]) && (
            entries[i].name@,
            entries[i].path@,
            ) == venvs_of(entries)[j],
    decreases entries.len(),
{
    let v = venvs_of(entries);
    if entry_is_env(entries.last()) && j == v.len() - 1 {
        assert(entries[entries.len() - 1] == entries.last());
        assert((entries.last().name@, entries.last().path@) == v[j]);
    } else {
        lemma_venvs_of_sound(entries.drop_last(), j);
        let i = choose|i: int|
            0 <= i < entries.drop_last().len() && entry_is_env(entries.drop_last()[i]) && (
            entries.drop_last()[i].name@,
            entries.drop_last()[i].path@,
            ) == venvs_of(entries.drop_last())[j];
        assert(entries.drop_last()[i] == entries[i]);
        assert(venvs_of(entries)[j] == venvs_of(entries.drop_last())[j]);
    }
}

} // verus!
