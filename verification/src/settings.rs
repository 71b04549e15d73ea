//! The configuration value that the registry and the lifecycle operations
//! read: where environments live and which packages are installed by
//! default. Loading it from a configuration file is the caller's business;
//! the built-in defaults live here.
use vstd::prelude::*;

verus! {

/// The built-in location of the environments root, before tilde expansion.
pub fn default_venv_path() -> (r: String)
    ensures
        r@ == "~/pylot/venvs"@,
{
    "~/pylot/venvs".to_owned()
}

/// The configuration the operations consume: the environments root and the
/// default package list.
#[derive(Debug)]
pub struct Settings {
    pub venvs_path: String,
    pub default_pkgs: Vec<String>,
}

impl Settings {
    /// A settings value with the given root and default packages.
    pub fn new(venvs_path: String, default_pkgs: Vec<String>) -> (s: Settings)
        ensures
            s.venvs_path@ == venvs_path@,
            s.default_pkgs == default_pkgs,
    {
        Settings { venvs_path, default_pkgs }
    }

    /// The built-in settings: the default root and no default packages.
    pub fn get_settings() -> (s: Settings)
        ensures
            s.venvs_path@ == "~/pylot/venvs"@,
            s.default_pkgs.deep_view() == Seq::<Seq<char>>::empty(),
    {
        let s = Settings { venvs_path: default_venv_path(), default_pkgs: Vec::new() };
        proof {
            assert(s.default_pkgs.deep_view() =~= Seq::<Seq<char>>::empty());
        }
        s
    }

    /// A copy of this settings value.
    pub fn duplicate(&self) -> (s: Settings)
        ensures
            s.venvs_path@ == self.venvs_path@,
            s.default_pkgs.deep_view() == self.default_pkgs.deep_view(),
    {
        let mut pkgs: Vec<String> = Vec::new();
        let mut i: usize = 0;
        while i < self.default_pkgs.len()
            invariant
                0 <= i <= self.default_pkgs.len(),
                pkgs.deep_view() =~= self.default_pkgs.deep_view().subrange(0, i as int),
            decreases self.default_pkgs.len() - i,
        {
            let ghost pre = pkgs.deep_view();
            pkgs.push(self.default_pkgs[i].clone());
            proof {
                let dv = self.default_pkgs.deep_view();
                assert(pkgs.deep_view() =~= pre.push(dv[i as int]));
                assert(pkgs.deep_view() =~= dv.subrange(0, i as int + 1));
            }
            i = i + 1;
        }
        proof {
            let dv = self.default_pkgs.deep_view();
            assert(dv.subrange(0, dv.len() as int) =~= dv);
        }
        Settings { venvs_path: self.venvs_path.clone(), default_pkgs: pkgs }
    }
}

impl Default for Settings {
    /// The built-in settings.
    fn default() -> (s: Settings)
        ensures
            s.venvs_path@ == "~/pylot/venvs"@,
            s.default_pkgs.deep_view() == Seq::<Seq<char>>::empty(),
    {
        Settings::get_settings()
    }
}

} // verus!
