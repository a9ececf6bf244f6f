//! The registry of installed packages: an ordered set of package identities
//! with unique names, loaded at the start of every command and saved after
//! any mutation.

use vstd::prelude::*;

use crate::errors::KuraError;
use crate::package::{Package, PackageKind};
use crate::strutil::str_eq;

verus! {

/// The persisted registry of installed packages.
#[derive(Debug)]
pub struct Config {
    pub packages: Vec<Package>,
}

/// The label a package's kind carries in a listing.
pub open spec fn kind_label(k: PackageKind) -> Seq<char> {
    match k {
        PackageKind::Github(_) => "GitHub"@,
        PackageKind::Local => "Local"@,
    }
}

/// Where the registry file lies under the platform data directory.
pub open spec fn config_path_of(data_dir: Seq<char>) -> Seq<char> {
    data_dir + "/kura/config.toml"@
}

/// Relies on `dirs::data_dir`: the platform's data directory, if it has one.
/// The answer depends on the environment, so nothing is promised of it.
#[verifier::external_body]
fn platform_data_dir() -> Option<String> {
    dirs::data_dir().map(|p| p.to_string_lossy().to_string())
}

/// The registry file's location inside a given data directory.
pub fn config_path_in(data_dir: &str) -> (r: String)
    ensures
        r@ == config_path_of(data_dir@),
{
    let mut p = String::from_str(data_dir);
    p.append("/kura/config.toml");
    p
}

/// The registry file's location, probing the environment for the data
/// directory; fails exactly with `DataDirUnavailable`.
pub fn get_config_path() -> (r: Result<String, KuraError>)
    ensures
        r matches Err(e) ==> e == KuraError::DataDirUnavailable,
        r matches Ok(p) ==> "/kura/config.toml"@.is_suffix_of(p@),
{
    match platform_data_dir() {
        Some(d) => {
            let p = config_path_in(d.as_str());
            proof {
                assert(p@.subrange(
                    p@.len() - "/kura/config.toml"@.len(),
                    p@.len() as int,
                ) =~= "/kura/config.toml"@);
            }
            Ok(p)
        },
        None => Err(KuraError::DataDirUnavailable),
    }
}

impl Default for Config {
    /// The empty registry.
    fn default() -> (r: Config)
        ensures
            r.packages@ == Seq::<Package>::empty(),
            r.wf(),
    {
        Config::new()
    }
}

impl Config {
    /// The registered names, in registry order.
    pub open spec fn names(&self) -> Seq<Seq<char>> {
        self.packages@.map_values(|p: Package| p.name@)
    }

    /// Well-formed: at most one entry per name.
    pub open spec fn wf(&self) -> bool {
        self.names().no_duplicates()
    }

    /// Whether a package of that name is registered.
    pub open spec fn spec_contains_name(&self, name: Seq<char>) -> bool {
        self.names().contains(name)
    }

    /// An empty registry: what a missing or corrupt registry file loads as.
    pub fn new() -> (r: Config)
        ensures
            r.packages@ == Seq::<Package>::empty(),
            r.wf(),
    {
        let r = Config { packages: Vec::new() };
        proof {
            assert(r.names() =~= Seq::<Seq<char>>::empty());
        }
        r
    }

    /// How many packages are registered.
    pub fn len(&self) -> (r: usize)
        ensures
            r == self.packages@.len(),
    {
        self.packages.len()
    }

    /// Whether the registry is empty.
    pub fn is_empty(&self) -> (r: bool)
        ensures
            r == (self.packages@.len() == 0),
    {
        self.packages.len() == 0
    }

    /// Whether a package of that name is registered.
    pub fn contains_name(&self, name: &str) -> (r: bool)
        ensures
            r == self.spec_contains_name(name@),
    {
        let mut i: usize = 0;
        while i < self.packages.len()
            invariant
                i <= self.packages@.len(),
                forall|j: int| 0 <= j < i ==> self.names()[j] != name@,
            decreases self.packages@.len() - i,
        {
            if str_eq(self.packages[i].name.as_str(), name) {
                proof {
                    assert(self.names()[i as int] == name@);
                }
                return true;
            }
            i = i + 1;
        }
        false
    }

    /// Registers the package unless its name is already present; reports
    /// whether it was added. Installing a name twice leaves exactly the one
    /// earlier entry.
    pub fn install(&mut self, package: Package) -> (added: bool)
        requires
            old(self).wf(),
        ensures
            final(self).wf(),
            added == !old(self).spec_contains_name(package.name@),
            added ==> final(self).packages@ == old(self).packages@.push(package),
            !added ==> final(self).packages@ == old(self).packages@,
    {
        if self.contains_name(package.name.as_str()) {
            false
        } else {
            let ghost old_names = self.names();
            let ghost name = package.name@;
            self.packages.push(package);
            proof {
                assert(self.names() =~= old_names.push(name));
                assert forall|i: int, j: int|
                    0 <= i < self.names().len() && 0 <= j < self.names().len() && i
                        != j implies self.names()[i] != self.names()[j] by {
                    if i < old_names.len() && j < old_names.len() {
                    } else if i < old_names.len() {
                        assert(old_names[i] == self.names()[i]);
                    } else {
                    }
                }
            }
            true
        }
    }

    /// Removes the entry of that name if one is present; reports whether one
    /// was. Removing an absent name leaves the registry unchanged.
    pub fn remove(&mut self, name: &str) -> (removed: bool)
        requires
            old(self).wf(),
        ensures
            final(self).wf(),
            removed == old(self).spec_contains_name(name@),
            !removed ==> final(self).packages@ == old(self).packages@,
            removed ==> exists|i: int|
                {
                    &&& 0 <= i < old(self).packages@.len()
                    &&& old(self).packages@[i].name@ == name@
                    &&& final(self).packages@ == old(self).packages@.remove(i)
                },
            forall|n: Seq<char>|
                n != name@ ==> (final(self).spec_contains_name(n) == old(
                    self,
                ).spec_contains_name(n)),
            !final(self).spec_contains_name(name@),
    {
        let ghost old_names = old(self).names();
        let mut i: usize = 0;
        while i < self.packages.len()
            invariant
                self.packages@ == old(self).packages@,
                old(self).wf(),
                old_names == old(self).names(),
                i <= self.packages@.len(),
                forall|j: int| 0 <= j < i ==> self.names()[j] != name@,
            decreases self.packages@.len() - i,
        {
            if str_eq(self.packages[i].name.as_str(), name) {
                proof {
                    assert(self.names()[i as int] == name@);
                }
                let ghost before = self.packages@;
                self.packages.remove(i);
                proof {
                    assert(self.packages@ == before.remove(i as int));
                    before.remove_ensures(i as int);
                    old_names.remove_ensures(i as int);
                    assert(self.names() =~= old_names.remove(i as int));
                    lemma_remove_keeps_distinct(old_names, i as int);
                    lemma_remove_unique_name(old_names, i as int, name@);
                }
                return true;
            }
            i = i + 1;
        }
        proof {
            assert forall|k: int|
                0 <= k < old(self).names().len() implies old(self).names()[k] != name@ by {
                assert(self.names()[k] != name@);
            }
            assert(!old(self).spec_contains_name(name@));
        }
        false
    }

    /// The (name, kind-label) pairs of the registered packages, in registry
    /// order.
    pub fn list(&self) -> (r: Vec<(String, String)>)
        ensures
            r@.len() == self.packages@.len(),
            forall|i: int|
                0 <= i < r@.len() ==> (#[trigger] r@[i]).0@ == self.packages@[i].name@
                    && r@[i].1@ == kind_label(self.packages@[i].kind),
    {
        let mut r: Vec<(String, String)> = Vec::new();
        let mut i: usize = 0;
        while i < self.packages.len()
            invariant
                i <= self.packages@.len(),
                r@.len() == i,
                forall|j: int|
                    0 <= j < i ==> (#[trigger] r@[j]).0@ == self.packages@[j].name@ && r@[j].1@
                        == kind_label(self.packages@[j].kind),
            decreases self.packages@.len() - i,
        {
            let p = &self.packages[i];
            r.push((String::from_str(p.name.as_str()), String::from_str(p.kind.name())));
            i = i + 1;
        }
        r
    }
}

/// Removing an element of a duplicate-free sequence keeps it duplicate-free.
proof fn lemma_remove_keeps_distinct(s: Seq<Seq<char>>, at: int)
    requires
        s.no_duplicates(),
        0 <= at < s.len(),
    ensures
        s.remove(at).no_duplicates(),
{
    let t = s.remove(at);
    assert forall|i: int, j: int| 0 <= i < t.len() && 0 <= j < t.len() && i != j implies t[i]
        != t[j] by {
        let io = if i < at {
            i
        } else {
            i + 1
        };
        let jo = if j < at {
            j
        } else {
            j + 1
        };
        assert(t[i] == s[io] && t[j] == s[jo]);
    }
}

/// Removing the one occurrence of a name from a duplicate-free sequence
/// removes the name, and keeps every other name.
proof fn lemma_remove_unique_name(s: Seq<Seq<char>>, at: int, name: Seq<char>)
    requires
        s.no_duplicates(),
        0 <= at < s.len(),
        s[at] == name,
    ensures
        !s.remove(at).contains(name),
        forall|n: Seq<char>| n != name ==> (s.remove(at).contains(n) == s.contains(n)),
{
    let t = s.remove(at);
    assert forall|i: int| 0 <= i < t.len() implies t[i] != name by {
        let io = if i < at {
            i
        } else {
            i + 1
        };
        assert(t[i] == s[io]);
    }
    assert forall|n: Seq<char>| n != name implies (t.contains(n) == s.contains(n)) by {
        if s.contains(n) {
            let w = choose|w: int| 0 <= w < s.len() && s[w] == n;
            let wt = if w < at {
                w
            } else {
                w - 1
            };
            assert(t[wt] == s[w]);
            assert(t.contains(n));
        }
        if t.contains(n) {
            let w = choose|w: int| 0 <= w < t.len() && t[w] == n;
            let wo = if w < at {
                w
            } else {
                w + 1
            };
            assert(s[wo] == t[w]);
            assert(s.contains(n));
        }
    }
}

} // verus!
