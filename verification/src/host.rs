//! The host build synthesizer: the model of the host project's build
//! manifest, its rewrite from the registry, the generated entry-point source,
//! and the toolchain invocation arguments.

use vstd::prelude::*;

use crate::config::Config;
use crate::errors::KuraError;
use crate::strutil::{
    find_from, join_with, joined, occurs_at, occurs_in, replace_dashes, seq_views, underscored,
};

verus! {

/// Which way the toolchain is invoked, and which artifact subdirectory is
/// expected afterwards.
#[derive(Debug, Clone, Copy, PartialEq, Eq, Structural)]
pub enum BuildMode {
    Debug,
    Release,
}

impl Default for BuildMode {
    /// A build is optimized unless a mode says otherwise.
    fn default() -> (r: Self)
        ensures
            r == BuildMode::Release,
    {
        BuildMode::Release
    }
}

/// One path-reference dependency entry of the host manifest: the package's
/// name, keying the entry, and the path of the package's root directory.
#[derive(Debug, Clone, PartialEq, Eq)]
pub struct DepEntry {
    pub name: String,
    pub path: String,
}

/// One binary target of the host manifest.
#[derive(Debug, Clone, PartialEq, Eq)]
pub struct BinTarget {
    pub name: String,
    pub path: String,
}

/// What the synthesizer reads and rewrites of the host project's build
/// manifest: its binary targets and its dependency section. `None` for
/// `dependencies` means the manifest has no dependency section yet.
#[derive(Debug, Clone, PartialEq, Eq)]
pub struct HostManifest {
    pub bin: Vec<BinTarget>,
    pub dependencies: Option<Vec<DepEntry>>,
}

/// The name of the binary the host project builds.
pub open spec fn bin_name() -> Seq<char> {
    "koto"@
}

/// The entry-point path every binary target is pointed at.
pub open spec fn bin_source_path() -> Seq<char> {
    "src/main.rs"@
}

/// The directory the host project scaffold lives in, under the data
/// directory.
pub open spec fn scaffold_dir_of(data_dir: Seq<char>) -> Seq<char> {
    data_dir + "/kura/crates/koto-local"@
}

/// Where the host project scaffold lies inside a given data directory.
pub fn scaffold_dir(data_dir: &str) -> (r: String)
    ensures
        r@ == scaffold_dir_of(data_dir@),
{
    let mut d = String::from_str(data_dir);
    d.append("/kura/crates/koto-local");
    d
}

impl HostManifest {
    /// A manifest with no binary target and no dependency section.
    pub fn new() -> (r: HostManifest)
        ensures
            r.bin@ == Seq::<BinTarget>::empty(),
            r.dependencies is None,
    {
        HostManifest { bin: Vec::new(), dependencies: None }
    }

    /// Points every binary target of the manifest at the fixed binary name
    /// and entry-point path; a manifest without binary targets gets one.
    pub fn set_bin_name(&mut self, name: &str)
        ensures
            old(self).bin@.len() == 0 ==> final(self).bin@.len() == 1,
            old(self).bin@.len() > 0 ==> final(self).bin@.len() == old(self).bin@.len(),
            forall|i: int|
                0 <= i < final(self).bin@.len() ==> (#[trigger] final(self).bin@[i]).name@ == name@
                    && final(self).bin@[i].path@ == bin_source_path(),
            final(self).dependencies == old(self).dependencies,
    {
        if self.bin.len() == 0 {
            self.bin.push(
                BinTarget { name: String::from_str(name), path: String::from_str("src/main.rs") },
            );
        } else {
            let n = self.bin.len();
            let mut i: usize = 0;
            while i < n
                invariant
                    n == self.bin@.len(),
                    i <= n,
                    self.dependencies == old(self).dependencies,
                    old(self).bin@.len() == n,
                    forall|j: int|
                        i <= j < n ==> #[trigger] self.bin@[j] == old(self).bin@[j],
                    forall|j: int|
                        0 <= j < i ==> (#[trigger] self.bin@[j]).name@ == name@
                            && self.bin@[j].path@ == bin_source_path(),
                decreases n - i,
            {
                let target = BinTarget {
                    name: String::from_str(name),
                    path: String::from_str("src/main.rs"),
                };
                self.bin.set(i, target);
                i = i + 1;
            }
        }
    }

    /// Rewrites the dependency section in full from the registry: afterwards
    /// it exists and holds exactly one path-reference entry per registered
    /// package, keyed by the package's name and pointing at its local path,
    /// in registry order — and so no entry for any other name.
    pub fn sync_dependencies(&mut self, registry: &Config)
        ensures
            final(self).bin == old(self).bin,
            final(self).dependencies matches Some(deps) && {
                &&& deps@.len() == registry.packages@.len()
                &&& forall|i: int|
                    0 <= i < deps@.len() ==> (#[trigger] deps@[i]).name@
                        == registry.packages@[i].name@ && deps@[i].path@
                        == registry.packages@[i].local_path@
            },
    {
        let mut deps: Vec<DepEntry> = Vec::new();
        let n = registry.packages.len();
        let mut i: usize = 0;
        while i < n
            invariant
                n == registry.packages@.len(),
                i <= n,
                deps@.len() == i,
                forall|j: int|
                    0 <= j < i ==> (#[trigger] deps@[j]).name@ == registry.packages@[j].name@
                        && deps@[j].path@ == registry.packages@[j].local_path@,
            decreases n - i,
        {
            let p = &registry.packages[i];
            deps.push(
                DepEntry {
                    name: String::from_str(p.name.as_str()),
                    path: String::from_str(p.local_path.as_str()),
                },
            );
            i = i + 1;
        }
        self.dependencies = Some(deps);
    }
}

/// After a rewrite from a well-formed registry, the dependency section keys
/// are exactly the registered names, each occurring once.
pub proof fn lemma_dependency_section_keys(m: HostManifest, registry: Config)
    requires
        registry.wf(),
        m.dependencies matches Some(deps) && {
            &&& deps@.len() == registry.packages@.len()
            &&& forall|i: int|
                0 <= i < deps@.len() ==> (#[trigger] deps@[i]).name@
                    == registry.packages@[i].name@ && deps@[i].path@
                    == registry.packages@[i].local_path@
        },
    ensures
        m.dependencies matches Some(deps) && {
            &&& deps@.map_values(|d: DepEntry| d.name@).no_duplicates()
            &&& forall|n: Seq<char>|
                deps@.map_values(|d: DepEntry| d.name@).contains(n)
                    == registry.spec_contains_name(n)
        },
{
    let deps = m.dependencies->0;
    let dep_names = deps@.map_values(|d: DepEntry| d.name@);
    assert(dep_names =~= registry.names());
}

/// The single placeholder marker the entry-point template must contain.
pub open spec fn placeholder() -> Seq<char> {
    "// <INSERT_PRELUDE_VALUES>"@
}

/// The statement that registers one package's constructed module, under its
/// hyphen-to-underscore-normalized name, in the runtime-wide prelude.
pub open spec fn registration_stmt_of(name: Seq<char>) -> Seq<char> {
    "prelude.insert(\""@ + underscored(name) + "\", "@ + underscored(name) + "::make_module());"@
}

/// Renders the registration statement of one package name.
pub fn registration_stmt(name: &str) -> (r: String)
    ensures
        r@ == registration_stmt_of(name@),
{
    let under = replace_dashes(name);
    let mut s = String::from_str("prelude.insert(\"");
    s.append(under.as_str());
    s.append("\", ");
    s.append(under.as_str());
    s.append("::make_module());");
    s
}

/// One registration statement per registered package, in registry order.
pub fn registration_statements(registry: &Config) -> (r: Vec<String>)
    ensures
        r@.len() == registry.packages@.len(),
        forall|i: int|
            0 <= i < r@.len() ==> (#[trigger] r@[i])@ == registration_stmt_of(
                registry.packages@[i].name@,
            ),
{
    let mut r: Vec<String> = Vec::new();
    let n = registry.packages.len();
    let mut i: usize = 0;
    while i < n
        invariant
            n == registry.packages@.len(),
            i <= n,
            r@.len() == i,
            forall|j: int|
                0 <= j < i ==> (#[trigger] r@[j])@ == registration_stmt_of(
                    registry.packages@[j].name@,
                ),
        decreases n - i,
    {
        r.push(registration_stmt(registry.packages[i].name.as_str()));
        i = i + 1;
    }
    r
}

/// The placeholder occurs in `s` at `i` and nowhere else.
pub open spec fn unique_occurrence_at(s: Seq<char>, pat: Seq<char>, i: int) -> bool {
    occurs_at(s, pat, i) && forall|j: int| j != i ==> !occurs_at(s, pat, j)
}

/// The pattern occurs in `s` exactly once.
pub open spec fn has_unique_occurrence(s: Seq<char>, pat: Seq<char>) -> bool {
    exists|i: int| unique_occurrence_at(s, pat, i)
}

/// The template with `insert` substituted for the pattern occurrence at `at`.
pub open spec fn substituted(template: Seq<char>, at: int, pat_len: int, insert: Seq<char>) -> Seq<
    char,
> {
    template.take(at) + insert + template.skip(at + pat_len)
}

/// Renders the entry-point source: substitutes the joined registration
/// statements for the template's placeholder. The template must hold the
/// placeholder exactly once, and the placeholder must be gone afterwards;
/// either defect is reported as `TemplateMalformed`, never assumed away.
pub fn render_entry_point(template: &str, statements: &Vec<String>) -> (r: Result<
    String,
    KuraError,
>)
    ensures
        ({
            let insert = joined(seq_views(statements@), "\n"@);
            match r {
                Ok(out) => {
                    &&& has_unique_occurrence(template@, placeholder())
                    &&& forall|i: int|
                        unique_occurrence_at(template@, placeholder(), i) ==> out@ == substituted(
                            template@,
                            i,
                            placeholder().len() as int,
                            insert,
                        )
                    &&& !occurs_in(out@, placeholder())
                },
                Err(e) => {
                    &&& e == KuraError::TemplateMalformed
                    &&& (has_unique_occurrence(template@, placeholder()) ==> forall|i: int|
                        unique_occurrence_at(template@, placeholder(), i) ==> occurs_in(
                            substituted(template@, i, placeholder().len() as int, insert),
                            placeholder(),
                        ))
                },
            }
        }),
{
    let pat = "// <INSERT_PRELUDE_VALUES>";
    proof {
        reveal_strlit("// <INSERT_PRELUDE_VALUES>");
    }
    let tlen = template.unicode_len();
    let first = find_from(template, pat, 0);
    let at = match first {
        Some(i) => i,
        None => {
            return Err(KuraError::TemplateMalformed);
        },
    };
    proof {
        assert(at + placeholder().len() <= template@.len());
    }
    let second = find_from(template, pat, at + 1);
    match second {
        Some(_) => {
            return Err(KuraError::TemplateMalformed);
        },
        None => {},
    }
    proof {
        assert(unique_occurrence_at(template@, placeholder(), at as int));
    }
    let plen = pat.unicode_len();
    let insert = join_with(statements, "\n");
    let prefix = template.substring_char(0, at);
    let suffix = template.substring_char(at + plen, tlen);
    let mut out = String::from_str(prefix);
    out.append(insert.as_str());
    out.append(suffix);
    proof {
        assert(prefix@ =~= template@.take(at as int));
        assert(suffix@ =~= template@.skip(at + plen));
        assert(out@ == substituted(
            template@,
            at as int,
            placeholder().len() as int,
            joined(seq_views(statements@), "\n"@),
        ));
        assert forall|i: int|
            unique_occurrence_at(template@, placeholder(), i) implies i == at as int by {
            assert(occurs_at(template@, placeholder(), at as int));
        }
    }
    match find_from(out.as_str(), pat, 0) {
        Some(_) => Err(KuraError::TemplateMalformed),
        None => Ok(out),
    }
}

/// An occurrence inside the middle of a concatenation is an occurrence in
/// the whole, shifted by the prefix.
pub proof fn lemma_occurs_at_shift(
    a: Seq<char>,
    b: Seq<char>,
    c: Seq<char>,
    pat: Seq<char>,
    off: int,
)
    requires
        occurs_at(b, pat, off),
    ensures
        occurs_at(a + b + c, pat, a.len() + off),
{
    assert((a + b + c).subrange(a.len() + off, a.len() + off + pat.len()) =~= b.subrange(
        off,
        off + pat.len(),
    ));
}

/// Every part occurs in the joined text.
pub proof fn lemma_joined_contains(parts: Seq<Seq<char>>, sep: Seq<char>, k: int)
    requires
        0 <= k < parts.len(),
    ensures
        exists|off: int| occurs_at(joined(parts, sep), parts[k], off),
    decreases parts.len(),
{
    let whole = joined(parts, sep);
    if parts.len() == 1 {
        assert(whole.subrange(0, parts[0].len() as int) =~= parts[0]);
        assert(occurs_at(whole, parts[0], 0));
    } else if k == parts.len() - 1 {
        let head = joined(parts.drop_last(), sep);
        let off: int = head.len() as int + sep.len() as int;
        assert(whole == head + sep + parts.last());
        assert(whole.subrange(off, off + parts.last().len()) =~= parts.last());
        assert(occurs_at(whole, parts[k], off));
    } else {
        lemma_joined_contains(parts.drop_last(), sep, k);
        let head = joined(parts.drop_last(), sep);
        let off = choose|off: int| occurs_at(head, parts.drop_last()[k], off);
        assert(parts.drop_last()[k] == parts[k]);
        assert(whole == head + sep + parts.last());
        assert(whole.subrange(off, off + parts[k].len()) =~= head.subrange(
            off,
            off + parts[k].len(),
        ));
        assert(occurs_at(whole, parts[k], off));
    }
}

/// Law: a successful render of the entry point from a registry's
/// registration statements yields a source in which every registered
/// package's registration statement occurs, the statements stand one per
/// package in registry order, and the placeholder token occurs nowhere. The
/// hypotheses are what `registration_statements` and `render_entry_point`
/// promise.
pub proof fn lemma_entry_point_registrations(
    registry: Config,
    stmts: Seq<Seq<char>>,
    template: Seq<char>,
    out: Seq<char>,
)
    requires
        stmts.len() == registry.packages@.len(),
        forall|i: int|
            0 <= i < stmts.len() ==> stmts[i] == registration_stmt_of(
                registry.packages@[i].name@,
            ),
        has_unique_occurrence(template, placeholder()),
        forall|i: int|
            unique_occurrence_at(template, placeholder(), i) ==> out == substituted(
                template,
                i,
                placeholder().len() as int,
                joined(stmts, "\n"@),
            ),
        !occurs_in(out, placeholder()),
    ensures
        forall|k: int|
            0 <= k < registry.packages@.len() ==> exists|off: int|
                occurs_at(out, registration_stmt_of((#[trigger] registry.packages@[k]).name@), off),
        forall|j: int| !(#[trigger] occurs_at(out, placeholder(), j)),
{
    let at = choose|i: int| unique_occurrence_at(template, placeholder(), i);
    let insert = joined(stmts, "\n"@);
    assert(out == substituted(template, at, placeholder().len() as int, insert));
    assert forall|k: int| 0 <= k < registry.packages@.len() implies exists|off: int|
        occurs_at(out, registration_stmt_of((#[trigger] registry.packages@[k]).name@), off) by {
        lemma_joined_contains(stmts, "\n"@, k);
        let off = choose|off: int| occurs_at(insert, stmts[k], off);
        lemma_occurs_at_shift(
            template.take(at),
            insert,
            template.skip(at + placeholder().len()),
            stmts[k],
            off,
        );
        assert(occurs_at(out, registration_stmt_of(registry.packages@[k].name@), at + off));
    }
    assert forall|j: int| !(#[trigger] occurs_at(out, placeholder(), j)) by {
        if occurs_at(out, placeholder(), j) {
            assert(occurs_in(out, placeholder()));
        }
    }
}

/// The toolchain arguments of a build: a plain build in debug mode, an
/// optimized build in release mode.
pub fn build_args(mode: BuildMode) -> (r: Vec<String>)
    ensures
        r@.len() == (if mode is Release {
            2int
        } else {
            1int
        }),
        r@[0]@ == "build"@,
        mode is Release ==> r@[1]@ == "--release"@,
{
    let mut r: Vec<String> = Vec::new();
    r.push(String::from_str("build"));
    if let BuildMode::Release = mode {
        r.push(String::from_str("--release"));
    }
    r
}

} // verus!
