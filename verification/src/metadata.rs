//! Build-configuration resolver: turns a per-package manifest fragment into
//! the targets, command-line arguments and environment variables of a
//! documentation build.

use vstd::prelude::*;

verus! {

/// The platform triple the orchestrator itself runs on; the final fallback
/// when a manifest names no default target.
pub open spec fn spec_host_target() -> Seq<char> {
    "x86_64-unknown-linux-gnu"@
}

/// The host platform triple as an executable string.
pub fn host_target() -> (t: &'static str)
    ensures
        t@ == spec_host_target(),
{
    "x86_64-unknown-linux-gnu"
}

/// The tier-one platform triples built when a manifest lists no targets.
pub open spec fn spec_default_targets() -> Seq<Seq<char>> {
    seq![
        "i686-pc-windows-msvc"@,
        "i686-unknown-linux-gnu"@,
        "x86_64-apple-darwin"@,
        "x86_64-pc-windows-msvc"@,
        "x86_64-unknown-linux-gnu"@,
    ]
}

/// The default target list as executable strings.
pub fn default_targets() -> (v: Vec<String>)
    ensures
        v.deep_view() == spec_default_targets(),
{
    let mut v: Vec<String> = Vec::new();
    v.push(String::from_str("i686-pc-windows-msvc"));
    v.push(String::from_str("i686-unknown-linux-gnu"));
    v.push(String::from_str("x86_64-apple-darwin"));
    v.push(String::from_str("x86_64-pc-windows-msvc"));
    v.push(String::from_str("x86_64-unknown-linux-gnu"));
    proof {
        assert(v.deep_view() =~= spec_default_targets());
    }
    v
}

/// Build settings read from a package's manifest fragment.
#[derive(Debug)]
pub struct Metadata {
    /// Feature names to enable, if the manifest lists any.
    pub features: Option<Vec<String>>,
    /// Whether every feature is enabled.
    pub all_features: bool,
    /// Whether the package's default features are disabled.
    pub no_default_features: bool,
    /// The target the package asks to be built for by default.
    pub default_target: Option<String>,
    /// The explicit target list, if the manifest gives one.
    pub targets: Option<Vec<String>>,
    /// Extra compiler arguments.
    pub rustc_args: Option<Vec<String>>,
    /// Extra documentation-compiler arguments.
    pub rustdoc_args: Option<Vec<String>>,
}

/// The mathematical content of a [`Metadata`]: every string as a sequence of
/// characters.
#[verifier::ext_equal]
pub ghost struct MetadataView {
    pub features: Option<Seq<Seq<char>>>,
    pub all_features: bool,
    pub no_default_features: bool,
    pub default_target: Option<Seq<char>>,
    pub targets: Option<Seq<Seq<char>>>,
    pub rustc_args: Option<Seq<Seq<char>>>,
    pub rustdoc_args: Option<Seq<Seq<char>>>,
}

impl View for Metadata {
    type V = MetadataView;

    open spec fn view(&self) -> MetadataView {
        MetadataView {
            features: self.features.deep_view(),
            all_features: self.all_features,
            no_default_features: self.no_default_features,
            default_target: self.default_target.deep_view(),
            targets: self.targets.deep_view(),
            rustc_args: self.rustc_args.deep_view(),
            rustdoc_args: self.rustdoc_args.deep_view(),
        }
    }
}

/// The fragment with every optional field absent and every flag off.
pub open spec fn spec_default_metadata() -> MetadataView {
    MetadataView {
        features: None,
        all_features: false,
        no_default_features: false,
        default_target: None,
        targets: None,
        rustc_args: None,
        rustdoc_args: None,
    }
}

/// The resolved default target of a fragment: the explicit `default_target`
/// wins; else the first explicit target; else the host triple.
pub open spec fn spec_default_target(m: MetadataView) -> Seq<char> {
    if m.default_target is Some {
        m.default_target->0
    } else if m.targets is Some && m.targets->0.len() > 0 {
        m.targets->0[0]
    } else {
        spec_host_target()
    }
}

/// The candidate target list: the explicit one when given (even when empty),
/// else the fixed default list.
pub open spec fn spec_candidate_targets(m: MetadataView) -> Seq<Seq<char>> {
    if m.targets is Some {
        m.targets->0
    } else {
        spec_default_targets()
    }
}

/// The targets built besides the default one: the candidates, as a set, with
/// the resolved default target removed.
pub open spec fn spec_other_targets(m: MetadataView) -> Set<Seq<char>> {
    spec_candidate_targets(m).to_set().remove(spec_default_target(m))
}

/// A sequence of strings with no two equal entries.
pub open spec fn no_duplicates(s: Seq<Seq<char>>) -> bool {
    forall|i: int, j: int| 0 <= i < j < s.len() ==> s[i] != s[j]
}

/// The targets a package resolves to: one default and the remaining set.
pub struct BuildTargets {
    /// The target built by default; the home target of the package.
    pub default_target: String,
    /// Every other target to build; never contains `default_target`, never
    /// holds an entry twice.
    pub other_targets: Vec<String>,
}

/// Whether `v` holds a string whose characters equal `s`'s.
pub(crate) fn vec_contains_string(v: &Vec<String>, s: &String) -> (r: bool)
    ensures
        r == v.deep_view().contains(s@),
{
    let mut i: usize = 0;
    while i < v.len()
        invariant
            i <= v.len(),
            forall|k: int| 0 <= k < i ==> v.deep_view()[k] != s@,
        decreases v.len() - i,
    {
        if v[i] == *s {
            assert(v.deep_view()[i as int] == s@);
            return true;
        }
        i = i + 1;
    }
    false
}

/// Copies `candidates` in order, dropping `excluded` and every repeated entry.
fn dedup_excluding(candidates: &Vec<String>, excluded: &String) -> (r: Vec<String>)
    ensures
        no_duplicates(r.deep_view()),
        r.deep_view().to_set() == candidates.deep_view().to_set().remove(excluded@),
{
    let ghost cand: Seq<Seq<char>> = candidates.deep_view();
    let mut r: Vec<String> = Vec::new();
    let mut i: usize = 0;
    while i < candidates.len()
        invariant
            i <= candidates.len(),
            cand == candidates.deep_view(),
            no_duplicates(r.deep_view()),
            forall|t: Seq<char>| r.deep_view().contains(t) <==> (#[trigger] cand.take(
                i as int,
            ).contains(t) && t != excluded@),
        decreases candidates.len() - i,
    {
        let c = &candidates[i];
        assert(cand.take(i as int + 1).drop_last() =~= cand.take(i as int));
        assert(cand.take(i as int + 1).last() == c@);
        if !(*c == *excluded) && !vec_contains_string(&r, c) {
            let ghost old_r: Seq<Seq<char>> = r.deep_view();
            r.push(c.clone());
            assert(r.deep_view() =~= old_r.push(c@));
            assert forall|t: Seq<char>| r.deep_view().contains(t) implies (cand.take(
                i as int + 1,
            ).contains(t) && t != excluded@) by {
                if t == c@ {
                    assert(cand.take(i as int + 1).last() == t);
                } else {
                    assert(old_r.contains(t));
                    assert(cand.take(i as int).contains(t));
                    let k = choose|k: int|
                        0 <= k < cand.take(i as int).len() && #[trigger] cand.take(i as int)[k]
                            == t;
                    assert(cand.take(i as int + 1)[k] == t);
                }
            }
            assert forall|t: Seq<char>|
                cand.take(i as int + 1).contains(t) && t != excluded@ implies r.deep_view()
                .contains(t) by {
                let k = choose|k: int|
                    0 <= k < cand.take(i as int + 1).len() && #[trigger] cand.take(i as int + 1)[k]
                        == t;
                if k < i {
                    assert(cand.take(i as int)[k] == t);
                    assert(cand.take(i as int).contains(t));
                    assert(old_r.contains(t));
                    let j = choose|j: int| 0 <= j < old_r.len() && #[trigger] old_r[j] == t;
                    assert(r.deep_view()[j] == t);
                } else {
                    assert(r.deep_view().last() == t);
                }
            }
        } else {
            assert forall|t: Seq<char>|
                cand.take(i as int + 1).contains(t) && t != excluded@ implies r.deep_view()
                .contains(t) by {
                let k = choose|k: int|
                    0 <= k < cand.take(i as int + 1).len() && #[trigger] cand.take(i as int + 1)[k]
                        == t;
                if k < i {
                    assert(cand.take(i as int)[k] == t);
                    assert(cand.take(i as int).contains(t));
                } else {
                    assert(t == c@);
                    if *c == *excluded {
                    } else {
                        assert(r.deep_view().contains(c@));
                    }
                }
            }
            assert forall|t: Seq<char>| r.deep_view().contains(t) implies (cand.take(
                i as int + 1,
            ).contains(t) && t != excluded@) by {
                assert(cand.take(i as int).contains(t));
                let k = choose|k: int|
                    0 <= k < cand.take(i as int).len() && #[trigger] cand.take(i as int)[k] == t;
                assert(cand.take(i as int + 1)[k] == t);
            }
        }
        i = i + 1;
    }
    proof {
        assert(cand.take(cand.len() as int) =~= cand);
        assert(r.deep_view().to_set() =~= cand.to_set().remove(excluded@));
    }
    r
}

impl Metadata {
    /// Resolves the targets to build: the default target by the priority rule
    /// of [`spec_default_target`], and the deduplicated remaining candidates
    /// with the default removed.
    pub fn targets(&self) -> (r: BuildTargets)
        ensures
            r.default_target@ == spec_default_target(self@),
            r.other_targets.deep_view().to_set() == spec_other_targets(self@),
            no_duplicates(r.other_targets.deep_view()),
    {
        let default_target: String = if let Some(dt) = &self.default_target {
            dt.clone()
        } else if let Some(ts) = &self.targets {
            if ts.len() > 0 {
                ts[0].clone()
            } else {
                String::from_str(host_target())
            }
        } else {
            String::from_str(host_target())
        };
        let other_targets: Vec<String> = if let Some(ts) = &self.targets {
            dedup_excluding(ts, &default_target)
        } else {
            dedup_excluding(&default_targets(), &default_target)
        };
        BuildTargets { default_target, other_targets }
    }
}

/// The given strings joined by single spaces: the empty sequence for an empty
/// list, the lone element for a singleton.
pub open spec fn spec_join_space(parts: Seq<Seq<char>>) -> Seq<char>
    decreases parts.len(),
{
    if parts.len() == 0 {
        Seq::empty()
    } else if parts.len() == 1 {
        parts[0]
    } else {
        spec_join_space(parts.drop_last()) + seq![' '] + parts.last()
    }
}

/// Joins the strings of `parts` with one space between neighbours.
pub fn join_space(parts: &Vec<String>) -> (r: String)
    ensures
        r@ == spec_join_space(parts.deep_view()),
{
    let mut r = String::new();
    let mut i: usize = 0;
    while i < parts.len()
        invariant
            i <= parts.len(),
            r@ == spec_join_space(parts.deep_view().take(i as int)),
        decreases parts.len() - i,
    {
        if i > 0 {
            r.append(" ");
            proof {
                reveal_strlit(" ");
            }
        }
        r.append(parts[i].as_str());
        proof {
            assert(parts.deep_view().take(i as int + 1).drop_last() =~= parts.deep_view().take(
                i as int,
            ));
            assert(parts.deep_view().take(i as int + 1).last() == parts.deep_view()[i as int]);
        }
        i = i + 1;
    }
    proof {
        assert(parts.deep_view().take(parts.len() as int) =~= parts.deep_view());
    }
    r
}

/// The fixed leading tokens of every documentation-build invocation.
pub open spec fn spec_base_args() -> Seq<Seq<char>> {
    seq!["doc"@, "--lib"@, "--no-deps"@]
}

/// The full argument list of a fragment: the fixed base, then the features
/// flag with the joined feature names when features are listed, then each of
/// the two boolean flags when set, in that order. Never a target flag.
pub open spec fn spec_cargo_args(m: MetadataView) -> Seq<Seq<char>> {
    let with_features = if m.features is Some {
        spec_base_args() + seq!["--features"@, spec_join_space(m.features->0)]
    } else {
        spec_base_args()
    };
    let with_all = if m.all_features {
        with_features + seq!["--all-features"@]
    } else {
        with_features
    };
    if m.no_default_features {
        with_all + seq!["--no-default-features"@]
    } else {
        with_all
    }
}

/// The extra arguments of one compiler, joined by spaces; the empty string
/// when the manifest lists none.
pub open spec fn spec_joined_args(v: Option<Seq<Seq<char>>>) -> Seq<char> {
    if v is Some {
        spec_join_space(v->0)
    } else {
        Seq::empty()
    }
}

/// The environment of a build invocation: both flag-carrying keys are always
/// present (empty when the manifest gives nothing), and a fixed detection key
/// always carries the value `1`.
pub open spec fn spec_environment_variables(m: MetadataView) -> Seq<(Seq<char>, Seq<char>)> {
    seq![
        ("RUSTFLAGS"@, spec_joined_args(m.rustc_args)),
        ("RUSTDOCFLAGS"@, spec_joined_args(m.rustdoc_args)),
        ("DOCS_RS"@, "1"@),
    ]
}

impl Metadata {
    /// The arguments to pass to the build tool, exactly
    /// [`spec_cargo_args`] of this fragment.
    pub fn cargo_args(&self) -> (r: Vec<String>)
        ensures
            r.deep_view() == spec_cargo_args(self@),
    {
        let mut args: Vec<String> = Vec::new();
        args.push(String::from_str("doc"));
        args.push(String::from_str("--lib"));
        args.push(String::from_str("--no-deps"));
        if let Some(features) = &self.features {
            args.push(String::from_str("--features"));
            args.push(join_space(features));
        }
        if self.all_features {
            args.push(String::from_str("--all-features"));
        }
        if self.no_default_features {
            args.push(String::from_str("--no-default-features"));
        }
        proof {
            assert(args.deep_view() =~= spec_cargo_args(self@));
        }
        args
    }

    /// The environment variables of a build invocation, exactly
    /// [`spec_environment_variables`] of this fragment, in that order.
    pub fn environment_variables(&self) -> (r: Vec<(String, String)>)
        ensures
            r.deep_view() == spec_environment_variables(self@),
    {
        let rustflags: String = match &self.rustc_args {
            Some(args) => join_space(args),
            None => String::new(),
        };
        let rustdocflags: String = match &self.rustdoc_args {
            Some(args) => join_space(args),
            None => String::new(),
        };
        let mut r: Vec<(String, String)> = Vec::new();
        r.push((String::from_str("RUSTFLAGS"), rustflags));
        r.push((String::from_str("RUSTDOCFLAGS"), rustdocflags));
        r.push((String::from_str("DOCS_RS"), String::from_str("1")));
        proof {
            assert(r.deep_view() =~= spec_environment_variables(self@));
        }
        r
    }
}

/// Law: an explicit `default_target` always wins, whatever `targets` holds,
/// and is never among the other targets.
pub proof fn lemma_default_target_priority(m: MetadataView, t: Seq<char>)
    requires
        m.default_target == Some(t),
    ensures
        spec_default_target(m) == t,
        !spec_other_targets(m).contains(t),
{
}

/// Law: without an explicit `default_target`, a non-empty `targets` list
/// makes its first entry the default, and otherwise the host triple is the
/// default.
pub proof fn lemma_default_target_fallback(m: MetadataView)
    requires
        m.default_target is None,
    ensures
        m.targets is Some && m.targets->0.len() > 0 ==> spec_default_target(m)
            == m.targets->0[0],
        !(m.targets is Some && m.targets->0.len() > 0) ==> spec_default_target(m)
            == spec_host_target(),
{
}

/// Law: an explicitly empty `targets` list leaves no other targets, whatever
/// the default-target fallback would have offered.
pub proof fn lemma_empty_targets(m: MetadataView)
    requires
        m.targets == Some(Seq::<Seq<char>>::empty()),
    ensures
        spec_other_targets(m) == Set::<Seq<char>>::empty(),
{
    assert(spec_other_targets(m) =~= Set::<Seq<char>>::empty());
}

/// Law: a duplicated entry in `targets` collapses — appending an entry the
/// list already holds changes neither the default nor the other targets.
pub proof fn lemma_duplicate_target_collapses(m: MetadataView, m2: MetadataView, t: Seq<char>)
    requires
        m.targets is Some,
        m.targets->0.contains(t),
        m2 == (MetadataView { targets: Some(m.targets->0.push(t)), ..m }),
    ensures
        spec_default_target(m2) == spec_default_target(m),
        spec_other_targets(m2) == spec_other_targets(m),
{
    let ts = m.targets->0;
    assert(ts.push(t)[0] == ts[0]) by {
        assert(ts.len() > 0);
    }
    assert(ts.push(t).to_set() =~= ts.to_set()) by {
        assert forall|x: Seq<char>| ts.push(t).contains(x) implies ts.contains(x) by {
            let k = choose|k: int| 0 <= k < ts.push(t).len() && #[trigger] ts.push(t)[k] == x;
            if k < ts.len() {
                assert(ts[k] == x);
            } else {
                assert(x == t);
            }
        }
        assert forall|x: Seq<char>| ts.contains(x) implies ts.push(t).contains(x) by {
            let k = choose|k: int| 0 <= k < ts.len() && #[trigger] ts[k] == x;
            assert(ts.push(t)[k] == x);
        }
    }
    assert(spec_other_targets(m2) =~= spec_other_targets(m));
}

/// Law: resolution is pure — plans are functions of the fragment alone, so
/// two fragments with equal contents resolve identically. Together with the
/// contracts of [`Metadata::targets`], [`Metadata::cargo_args`] and
/// [`Metadata::environment_variables`], which pin each result to these
/// functions of the fragment's view, two calls on byte-identical fragments
/// return equal plans.
pub proof fn lemma_resolution_pure(m1: MetadataView, m2: MetadataView)
    requires
        m1 == m2,
    ensures
        spec_default_target(m1) == spec_default_target(m2),
        spec_other_targets(m1) == spec_other_targets(m2),
        spec_cargo_args(m1) == spec_cargo_args(m2),
        spec_environment_variables(m1) == spec_environment_variables(m2),
{
}

/// Law: a fragment that lists features and sets both boolean flags yields the
/// base tokens, then the features flag and the joined names, then the two
/// boolean flags in their fixed order.
pub proof fn lemma_feature_argument_composition(m: MetadataView)
    requires
        m.features is Some,
    ensures
        !m.all_features && !m.no_default_features ==> spec_cargo_args(m) == spec_base_args()
            + seq!["--features"@, spec_join_space(m.features->0)],
        m.all_features && m.no_default_features ==> spec_cargo_args(m) == spec_base_args() + seq![
            "--features"@,
            spec_join_space(m.features->0),
            "--all-features"@,
            "--no-default-features"@,
        ],
{
    if m.all_features && m.no_default_features {
        assert(spec_cargo_args(m) =~= spec_base_args() + seq![
            "--features"@,
            spec_join_space(m.features->0),
            "--all-features"@,
            "--no-default-features"@,
        ]);
    }
}

impl Default for Metadata {
    /// The settings used when a manifest has no documentation-build section.
    fn default() -> (m: Metadata)
        ensures
            m@ == spec_default_metadata(),
    {
        Metadata {
            features: None,
            all_features: false,
            no_default_features: false,
            default_target: None,
            targets: None,
            rustc_args: None,
            rustdoc_args: None,
        }
    }
}

} // verus!
