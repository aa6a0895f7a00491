//! Build-executor core: the decisions and strings of one package's build
//! attempt — skip-cache consultation, command construction, result
//! classification, and the paths under which artifacts are placed.
//!
//! Everything here is a pure function of its arguments; running the sandbox,
//! the persistence layer and the filesystem is the surrounding program's work.

use vstd::prelude::*;

use crate::metadata::{no_duplicates, vec_contains_string};

verus! {

/// The outcome of one documentation-build attempt inside the sandbox.
#[derive(Debug)]
pub struct ChrootBuilderResult {
    /// The combined standard output and error of the build invocation.
    pub output: String,
    /// Whether the build invocation exited successfully.
    pub build_success: bool,
    /// Whether documentation output was found after the build.
    pub have_doc: bool,
    /// Whether the package's source tree has an examples directory.
    pub have_examples: bool,
    /// The toolchain's self-reported version banner.
    pub rustc_version: String,
    /// The orchestrator's own version banner.
    pub cratesfyi_version: String,
}

/// The canonical `name-version` tag of a package: the key of both skip
/// caches and the stem of every per-package directory.
pub open spec fn spec_canonical_name(name: Seq<char>, version: Seq<char>) -> Seq<char> {
    name + "-"@ + version
}

/// The canonical `name-version` tag of a package.
pub fn canonical_name(name: &str, version: &str) -> (r: String)
    ensures
        r@ == spec_canonical_name(name@, version@),
{
    let mut r = String::from_str(name);
    r.append("-");
    r.append(version);
    r
}

/// A set of canonical package tags already attempted or already stored.
pub struct BuildCache {
    entries: Vec<String>,
}

impl View for BuildCache {
    type V = Set<Seq<char>>;

    closed spec fn view(&self) -> Set<Seq<char>> {
        self.entries.deep_view().to_set()
    }
}

impl BuildCache {
    /// Every key is held at most once.
    #[verifier::type_invariant]
    spec fn wf(self) -> bool {
        no_duplicates(self.entries.deep_view())
    }

    /// An empty cache.
    pub fn new() -> (c: BuildCache)
        ensures
            c@ == Set::<Seq<char>>::empty(),
    {
        let entries: Vec<String> = Vec::new();
        proof {
            assert(no_duplicates(entries.deep_view()));
        }
        let c = BuildCache { entries };
        proof {
            assert(c@ =~= Set::<Seq<char>>::empty());
        }
        c
    }

    /// Whether `key` was recorded.
    pub fn contains(&self, key: &String) -> (r: bool)
        ensures
            r == self@.contains(key@),
    {
        vec_contains_string(&self.entries, key)
    }

    /// The recorded keys, each held key exactly once.
    pub fn entries(&self) -> (r: &Vec<String>)
        ensures
            r.deep_view().to_set() == self@,
            no_duplicates(r.deep_view()),
    {
        proof {
            use_type_invariant(&*self);
        }
        &self.entries
    }

    /// Records `key`; recording a key twice leaves the cache unchanged.
    pub fn insert(&mut self, key: String)
        ensures
            final(self)@ == old(self)@.insert(key@),
    {
        proof {
            use_type_invariant(&*self);
        }
        let ghost k: Seq<char> = key@;
        if !vec_contains_string(&self.entries, &key) {
            let ghost old_entries: Seq<Seq<char>> = self.entries.deep_view();
            let mut entries: Vec<String> = Vec::new();
            proof {
                assert(no_duplicates(entries.deep_view()));
            }
            std::mem::swap(&mut entries, &mut self.entries);
            entries.push(key);
            proof {
                assert(entries.deep_view() =~= old_entries.push(k));
                assert(forall|j: int| 0 <= j < old_entries.len() ==> #[trigger] old_entries[j] != k);
                assert(no_duplicates(entries.deep_view()));
            }
            self.entries = entries;
            proof {
                old_entries.lemma_push_to_set_commute(k);
                assert(self@ =~= old(self)@.insert(k));
            }
        } else {
            proof {
                assert(self@ =~= old(self)@.insert(k));
            }
        }
    }
}

/// The skip rule of a build attempt: skip when the attempted-this-run flag is
/// set and the local cache holds the package, or when the already-stored flag
/// is set and the durable cache holds it. Either flag alone suffices.
pub fn should_skip(
    local: &BuildCache,
    durable: &BuildCache,
    name: &str,
    version: &str,
    skip_if_log_exists: bool,
    skip_if_exists: bool,
) -> (r: bool)
    ensures
        r == ((skip_if_log_exists && local@.contains(spec_canonical_name(name@, version@))) || (
        skip_if_exists && durable@.contains(spec_canonical_name(name@, version@)))),
{
    let key = canonical_name(name, version);
    (skip_if_log_exists && local.contains(&key)) || (skip_if_exists && durable.contains(&key))
}

/// Turns a captured command outcome into the combined transcript: the output
/// either way, success deciding which side it is returned on.
pub fn command_result(stdout_text: String, stderr_text: &str, success: bool) -> (r: Result<
    String,
    String,
>)
    ensures
        success ==> r is Ok && r->Ok_0@ == stdout_text@ + stderr_text@,
        !success ==> r is Err && r->Err_0@ == stdout_text@ + stderr_text@,
{
    let mut out = stdout_text;
    out.append(stderr_text);
    if success {
        Ok(out)
    } else {
        Err(out)
    }
}

/// Classifies one sandbox build outcome: a successful invocation keeps its
/// transcript and the documentation check's answer; a failed one keeps the
/// failing transcript and never claims documentation. The examples flag and
/// both version banners pass through unchanged.
pub fn classify_build(
    outcome: Result<String, String>,
    has_doc_output: bool,
    has_examples: bool,
    rustc_version: String,
    cratesfyi_version: String,
) -> (r: ChrootBuilderResult)
    ensures
        r.build_success == outcome is Ok,
        outcome is Ok ==> r.output == outcome->Ok_0,
        outcome is Err ==> r.output == outcome->Err_0,
        r.have_doc == (outcome is Ok && has_doc_output),
        r.have_examples == has_examples,
        r.rustc_version == rustc_version,
        r.cratesfyi_version == cratesfyi_version,
{
    match outcome {
        Ok(o) => ChrootBuilderResult {
            output: o,
            build_success: true,
            have_doc: has_doc_output,
            have_examples: has_examples,
            rustc_version,
            cratesfyi_version,
        },
        Err(e) => ChrootBuilderResult {
            output: e,
            build_success: false,
            have_doc: false,
            have_examples: has_examples,
            rustc_version,
            cratesfyi_version,
        },
    }
}

/// The sandbox command that documents one package at its pinned version.
pub fn doc_command(name: &str, version: &str) -> (r: String)
    ensures
        r@ == "cratesfyi doc "@ + name@ + " ="@ + version@,
{
    let mut r = String::from_str("cratesfyi doc ");
    r.append(name);
    r.append(" =");
    r.append(version);
    r
}

/// The sandbox command that removes one package's build directory.
pub fn remove_build_dir_command(name: &str, version: &str) -> (r: String)
    ensures
        r@ == "rm -rf "@ + spec_canonical_name(name@, version@),
{
    let mut r = String::from_str("rm -rf ");
    r.append(name);
    r.append("-");
    r.append(version);
    proof {
        assert(r@ =~= "rm -rf "@ + spec_canonical_name(name@, version@));
    }
    r
}

/// The full argument list that runs `command` inside the named container as
/// the unprivileged user.
pub fn chroot_command_args(container: &str, user: &str, command: &str) -> (r: Vec<String>)
    ensures
        r.deep_view() == seq![
            "sudo"@,
            "lxc-attach"@,
            "-n"@,
            container@,
            "--"@,
            "su"@,
            "-"@,
            user@,
            "-c"@,
            command@,
        ],
{
    let mut r: Vec<String> = Vec::new();
    r.push(String::from_str("sudo"));
    r.push(String::from_str("lxc-attach"));
    r.push(String::from_str("-n"));
    r.push(String::from_str(container));
    r.push(String::from_str("--"));
    r.push(String::from_str("su"));
    r.push(String::from_str("-"));
    r.push(String::from_str(user));
    r.push(String::from_str("-c"));
    r.push(String::from_str(command));
    proof {
        assert(r.deep_view() =~= seq![
            "sudo"@,
            "lxc-attach"@,
            "-n"@,
            container@,
            "--"@,
            "su"@,
            "-"@,
            user@,
            "-c"@,
            command@,
        ]);
    }
    r
}

/// A `root/name/version` path: the layout of source copies, documentation
/// copies, and the matching storage prefixes.
pub fn nested_path(root: &str, name: &str, version: &str) -> (r: String)
    ensures
        r@ == root@ + "/"@ + name@ + "/"@ + version@,
{
    let mut r = String::from_str(root);
    r.append("/");
    r.append(name);
    r.append("/");
    r.append(version);
    r
}

/// The package's build directory inside the sandbox: the sandbox root, the
/// user's home, and the canonical package tag.
pub fn chroot_build_dir(chroot_path: &str, user: &str, name: &str, version: &str) -> (r: String)
    ensures
        r@ == chroot_path@ + "/home/"@ + user@ + "/"@ + spec_canonical_name(name@, version@),
{
    let mut r = String::from_str(chroot_path);
    r.append("/home/");
    r.append(user);
    r.append("/");
    r.append(name);
    r.append("-");
    r.append(version);
    proof {
        assert(r@ =~= chroot_path@ + "/home/"@ + user@ + "/"@ + spec_canonical_name(
            name@,
            version@,
        ));
    }
    r
}

/// The path whose existence tells whether a build left documentation: the
/// `doc` directory of the primary build target under the package's build
/// directory.
pub fn doc_presence_path(
    chroot_path: &str,
    user: &str,
    name: &str,
    version: &str,
    target_name: &str,
) -> (r: String)
    ensures
        r@ == chroot_path@ + "/home/"@ + user@ + "/"@ + spec_canonical_name(name@, version@)
            + "/doc/"@ + target_name@,
{
    let mut r = chroot_build_dir(chroot_path, user, name, version);
    r.append("/doc/");
    r.append(target_name);
    proof {
        assert(r@ =~= chroot_path@ + "/home/"@ + user@ + "/"@ + spec_canonical_name(
            name@,
            version@,
        ) + "/doc/"@ + target_name@);
    }
    r
}

/// The directory whose presence tells that a package ships examples: the
/// entry literally named `examples` at the root of its source tree.
pub fn examples_path(source_root: &str) -> (r: String)
    ensures
        r@ == source_root@ + "/examples"@,
{
    let mut r = String::from_str(source_root);
    r.append("/examples");
    r
}

/// The examples rule: a package ships examples exactly when the
/// [`examples_path`] entry of its source tree exists and is a directory.
pub fn has_examples(examples_entry_exists: bool, examples_entry_is_directory: bool) -> (r: bool)
    ensures
        r == (examples_entry_exists && examples_entry_is_directory),
{
    examples_entry_exists && examples_entry_is_directory
}

/// The bookkeeping of one finished attempt in a whole-backlog run: a finished
/// attempt raises the count, and the cache is saved on every tenth finished
/// attempt whose build succeeded.
pub fn record_attempt(count: u64, attempt_finished: bool, build_succeeded: bool) -> (r: (u64, bool))
    requires
        attempt_finished ==> count < u64::MAX,
    ensures
        attempt_finished ==> r.0 == count + 1 && r.1 == (build_succeeded && r.0 % 10 == 0),
        !attempt_finished ==> r.0 == count && !r.1,
{
    if attempt_finished {
        let next = count + 1;
        (next, build_succeeded && next % 10 == 0)
    } else {
        (count, false)
    }
}

} // verus!
