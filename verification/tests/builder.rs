use docbuilder::builder::{
    canonical_name, chroot_build_dir, chroot_command_args, classify_build, command_result,
    doc_command, doc_presence_path, examples_path, has_examples, nested_path, record_attempt,
    remove_build_dir_command, should_skip, BuildCache,
};
use docbuilder::version::parse_rustc_version;

#[test]
fn test_parse_rustc_version() {
    assert_eq!(
        parse_rustc_version("rustc 1.10.0-nightly (57ef01513 2016-05-23)").unwrap(),
        "20160523-rustc-57ef01513"
    );
    assert_eq!(
        parse_rustc_version("cratesfyi 0.2.0 (ba9ae23 2016-05-26)").unwrap(),
        "20160526-cratesfyi-ba9ae23"
    );
}

#[test]
fn version_round_trip_uses_the_name_token() {
    assert_eq!(
        parse_rustc_version("toolname 1.10.0-nightly (57ef01513 2016-05-23)").unwrap(),
        "20160523-toolname-57ef01513"
    );
    assert_eq!(
        parse_rustc_version("othertool 0.2.0 (ba9ae23 2016-05-26)").unwrap(),
        "20160526-othertool-ba9ae23"
    );
}

#[test]
fn version_without_suffix_fails_to_parse() {
    assert!(parse_rustc_version("rustc 1.10.0-nightly").is_err());
    assert!(parse_rustc_version("rustc 1.10.0-nightly (57ef01513)").is_err());
    assert!(parse_rustc_version("").is_err());
    assert!(parse_rustc_version("rustc 1.10.0 (57ef01513 20160523)").is_err());
}

#[test]
fn skip_when_logged_and_cached() {
    let mut local = BuildCache::new();
    let durable = BuildCache::new();
    local.insert(canonical_name("rand", "0.3.14"));

    // the pre-inserted identity with the log flag set is skipped
    assert!(should_skip(&local, &durable, "rand", "0.3.14", true, false));
    // without the flag it is not
    assert!(!should_skip(&local, &durable, "rand", "0.3.14", false, false));
    // another identity is not skipped
    assert!(!should_skip(&local, &durable, "rand", "0.3.15", true, false));
    // the durable flag alone consults only the durable cache
    assert!(!should_skip(&local, &durable, "rand", "0.3.14", false, true));
}

#[test]
fn skip_when_stored_durably() {
    let local = BuildCache::new();
    let mut durable = BuildCache::new();
    durable.insert(canonical_name("rand", "0.3.14"));

    assert!(should_skip(&local, &durable, "rand", "0.3.14", false, true));
    assert!(!should_skip(&local, &durable, "rand", "0.3.14", true, false));
}

#[test]
fn cache_insert_is_idempotent() {
    let mut cache = BuildCache::new();
    let key = canonical_name("serde", "1.0.0");
    assert!(!cache.contains(&key));
    cache.insert(key.clone());
    assert!(cache.contains(&key));
    cache.insert(key.clone());
    assert!(cache.contains(&key));
}

#[test]
fn classify_build_success_keeps_doc_answer() {
    let r = classify_build(
        Ok("transcript".to_string()),
        true,
        false,
        "rustc 1.0".to_string(),
        "cratesfyi 0.2".to_string(),
    );
    assert!(r.build_success);
    assert!(r.have_doc);
    assert!(!r.have_examples);
    assert_eq!(r.output, "transcript");
    assert_eq!(r.rustc_version, "rustc 1.0");
    assert_eq!(r.cratesfyi_version, "cratesfyi 0.2");
}

#[test]
fn classify_build_failure_never_claims_doc() {
    let r = classify_build(
        Err("boom".to_string()),
        true,
        true,
        "rustc 1.0".to_string(),
        "cratesfyi 0.2".to_string(),
    );
    assert!(!r.build_success);
    assert!(!r.have_doc);
    assert!(r.have_examples);
    assert_eq!(r.output, "boom");
}

#[test]
fn command_result_combines_both_streams() {
    assert_eq!(
        command_result("out".to_string(), "err", true),
        Ok("outerr".to_string())
    );
    assert_eq!(
        command_result("out".to_string(), "err", false),
        Err("outerr".to_string())
    );
}

#[test]
fn command_and_path_construction() {
    assert_eq!(canonical_name("rand", "0.3.14"), "rand-0.3.14");
    assert_eq!(doc_command("rand", "0.3.14"), "cratesfyi doc rand =0.3.14");
    assert_eq!(
        remove_build_dir_command("rand", "0.3.14"),
        "rm -rf rand-0.3.14"
    );
    assert_eq!(
        nested_path("sources", "rand", "0.3.14"),
        "sources/rand/0.3.14"
    );
    assert_eq!(
        nested_path("rustdoc", "rand", "0.3.14"),
        "rustdoc/rand/0.3.14"
    );
    assert_eq!(
        chroot_build_dir("/srv/chroot", "builder", "rand", "0.3.14"),
        "/srv/chroot/home/builder/rand-0.3.14"
    );
    assert_eq!(
        doc_presence_path("/srv/chroot", "builder", "rand", "0.3.14", "rand"),
        "/srv/chroot/home/builder/rand-0.3.14/doc/rand"
    );
    assert_eq!(
        chroot_command_args("cratesfyi-container", "builder", "rustc --version"),
        vec![
            "sudo".to_string(),
            "lxc-attach".to_string(),
            "-n".to_string(),
            "cratesfyi-container".to_string(),
            "--".to_string(),
            "su".to_string(),
            "-".to_string(),
            "builder".to_string(),
            "-c".to_string(),
            "rustc --version".to_string(),
        ]
    );
}

#[test]
fn record_attempt_counts_and_saves_every_tenth_success() {
    // a finished attempt raises the count
    assert_eq!(record_attempt(0, true, true), (1, false));
    // the tenth finished attempt with a successful build asks for a save
    assert_eq!(record_attempt(9, true, true), (10, true));
    // a failed build on the tenth does not
    assert_eq!(record_attempt(9, true, false), (10, false));
    // an unfinished attempt changes nothing
    assert_eq!(record_attempt(9, false, true), (9, false));
}

#[test]
fn cache_entries_hold_each_key_once() {
    let mut cache = BuildCache::new();
    cache.insert("rand-0.3.14".to_string());
    cache.insert("libc-0.2.0".to_string());
    cache.insert("rand-0.3.14".to_string());
    let entries = cache.entries();
    assert_eq!(entries.len(), 2);
    assert!(entries.iter().any(|k| k == "rand-0.3.14"));
    assert!(entries.iter().any(|k| k == "libc-0.2.0"));
}

#[test]
fn examples_rule() {
    assert_eq!(
        examples_path("/srv/sources/rand/0.3.14"),
        "/srv/sources/rand/0.3.14/examples"
    );
    // present and a directory: the package ships examples
    assert!(has_examples(true, true));
    // a plain file named like the directory does not count
    assert!(!has_examples(true, false));
    // nothing there at all
    assert!(!has_examples(false, false));
}
