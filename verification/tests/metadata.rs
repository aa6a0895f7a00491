use docbuilder::manifest::{manifest_file_name, MetadataError};
use docbuilder::metadata::{default_targets, host_target, BuildTargets, Metadata};

fn contains(v: &[String], s: &str) -> bool {
    v.iter().any(|x| x == s)
}

fn default_cargo_args() -> Vec<String> {
    vec!["doc".to_string(), "--lib".to_string(), "--no-deps".to_string()]
}

fn env_get(env: &[(String, String)], key: &str) -> Option<String> {
    env.iter().find(|(k, _)| k == key).map(|(_, v)| v.clone())
}

#[test]
fn test_cratesfyi_metadata() {
    let manifest = r#"
            [package]
            name = "test"

            [package.metadata.docs.rs]
            features = [ "feature1", "feature2" ]
            all-features = true
            no-default-features = true
            default-target = "x86_64-unknown-linux-gnu"
            targets = [ "x86_64-apple-darwin", "x86_64-pc-windows-msvc" ]
            rustc-args = [ "--example-rustc-arg" ]
            rustdoc-args = [ "--example-rustdoc-arg" ]
        "#;

    let metadata = Metadata::from_str(manifest).unwrap();

    assert!(metadata.features.is_some());
    assert!(metadata.all_features);
    assert!(metadata.no_default_features);
    assert!(metadata.default_target.is_some());
    assert!(metadata.rustdoc_args.is_some());

    let features = metadata.features.unwrap();
    assert_eq!(features.len(), 2);
    assert_eq!(features[0], "feature1".to_owned());
    assert_eq!(features[1], "feature2".to_owned());

    assert_eq!(
        metadata.default_target.unwrap(),
        "x86_64-unknown-linux-gnu".to_owned()
    );

    let targets = metadata.targets.expect("should have explicit target");
    assert_eq!(targets.len(), 2);
    assert_eq!(targets[0], "x86_64-apple-darwin");
    assert_eq!(targets[1], "x86_64-pc-windows-msvc");

    let rustc_args = metadata.rustc_args.unwrap();
    assert_eq!(rustc_args.len(), 1);
    assert_eq!(rustc_args[0], "--example-rustc-arg".to_owned());

    let rustdoc_args = metadata.rustdoc_args.unwrap();
    assert_eq!(rustdoc_args.len(), 1);
    assert_eq!(rustdoc_args[0], "--example-rustdoc-arg".to_owned());
}

#[test]
fn test_no_targets() {
    // metadata section but no targets
    let manifest = r#"
            [package]
            name = "test"

            [package.metadata.docs.rs]
            features = [ "feature1", "feature2" ]
        "#;
    let metadata = Metadata::from_str(manifest).unwrap();
    assert!(metadata.targets.is_none());

    // no package.metadata.docs.rs section
    let metadata = Metadata::from_str(
        r#"
            [package]
            name = "test"
        "#,
    )
    .unwrap();
    assert!(metadata.targets.is_none());

    // targets explicitly set to empty array
    let metadata = Metadata::from_str(
        r#"
            [package.metadata.docs.rs]
            targets = []
        "#,
    )
    .unwrap();
    assert!(metadata.targets.unwrap().is_empty());
}

#[test]
fn test_select_targets() {
    let mut metadata = Metadata::default();
    let tier_one: Vec<String> = default_targets();

    // unchanged default_target, targets not specified
    let BuildTargets {
        default_target: default,
        other_targets: others,
    } = metadata.targets();
    assert_eq!(default, host_target());

    // should be equal to the default target list minus the host target
    for actual in &others {
        assert!(contains(&tier_one, actual));
    }

    for expected in &tier_one {
        if expected == host_target() {
            assert!(!contains(&others, host_target()));
        } else {
            assert!(contains(&others, expected));
        }
    }

    // unchanged default_target, targets specified to be empty
    metadata.targets = Some(Vec::new());

    let BuildTargets {
        default_target: default,
        other_targets: others,
    } = metadata.targets();

    assert_eq!(default, host_target());
    assert!(others.is_empty());

    // unchanged default_target, targets non-empty
    metadata.targets = Some(vec![
        "i686-pc-windows-msvc".into(),
        "i686-apple-darwin".into(),
    ]);

    let BuildTargets {
        default_target: default,
        other_targets: others,
    } = metadata.targets();

    assert_eq!(default, "i686-pc-windows-msvc");
    assert_eq!(others.len(), 1);
    assert!(contains(&others, "i686-apple-darwin"));

    // make sure that default_target is not built twice
    metadata.targets = Some(vec![host_target().into()]);
    let BuildTargets {
        default_target: default,
        other_targets: others,
    } = metadata.targets();

    assert_eq!(default, host_target());
    assert!(others.is_empty());

    // make sure that duplicates are removed
    metadata.targets = Some(vec![
        "i686-pc-windows-msvc".into(),
        "i686-pc-windows-msvc".into(),
    ]);

    let BuildTargets {
        default_target: default,
        other_targets: others,
    } = metadata.targets();

    assert_eq!(default, "i686-pc-windows-msvc");
    assert!(others.is_empty());

    // make sure that `default_target` always takes priority over `targets`
    metadata.default_target = Some("i686-apple-darwin".into());
    let BuildTargets {
        default_target: default,
        other_targets: others,
    } = metadata.targets();

    assert_eq!(default, "i686-apple-darwin");
    assert_eq!(others.len(), 1);
    assert!(contains(&others, "i686-pc-windows-msvc"));

    // make sure that `default_target` takes priority over the host target
    metadata.targets = Some(vec![]);
    let BuildTargets {
        default_target: default,
        other_targets: others,
    } = metadata.targets();

    assert_eq!(default, "i686-apple-darwin");
    assert!(others.is_empty());

    // and if `targets` is unset, it should still be the default list
    metadata.targets = None;
    let BuildTargets {
        default_target: default,
        other_targets: others,
    } = metadata.targets();

    assert_eq!(default, "i686-apple-darwin");
    let tier_one_targets_no_default: Vec<String> = tier_one
        .iter()
        .filter(|t| t.as_str() != "i686-apple-darwin")
        .cloned()
        .collect();

    assert_eq!(others.len(), tier_one_targets_no_default.len());
    for t in &tier_one_targets_no_default {
        assert!(contains(&others, t));
    }
}

#[test]
fn test_defaults() {
    let metadata = Metadata::default();
    assert_eq!(metadata.cargo_args(), default_cargo_args());
    let env = metadata.environment_variables();
    assert_eq!(env_get(&env, "DOCS_RS").as_deref(), Some("1"));
    assert_eq!(env_get(&env, "RUSTDOCFLAGS").as_deref(), Some(""));
    assert_eq!(env_get(&env, "RUSTFLAGS").as_deref(), Some(""));
}

#[test]
fn test_features() {
    // all features
    let metadata = Metadata {
        all_features: true,
        ..Metadata::default()
    };
    let mut expected_args = default_cargo_args();
    expected_args.push("--all-features".into());
    assert_eq!(metadata.cargo_args(), expected_args);

    // no default features
    let metadata = Metadata {
        no_default_features: true,
        ..Metadata::default()
    };
    let mut expected_args = default_cargo_args();
    expected_args.push("--no-default-features".into());
    assert_eq!(metadata.cargo_args(), expected_args);

    // allow passing both even though it's nonsense; cargo will give an error anyway
    let metadata = Metadata {
        all_features: true,
        no_default_features: true,
        ..Metadata::default()
    };
    let mut expected_args = default_cargo_args();
    expected_args.push("--all-features".into());
    expected_args.push("--no-default-features".into());
    assert_eq!(metadata.cargo_args(), expected_args);

    // explicit empty vec
    let metadata = Metadata {
        features: Some(vec![]),
        ..Metadata::default()
    };
    let mut expected_args = default_cargo_args();
    expected_args.push("--features".into());
    expected_args.push(String::new());
    assert_eq!(metadata.cargo_args(), expected_args);

    // one feature
    let metadata = Metadata {
        features: Some(vec!["some_feature".into()]),
        ..Metadata::default()
    };
    let mut expected_args = default_cargo_args();
    expected_args.push("--features".into());
    expected_args.push("some_feature".into());
    assert_eq!(metadata.cargo_args(), expected_args);

    // multiple features
    let metadata = Metadata {
        features: Some(vec!["feature1".into(), "feature2".into()]),
        ..Metadata::default()
    };
    let mut expected_args = default_cargo_args();
    expected_args.push("--features".into());
    expected_args.push("feature1 feature2".into());
    assert_eq!(metadata.cargo_args(), expected_args);

    // rustdocflags
    let metadata = Metadata {
        rustdoc_args: Some(vec![
            "-Z".into(),
            "unstable-options".into(),
            "--static-root-path".into(),
            "/".into(),
            "--cap-lints".into(),
            "warn".into(),
        ]),
        ..Metadata::default()
    };
    assert_eq!(
        env_get(&metadata.environment_variables(), "RUSTDOCFLAGS").as_deref(),
        Some("-Z unstable-options --static-root-path / --cap-lints warn")
    );

    // rustcflags
    let metadata = Metadata {
        rustc_args: Some(vec![
            "-Z".into(),
            "unstable-options".into(),
            "--static-root-path".into(),
            "/".into(),
            "--cap-lints".into(),
            "warn".into(),
        ]),
        ..Metadata::default()
    };
    assert_eq!(
        env_get(&metadata.environment_variables(), "RUSTFLAGS").as_deref(),
        Some("-Z unstable-options --static-root-path / --cap-lints warn")
    );
}

#[test]
fn malformed_manifest_is_parse_error() {
    let err = Metadata::from_str("[package\nname=").unwrap_err();
    assert!(matches!(err, MetadataError::Parse(_)));
}

#[test]
fn non_string_feature_entry_drops_the_list() {
    let metadata = Metadata::from_str(
        r#"
            [package.metadata.docs.rs]
            features = [ 1, 2 ]
        "#,
    )
    .unwrap();
    assert!(metadata.features.is_none());
}

#[test]
fn resolution_is_pure_across_calls() {
    let manifest = r#"
            [package]
            name = "test"

            [package.metadata.docs.rs]
            features = [ "feature1" ]
            targets = [ "i686-apple-darwin", "x86_64-apple-darwin" ]
            rustdoc-args = [ "--one", "--two" ]
        "#;
    let a = Metadata::from_str(manifest).unwrap();
    let b = Metadata::from_str(manifest).unwrap();

    assert_eq!(a.cargo_args(), b.cargo_args());
    assert_eq!(a.environment_variables(), b.environment_variables());

    let ta = a.targets();
    let tb = b.targets();
    assert_eq!(ta.default_target, tb.default_target);
    assert_eq!(ta.other_targets.len(), tb.other_targets.len());
    for t in &ta.other_targets {
        assert!(contains(&tb.other_targets, t));
    }
}

#[test]
fn unconfigured_package_resolves_to_defaults() {
    let metadata = Metadata::from_str(
        r#"
            [package]
            name = "test"
        "#,
    )
    .unwrap();

    let BuildTargets {
        default_target: default,
        other_targets: others,
    } = metadata.targets();
    assert_eq!(default, host_target());
    let expected: Vec<String> = default_targets()
        .iter()
        .filter(|t| t.as_str() != host_target())
        .cloned()
        .collect();
    assert_eq!(others.len(), expected.len());
    for t in &expected {
        assert!(contains(&others, t));
    }

    assert_eq!(metadata.cargo_args(), default_cargo_args());
    let env = metadata.environment_variables();
    assert_eq!(env_get(&env, "RUSTFLAGS").as_deref(), Some(""));
    assert_eq!(env_get(&env, "RUSTDOCFLAGS").as_deref(), Some(""));
    assert_eq!(env_get(&env, "DOCS_RS").as_deref(), Some("1"));
}

#[test]
fn manifest_choice_prefers_pristine_copy() {
    assert_eq!(manifest_file_name(true, true), Some("Cargo.toml.orig"));
    assert_eq!(manifest_file_name(true, false), Some("Cargo.toml.orig"));
    assert_eq!(manifest_file_name(false, true), Some("Cargo.toml"));
    assert_eq!(manifest_file_name(false, false), None);
}

#[test]
fn from_parts_defaults_flags_to_off() {
    let m = Metadata::from_parts(None, None, None, None, None, None, None);
    assert!(!m.all_features);
    assert!(!m.no_default_features);
    assert!(m.features.is_none());
    assert!(m.targets.is_none());

    let m = Metadata::from_parts(
        Some(vec!["feature1".to_string()]),
        Some(false),
        Some(true),
        Some("i686-apple-darwin".to_string()),
        None,
        None,
        None,
    );
    assert!(!m.all_features);
    assert!(m.no_default_features);
    assert_eq!(m.features.unwrap(), vec!["feature1".to_string()]);
    assert_eq!(m.default_target.unwrap(), "i686-apple-darwin");
}
