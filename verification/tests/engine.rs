//! Tests of the pure resolution engine: rules, coordinates, hex digests,
//! download descriptors, the integrity decision and asset index parsing.

use mcinstall::{
    asset_file, asset_url, feature_enabled, needs_download, parse_asset_index, parse_hex20,
    parse_specifier, replace_first, resolve_download, resolve_library, resolve_rules, str_eq,
    Error, ErrorOrigin, Installer, Json, LibraryState, PointerPart,
};

fn installer() -> Installer {
    Installer::new(
        "root".to_string(),
        "linux".to_string(),
        "x86_64".to_string(),
        "6.1".to_string(),
        "64".to_string(),
    )
}

fn obj(fields: Vec<(&str, Json)>) -> Json {
    Json::Obj(fields.into_iter().map(|(k, v)| (k.to_string(), v)).collect())
}

fn s(v: &str) -> Json {
    Json::Str(v.to_string())
}

fn os_rule(name: &str, action: &str) -> Json {
    obj(vec![("os", obj(vec![("name", s(name))])), ("action", s(action))])
}

#[test]
fn rule_order_later_wins_allow() {
    let inst = installer();
    let features = Vec::new();
    // platform is "linux": first rule matches and allows, second does not match
    let rules = vec![os_rule("linux", "allow"), os_rule("osx", "disallow")];
    assert_eq!(resolve_rules(&rules, &inst, &features), Ok(true));
}

#[test]
fn rule_order_later_wins_disallow() {
    let inst = installer();
    let features = Vec::new();
    // both rules match on "linux": the later disallow wins
    let rules = vec![os_rule("linux", "allow"), os_rule("linux", "disallow")];
    assert_eq!(resolve_rules(&rules, &inst, &features), Ok(false));
    // swapped: the later allow wins
    let rules = vec![os_rule("linux", "disallow"), os_rule("linux", "allow")];
    assert_eq!(resolve_rules(&rules, &inst, &features), Ok(true));
}

#[test]
fn rule_order_swapped_on_other_platform() {
    // same two rules on a platform named "osx": only the disallow matches,
    // and with the order swapped it comes last and wins
    let osx = Installer::new(
        "root".to_string(),
        "osx".to_string(),
        "arm64".to_string(),
        "14".to_string(),
        "64".to_string(),
    );
    let rules = vec![os_rule("osx", "disallow"), os_rule("linux", "allow")];
    assert_eq!(resolve_rules(&rules, &osx, &Vec::new()), Ok(false));
}

#[test]
fn rule_empty_list_disallows() {
    let inst = installer();
    assert_eq!(resolve_rules(&Vec::new(), &inst, &Vec::new()), Ok(false));
}

#[test]
fn rule_features_must_match() {
    let inst = installer();
    let rule = || obj(vec![
        ("features", obj(vec![("is_demo_user", Json::Bool(true))])),
        ("action", s("allow")),
    ]);
    // missing feature defaults to false: condition does not match
    assert_eq!(resolve_rules(&vec![rule()], &inst, &Vec::new()), Ok(false));
    // provided feature matches
    let features = vec![("is_demo_user".to_string(), true)];
    assert_eq!(resolve_rules(&vec![rule()], &inst, &features), Ok(true));
}

#[test]
fn rule_feature_lookup_defaults_off() {
    let features = vec![("a".to_string(), true), ("b".to_string(), false)];
    assert!(feature_enabled(&features, "a"));
    assert!(!feature_enabled(&features, "b"));
    assert!(!feature_enabled(&features, "c"));
}

#[test]
fn rule_os_version_pattern_not_supported() {
    let inst = installer();
    let rule = obj(vec![
        ("os", obj(vec![("version", s("^10\\."))])),
        ("action", s("allow")),
    ]);
    match resolve_rules(&vec![rule], &inst, &Vec::new()) {
        Err(Error::NotSupported { .. }) => {}
        other => panic!("expected a not-supported error, got {:?}", other),
    }
}

#[test]
fn rule_bad_action_is_schema_error() {
    let inst = installer();
    let rule = obj(vec![("action", s("maybe"))]);
    match resolve_rules(&vec![rule], &inst, &Vec::new()) {
        Err(Error::Schema { pointer, .. }) => {
            assert_eq!(
                pointer,
                vec![PointerPart::Entry(0), PointerPart::Field("action".to_string())]
            );
        }
        other => panic!("expected a schema error, got {:?}", other),
    }
}

#[test]
fn specifier_basic_path() {
    let sp = parse_specifier("com.example.lib:art:1.0").unwrap();
    assert_eq!(sp.group, "com.example.lib");
    assert_eq!(sp.extension, "jar");
    assert!(sp.classifier.is_none());
    assert_eq!(sp.file_path(), "com/example/lib/art/1.0/art-1.0.jar");
}

#[test]
fn specifier_classifier_and_extension() {
    let sp = parse_specifier("g:a:1:natives-linux@tar").unwrap();
    assert_eq!(sp.classifier.as_deref(), Some("natives-linux"));
    assert_eq!(sp.extension, "tar");
    assert_eq!(sp.file_path(), "g/a/1/a-1-natives-linux.tar");
}

#[test]
fn specifier_rejects_bad_shapes() {
    assert!(parse_specifier("noseparators").is_none());
    assert!(parse_specifier("a:b").is_none());
    assert!(parse_specifier("a:b:c:d:e").is_none());
}

#[test]
fn string_helpers() {
    assert!(str_eq("abc", "abc"));
    assert!(!str_eq("abc", "abd"));
    assert_eq!(replace_first("${arch}-classifier", "${arch}", "64"), "64-classifier");
    assert_eq!(replace_first("plain", "${arch}", "64"), "plain");
    assert_eq!(replace_first("a-${arch}-${arch}", "${arch}", "32"), "a-32-${arch}");
}

#[test]
fn hex_parse_and_render() {
    let h = parse_hex20("da39a3ee5e6b4b0d3255bfef95601890afd80709").unwrap();
    assert_eq!(h[0], 0xda);
    assert_eq!(h[19], 0x09);
    assert_eq!(mcinstall::hex_str20(&h), "da39a3ee5e6b4b0d3255bfef95601890afd80709");
    assert!(parse_hex20("da39").is_none());
    assert!(parse_hex20("zz39a3ee5e6b4b0d3255bfef95601890afd80709").is_none());
}

#[test]
fn download_parse_full_and_errors() {
    let full = obj(vec![
        ("url", s("https://example.invalid/f.jar")),
        ("size", Json::Num(Some(42))),
        ("sha1", s("a9993e364706816aba3e25717850c26c9cd0d89d")),
    ]);
    let fields = match full {
        Json::Obj(f) => f,
        _ => unreachable!(),
    };
    let d = resolve_download(&fields).unwrap();
    assert_eq!(d.url, "https://example.invalid/f.jar");
    assert_eq!(d.size, Some(42));
    assert_eq!(d.sha1, parse_hex20("a9993e364706816aba3e25717850c26c9cd0d89d"));

    let missing_url = match obj(vec![("size", Json::Num(Some(1)))]) {
        Json::Obj(f) => f,
        _ => unreachable!(),
    };
    assert!(matches!(resolve_download(&missing_url), Err(Error::Schema { .. })));

    let oversize = match obj(vec![
        ("url", s("u")),
        ("size", Json::Num(Some(u64::from(u32::MAX) + 1))),
    ]) {
        Json::Obj(f) => f,
        _ => unreachable!(),
    };
    assert!(matches!(resolve_download(&oversize), Err(Error::Schema { .. })));

    let bad_hash = match obj(vec![("url", s("u")), ("sha1", s("abc"))]) {
        Json::Obj(f) => f,
        _ => unreachable!(),
    };
    assert!(matches!(resolve_download(&bad_hash), Err(Error::Schema { .. })));
}

// sha1 of "abc" is a9993e364706816aba3e25717850c26c9cd0d89d
#[test]
fn integrity_check_decides_from_size_and_hash() {
    let data = b"abc".to_vec();
    let good = parse_hex20("a9993e364706816aba3e25717850c26c9cd0d89d").unwrap();
    let bad = [0u8; 20];
    // right size, wrong hash: needs a download
    assert!(needs_download(Some(&data), Some(3), Some(&bad)));
    // right size, right hash: complete
    assert!(!needs_download(Some(&data), Some(3), Some(&good)));
    // wrong size short-circuits
    assert!(needs_download(Some(&data), Some(4), Some(&good)));
    // no file: always needs a download
    assert!(needs_download(None, None, None));
    assert!(needs_download(None, Some(3), Some(&good)));
    // size only
    assert!(!needs_download(Some(&data), Some(3), None));
    assert!(needs_download(Some(&data), Some(2), None));
    // no expectations: an existing file stands
    assert!(!needs_download(Some(&data), None, None));
}

#[test]
fn asset_index_parses_objects() {
    let doc = obj(vec![(
        "objects",
        obj(vec![(
            "minecraft/sounds/x.ogg",
            obj(vec![
                ("size", Json::Num(Some(1234))),
                ("hash", s("da39a3ee5e6b4b0d3255bfef95601890afd80709")),
            ]),
        )]),
    )]);
    let assets = parse_asset_index(&doc, "legacy-test").unwrap();
    assert_eq!(assets.version, "legacy-test");
    assert!(!assets.with_resources);
    assert!(!assets.with_virtual);
    assert_eq!(assets.objects.len(), 1);
    assert_eq!(assets.objects[0].0, "minecraft/sounds/x.ogg");
    assert_eq!(assets.objects[0].1.size, 1234);
}

#[test]
fn asset_index_flags_and_errors() {
    let doc = obj(vec![
        ("map_to_resources", Json::Bool(true)),
        ("virtual", Json::Bool(true)),
        ("objects", obj(vec![])),
    ]);
    let assets = parse_asset_index(&doc, "a").unwrap();
    assert!(assets.with_resources);
    assert!(assets.with_virtual);

    let no_objects = obj(vec![]);
    assert!(matches!(parse_asset_index(&no_objects, "a"), Err(Error::Schema { .. })));

    let bad_entry = obj(vec![(
        "objects",
        obj(vec![("p", obj(vec![("size", s("big"))]))]),
    )]);
    match parse_asset_index(&bad_entry, "a") {
        Err(Error::Schema { pointer, .. }) => {
            assert_eq!(
                pointer,
                vec![
                    PointerPart::Field("objects".to_string()),
                    PointerPart::Field("p".to_string()),
                    PointerPart::Field("size".to_string()),
                ]
            );
        }
        other => panic!("expected a schema error, got {:?}", other),
    }
}

#[test]
fn asset_destination_is_content_addressed() {
    let inst = installer();
    let hash = parse_hex20("da39a3ee5e6b4b0d3255bfef95601890afd80709").unwrap();
    let asset = mcinstall::Asset { sha1: hash, size: 1234 };
    assert_eq!(
        asset_file(&inst, &asset),
        "root/assets/objects/da/da39a3ee5e6b4b0d3255bfef95601890afd80709"
    );
    assert_eq!(
        asset_url(&asset),
        "https://resources.download.minecraft.net/da/da39a3ee5e6b4b0d3255bfef95601890afd80709"
    );
}

#[test]
fn native_classifier_arch_substitution() {
    let inst = installer();
    let lib = obj(vec![
        ("name", s("g:a:1")),
        ("natives", obj(vec![("linux", s("${arch}-classifier"))])),
    ]);
    let r = resolve_library(&lib, &inst, &Vec::new()).unwrap();
    assert_eq!(r.state, LibraryState::Retained);
    assert!(r.library.native);
    assert_eq!(r.specifier.classifier.as_deref(), Some("64-classifier"));
    assert_eq!(r.library.file, "root/libraries/g/a/1/a-1-64-classifier.jar");
}

#[test]
fn native_without_platform_entry_is_rejected() {
    let inst = installer();
    // no rules block at all: the missing natives entry alone rejects it
    let lib = obj(vec![
        ("name", s("g:a:1")),
        ("natives", obj(vec![("osx", s("natives-osx"))])),
    ]);
    let r = resolve_library(&lib, &inst, &Vec::new()).unwrap();
    assert_eq!(r.state, LibraryState::RejectedNatives);
    assert!(r.library.native);
    assert!(r.library.url.is_none());
}

#[test]
fn library_rules_reject_after_native_resolution() {
    let inst = installer();
    let lib = obj(vec![
        ("name", s("g:a:1")),
        ("natives", obj(vec![("linux", s("natives-linux"))])),
        ("rules", Json::Arr(vec![os_rule("osx", "allow")])),
    ]);
    let r = resolve_library(&lib, &inst, &Vec::new()).unwrap();
    assert_eq!(r.state, LibraryState::RejectedRules);
    // the resolved classifier is kept even though the rules rejected it
    assert_eq!(r.specifier.classifier.as_deref(), Some("natives-linux"));
}

#[test]
fn library_derives_canonical_url_without_downloads_block() {
    let inst = installer();
    let lib = obj(vec![("name", s("com.example:art:2.0"))]);
    let r = resolve_library(&lib, &inst, &Vec::new()).unwrap();
    assert_eq!(r.state, LibraryState::Retained);
    assert_eq!(
        r.library.url.as_deref(),
        Some("https://libraries.minecraft.net/com/example/art/2.0/art-2.0.jar")
    );
    assert_eq!(r.library.file, "root/libraries/com/example/art/2.0/art-2.0.jar");
    assert_eq!(r.library.size, None);
    assert_eq!(r.library.sha1, None);
}

#[test]
fn library_explicit_artifact_block() {
    let inst = installer();
    let lib = obj(vec![
        ("name", s("g:a:1")),
        (
            "downloads",
            obj(vec![(
                "artifact",
                obj(vec![("url", s("https://example.invalid/a.jar")), ("size", Json::Num(Some(7)))]),
            )]),
        ),
    ]);
    let r = resolve_library(&lib, &inst, &Vec::new()).unwrap();
    assert_eq!(r.library.url.as_deref(), Some("https://example.invalid/a.jar"));
    assert_eq!(r.library.size, Some(7));
}

#[test]
fn native_missing_classifier_entry_in_explicit_block_is_error() {
    let inst = installer();
    let lib = obj(vec![
        ("name", s("g:a:1")),
        ("natives", obj(vec![("linux", s("natives-linux"))])),
        ("downloads", obj(vec![("classifiers", obj(vec![]))])),
    ]);
    assert!(matches!(
        resolve_library(&lib, &inst, &Vec::new()),
        Err(Error::Schema { .. })
    ));
}

#[test]
fn library_bad_name_is_schema_error() {
    let inst = installer();
    let lib = obj(vec![("name", s("not-a-coordinate"))]);
    match resolve_library(&lib, &inst, &Vec::new()) {
        Err(Error::Schema { pointer, expected, .. }) => {
            assert_eq!(pointer, vec![PointerPart::Field("name".to_string())]);
            assert_eq!(expected, "string (library specifier)");
        }
        other => panic!("expected a schema error, got {:?}", other),
    }
}

#[test]
fn version_file_layout() {
    let inst = installer();
    assert_eq!(inst.versions_dir(), "root/versions");
    assert_eq!(inst.version_dir("1.20"), "root/versions/1.20");
    assert_eq!(inst.version_file("1.20", "json"), "root/versions/1.20/1.20.json");
    assert_eq!(inst.work_dir, "root");
    assert_eq!(inst.bin_dir, "root/bin");
}

#[test]
fn referenced_features_recorded_once_in_order() {
    let rules = vec![
        obj(vec![
            ("features", obj(vec![("b", Json::Bool(true)), ("a", Json::Bool(false))])),
            ("action", s("allow")),
        ]),
        obj(vec![("action", s("allow"))]),
        obj(vec![
            ("features", obj(vec![("a", Json::Bool(true)), ("c", Json::Bool(true))])),
            ("action", s("disallow")),
        ]),
    ];
    let mut out = Vec::new();
    mcinstall::referenced_features(&rules, &mut out);
    assert_eq!(out, vec!["b".to_string(), "a".to_string(), "c".to_string()]);
}

#[test]
fn json_lookup_first_binding_wins() {
    let doc = obj(vec![("k", s("first")), ("k", s("second"))]);
    match doc.get("k") {
        Some(Json::Str(v)) => assert_eq!(v, "first"),
        other => panic!("unexpected lookup result {:?}", other),
    }
    assert!(doc.get("missing").is_none());
    // an error origin comparison sanity check
    assert_eq!(ErrorOrigin::Raw("x".into()), ErrorOrigin::Raw("x".into()));
}
