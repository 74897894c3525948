//! End-to-end installation scenarios against an in-memory file store:
//! hierarchy resolution, asset planning, library planning, the entry
//! artifact, and the idempotence of a completed installation.

use mcinstall::{
    Assets, Download, Error, Handler, Installer, Library, LibrarySpecifier, LibraryState, Version,
};

/// A handler over an in-memory file store. Downloads write a file of the
/// expected size (content is zero bytes, so only size expectations can be
/// satisfied by a transfer).
struct MemHandler {
    files: Vec<(String, Vec<u8>)>,
    ran_downloads: Vec<Download>,
    notified: Vec<(String, LibraryState)>,
    reject_local: bool,
    fetch_names: Vec<String>,
    duplicate_libraries: bool,
}

impl MemHandler {
    fn new() -> Self {
        MemHandler {
            files: Vec::new(),
            ran_downloads: Vec::new(),
            notified: Vec::new(),
            reject_local: false,
            fetch_names: Vec::new(),
            duplicate_libraries: false,
        }
    }

    fn put(&mut self, path: &str, content: &[u8]) {
        self.files.retain(|p| p.0 != path);
        self.files.push((path.to_string(), content.to_vec()));
    }

    fn lookup(&self, path: &str) -> Option<&Vec<u8>> {
        self.files.iter().find(|p| p.0 == path).map(|p| &p.1)
    }
}

impl Handler for MemHandler {
    fn filter_version(&mut self, _installer: &Installer, _version: &mut Version) -> Result<bool, Error> {
        Ok(!self.reject_local)
    }

    fn fetch_version(&mut self, _installer: &Installer, version: &str) -> Result<Version, Error> {
        if self.fetch_names.iter().any(|n| n == version) {
            Ok(Version { name: version.to_string(), metadata: mcinstall::Json::Obj(Vec::new()) })
        } else {
            Err(Error::VersionNotFound { version: version.to_string() })
        }
    }

    fn filter_hierarchy(&mut self, _installer: &Installer, _hierarchy: &mut Vec<Version>) -> Result<(), Error> {
        Ok(())
    }

    fn filter_features(&mut self, _installer: &Installer, _features: &mut Vec<(String, bool)>) -> Result<(), Error> {
        Ok(())
    }

    fn filter_assets(&mut self, _installer: &Installer, _assets: &mut Assets) -> Result<(), Error> {
        Ok(())
    }

    fn notify_jar(&mut self, _installer: &Installer, _jar_file: &str) {}

    fn notify_library(&mut self, _installer: &Installer, specifier: &LibrarySpecifier, state: LibraryState) {
        self.notified.push((specifier.artifact.clone(), state));
    }

    fn filter_libraries(&mut self, _installer: &Installer, libraries: &mut Vec<(LibrarySpecifier, Library)>) -> Result<(), Error> {
        if self.duplicate_libraries && !libraries.is_empty() {
            let copy = libraries[0].clone();
            libraries.push(copy);
        }
        Ok(())
    }

    fn download(&mut self, entries: &Vec<Download>) -> Result<usize, Error> {
        let mut total: usize = 0;
        for d in entries.iter() {
            let size = d.size.unwrap_or(0) as usize;
            let content = vec![0u8; size];
            total += size;
            self.put(&d.file, &content);
            self.ran_downloads.push(d.clone());
        }
        Ok(total)
    }

    fn read_file(&mut self, _installer: &Installer, path: &str) -> Result<Option<Vec<u8>>, Error> {
        Ok(self.lookup(path).cloned())
    }

    fn file_len(&mut self, _installer: &Installer, path: &str) -> Result<Option<u64>, Error> {
        Ok(self.lookup(path).map(|c| c.len() as u64))
    }
}

fn installer() -> Installer {
    Installer::new(
        "root".to_string(),
        "linux".to_string(),
        "x86_64".to_string(),
        "6.1".to_string(),
        "64".to_string(),
    )
}

#[test]
fn hierarchy_two_level_chain() {
    let inst = installer();
    let mut h = MemHandler::new();
    h.put("root/versions/A/A.json", br#"{"inheritsFrom": "B"}"#);
    h.put("root/versions/B/B.json", br#"{}"#);
    let hierarchy = inst.resolve_hierarchy("A", &mut h).unwrap();
    assert_eq!(hierarchy.len(), 2);
    assert_eq!(hierarchy[0].name, "A");
    assert_eq!(hierarchy[1].name, "B");
}

#[test]
fn hierarchy_non_string_inherits_is_schema_error() {
    let inst = installer();
    let mut h = MemHandler::new();
    h.put("root/versions/A/A.json", br#"{"inheritsFrom": 42}"#);
    match inst.resolve_hierarchy("A", &mut h) {
        Err(Error::Schema { origin, pointer, expected }) => {
            assert_eq!(origin, mcinstall::ErrorOrigin::Raw("metadata(A)".to_string()));
            assert_eq!(pointer, vec![mcinstall::PointerPart::Field("inheritsFrom".to_string())]);
            assert_eq!(expected, "string");
        }
        other => panic!("expected a schema error scoped to A, got {:?}", other),
    }
}

#[test]
fn hierarchy_missing_version_not_found() {
    let inst = installer();
    let mut h = MemHandler::new();
    match inst.resolve_hierarchy("nope", &mut h) {
        Err(Error::VersionNotFound { version }) => assert_eq!(version, "nope"),
        other => panic!("expected version-not-found, got {:?}", other),
    }
}

#[test]
fn hierarchy_self_inheritance_is_detected() {
    let inst = installer();
    let mut h = MemHandler::new();
    h.put("root/versions/A/A.json", br#"{"inheritsFrom": "A"}"#);
    match inst.resolve_hierarchy("A", &mut h) {
        Err(Error::HierarchyLoop { .. }) => {}
        other => panic!("expected the chain depth error, got {:?}", other),
    }
}

#[test]
fn no_assets_declared_resolves_to_none() {
    let inst = installer();
    let mut h = MemHandler::new();
    h.put("root/versions/A/A.json", br#"{}"#);
    let hierarchy = inst.resolve_hierarchy("A", &mut h).unwrap();
    let mut downloads = Vec::new();
    let assets = inst.resolve_assets(&hierarchy, &mut downloads, &mut h).unwrap();
    assert!(assets.is_none());
    assert!(downloads.is_empty());
}

#[test]
fn missing_asset_object_plans_one_download() {
    let inst = installer();
    let mut h = MemHandler::new();
    h.put("root/versions/A/A.json", br#"{"assets": "t"}"#);
    h.put(
        "root/assets/indexes/t.json",
        br#"{"objects": {"minecraft/sounds/x.ogg": {"size": 1234, "hash": "da39a3ee5e6b4b0d3255bfef95601890afd80709"}}}"#,
    );
    let hierarchy = inst.resolve_hierarchy("A", &mut h).unwrap();
    let mut downloads = Vec::new();
    let assets = inst.resolve_assets(&hierarchy, &mut downloads, &mut h).unwrap().unwrap();
    assert_eq!(assets.version, "t");
    assert_eq!(downloads.len(), 1);
    assert_eq!(
        downloads[0].url,
        "https://resources.download.minecraft.net/da/da39a3ee5e6b4b0d3255bfef95601890afd80709"
    );
    assert_eq!(
        downloads[0].file,
        "root/assets/objects/da/da39a3ee5e6b4b0d3255bfef95601890afd80709"
    );
    assert_eq!(downloads[0].size, Some(1234));
    assert!(!downloads[0].executable);
}

#[test]
fn present_asset_object_plans_nothing() {
    let inst = installer();
    let mut h = MemHandler::new();
    h.put("root/versions/A/A.json", br#"{"assets": "t"}"#);
    h.put(
        "root/assets/indexes/t.json",
        br#"{"objects": {"x": {"size": 3, "hash": "a9993e364706816aba3e25717850c26c9cd0d89d"}}}"#,
    );
    h.put("root/assets/objects/a9/a9993e364706816aba3e25717850c26c9cd0d89d", b"abc");
    let hierarchy = inst.resolve_hierarchy("A", &mut h).unwrap();
    let mut downloads = Vec::new();
    inst.resolve_assets(&hierarchy, &mut downloads, &mut h).unwrap().unwrap();
    assert!(downloads.is_empty());
}

#[test]
fn no_libraries_field_produces_nothing() {
    let inst = installer();
    let mut h = MemHandler::new();
    h.put("root/versions/A/A.json", br#"{}"#);
    let hierarchy = inst.resolve_hierarchy("A", &mut h).unwrap();
    let mut downloads = Vec::new();
    let libraries = inst
        .resolve_libraries(&hierarchy, &Vec::new(), &mut downloads, &mut h)
        .unwrap();
    assert!(libraries.is_empty());
    assert!(downloads.is_empty());
    assert!(h.notified.is_empty());
}

#[test]
fn libraries_keep_declaration_order_and_first_occurrence() {
    let inst = installer();
    let mut h = MemHandler::new();
    h.put(
        "root/versions/A/A.json",
        br#"{"inheritsFrom": "B", "libraries": [{"name": "g:x:2"}, {"name": "g:y:1"}]}"#,
    );
    h.put("root/versions/B/B.json", br#"{"libraries": [{"name": "g:x:2"}, {"name": "g:z:3"}]}"#,);
    let hierarchy = inst.resolve_hierarchy("A", &mut h).unwrap();
    let mut downloads = Vec::new();
    let libraries = inst
        .resolve_libraries(&hierarchy, &Vec::new(), &mut downloads, &mut h)
        .unwrap();
    let artifacts: Vec<&str> = libraries.iter().map(|l| l.0.artifact.as_str()).collect();
    // most specific level first, duplicates dropped on first occurrence
    assert_eq!(artifacts, vec!["x", "y", "z"]);
    // every declared library was reported, duplicates included
    assert_eq!(h.notified.len(), 4);
    // all three distinct libraries are missing and planned
    assert_eq!(downloads.len(), 3);
    assert_eq!(
        downloads[0].url,
        "https://libraries.minecraft.net/g/x/2/x-2.jar"
    );
}

#[test]
fn jar_not_found_without_descriptor_or_file() {
    let inst = installer();
    let mut h = MemHandler::new();
    h.put("root/versions/A/A.json", br#"{}"#);
    let hierarchy = inst.resolve_hierarchy("A", &mut h).unwrap();
    let mut downloads = Vec::new();
    match inst.resolve_jar(&hierarchy, &mut downloads, &mut h) {
        Err(Error::JarNotFound) => {}
        other => panic!("expected the artifact-not-found error, got {:?}", other),
    }
}

#[test]
fn jar_with_client_descriptor_is_planned() {
    let inst = installer();
    let mut h = MemHandler::new();
    h.put(
        "root/versions/A/A.json",
        br#"{"downloads": {"client": {"url": "https://example.invalid/c.jar", "size": 5}}}"#,
    );
    let hierarchy = inst.resolve_hierarchy("A", &mut h).unwrap();
    let mut downloads = Vec::new();
    let jar = inst.resolve_jar(&hierarchy, &mut downloads, &mut h).unwrap();
    assert_eq!(jar, "root/versions/A/A.jar");
    assert_eq!(downloads.len(), 1);
    assert_eq!(downloads[0].file, "root/versions/A/A.jar");
    assert_eq!(downloads[0].size, Some(5));
}

#[test]
fn install_produces_environment_and_is_idempotent() {
    let inst = installer();
    let mut h = MemHandler::new();
    h.put(
        "root/versions/A/A.json",
        br#"{
            "assets": "t",
            "libraries": [
                {"name": "g:plain:1"},
                {"name": "g:nat:1", "natives": {"linux": "natives-linux"}},
                {"name": "g:other:1", "natives": {"osx": "natives-osx"}}
            ],
            "downloads": {"client": {"url": "https://example.invalid/c.jar", "size": 5}}
        }"#,
    );
    h.put(
        "root/assets/indexes/t.json",
        br#"{"objects": {"x.ogg": {"size": 4, "hash": "da39a3ee5e6b4b0d3255bfef95601890afd80709"}}}"#,
    );
    let env = inst.install("A", &mut h).unwrap();
    assert_eq!(env.jar_file, "root/versions/A/A.jar");
    assert_eq!(env.class_files, vec!["root/libraries/g/plain/1/plain-1.jar".to_string()]);
    assert_eq!(
        env.natives_files,
        vec!["root/libraries/g/nat/1/nat-1-natives-linux.jar".to_string()]
    );
    let assets = env.assets.unwrap();
    assert_eq!(assets.version, "t");
    // first run planned the asset, both retained libraries and the jar
    assert_eq!(h.ran_downloads.len(), 4);
    assert_eq!(
        h.notified
            .iter()
            .filter(|n| n.1 == LibraryState::RejectedNatives)
            .count(),
        1
    );

    // second run against the now-complete store plans nothing
    h.ran_downloads.clear();
    let env2 = inst.install("A", &mut h).unwrap();
    assert_eq!(h.ran_downloads.len(), 0);
    assert_eq!(env2.jar_file, "root/versions/A/A.jar");
}

#[test]
fn rejected_local_descriptor_forces_refetch() {
    let inst = installer();
    let mut h = MemHandler::new();
    // the local descriptor would inherit from a version that does not exist,
    // so resolution can only succeed through the fetched replacement
    h.put("root/versions/A/A.json", br#"{"inheritsFrom": "missing"}"#);
    h.reject_local = true;
    h.fetch_names.push("A".to_string());
    let hierarchy = inst.resolve_hierarchy("A", &mut h).unwrap();
    assert_eq!(hierarchy.len(), 1);
    assert_eq!(hierarchy[0].name, "A");
}

#[test]
fn native_library_with_explicit_classifier_block() {
    let inst = installer();
    let mut h = MemHandler::new();
    h.put(
        "root/versions/A/A.json",
        br#"{"libraries": [{
            "name": "g:n:1",
            "natives": {"linux": "natives-linux"},
            "downloads": {"classifiers": {"natives-linux": {
                "url": "https://example.invalid/n.jar", "size": 9
            }}}
        }]}"#,
    );
    let hierarchy = inst.resolve_hierarchy("A", &mut h).unwrap();
    let mut downloads = Vec::new();
    let libraries = inst
        .resolve_libraries(&hierarchy, &Vec::new(), &mut downloads, &mut h)
        .unwrap();
    assert_eq!(libraries.len(), 1);
    assert!(libraries[0].1.native);
    assert_eq!(libraries[0].1.url.as_deref(), Some("https://example.invalid/n.jar"));
    assert_eq!(libraries[0].1.size, Some(9));
    assert_eq!(downloads.len(), 1);
    assert_eq!(downloads[0].file, "root/libraries/g/n/1/n-1-natives-linux.jar");
}

#[test]
fn rule_arch_mismatch_excludes_library() {
    let inst = installer();
    let mut h = MemHandler::new();
    h.put(
        "root/versions/A/A.json",
        br#"{"libraries": [{
            "name": "g:a:1",
            "rules": [{"os": {"arch": "arm64"}, "action": "allow"}]
        }]}"#,
    );
    let hierarchy = inst.resolve_hierarchy("A", &mut h).unwrap();
    let mut downloads = Vec::new();
    let libraries = inst
        .resolve_libraries(&hierarchy, &Vec::new(), &mut downloads, &mut h)
        .unwrap();
    assert!(libraries.is_empty());
    assert!(downloads.is_empty());
    assert_eq!(h.notified, vec![("a".to_string(), LibraryState::RejectedRules)]);
}

#[test]
fn duplicate_asset_hashes_plan_one_download_per_destination() {
    let inst = installer();
    let mut h = MemHandler::new();
    h.put("root/versions/A/A.json", br#"{"assets": "t"}"#);
    // two manifest paths carry one content hash: one destination, one entry
    h.put(
        "root/assets/indexes/t.json",
        br#"{"objects": {
            "a.ogg": {"size": 4, "hash": "da39a3ee5e6b4b0d3255bfef95601890afd80709"},
            "b.ogg": {"size": 9, "hash": "da39a3ee5e6b4b0d3255bfef95601890afd80709"}
        }}"#,
    );
    let hierarchy = inst.resolve_hierarchy("A", &mut h).unwrap();
    let mut downloads = Vec::new();
    inst.resolve_assets(&hierarchy, &mut downloads, &mut h).unwrap().unwrap();
    assert_eq!(downloads.len(), 1);
    assert_eq!(
        downloads[0].file,
        "root/assets/objects/da/da39a3ee5e6b4b0d3255bfef95601890afd80709"
    );
    assert_eq!(downloads[0].size, Some(4));
}

#[test]
fn library_plan_never_repeats_a_destination() {
    let inst = installer();
    let mut h = MemHandler::new();
    h.duplicate_libraries = true;
    h.put("root/versions/A/A.json", br#"{"libraries": [{"name": "g:a:1"}]}"#);
    let hierarchy = inst.resolve_hierarchy("A", &mut h).unwrap();
    let mut downloads = Vec::new();
    let libraries = inst
        .resolve_libraries(&hierarchy, &Vec::new(), &mut downloads, &mut h)
        .unwrap();
    // the filter hook injected a duplicate entry, but only one transfer is
    // planned for the shared destination
    assert_eq!(libraries.len(), 2);
    assert_eq!(downloads.len(), 1);
    assert_eq!(downloads[0].file, "root/libraries/g/a/1/a-1.jar");
}
