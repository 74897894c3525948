//! The installer: configured directories and platform identifiers, with the
//! canonical on-disk layout of versions.
//!
//! Paths are plain strings joined with `/`; the surrounding program decides
//! where the main directory lies and which platform identifiers apply.

use vstd::prelude::*;
use crate::assets::{asset_file, asset_url, parse_asset_index, Assets};
use crate::check::needs_download;
use crate::download::{resolve_download, Download, DownloadV, JsonDownload, JsonDownloadV, Sha1Hash};
use crate::error::{
    field, prefix1, schema1, schema2, spec_prefix_schema, spec_with_origin, with_origin, Error,
    ErrorOrigin, ErrorV, OriginV, PointerPartV,
};
use crate::handler::{Handler, Version};
use crate::json::{obj_get, spec_get, spec_get_entries, Json};
use crate::jsonio::parse_json;
use crate::library::{collect_level, resolved_view, Library, LibraryState, ResolvedLibrary, ResolvedLibraryV};
use crate::specifier::{LibrarySpecifier, SpecifierV};
use crate::library::LibraryV;
use crate::strutil::str_eq;
use crate::download::spec_parse_download;

verus! {

/// Configuration of one installation: directories and the platform
/// identifiers used when applying metadata rules.
#[derive(Debug, Clone)]
pub struct Installer {
    /// Directory of all static resources: versions, libraries and assets.
    pub main_dir: String,
    /// Working directory the game runs in.
    pub work_dir: String,
    /// Directory for temporary runtime data such as extracted natives.
    pub bin_dir: String,
    /// OS name used when applying rules.
    pub meta_os_name: String,
    /// OS architecture name used when applying rules.
    pub meta_os_arch: String,
    /// OS version string used when applying rules.
    pub meta_os_version: String,
    /// Bit-width token substituted for an `${arch}` classifier placeholder.
    pub meta_os_bits: String,
}

impl Installer {
    /// Canonical versions directory.
    pub open spec fn spec_versions_dir(&self) -> Seq<char> {
        self.main_dir@ + "/versions"@
    }

    /// Canonical directory of one version.
    pub open spec fn spec_version_dir(&self, version: Seq<char>) -> Seq<char> {
        self.spec_versions_dir() + "/"@ + version
    }

    /// Canonical file of one version: `<name>/<name>.<extension>` under the
    /// versions directory.
    pub open spec fn spec_version_file(&self, version: Seq<char>, extension: Seq<char>) -> Seq<
        char,
    > {
        self.spec_version_dir(version) + "/"@ + version + "."@ + extension
    }

    /// Build an installer from explicit directories and platform identifiers.
    /// The working directory starts as the main directory and the binary
    /// directory under it.
    pub fn new(
        main_dir: String,
        meta_os_name: String,
        meta_os_arch: String,
        meta_os_version: String,
        meta_os_bits: String,
    ) -> (r: Installer)
        ensures
            r.main_dir@ == main_dir@,
            r.work_dir@ == main_dir@,
            r.bin_dir@ == main_dir@ + "/bin"@,
            r.meta_os_name@ == meta_os_name@,
            r.meta_os_arch@ == meta_os_arch@,
            r.meta_os_version@ == meta_os_version@,
            r.meta_os_bits@ == meta_os_bits@,
    {
        let work_dir = main_dir.clone();
        let mut bin_dir = main_dir.clone();
        bin_dir.append("/bin");
        Installer {
            main_dir,
            work_dir,
            bin_dir,
            meta_os_name,
            meta_os_arch,
            meta_os_version,
            meta_os_bits,
        }
    }

    /// Path of the versions directory.
    pub fn versions_dir(&self) -> (r: String)
        ensures
            r@ == self.spec_versions_dir(),
    {
        let mut buf = self.main_dir.clone();
        buf.append("/versions");
        buf
    }

    /// Path of one version's directory.
    pub fn version_dir(&self, version: &str) -> (r: String)
        ensures
            r@ == self.spec_version_dir(version@),
    {
        let mut buf = self.versions_dir();
        buf.append("/");
        buf.append(version);
        buf
    }

    /// Path of one version's file with the given extension.
    pub fn version_file(&self, version: &str, extension: &str) -> (r: String)
        ensures
            r@ == self.spec_version_file(version@, extension@),
    {
        let mut buf = self.version_dir(version);
        buf.append("/");
        buf.append(version);
        buf.append(".");
        buf.append(extension);
        buf
    }
}

/// The resolved, ready-to-launch environment of one installed version.
#[derive(Debug)]
pub struct Environment {
    /// The entry-point artifact.
    pub jar_file: String,
    /// Files of the retained non-native libraries, in resolution order.
    pub class_files: Vec<String>,
    /// Files of the retained native libraries, in resolution order.
    pub natives_files: Vec<String>,
    /// The resolved assets, when the version declares any.
    pub assets: Option<Assets>,
}

/// The origin naming one version's descriptor.
pub open spec fn spec_meta_origin(name: Seq<char>) -> OriginV {
    OriginV::Raw("metadata("@ + name + ")"@)
}

/// Build the origin naming one version's descriptor.
pub fn meta_origin(name: &str) -> (o: ErrorOrigin)
    ensures
        o@ == spec_meta_origin(name@),
{
    let mut s = "metadata(".to_owned();
    s.append(name);
    s.append(")");
    ErrorOrigin::Raw(s)
}

/// Build a version from the outcome of parsing its descriptor file: a
/// parsed document becomes the named version, a parse failure becomes a
/// parse error naming that file and carrying the parser's message.
pub fn version_from_parse(version: &str, file: String, parsed: Result<Json, String>) -> (r:
    Result<Version, Error>)
    ensures
        match r {
            Ok(v) => v.name@ == version@ && (parsed matches Ok(doc) && v.metadata == doc),
            Err(e) => (parsed matches Err(m) && e@ == (ErrorV::JsonParse {
                origin: OriginV::File(file@),
                message: m@,
            })),
        },
{
    match parsed {
        Ok(doc) => Ok(Version { name: version.to_owned(), metadata: doc }),
        Err(message) => Err(Error::JsonParse { origin: ErrorOrigin::File(file), message }),
    }
}

/// A well-linked inheritance chain: the head carries the requested name,
/// each level's `inheritsFrom` names the next level, and the last level
/// has none. `resolve_hierarchy` builds such a chain before the handler's
/// hierarchy filter may reshape it.
pub open spec fn spec_chain_linked(chain: Seq<Version>, name: Seq<char>) -> bool {
    &&& chain.len() >= 1
    &&& chain[0].name@ == name
    &&& (forall|i: int|
        0 <= i < chain.len() - 1 ==> ((#[trigger] spec_get(chain[i].metadata, "inheritsFrom"@))
            matches Some(Json::Str(s)) && s@ == chain[i + 1].name@))
    &&& spec_get(chain[chain.len() - 1].metadata, "inheritsFrom"@) is None
}

/// The inheritance link of a descriptor: absent, a version name, or a
/// schema error scoped to that descriptor when present but no string.
pub fn extract_inherits(v: &Version) -> (r: Result<Option<String>, Error>)
    ensures
        match r {
            Ok(None) => spec_get(v.metadata, "inheritsFrom"@) is None,
            Ok(Some(next)) => (spec_get(v.metadata, "inheritsFrom"@) matches Some(Json::Str(s))
                && s@ == next@),
            Err(e) => (spec_get(v.metadata, "inheritsFrom"@) matches Some(j) && !(j is Str)) && e@
                == (ErrorV::Schema {
                origin: spec_meta_origin(v.name@),
                pointer: seq![PointerPartV::Field("inheritsFrom"@)],
                expected: "string"@,
            }),
        },
{
    match v.metadata.get("inheritsFrom") {
        None => Ok(None),
        Some(Json::Str(next)) => Ok(Some(next.clone())),
        Some(_) => Err(
            with_origin(meta_origin(v.name.as_str()), schema1(field("inheritsFrom"), "string")),
        ),
    }
}

/// The asset information of a hierarchy, scanned from level `i` on, most
/// specific first: the first descriptor exposing a full `assetIndex`
/// reference or a legacy bare `assets` identifier wins.
pub open spec fn spec_find_asset_info_from(h: Seq<Version>, i: int) -> Result<
    Option<(Seq<char>, Option<JsonDownloadV>)>,
    ErrorV,
>
    decreases h.len() - i when 0 <= i
{
    if i >= h.len() {
        Ok(None)
    } else {
        match spec_get(h[i].metadata, "assetIndex"@) {
            Some(Json::Obj(af)) => match spec_get_entries(af@, "id"@) {
                Some(Json::Str(id)) => match spec_parse_download(af@) {
                    Ok(jd) => Ok(Some((id@, Some(jd)))),
                    Err(e) => Err(
                        spec_with_origin(
                            spec_meta_origin(h[i].name@),
                            spec_prefix_schema(seq![PointerPartV::Field("assetIndex"@)], e),
                        ),
                    ),
                },
                _ => Err(
                    spec_with_origin(
                        spec_meta_origin(h[i].name@),
                        crate::error::schema_at(
                            seq![
                                PointerPartV::Field("assetIndex"@),
                                PointerPartV::Field("id"@),
                            ],
                            "string"@,
                        ),
                    ),
                ),
            },
            Some(_) => Err(
                spec_with_origin(
                    spec_meta_origin(h[i].name@),
                    crate::error::schema_at(
                        seq![PointerPartV::Field("assetIndex"@)],
                        "object"@,
                    ),
                ),
            ),
            None => match spec_get(h[i].metadata, "assets"@) {
                Some(Json::Str(id)) => Ok(Some((id@, None))),
                Some(_) => Err(
                    spec_with_origin(
                        spec_meta_origin(h[i].name@),
                        crate::error::schema_at(
                            seq![PointerPartV::Field("assets"@)],
                            "string"@,
                        ),
                    ),
                ),
                None => spec_find_asset_info_from(h, i + 1),
            },
        }
    }
}

/// Find the asset information of a hierarchy, most specific level first.
pub fn find_asset_info(hierarchy: &Vec<Version>) -> (r: Result<
    Option<(String, Option<JsonDownload>)>,
    Error,
>)
    ensures
        match r {
            Ok(found) => spec_find_asset_info_from(hierarchy@, 0) == Ok::<
                Option<(Seq<char>, Option<JsonDownloadV>)>,
                ErrorV,
            >(
                match found {
                    None => None,
                    Some(p) => Some(
                        (
                            p.0@,
                            match p.1 {
                                Some(jd) => Some(jd@),
                                None => None,
                            },
                        ),
                    ),
                },
            ),
            Err(e) => spec_find_asset_info_from(hierarchy@, 0) == Err::<
                Option<(Seq<char>, Option<JsonDownloadV>)>,
                ErrorV,
            >(e@),
        },
{
    let n = hierarchy.len();
    let mut i: usize = 0;
    while i < n
        invariant
            n == hierarchy@.len(),
            i <= n,
            spec_find_asset_info_from(hierarchy@, i as int) == spec_find_asset_info_from(
                hierarchy@,
                0,
            ),
        decreases n - i,
    {
        let v = &hierarchy[i];
        match v.metadata.get("assetIndex") {
            Some(Json::Obj(af)) => {
                let id = match obj_get(af, "id") {
                    Some(Json::Str(id)) => id.clone(),
                    _ => {
                        return Err(
                            with_origin(
                                meta_origin(v.name.as_str()),
                                schema2(field("assetIndex"), field("id"), "string"),
                            ),
                        );
                    },
                };
                match resolve_download(af) {
                    Ok(jd) => {
                        return Ok(Some((id, Some(jd))));
                    },
                    Err(e) => {
                        return Err(
                            with_origin(
                                meta_origin(v.name.as_str()),
                                prefix1(field("assetIndex"), e),
                            ),
                        );
                    },
                }
            },
            Some(_) => {
                return Err(
                    with_origin(
                        meta_origin(v.name.as_str()),
                        schema1(field("assetIndex"), "object"),
                    ),
                );
            },
            None => {
                match v.metadata.get("assets") {
                    Some(Json::Str(id)) => {
                        return Ok(Some((id.clone(), None)));
                    },
                    Some(_) => {
                        return Err(
                            with_origin(
                                meta_origin(v.name.as_str()),
                                schema1(field("assets"), "string"),
                            ),
                        );
                    },
                    None => {},
                }
            },
        }
        i += 1;
    }
    Ok(None)
}

/// The entry-artifact download block of a hierarchy, scanned from level
/// `i` on: the first descriptor with a `downloads` object settles it, its
/// `client` block if it has one.
pub open spec fn spec_find_client_from(h: Seq<Version>, i: int) -> Result<
    Option<JsonDownloadV>,
    ErrorV,
>
    decreases h.len() - i when 0 <= i
{
    if i >= h.len() {
        Ok(None)
    } else {
        match spec_get(h[i].metadata, "downloads"@) {
            Some(Json::Obj(dl)) => match spec_get_entries(dl@, "client"@) {
                Some(Json::Obj(cf)) => match spec_parse_download(cf@) {
                    Ok(jd) => Ok(Some(jd)),
                    Err(e) => Err(
                        spec_with_origin(
                            spec_meta_origin(h[i].name@),
                            spec_prefix_schema(
                                seq![
                                    PointerPartV::Field("downloads"@),
                                    PointerPartV::Field("client"@),
                                ],
                                e,
                            ),
                        ),
                    ),
                },
                Some(_) => Err(
                    spec_with_origin(
                        spec_meta_origin(h[i].name@),
                        crate::error::schema_at(
                            seq![
                                PointerPartV::Field("downloads"@),
                                PointerPartV::Field("client"@),
                            ],
                            "object"@,
                        ),
                    ),
                ),
                None => Ok(None),
            },
            Some(_) => Err(
                spec_with_origin(
                    spec_meta_origin(h[i].name@),
                    crate::error::schema_at(
                        seq![PointerPartV::Field("downloads"@)],
                        "object"@,
                    ),
                ),
            ),
            None => spec_find_client_from(h, i + 1),
        }
    }
}

/// Find the entry-artifact download block of a hierarchy.
pub fn find_client_download(hierarchy: &Vec<Version>) -> (r: Result<Option<JsonDownload>, Error>)
    ensures
        match r {
            Ok(found) => spec_find_client_from(hierarchy@, 0) == Ok::<
                Option<JsonDownloadV>,
                ErrorV,
            >(
                match found {
                    Some(jd) => Some(jd@),
                    None => None,
                },
            ),
            Err(e) => spec_find_client_from(hierarchy@, 0) == Err::<
                Option<JsonDownloadV>,
                ErrorV,
            >(e@) && !(e@ is JarNotFound),
        },
{
    let n = hierarchy.len();
    let mut i: usize = 0;
    while i < n
        invariant
            n == hierarchy@.len(),
            i <= n,
            spec_find_client_from(hierarchy@, i as int) == spec_find_client_from(hierarchy@, 0),
        decreases n - i,
    {
        let v = &hierarchy[i];
        match v.metadata.get("downloads") {
            Some(Json::Obj(dl)) => {
                match obj_get(dl, "client") {
                    Some(Json::Obj(cf)) => {
                        match resolve_download(cf) {
                            Ok(jd) => {
                                return Ok(Some(jd));
                            },
                            Err(e) => {
                                return Err(
                                    with_origin(
                                        meta_origin(v.name.as_str()),
                                        crate::error::prefix2(
                                            field("downloads"),
                                            field("client"),
                                            e,
                                        ),
                                    ),
                                );
                            },
                        }
                    },
                    Some(_) => {
                        return Err(
                            with_origin(
                                meta_origin(v.name.as_str()),
                                schema2(field("downloads"), field("client"), "object"),
                            ),
                        );
                    },
                    None => {
                        return Ok(None);
                    },
                }
            },
            Some(_) => {
                return Err(
                    with_origin(
                        meta_origin(v.name.as_str()),
                        schema1(field("downloads"), "object"),
                    ),
                );
            },
            None => {},
        }
        i += 1;
    }
    Ok(None)
}

/// Spec view of a list of strings.
pub open spec fn strings_view(s: Seq<String>) -> Seq<Seq<char>> {
    s.map_values(|x: String| x@)
}

/// The files of the retained libraries with the given nativeness, from
/// index `i` on, in order.
pub open spec fn spec_files_with_from(
    libs: Seq<(LibrarySpecifier, Library)>,
    i: int,
    native: bool,
) -> Seq<Seq<char>>
    decreases libs.len() - i when 0 <= i
{
    if i >= libs.len() {
        Seq::empty()
    } else if libs[i].1.native == native {
        seq![libs[i].1.file@] + spec_files_with_from(libs, i + 1, native)
    } else {
        spec_files_with_from(libs, i + 1, native)
    }
}

/// Split the retained libraries into class files and native files, in
/// resolution order.
pub fn split_class_files(libraries: &Vec<(LibrarySpecifier, Library)>) -> (r: (
    Vec<String>,
    Vec<String>,
))
    ensures
        strings_view(r.0@) == spec_files_with_from(libraries@, 0, false),
        strings_view(r.1@) == spec_files_with_from(libraries@, 0, true),
{
    let n = libraries.len();
    let mut i: usize = 0;
    let mut class_files: Vec<String> = Vec::new();
    let mut natives_files: Vec<String> = Vec::new();
    proof {
        assert(strings_view(class_files@) =~= Seq::<Seq<char>>::empty());
        assert(strings_view(natives_files@) =~= Seq::<Seq<char>>::empty());
    }
    while i < n
        invariant
            n == libraries@.len(),
            i <= n,
            spec_files_with_from(libraries@, 0, false) == strings_view(class_files@)
                + spec_files_with_from(libraries@, i as int, false),
            spec_files_with_from(libraries@, 0, true) == strings_view(natives_files@)
                + spec_files_with_from(libraries@, i as int, true),
        decreases n - i,
    {
        let lib = &libraries[i].1;
        let ghost class_before = class_files@;
        let ghost natives_before = natives_files@;
        if lib.native {
            natives_files.push(lib.file.clone());
        } else {
            class_files.push(lib.file.clone());
        }
        proof {
            if lib.native {
                assert(strings_view(natives_files@) =~= strings_view(natives_before).push(
                    lib.file@,
                ));
                assert(strings_view(natives_before) + (seq![libraries@[i as int].1.file@]
                    + spec_files_with_from(libraries@, i + 1, true)) =~= strings_view(
                    natives_files@,
                ) + spec_files_with_from(libraries@, i + 1, true));
            } else {
                assert(strings_view(class_files@) =~= strings_view(class_before).push(lib.file@));
                assert(strings_view(class_before) + (seq![libraries@[i as int].1.file@]
                    + spec_files_with_from(libraries@, i + 1, false)) =~= strings_view(
                    class_files@,
                ) + spec_files_with_from(libraries@, i + 1, false));
            }
        }
        i += 1;
    }
    proof {
        assert(strings_view(class_files@) + spec_files_with_from(libraries@, i as int, false)
            =~= strings_view(class_files@));
        assert(strings_view(natives_files@) + spec_files_with_from(libraries@, i as int, true)
            =~= strings_view(natives_files@));
    }
    (class_files, natives_files)
}

/// All levels' resolved libraries concatenated, most specific level
/// first; the first failing level aborts with its error stamped with
/// that level's descriptor origin.
pub open spec fn spec_collect_hierarchy_from(
    h: Seq<Version>,
    i: int,
    inst: Installer,
    features: Seq<(String, bool)>,
) -> Result<Seq<ResolvedLibraryV>, ErrorV>
    decreases h.len() - i when 0 <= i
{
    if i >= h.len() {
        Ok(Seq::empty())
    } else {
        match crate::library::spec_collect_level(h[i].metadata, inst, features) {
            Err(e) => Err(spec_with_origin(spec_meta_origin(h[i].name@), e)),
            Ok(libs) => match spec_collect_hierarchy_from(h, i + 1, inst, features) {
                Ok(rest) => Ok(libs + rest),
                Err(e) => Err(e),
            },
        }
    }
}

/// Resolve the declared libraries of every level, most specific level
/// first and in declaration order within a level.
pub fn collect_hierarchy_libraries(
    hierarchy: &Vec<Version>,
    inst: &Installer,
    features: &Vec<(String, bool)>,
) -> (r: Result<Vec<ResolvedLibrary>, Error>)
    ensures
        match r {
            Ok(libs) => spec_collect_hierarchy_from(hierarchy@, 0, *inst, features@) == Ok::<
                _,
                ErrorV,
            >(resolved_view(libs@)),
            Err(e) => spec_collect_hierarchy_from(hierarchy@, 0, *inst, features@) == Err::<
                Seq<ResolvedLibraryV>,
                ErrorV,
            >(e@),
        },
{
    let n = hierarchy.len();
    let mut li: usize = 0;
    let mut acc: Vec<ResolvedLibrary> = Vec::new();
    proof {
        assert(resolved_view(acc@) =~= Seq::<ResolvedLibraryV>::empty());
        match spec_collect_hierarchy_from(hierarchy@, 0, *inst, features@) {
            Ok(rest) => {
                assert(resolved_view(acc@) + rest =~= rest);
            },
            Err(_) => {},
        }
    }
    while li < n
        invariant
            n == hierarchy@.len(),
            li <= n,
            spec_collect_hierarchy_from(hierarchy@, 0, *inst, features@) == (
            match spec_collect_hierarchy_from(hierarchy@, li as int, *inst, features@) {
                Ok(rest) => Ok::<_, ErrorV>(resolved_view(acc@) + rest),
                Err(e) => Err::<Seq<ResolvedLibraryV>, ErrorV>(e),
            }),
        decreases n - li,
    {
        let level = &hierarchy[li];
        match collect_level(&level.metadata, inst, features) {
            Ok(mut level_libs) => {
                let ghost acc_before = acc@;
                let ghost level_v = resolved_view(level_libs@);
                acc.append(&mut level_libs);
                proof {
                    assert(resolved_view(acc@) =~= resolved_view(acc_before) + level_v);
                    match spec_collect_hierarchy_from(hierarchy@, li + 1, *inst, features@) {
                        Ok(rest) => {
                            assert(resolved_view(acc_before) + (level_v + rest) =~= resolved_view(
                                acc@,
                            ) + rest);
                        },
                        Err(_) => {},
                    }
                }
            },
            Err(e) => {
                return Err(with_origin(meta_origin(level.name.as_str()), e));
            },
        }
        li += 1;
    }
    proof {
        match spec_collect_hierarchy_from(hierarchy@, li as int, *inst, features@) {
            Ok(rest) => {
                assert(resolved_view(acc@) + rest =~= resolved_view(acc@));
            },
            Err(_) => {},
        }
    }
    Ok(acc)
}

/// Spec view of a retained selection.
pub open spec fn pairs_view(libs: Seq<(LibrarySpecifier, Library)>) -> Seq<(SpecifierV, LibraryV)> {
    libs.map_values(|p: (LibrarySpecifier, Library)| (p.0@, p.1@))
}

/// Whether the selection already holds this coordinate.
pub open spec fn spec_has_specifier(sel: Seq<(SpecifierV, LibraryV)>, s: SpecifierV) -> bool {
    exists|j: int| 0 <= j < sel.len() && (#[trigger] sel[j]).0 == s
}

/// First-occurrence-wins selection of the retained entries, in order,
/// appended to `sel`.
pub open spec fn spec_retain_from(
    rs: Seq<ResolvedLibraryV>,
    i: int,
    sel: Seq<(SpecifierV, LibraryV)>,
) -> Seq<(SpecifierV, LibraryV)>
    decreases rs.len() - i when 0 <= i
{
    if i >= rs.len() {
        sel
    } else if rs[i].state is Retained && !spec_has_specifier(sel, rs[i].specifier) {
        spec_retain_from(rs, i + 1, sel.push((rs[i].specifier, rs[i].library)))
    } else {
        spec_retain_from(rs, i + 1, sel)
    }
}

/// Select the retained libraries; the first occurrence of a coordinate
/// wins, later duplicates are dropped.
pub fn retain_first_occurrences(resolved: &Vec<ResolvedLibrary>) -> (r: Vec<
    (LibrarySpecifier, Library),
>)
    ensures
        pairs_view(r@) == spec_retain_from(resolved_view(resolved@), 0, Seq::empty()),
{
    let n = resolved.len();
    let mut idx: usize = 0;
    let mut sel: Vec<(LibrarySpecifier, Library)> = Vec::new();
    proof {
        assert(pairs_view(sel@) =~= Seq::<(SpecifierV, LibraryV)>::empty());
    }
    while idx < n
        invariant
            n == resolved@.len(),
            idx <= n,
            spec_retain_from(resolved_view(resolved@), idx as int, pairs_view(sel@))
                == spec_retain_from(resolved_view(resolved@), 0, Seq::empty()),
        decreases n - idx,
    {
        let entry = &resolved[idx];
        proof {
            assert(resolved_view(resolved@)[idx as int] == resolved@[idx as int]@);
        }
        if matches!(entry.state, LibraryState::Retained) {
            if !contains_specifier(&sel, &entry.specifier) {
                proof {
                    if spec_has_specifier(pairs_view(sel@), entry.specifier@) {
                        let j = choose|j: int|
                            0 <= j < pairs_view(sel@).len() && (#[trigger] pairs_view(sel@)[j]).0
                                == entry.specifier@;
                        assert(sel@[j].0@ == entry.specifier@);
                        assert(false);
                    }
                }
                let ghost sel_before = sel@;
                sel.push((entry.specifier.duplicate(), entry.library.duplicate()));
                proof {
                    assert(pairs_view(sel@) =~= pairs_view(sel_before).push(
                        (resolved@[idx as int]@.specifier, resolved@[idx as int]@.library),
                    ));
                }
            } else {
                proof {
                    let j = choose|j: int|
                        0 <= j < sel@.len() && (#[trigger] sel@[j].0@) == entry.specifier@;
                    assert((pairs_view(sel@)[j]).0 == entry.specifier@);
                    assert(spec_has_specifier(pairs_view(sel@), entry.specifier@));
                }
            }
        }
        idx += 1;
    }
    sel
}

/// Whether an entry appended at or after `from` already targets `file`.
fn appended_has_file(downloads: &Vec<Download>, from: usize, file: &String) -> (r: bool)
    requires
        from <= downloads@.len(),
    ensures
        r == exists|k: int|
            from <= k < downloads@.len() && (#[trigger] downloads@[k]).file@ == file@,
{
    let n = downloads.len();
    let mut k: usize = from;
    while k < n
        invariant
            from <= k <= n,
            n == downloads@.len(),
            forall|j: int| from <= j < k ==> (#[trigger] downloads@[j]).file@ != file@,
        decreases n - k,
    {
        if str_eq(downloads[k].file.as_str(), file.as_str()) {
            proof {
                assert(downloads@[k as int].file@ == file@);
            }
            return true;
        }
        k += 1;
    }
    false
}

/// Whether the list already holds an equal coordinate.
fn contains_specifier(
    libraries: &Vec<(LibrarySpecifier, Library)>,
    specifier: &LibrarySpecifier,
) -> (r: bool)
    ensures
        r == exists|i: int|
            0 <= i < libraries@.len() && #[trigger] libraries@[i].0@ == specifier@,
{
    let n = libraries.len();
    let mut i: usize = 0;
    while i < n
        invariant
            n == libraries@.len(),
            i <= n,
            forall|k: int| 0 <= k < i ==> #[trigger] libraries@[k].0@ != specifier@,
        decreases n - i,
    {
        if libraries[i].0.same_as(specifier) {
            proof {
                assert(libraries@[i as int].0@ == specifier@);
            }
            return true;
        }
        i += 1;
    }
    false
}

/// Spec view of an optional expected digest handed by reference.
pub open spec fn opt_hash_view(sha1: Option<&Sha1Hash>) -> Option<Seq<u8>> {
    match sha1 {
        Some(h) => Some(h@),
        None => None,
    }
}

impl Installer {
    /// Whether the file at `path` must be (re)downloaded against the given
    /// expectations. The verdict is the integrity decision
    /// [`spec_needs_download`] over a model of what the handler's probe
    /// answered: the file's content on the digest path, a length-faithful
    /// stand-in on the size-only path. The handler decides what is on
    /// disk, so only the existence of such a model is stated; in
    /// particular a `false` verdict under an expected digest asserts a
    /// probed content whose digest matches.
    pub fn check_file<H: Handler>(
        &self,
        handler: &mut H,
        path: &str,
        size: Option<u32>,
        sha1: Option<&Sha1Hash>,
    ) -> (r: Result<bool, Error>)
        ensures
            (r matches Ok(b) ==> exists|file: Option<Seq<u8>>|
                b == crate::check::spec_needs_download(file, size, opt_hash_view(sha1))),
            (r matches Err(e) ==> e@ is Io),
    {
        match sha1 {
            Some(expected) => {
                let content = handler.read_file(self, path)?;
                let b = needs_download(content.as_ref(), size, Some(expected));
                proof {
                    let witness = match content {
                        Some(data) => Some(data@),
                        None => None::<Seq<u8>>,
                    };
                    assert(b == crate::check::spec_needs_download(
                        witness,
                        size,
                        opt_hash_view(sha1),
                    ));
                }
                Ok(b)
            },
            None => {
                match handler.file_len(self, path)? {
                    Some(len) => {
                        let b = match size {
                            Some(s) => len != s as u64,
                            None => false,
                        };
                        proof {
                            let witness = Some(Seq::new(len as nat, |i: int| 0u8));
                            assert(b == crate::check::spec_needs_download(
                                witness,
                                size,
                                opt_hash_view(sha1),
                            ));
                        }
                        Ok(b)
                    },
                    None => {
                        proof {
                            assert(true == crate::check::spec_needs_download(
                                None::<Seq<u8>>,
                                size,
                                opt_hash_view(sha1),
                            ));
                        }
                        Ok(true)
                    },
                }
            },
        }
    }

    /// Ensure a file exists with the expected size and digest, asking the
    /// handler to download it when it does not, and hand its bytes back.
    /// The second component records exactly what was handed to the
    /// handler's transfer capability: at most one entry, and that entry is
    /// the given url bound to the given path with the given expectations,
    /// never executable.
    pub fn check_and_read_file<H: Handler>(
        &self,
        handler: &mut H,
        path: &str,
        size: Option<u32>,
        sha1: Option<&Sha1Hash>,
        url: &str,
    ) -> (r: (Result<Vec<u8>, Error>, Ghost<Seq<DownloadV>>))
        ensures
            r.1@.len() <= 1,
            forall|k: int|
                0 <= k < r.1@.len() ==> (#[trigger] r.1@[k]) == (DownloadV {
                    url: url@,
                    file: path@,
                    size,
                    sha1: opt_hash_view(sha1),
                    executable: false,
                }),
    {
        let checked = match self.check_file(handler, path, size, sha1) {
            Ok(b) => b,
            Err(e) => {
                return (Err(e), Ghost(Seq::empty()));
            },
        };
        let ghost mut handed: Seq<DownloadV> = Seq::empty();
        if checked {
            let entry = Download {
                url: url.to_owned(),
                file: path.to_owned(),
                size,
                sha1: match sha1 {
                    Some(h) => Some(*h),
                    None => None,
                },
                executable: false,
            };
            proof {
                handed = seq![entry@];
            }
            let mut entries: Vec<Download> = Vec::new();
            entries.push(entry);
            match handler.download(&entries) {
                Ok(_) => {},
                Err(e) => {
                    return (Err(e), Ghost(handed));
                },
            }
        }
        match handler.read_file(self, path) {
            Ok(Some(bytes)) => (Ok(bytes), Ghost(handed)),
            Ok(None) => (
                Err(
                    Error::Io {
                        path: path.to_owned(),
                        message: "downloaded file is absent".to_owned(),
                    },
                ),
                Ghost(handed),
            ),
            Err(e) => (Err(e), Ghost(handed)),
        }
    }

    /// Ensure a file exists per a parsed download block and read it; the
    /// second component records what was handed to the transfer
    /// capability, as in [`Installer::check_and_read_file`].
    pub fn check_and_read_download<H: Handler>(
        &self,
        handler: &mut H,
        path: &str,
        download: &JsonDownload,
    ) -> (r: (Result<Vec<u8>, Error>, Ghost<Seq<DownloadV>>))
        ensures
            r.1@.len() <= 1,
            forall|k: int|
                0 <= k < r.1@.len() ==> (#[trigger] r.1@[k]) == (DownloadV {
                    url: download.url@,
                    file: path@,
                    size: download.size,
                    sha1: crate::download::hash_view(download.sha1),
                    executable: false,
                }),
    {
        let sha_ref = download.sha1.as_ref();
        proof {
            assert(opt_hash_view(sha_ref) == crate::download::hash_view(download.sha1));
        }
        self.check_and_read_file(
            handler,
            path,
            download.size,
            sha_ref,
            download.url.as_str(),
        )
    }

    /// Load one version's descriptor: from its local file when present and
    /// accepted by the handler, else through the handler's fetch. A
    /// descriptor file that does not parse fails with the parse error that
    /// [`version_from_parse`] fixes, naming that file.
    pub fn load_version<H: Handler>(&self, version: &str, handler: &mut H) -> (r: Result<
        Version,
        Error,
    >)
        ensures
            (r matches Ok(v) ==> v.name@ == version@),
    {
        let metadata_file = self.version_file(version, "json");
        match handler.read_file(self, metadata_file.as_str())? {
            Some(bytes) => {
                let mut v = match version_from_parse(
                    version,
                    metadata_file,
                    parse_json(bytes.as_slice()),
                ) {
                    Ok(v) => v,
                    Err(e) => {
                        return Err(e);
                    },
                };
                if handler.filter_version(self, &mut v)? {
                    return Ok(v);
                }
            },
            None => {},
        }
        handler.fetch_version(self, version)
    }

    /// Resolve the version hierarchy, most specific first, following
    /// inheritance links. The chain is bounded; a deeper chain — almost
    /// surely one that inherits from itself — is an error.
    pub fn resolve_hierarchy<H: Handler>(&self, version: &str, handler: &mut H) -> (r: Result<
        Vec<Version>,
        Error,
    >)
        ensures
            (r matches Ok(h) ==> h@.len() >= 1 && (exists|chain: Seq<Version>|
                #[trigger] spec_chain_linked(chain, version@))),
    {
        let mut hierarchy: Vec<Version> = Vec::new();
        let mut current: String = version.to_owned();
        let mut depth: usize = 0;
        loop
            invariant_except_break
                hierarchy@.len() == depth as int,
                depth <= 255,
                hierarchy@.len() == 0 ==> current@ == version@,
                hierarchy@.len() >= 1 ==> hierarchy@[0].name@ == version@,
                forall|i: int|
                    0 <= i < hierarchy@.len() - 1 ==> ((#[trigger] spec_get(
                        hierarchy@[i].metadata,
                        "inheritsFrom"@,
                    )) matches Some(Json::Str(s)) && s@ == hierarchy@[i + 1].name@),
                hierarchy@.len() >= 1 ==> (spec_get(
                    hierarchy@[hierarchy@.len() - 1].metadata,
                    "inheritsFrom"@,
                ) matches Some(Json::Str(s)) && s@ == current@),
            ensures
                spec_chain_linked(hierarchy@, version@),
            decreases 256 - depth,
        {
            let v = self.load_version(current.as_str(), handler)?;
            let inherits = extract_inherits(&v)?;
            hierarchy.push(v);
            match inherits {
                Some(next_name) => {
                    if depth >= 255 {
                        return Err(Error::HierarchyLoop { version: next_name });
                    }
                    depth += 1;
                    current = next_name;
                },
                None => {
                    break ;
                },
            }
        }
        let ghost chain = hierarchy@;
        handler.filter_hierarchy(self, &mut hierarchy)?;
        proof {
            assert(spec_chain_linked(chain, version@));
        }
        Ok(hierarchy)
    }

    /// Plan a download for every asset whose local file is missing or has
    /// the wrong size. Destinations are content-addressed, so the first
    /// object with a given digest settles its destination's entry and no
    /// two planned entries ever target one destination.
    pub fn plan_asset_downloads<H: Handler>(
        &self,
        assets: &Assets,
        downloads: &mut Vec<Download>,
        handler: &mut H,
    ) -> (r: Result<(), Error>)
        ensures
            final(downloads)@.len() >= old(downloads)@.len(),
            final(downloads)@.take(old(downloads)@.len() as int) == old(downloads)@,
            crate::assets::asset_downloads_appended(
                *self,
                assets.objects@,
                old(downloads)@,
                final(downloads)@,
            ),
            forall|k1: int, k2: int|
                old(downloads)@.len() <= k1 < k2 < final(downloads)@.len()
                    ==> (#[trigger] final(downloads)@[k1]).file@
                    != (#[trigger] final(downloads)@[k2]).file@,
    {
        let n = assets.objects.len();
        let start = downloads.len();
        let mut i: usize = 0;
        proof {
            assert(downloads@.take(old(downloads)@.len() as int) =~= old(downloads)@);
        }
        while i < n
            invariant
                n == assets.objects@.len(),
                i <= n,
                start == old(downloads)@.len(),
                forall|k1: int, k2: int|
                    old(downloads)@.len() <= k1 < k2 < downloads@.len()
                        ==> (#[trigger] downloads@[k1]).file@ != (#[trigger] downloads@[k2]).file@,
                downloads@.len() >= old(downloads)@.len(),
                downloads@.take(old(downloads)@.len() as int) == old(downloads)@,
                crate::assets::asset_downloads_appended(
                    *self,
                    assets.objects@,
                    old(downloads)@,
                    downloads@,
                ),
            decreases n - i,
        {
            let asset = &assets.objects[i].1;
            let file = asset_file(self, asset);
            if self.check_file(handler, file.as_str(), Some(asset.size), None)?
                && !appended_has_file(downloads, start, &file) {
                let ghost before = downloads@;
                downloads.push(
                    Download {
                        url: asset_url(asset),
                        file,
                        size: Some(asset.size),
                        sha1: Some(asset.sha1),
                        executable: false,
                    },
                );
                proof {
                    assert(downloads@.take(old(downloads)@.len() as int) =~= before.take(
                        old(downloads)@.len() as int,
                    ));
                    assert((downloads@[downloads@.len() - 1])@
                        == crate::assets::spec_asset_download(
                        *self,
                        assets.objects@[i as int].1@,
                    ));
                }
            }
            i += 1;
        }
        Ok(())
    }

    /// Resolve the assets of a hierarchy: locate the index reference, make
    /// the index document present and valid, and plan a download for every
    /// missing object. A hierarchy that names no assets yields none, and
    /// that is no error.
    pub fn resolve_assets<H: Handler>(
        &self,
        hierarchy: &Vec<Version>,
        downloads: &mut Vec<Download>,
        handler: &mut H,
    ) -> (r: Result<Option<Assets>, Error>)
        ensures
            final(downloads)@.len() >= old(downloads)@.len(),
            final(downloads)@.take(old(downloads)@.len() as int) == old(downloads)@,
            (r matches Ok(a) && a is None ==> spec_find_asset_info_from(hierarchy@, 0) == Ok::<
                Option<(Seq<char>, Option<JsonDownloadV>)>,
                ErrorV,
            >(None) && final(downloads)@ == old(downloads)@),
            (spec_find_asset_info_from(hierarchy@, 0) == Ok::<
                Option<(Seq<char>, Option<JsonDownloadV>)>,
                ErrorV,
            >(None) ==> (r matches Ok(a) && a is None && final(downloads)@ == old(downloads)@)),
            (spec_find_asset_info_from(hierarchy@, 0) matches Err(e0) ==> (r matches Err(e) && e@
                == e0 && final(downloads)@ == old(downloads)@)),
            (r matches Ok(Some(a)) ==> crate::assets::asset_downloads_appended(
                *self,
                a.objects@,
                old(downloads)@,
                final(downloads)@,
            )),
            (r matches Ok(Some(a)) ==> (spec_find_asset_info_from(hierarchy@, 0) matches Ok(
                found,
            ) && found is Some)),
            forall|k1: int, k2: int|
                old(downloads)@.len() <= k1 < k2 < final(downloads)@.len()
                    ==> (#[trigger] final(downloads)@[k1]).file@
                    != (#[trigger] final(downloads)@[k2]).file@,
    {
        proof {
            assert(downloads@.take(old(downloads)@.len() as int) =~= old(downloads)@);
        }
        let (id, dl) = match find_asset_info(hierarchy)? {
            None => {
                return Ok(None);
            },
            Some(p) => p,
        };
        let mut index_file = self.main_dir.clone();
        index_file.append("/assets/indexes/");
        index_file.append(id.as_str());
        index_file.append(".json");
        let bytes = match &dl {
            Some(jd) => {
                let (read, _handed) = self.check_and_read_download(
                    handler,
                    index_file.as_str(),
                    jd,
                );
                match read {
                    Ok(b) => b,
                    Err(e) => {
                        return Err(e);
                    },
                }
            },
            None => {
                match handler.read_file(self, index_file.as_str())? {
                    Some(b) => b,
                    None => {
                        return Err(
                            Error::Io {
                                path: index_file,
                                message: "asset index file is absent".to_owned(),
                            },
                        );
                    },
                }
            },
        };
        let doc = match parse_json(bytes.as_slice()) {
            Ok(doc) => doc,
            Err(message) => {
                return Err(
                    Error::JsonParse { origin: ErrorOrigin::File(index_file), message },
                );
            },
        };
        let mut assets = match parse_asset_index(&doc, id.as_str()) {
            Ok(a) => a,
            Err(e) => {
                return Err(with_origin(ErrorOrigin::File(index_file), e));
            },
        };
        handler.filter_assets(self, &mut assets)?;
        self.plan_asset_downloads(&assets, downloads, handler)?;
        Ok(Some(assets))
    }

    /// Resolve the entry-point artifact: schedule its download when the
    /// hierarchy declares one and the local file is stale; without a
    /// declared download the file must already exist.
    pub fn resolve_jar<H: Handler>(
        &self,
        hierarchy: &Vec<Version>,
        downloads: &mut Vec<Download>,
        handler: &mut H,
    ) -> (r: Result<String, Error>)
        requires
            hierarchy@.len() >= 1,
        ensures
            (r matches Ok(f) ==> f@ == self.spec_version_file(hierarchy@[0].name@, "jar"@)),
            final(downloads)@.len() >= old(downloads)@.len(),
            final(downloads)@.len() <= old(downloads)@.len() + 1,
            final(downloads)@.take(old(downloads)@.len() as int) == old(downloads)@,
            (spec_find_client_from(hierarchy@, 0) matches Err(e0) ==> r matches Err(e) && e@
                == e0),
            (r matches Err(e) && e@ is JarNotFound ==> spec_find_client_from(hierarchy@, 0)
                == Ok::<Option<JsonDownloadV>, ErrorV>(None)),
            (spec_find_client_from(hierarchy@, 0) == Ok::<Option<JsonDownloadV>, ErrorV>(None)
                ==> final(downloads)@ == old(downloads)@),
            (spec_find_client_from(hierarchy@, 0) matches Ok(Some(jd)) ==> forall|k: int|
                old(downloads)@.len() <= k < final(downloads)@.len()
                    ==> (#[trigger] final(downloads)@[k])@ == (DownloadV {
                    url: jd.url,
                    file: self.spec_version_file(hierarchy@[0].name@, "jar"@),
                    size: jd.size,
                    sha1: jd.sha1,
                    executable: false,
                })),
    {
        proof {
            assert(downloads@.take(old(downloads)@.len() as int) =~= old(downloads)@);
        }
        let jar_file = self.version_file(hierarchy[0].name.as_str(), "jar");
        match find_client_download(hierarchy)? {
            Some(jd) => {
                if self.check_file(handler, jar_file.as_str(), jd.size, jd.sha1.as_ref())? {
                    let ghost before = downloads@;
                    downloads.push(jd.to_owned(jar_file.clone(), false));
                    proof {
                        assert(downloads@.take(old(downloads)@.len() as int) =~= before.take(
                            old(downloads)@.len() as int,
                        ));
                    }
                }
            },
            None => {
                match handler.file_len(self, jar_file.as_str())? {
                    Some(_) => {},
                    None => {
                        return Err(Error::JarNotFound);
                    },
                }
            },
        }
        handler.notify_jar(self, jar_file.as_str());
        Ok(jar_file)
    }

    /// Resolve all declared libraries of a hierarchy, most specific level
    /// first and in declaration order within a level; the first occurrence
    /// of a coordinate wins. Every library, retained or not, is reported
    /// to the handler; the retained selection passes through the handler's
    /// library filter; and a download is planned for every remaining
    /// library whose local file fails its integrity check, at most one per
    /// destination file.
    pub fn resolve_libraries<H: Handler>(
        &self,
        hierarchy: &Vec<Version>,
        features: &Vec<(String, bool)>,
        downloads: &mut Vec<Download>,
        handler: &mut H,
    ) -> (r: Result<Vec<(LibrarySpecifier, Library)>, Error>)
        ensures
            final(downloads)@.len() >= old(downloads)@.len(),
            final(downloads)@.take(old(downloads)@.len() as int) == old(downloads)@,
            (r matches Ok(libs) ==> crate::library::library_downloads_appended(
                libs@,
                old(downloads)@,
                final(downloads)@,
            )),
            (spec_collect_hierarchy_from(hierarchy@, 0, *self, features@) matches Err(e0) ==> (r
                matches Err(e) && e@ == e0 && final(downloads)@ == old(downloads)@)),
            forall|k1: int, k2: int|
                old(downloads)@.len() <= k1 < k2 < final(downloads)@.len()
                    ==> (#[trigger] final(downloads)@[k1]).file@
                    != (#[trigger] final(downloads)@[k2]).file@,
    {
        proof {
            assert(downloads@.take(old(downloads)@.len() as int) =~= old(downloads)@);
        }
        let start = downloads.len();
        let all = match collect_hierarchy_libraries(hierarchy, self, features) {
            Ok(a) => a,
            Err(e) => {
                return Err(e);
            },
        };
        let all_count = all.len();
        let mut ri: usize = 0;
        while ri < all_count
            invariant
                all_count == all@.len(),
                ri <= all_count,
            decreases all_count - ri,
        {
            let entry = &all[ri];
            handler.notify_library(self, &entry.specifier, entry.state);
            ri += 1;
        }
        let mut libraries = retain_first_occurrences(&all);
        handler.filter_libraries(self, &mut libraries)?;
        let lib_count = libraries.len();
        let mut i: usize = 0;
        while i < lib_count
            invariant
                lib_count == libraries@.len(),
                i <= lib_count,
                spec_collect_hierarchy_from(hierarchy@, 0, *self, features@) is Ok,
                start == old(downloads)@.len(),
                downloads@.len() >= old(downloads)@.len(),
                downloads@.take(old(downloads)@.len() as int) == old(downloads)@,
                crate::library::library_downloads_appended(
                    libraries@,
                    old(downloads)@,
                    downloads@,
                ),
                forall|k1: int, k2: int|
                    old(downloads)@.len() <= k1 < k2 < downloads@.len()
                        ==> (#[trigger] downloads@[k1]).file@ != (#[trigger] downloads@[k2]).file@,
            decreases lib_count - i,
        {
            let lib = &libraries[i].1;
            match &lib.url {
                Some(url) => {
                    if self.check_file(handler, lib.file.as_str(), lib.size, lib.sha1.as_ref())? {
                        if !appended_has_file(downloads, start, &lib.file) {
                            let ghost before = downloads@;
                            downloads.push(
                                Download {
                                    url: url.clone(),
                                    file: lib.file.clone(),
                                    size: lib.size,
                                    sha1: lib.sha1,
                                    executable: false,
                                },
                            );
                            proof {
                                assert(downloads@.take(old(downloads)@.len() as int)
                                    =~= before.take(old(downloads)@.len() as int));
                            }
                        }
                    }
                },
                None => {},
            }
            i += 1;
        }
        Ok(libraries)
    }

    /// Install a version: resolve its hierarchy, assets, libraries and
    /// entry artifact, hand all still-needed downloads to the handler at
    /// once, and assemble the environment. Running it again over the same
    /// completed state plans nothing anew.
    pub fn install<H: Handler>(&self, version: &str, handler: &mut H) -> (r: Result<
        Environment,
        Error,
    >)
        ensures
            (r matches Ok(env) ==> (exists|name: Seq<char>|
                env.jar_file@ == self.spec_version_file(name, "jar"@)) && (exists|
                libs: Seq<(LibrarySpecifier, Library)>,
            |
                {
                    &&& strings_view(env.class_files@) == spec_files_with_from(libs, 0, false)
                    &&& strings_view(env.natives_files@) == spec_files_with_from(libs, 0, true)
                })),
    {
        let mut downloads: Vec<Download> = Vec::new();
        let hierarchy = self.resolve_hierarchy(version, handler)?;
        let mut features: Vec<(String, bool)> = Vec::new();
        handler.filter_features(self, &mut features)?;
        let assets = self.resolve_assets(&hierarchy, &mut downloads, handler)?;
        let libraries = self.resolve_libraries(&hierarchy, &features, &mut downloads, handler)?;
        let jar_file = self.resolve_jar(&hierarchy, &mut downloads, handler)?;
        handler.download(&downloads)?;
        let (class_files, natives_files) = split_class_files(&libraries);
        proof {
            assert(jar_file@ == self.spec_version_file(hierarchy@[0].name@, "jar"@));
            assert(strings_view(class_files@) == spec_files_with_from(libraries@, 0, false));
            assert(strings_view(natives_files@) == spec_files_with_from(libraries@, 0, true));
        }
        Ok(Environment { jar_file, class_files, natives_files, assets })
    }
}

} // verus!
