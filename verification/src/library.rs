//! Library resolution: each declared library is parsed into a coordinate,
//! its platform-specific native classifier resolved, its rules evaluated,
//! and its download descriptor settled — explicit block or canonical
//! repository layout.

use vstd::prelude::*;
use crate::download::{
    hash_view, spec_parse_download, resolve_download, JsonDownloadV, Sha1Hash,
};
use crate::error::{
    field, prefix1, schema1, schema2, schema_at, spec_prefix_schema, Error, ErrorV, PointerPart,
    PointerPartV,
};
use crate::installer::Installer;
use crate::json::{obj_get, spec_get, spec_get_entries, Json};
use crate::rules::{resolve_rules, spec_rules};
use crate::specifier::{
    parse_specifier, spec_parse_specifier, spec_path_of, LibrarySpecifier, SpecifierV,
};
use crate::strutil::{replace_first, spec_replace_first};

verus! {

/// Resolution state of one declared library.
#[derive(Debug, Clone, Copy, PartialEq, Eq, Structural)]
pub enum LibraryState {
    /// The library is retained for installation.
    Retained,
    /// The library's rules rejected it on this platform.
    RejectedRules,
    /// The library is native and its `natives` map has no entry for the
    /// current platform's OS name.
    RejectedNatives,
}

/// A resolved library: its destination file and, when one is known, the
/// remote descriptor to verify and fetch it by.
#[derive(Debug, Clone)]
pub struct Library {
    /// Destination file of the artifact.
    pub file: String,
    /// Remote url, explicit or derived from the canonical repository.
    pub url: Option<String>,
    /// Expected size, when an explicit block declares one.
    pub size: Option<u32>,
    /// Expected content digest, when an explicit block declares one.
    pub sha1: Option<Sha1Hash>,
    /// Whether this is a native library to extract at launch time.
    pub native: bool,
}

/// Spec-level mirror of [`Library`].
pub struct LibraryV {
    pub file: Seq<char>,
    pub url: Option<Seq<char>>,
    pub size: Option<u32>,
    pub sha1: Option<Seq<u8>>,
    pub native: bool,
}

impl View for Library {
    type V = LibraryV;

    open spec fn view(&self) -> LibraryV {
        LibraryV {
            file: self.file@,
            url: match self.url {
                Some(u) => Some(u@),
                None => None,
            },
            size: self.size,
            sha1: hash_view(self.sha1),
            native: self.native,
        }
    }
}

impl Library {
    /// A copy equal to this library, with the equality known.
    pub fn duplicate(&self) -> (r: Library)
        ensures
            r@ == self@,
    {
        Library {
            file: self.file.clone(),
            url: match &self.url {
                Some(u) => Some(u.clone()),
                None => None,
            },
            size: self.size,
            sha1: self.sha1,
            native: self.native,
        }
    }
}

/// One declared library after resolution, whatever its state.
#[derive(Debug, Clone)]
pub struct ResolvedLibrary {
    /// The final coordinate, native classifier already substituted.
    pub specifier: LibrarySpecifier,
    /// Whether the library is retained.
    pub state: LibraryState,
    /// The resolved artifact; without a url when the library is rejected.
    pub library: Library,
}

/// Spec-level mirror of [`ResolvedLibrary`].
pub struct ResolvedLibraryV {
    pub specifier: SpecifierV,
    pub state: LibraryState,
    pub library: LibraryV,
}

impl View for ResolvedLibrary {
    type V = ResolvedLibraryV;

    open spec fn view(&self) -> ResolvedLibraryV {
        ResolvedLibraryV {
            specifier: self.specifier@,
            state: self.state,
            library: self.library@,
        }
    }
}

/// Spec view of a resolved library list.
pub open spec fn resolved_view(libs: Seq<ResolvedLibrary>) -> Seq<ResolvedLibraryV> {
    libs.map_values(|r: ResolvedLibrary| r@)
}

pub open spec fn spec_library_name_error() -> ErrorV {
    schema_at(seq![PointerPartV::Field("name"@)], "string (library specifier)"@)
}

/// Resolution of one library entry of a `libraries` array.
pub open spec fn spec_resolve_library(
    lib: Json,
    inst: Installer,
    features: Seq<(String, bool)>,
) -> Result<ResolvedLibraryV, ErrorV> {
    match lib {
        Json::Obj(fields) => spec_resolve_library_fields(fields@, inst, features),
        _ => Err(schema_at(Seq::empty(), "object"@)),
    }
}

/// Resolution of one library entry: coordinate, natives, rules, download.
pub open spec fn spec_resolve_library_fields(
    fields: Seq<(String, Json)>,
    inst: Installer,
    features: Seq<(String, bool)>,
) -> Result<ResolvedLibraryV, ErrorV> {
    match spec_get_entries(fields, "name"@) {
        Some(Json::Str(name)) => match spec_parse_specifier(name@) {
            Some(spv) => spec_library_natives(fields, inst, features, spv),
            None => Err(spec_library_name_error()),
        },
        _ => Err(spec_library_name_error()),
    }
}

/// Native handling: a present `natives` map marks the library native; the
/// entry for the platform's OS name overrides the classifier, with any
/// `${arch}` placeholder replaced by the platform's bit-width token; a
/// missing entry rejects the library.
pub open spec fn spec_library_natives(
    fields: Seq<(String, Json)>,
    inst: Installer,
    features: Seq<(String, bool)>,
    spv: SpecifierV,
) -> Result<ResolvedLibraryV, ErrorV> {
    match spec_get_entries(fields, "natives"@) {
        None => spec_library_rules(fields, inst, features, spv, false, LibraryState::Retained),
        Some(Json::Obj(nf)) => match spec_get_entries(nf@, inst.meta_os_name@) {
            Some(Json::Str(cl)) => spec_library_rules(
                fields,
                inst,
                features,
                SpecifierV {
                    classifier: Some(
                        spec_replace_first(cl@, "${arch}"@, inst.meta_os_bits@),
                    ),
                    ..spv
                },
                true,
                LibraryState::Retained,
            ),
            Some(_) => Err(
                schema_at(
                    seq![PointerPartV::Field("natives"@), PointerPartV::Field(
                        inst.meta_os_name@,
                    )],
                    "string"@,
                ),
            ),
            None => spec_library_rules(
                fields,
                inst,
                features,
                spv,
                true,
                LibraryState::RejectedNatives,
            ),
        },
        Some(_) => Err(schema_at(seq![PointerPartV::Field("natives"@)], "object"@)),
    }
}

/// Rule handling: evaluated after native substitution, so a rejection by
/// rules overrides the state but never cancels the resolved classifier.
pub open spec fn spec_library_rules(
    fields: Seq<(String, Json)>,
    inst: Installer,
    features: Seq<(String, bool)>,
    spv: SpecifierV,
    native: bool,
    state: LibraryState,
) -> Result<ResolvedLibraryV, ErrorV> {
    match spec_get_entries(fields, "rules"@) {
        None => spec_library_downloads(fields, inst, spv, native, state),
        Some(Json::Arr(items)) => match spec_rules(items@, inst, features) {
            Ok(true) => spec_library_downloads(fields, inst, spv, native, state),
            Ok(false) => spec_library_downloads(
                fields,
                inst,
                spv,
                native,
                LibraryState::RejectedRules,
            ),
            Err(e) => Err(spec_prefix_schema(seq![PointerPartV::Field("rules"@)], e)),
        },
        Some(_) => Err(schema_at(seq![PointerPartV::Field("rules"@)], "list"@)),
    }
}

/// The canonical destination file of a coordinate.
pub open spec fn spec_library_file(inst: Installer, spv: SpecifierV) -> Seq<char> {
    inst.main_dir@ + "/libraries/"@ + spec_path_of(spv)
}

/// The canonical repository url of a coordinate.
pub open spec fn spec_library_url(spv: SpecifierV) -> Seq<char> {
    "https://libraries.minecraft.net/"@ + spec_path_of(spv)
}

pub open spec fn spec_derived_library(inst: Installer, spv: SpecifierV, native: bool) -> LibraryV {
    LibraryV {
        file: spec_library_file(inst, spv),
        url: Some(spec_library_url(spv)),
        size: None,
        sha1: None,
        native,
    }
}

pub open spec fn spec_rejected_library(inst: Installer, spv: SpecifierV, native: bool) -> LibraryV {
    LibraryV {
        file: spec_library_file(inst, spv),
        url: None,
        size: None,
        sha1: None,
        native,
    }
}

pub open spec fn spec_explicit_library(
    inst: Installer,
    spv: SpecifierV,
    native: bool,
    jd: JsonDownloadV,
) -> LibraryV {
    LibraryV {
        file: spec_library_file(inst, spv),
        url: Some(jd.url),
        size: jd.size,
        sha1: jd.sha1,
        native,
    }
}

/// Download handling: an explicit per-classifier block for a native
/// library, an explicit `artifact` block otherwise, or the canonical
/// repository layout when no block is declared. A native library whose
/// explicit `classifiers` block lacks the resolved classifier is an error.
pub open spec fn spec_library_downloads(
    fields: Seq<(String, Json)>,
    inst: Installer,
    spv: SpecifierV,
    native: bool,
    state: LibraryState,
) -> Result<ResolvedLibraryV, ErrorV> {
    let plain = Ok::<ResolvedLibraryV, ErrorV>(
        ResolvedLibraryV {
            specifier: spv,
            state,
            library: if state is Retained {
                spec_derived_library(inst, spv, native)
            } else {
                spec_rejected_library(inst, spv, native)
            },
        },
    );
    match spec_get_entries(fields, "downloads"@) {
        None => plain,
        Some(Json::Obj(dl)) => if native {
            match spec_get_entries(dl@, "classifiers"@) {
                None => plain,
                Some(Json::Obj(cls)) => if state is Retained {
                    match spv.classifier {
                        Some(cl) => match spec_get_entries(cls@, cl) {
                            Some(Json::Obj(cf)) => match spec_parse_download(cf@) {
                                Ok(jd) => Ok(
                                    ResolvedLibraryV {
                                        specifier: spv,
                                        state,
                                        library: spec_explicit_library(inst, spv, native, jd),
                                    },
                                ),
                                Err(e) => Err(
                                    spec_prefix_schema(
                                        seq![
                                            PointerPartV::Field("downloads"@),
                                            PointerPartV::Field("classifiers"@),
                                            PointerPartV::Field(cl),
                                        ],
                                        e,
                                    ),
                                ),
                            },
                            _ => Err(
                                schema_at(
                                    seq![
                                        PointerPartV::Field("downloads"@),
                                        PointerPartV::Field("classifiers"@),
                                        PointerPartV::Field(cl),
                                    ],
                                    "object (download of the resolved classifier)"@,
                                ),
                            ),
                        },
                        None => Err(
                            schema_at(
                                seq![
                                    PointerPartV::Field("downloads"@),
                                    PointerPartV::Field("classifiers"@),
                                ],
                                "object (download of the resolved classifier)"@,
                            ),
                        ),
                    }
                } else {
                    plain
                },
                Some(_) => Err(
                    schema_at(
                        seq![
                            PointerPartV::Field("downloads"@),
                            PointerPartV::Field("classifiers"@),
                        ],
                        "object"@,
                    ),
                ),
            }
        } else {
            match spec_get_entries(dl@, "artifact"@) {
                None => plain,
                Some(Json::Obj(af)) => if state is Retained {
                    match spec_parse_download(af@) {
                        Ok(jd) => Ok(
                            ResolvedLibraryV {
                                specifier: spv,
                                state,
                                library: spec_explicit_library(inst, spv, native, jd),
                            },
                        ),
                        Err(e) => Err(
                            spec_prefix_schema(
                                seq![
                                    PointerPartV::Field("downloads"@),
                                    PointerPartV::Field("artifact"@),
                                ],
                                e,
                            ),
                        ),
                    }
                } else {
                    plain
                },
                Some(_) => Err(
                    schema_at(
                        seq![
                            PointerPartV::Field("downloads"@),
                            PointerPartV::Field("artifact"@),
                        ],
                        "object"@,
                    ),
                ),
            }
        },
        Some(_) => Err(schema_at(seq![PointerPartV::Field("downloads"@)], "object"@)),
    }
}

/// Resolution of the `libraries` entries of one descriptor, from index `i`
/// on, in declaration order.
pub open spec fn spec_collect_libs_from(
    libs: Seq<Json>,
    i: int,
    inst: Installer,
    features: Seq<(String, bool)>,
) -> Result<Seq<ResolvedLibraryV>, ErrorV>
    decreases libs.len() - i when 0 <= i
{
    if i >= libs.len() {
        Ok(Seq::empty())
    } else {
        match spec_resolve_library(libs[i], inst, features) {
            Ok(r) => match spec_collect_libs_from(libs, i + 1, inst, features) {
                Ok(rest) => Ok(seq![r] + rest),
                Err(e) => Err(e),
            },
            Err(e) => Err(
                spec_prefix_schema(
                    seq![PointerPartV::Field("libraries"@), PointerPartV::Entry(i)],
                    e,
                ),
            ),
        }
    }
}

/// Resolution of one whole descriptor's declared libraries: a descriptor
/// without a `libraries` field contributes nothing, and that is no error.
pub open spec fn spec_collect_level(
    doc: Json,
    inst: Installer,
    features: Seq<(String, bool)>,
) -> Result<Seq<ResolvedLibraryV>, ErrorV> {
    match spec_get(doc, "libraries"@) {
        None => Ok(Seq::empty()),
        Some(Json::Arr(libs)) => spec_collect_libs_from(libs@, 0, inst, features),
        Some(_) => Err(schema_at(seq![PointerPartV::Field("libraries"@)], "list"@)),
    }
}

/// Resolve one declared library entry.
pub fn resolve_library(lib: &Json, inst: &Installer, features: &Vec<(String, bool)>) -> (r:
    Result<ResolvedLibrary, Error>)
    ensures
        match r {
            Ok(res) => spec_resolve_library(*lib, *inst, features@) == Ok::<
                ResolvedLibraryV,
                ErrorV,
            >(res@),
            Err(e) => spec_resolve_library(*lib, *inst, features@) == Err::<
                ResolvedLibraryV,
                ErrorV,
            >(e@),
        },
{
    let fields = match lib {
        Json::Obj(fields) => fields,
        _ => {
            let pointer: Vec<PointerPart> = Vec::new();
            proof {
                assert(crate::error::pointer_view(pointer@) =~= Seq::<PointerPartV>::empty());
            }
            return Err(crate::error::schema_err(pointer, "object"));
        },
    };
    let name = match obj_get(fields, "name") {
        Some(Json::Str(name)) => name,
        _ => {
            return Err(schema1(field("name"), "string (library specifier)"));
        },
    };
    let mut specifier = match parse_specifier(name.as_str()) {
        Some(sp) => sp,
        None => {
            return Err(schema1(field("name"), "string (library specifier)"));
        },
    };
    let mut native = false;
    let mut state = LibraryState::Retained;
    match obj_get(fields, "natives") {
        None => {},
        Some(Json::Obj(nf)) => {
            native = true;
            match obj_get(nf, inst.meta_os_name.as_str()) {
                Some(Json::Str(cl)) => {
                    let resolved = replace_first(
                        cl.as_str(),
                        "${arch}",
                        inst.meta_os_bits.as_str(),
                    );
                    specifier.set_classifier(Some(resolved));
                },
                Some(_) => {
                    return Err(
                        schema2(
                            field("natives"),
                            PointerPart::Field(inst.meta_os_name.clone()),
                            "string",
                        ),
                    );
                },
                None => {
                    state = LibraryState::RejectedNatives;
                },
            }
        },
        Some(_) => {
            return Err(schema1(field("natives"), "object"));
        },
    }
    match obj_get(fields, "rules") {
        None => {},
        Some(Json::Arr(items)) => {
            match resolve_rules(items, inst, features) {
                Ok(true) => {},
                Ok(false) => {
                    state = LibraryState::RejectedRules;
                },
                Err(e) => {
                    return Err(prefix1(field("rules"), e));
                },
            }
        },
        Some(_) => {
            return Err(schema1(field("rules"), "list"));
        },
    }
    let path = specifier.file_path();
    let mut file = inst.main_dir.clone();
    file.append("/libraries/");
    file.append(path.as_str());
    let retained = matches!(state, LibraryState::Retained);
    let library: Library = match obj_get(fields, "downloads") {
        None => plain_library(&file, &path, native, retained),
        Some(Json::Obj(dl)) => {
            if native {
                match obj_get(dl, "classifiers") {
                    None => plain_library(&file, &path, native, retained),
                    Some(Json::Obj(cls)) => {
                        if retained {
                            let cl = match &specifier.classifier {
                                Some(cl) => cl,
                                None => {
                                    return Err(
                                        schema2(
                                            field("downloads"),
                                            field("classifiers"),
                                            "object (download of the resolved classifier)",
                                        ),
                                    );
                                },
                            };
                            match obj_get(cls, cl.as_str()) {
                                Some(Json::Obj(cf)) => {
                                    match resolve_download(cf) {
                                        Ok(jd) => Library {
                                            file: file.clone(),
                                            url: Some(jd.url),
                                            size: jd.size,
                                            sha1: jd.sha1,
                                            native,
                                        },
                                        Err(e) => {
                                            return Err(
                                                crate::error::prefix3(
                                                    field("downloads"),
                                                    field("classifiers"),
                                                    PointerPart::Field(cl.clone()),
                                                    e,
                                                ),
                                            );
                                        },
                                    }
                                },
                                _ => {
                                    return Err(
                                        crate::error::schema3(
                                            field("downloads"),
                                            field("classifiers"),
                                            PointerPart::Field(cl.clone()),
                                            "object (download of the resolved classifier)",
                                        ),
                                    );
                                },
                            }
                        } else {
                            plain_library(&file, &path, native, retained)
                        }
                    },
                    Some(_) => {
                        return Err(schema2(field("downloads"), field("classifiers"), "object"));
                    },
                }
            } else {
                match obj_get(dl, "artifact") {
                    None => plain_library(&file, &path, native, retained),
                    Some(Json::Obj(af)) => {
                        if retained {
                            match resolve_download(af) {
                                Ok(jd) => Library {
                                    file: file.clone(),
                                    url: Some(jd.url),
                                    size: jd.size,
                                    sha1: jd.sha1,
                                    native,
                                },
                                Err(e) => {
                                    return Err(
                                        crate::error::prefix2(
                                            field("downloads"),
                                            field("artifact"),
                                            e,
                                        ),
                                    );
                                },
                            }
                        } else {
                            plain_library(&file, &path, native, retained)
                        }
                    },
                    Some(_) => {
                        return Err(schema2(field("downloads"), field("artifact"), "object"));
                    },
                }
            }
        },
        Some(_) => {
            return Err(schema1(field("downloads"), "object"));
        },
    };
    Ok(ResolvedLibrary { specifier, state, library })
}

/// The library value when no explicit block applies: canonical repository
/// url when retained, no url when rejected.
fn plain_library(file: &String, path: &String, native: bool, retained: bool) -> (l: Library)
    ensures
        l@ == (LibraryV {
            file: file@,
            url: if retained {
                Some("https://libraries.minecraft.net/"@ + path@)
            } else {
                None::<Seq<char>>
            },
            size: None::<u32>,
            sha1: None::<Seq<u8>>,
            native,
        }),
{
    if retained {
        let mut url = "https://libraries.minecraft.net/".to_owned();
        url.append(path.as_str());
        Library { file: file.clone(), url: Some(url), size: None, sha1: None, native }
    } else {
        Library { file: file.clone(), url: None, size: None, sha1: None, native }
    }
}

/// Resolve every entry of a `libraries` array, in declaration order.
fn collect_libs(items: &Vec<Json>, inst: &Installer, features: &Vec<(String, bool)>) -> (r:
    Result<Vec<ResolvedLibrary>, Error>)
    ensures
        match r {
            Ok(libs) => spec_collect_libs_from(items@, 0, *inst, features@) == Ok::<_, ErrorV>(
                resolved_view(libs@),
            ),
            Err(e) => spec_collect_libs_from(items@, 0, *inst, features@) == Err::<
                Seq<ResolvedLibraryV>,
                ErrorV,
            >(e@),
        },
{
    let n = items.len();
    let mut idx: usize = 0;
    let mut acc: Vec<ResolvedLibrary> = Vec::new();
    while idx < n
        invariant
            n == items@.len(),
            idx <= n,
            spec_collect_libs_from(items@, 0, *inst, features@) == (match spec_collect_libs_from(
                items@,
                idx as int,
                *inst,
                features@,
            ) {
                Ok(rest) => Ok::<_, ErrorV>(resolved_view(acc@) + rest),
                Err(e) => Err::<Seq<ResolvedLibraryV>, ErrorV>(e),
            }),
        decreases n - idx,
    {
        match resolve_library(&items[idx], inst, features) {
            Ok(res) => {
                let ghost acc_before = acc@;
                let ghost res_v = res@;
                acc.push(res);
                proof {
                    assert(resolved_view(acc@) =~= resolved_view(acc_before).push(res_v));
                    match spec_collect_libs_from(items@, idx + 1, *inst, features@) {
                        Ok(rest) => {
                            assert(resolved_view(acc_before) + (seq![res_v] + rest)
                                =~= resolved_view(acc@) + rest);
                        },
                        Err(_) => {},
                    }
                }
            },
            Err(e) => {
                return Err(crate::error::prefix2(field("libraries"), crate::error::entry(idx), e));
            },
        }
        idx += 1;
    }
    proof {
        match spec_collect_libs_from(items@, idx as int, *inst, features@) {
            Ok(rest) => {
                assert(resolved_view(acc@) + rest =~= resolved_view(acc@));
            },
            Err(_) => {},
        }
    }
    Ok(acc)
}

/// Resolve the libraries declared by one descriptor; a descriptor without
/// a `libraries` field contributes none.
pub fn collect_level(doc: &Json, inst: &Installer, features: &Vec<(String, bool)>) -> (r: Result<
    Vec<ResolvedLibrary>,
    Error,
>)
    ensures
        match r {
            Ok(libs) => spec_collect_level(*doc, *inst, features@) == Ok::<_, ErrorV>(
                resolved_view(libs@),
            ),
            Err(e) => spec_collect_level(*doc, *inst, features@) == Err::<
                Seq<ResolvedLibraryV>,
                ErrorV,
            >(e@),
        },
{
    match doc.get("libraries") {
        None => {
            let empty: Vec<ResolvedLibrary> = Vec::new();
            proof {
                assert(resolved_view(empty@) =~= Seq::<ResolvedLibraryV>::empty());
            }
            Ok(empty)
        },
        Some(Json::Arr(items)) => collect_libs(items, inst, features),
        Some(_) => Err(schema1(field("libraries"), "list")),
    }
}

/// Whether `d` is exactly the planned transfer of library `l`: its url,
/// its destination file and its declared expectations.
pub open spec fn is_planned_from(d: crate::download::Download, l: Library) -> bool {
    match l.url {
        Some(u) => d@ == (crate::download::DownloadV {
            url: u@,
            file: l.file@,
            size: l.size,
            sha1: hash_view(l.sha1),
            executable: false,
        }),
        None => false,
    }
}

/// Every download in `new_d` beyond `old_d` is the planned transfer of
/// some library of `libs`.
pub open spec fn library_downloads_appended(
    libs: Seq<(crate::specifier::LibrarySpecifier, Library)>,
    old_d: Seq<crate::download::Download>,
    new_d: Seq<crate::download::Download>,
) -> bool {
    forall|k: int|
        old_d.len() <= k < new_d.len() ==> exists|j: int|
            0 <= j < libs.len() && is_planned_from(#[trigger] new_d[k], libs[j].1)
}

/// Law: a descriptor with no `libraries` field produces no library entries
/// at all — an empty retained set and no planned downloads, not an error.
pub proof fn lemma_no_libraries_no_entries(
    doc: Json,
    inst: Installer,
    features: Seq<(String, bool)>,
)
    requires
        spec_get(doc, "libraries"@) is None,
    ensures
        spec_collect_level(doc, inst, features) == Ok::<Seq<ResolvedLibraryV>, ErrorV>(
            Seq::empty(),
        ),
{
}

/// Law: a library with a `natives` map that lacks the current platform's
/// OS name is never retained, whether or not it has a `rules` block.
pub proof fn lemma_missing_native_classifier_rejected(
    fields: Seq<(String, Json)>,
    inst: Installer,
    features: Seq<(String, bool)>,
)
    requires
        match spec_get_entries(fields, "natives"@) {
            Some(Json::Obj(nf)) => spec_get_entries(nf@, inst.meta_os_name@) is None,
            _ => false,
        },
    ensures
        match spec_resolve_library_fields(fields, inst, features) {
            Ok(r) => r.state != LibraryState::Retained,
            Err(_) => true,
        },
{
}

} // verus!
