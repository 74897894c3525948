//! Asset manifest handling: parsing and validating an asset-index document
//! and deriving each object's content-addressed location and download url.

use vstd::prelude::*;
use crate::download::Sha1Hash;
use crate::error::{schema_at, Error, ErrorV, PointerPartV, PointerPart, field, schema1};
use crate::hex::{hex_bytes20, hex_str20, hex_str_of, is_hex40, parse_hex20};
use crate::installer::Installer;
use crate::json::{obj_get, spec_get, spec_get_entries, Json};

verus! {

/// One content-addressed asset object.
#[derive(Debug, Clone, PartialEq, Eq)]
pub struct Asset {
    /// Content digest; it alone determines where the object is stored.
    pub sha1: Sha1Hash,
    /// Size of the object in bytes.
    pub size: u32,
}

/// Spec-level mirror of [`Asset`].
pub struct AssetV {
    pub sha1: Seq<u8>,
    pub size: u32,
}

impl View for Asset {
    type V = AssetV;

    open spec fn view(&self) -> AssetV {
        AssetV { sha1: self.sha1@, size: self.size }
    }
}

/// All assets of one version: the index identifier, two legacy layout
/// flags preserved verbatim, and the objects keyed by manifest path.
#[derive(Debug, Clone)]
pub struct Assets {
    /// Identifier of the asset index.
    pub version: String,
    /// Legacy layout flag of the oldest versions.
    pub with_resources: bool,
    /// Legacy virtual layout flag.
    pub with_virtual: bool,
    /// Asset objects, keyed by their manifest-relative path.
    pub objects: Vec<(String, Asset)>,
}

/// Spec-level mirror of [`Assets`].
pub struct AssetsV {
    pub version: Seq<char>,
    pub with_resources: bool,
    pub with_virtual: bool,
    pub objects: Seq<(Seq<char>, AssetV)>,
}

/// Spec view of an object list.
pub open spec fn objects_view(objects: Seq<(String, Asset)>) -> Seq<(Seq<char>, AssetV)> {
    objects.map_values(|p: (String, Asset)| (p.0@, p.1@))
}

impl View for Assets {
    type V = AssetsV;

    open spec fn view(&self) -> AssetsV {
        AssetsV {
            version: self.version@,
            with_resources: self.with_resources,
            with_virtual: self.with_virtual,
            objects: objects_view(self.objects@),
        }
    }
}

/// What parsing the entries of the mandatory `objects` map yields, from
/// index `i` on: each entry must be an object with a 32-bit unsigned
/// `size` and a 40-hex-character `hash`; the first malformed entry fails
/// with a pointer naming its path.
pub open spec fn spec_parse_objects_from(entries: Seq<(String, Json)>, i: int) -> Result<
    Seq<(Seq<char>, AssetV)>,
    ErrorV,
>
    decreases entries.len() - i when 0 <= i
{
    if i >= entries.len() {
        Ok(Seq::empty())
    } else {
        let path = entries[i].0@;
        match entries[i].1 {
            Json::Obj(obj) => match spec_get_entries(obj@, "size"@) {
                Some(Json::Num(Some(n))) => if n <= u32::MAX {
                    match spec_get_entries(obj@, "hash"@) {
                        Some(Json::Str(h)) => if is_hex40(h@) {
                            match spec_parse_objects_from(entries, i + 1) {
                                Ok(rest) => Ok(
                                    seq![
                                        (
                                            path,
                                            AssetV { sha1: hex_bytes20(h@), size: n as u32 },
                                        ),
                                    ] + rest,
                                ),
                                Err(e) => Err(e),
                            }
                        } else {
                            Err(spec_object_hash_error(path))
                        },
                        _ => Err(spec_object_hash_error(path)),
                    }
                } else {
                    Err(spec_object_size_error(path))
                },
                _ => Err(spec_object_size_error(path)),
            },
            _ => Err(
                schema_at(
                    seq![PointerPartV::Field("objects"@), PointerPartV::Field(path)],
                    "object"@,
                ),
            ),
        }
    }
}

pub open spec fn spec_object_size_error(path: Seq<char>) -> ErrorV {
    schema_at(
        seq![
            PointerPartV::Field("objects"@),
            PointerPartV::Field(path),
            PointerPartV::Field("size"@),
        ],
        "number (32-bit unsigned)"@,
    )
}

pub open spec fn spec_object_hash_error(path: Seq<char>) -> ErrorV {
    schema_at(
        seq![
            PointerPartV::Field("objects"@),
            PointerPartV::Field(path),
            PointerPartV::Field("hash"@),
        ],
        "string (40 hex characters)"@,
    )
}

/// What parsing a whole asset-index document yields: two optional boolean
/// layout flags and the mandatory `objects` map.
pub open spec fn spec_parse_asset_index(doc: Json, id: Seq<char>) -> Result<AssetsV, ErrorV> {
    match spec_get(doc, "map_to_resources"@) {
        Some(Json::Bool(with_resources)) => spec_parse_asset_index_virtual(
            doc,
            id,
            with_resources,
        ),
        None => if doc is Obj {
            spec_parse_asset_index_virtual(doc, id, false)
        } else {
            Err(schema_at(Seq::empty(), "object"@))
        },
        Some(_) => Err(schema_at(seq![PointerPartV::Field("map_to_resources"@)], "bool"@)),
    }
}

pub open spec fn spec_parse_asset_index_virtual(
    doc: Json,
    id: Seq<char>,
    with_resources: bool,
) -> Result<AssetsV, ErrorV> {
    match spec_get(doc, "virtual"@) {
        Some(Json::Bool(with_virtual)) => spec_parse_asset_index_objects(
            doc,
            id,
            with_resources,
            with_virtual,
        ),
        None => spec_parse_asset_index_objects(doc, id, with_resources, false),
        Some(_) => Err(schema_at(seq![PointerPartV::Field("virtual"@)], "bool"@)),
    }
}

pub open spec fn spec_parse_asset_index_objects(
    doc: Json,
    id: Seq<char>,
    with_resources: bool,
    with_virtual: bool,
) -> Result<AssetsV, ErrorV> {
    match spec_get(doc, "objects"@) {
        Some(Json::Obj(entries)) => match spec_parse_objects_from(entries@, 0) {
            Ok(objects) => Ok(AssetsV { version: id, with_resources, with_virtual, objects }),
            Err(e) => Err(e),
        },
        _ => Err(schema_at(seq![PointerPartV::Field("objects"@)], "object"@)),
    }
}

/// Parse the entries of the `objects` map.
fn parse_objects(entries: &Vec<(String, Json)>) -> (r: Result<Vec<(String, Asset)>, Error>)
    ensures
        match r {
            Ok(objects) => spec_parse_objects_from(entries@, 0) == Ok::<_, ErrorV>(
                objects_view(objects@),
            ),
            Err(e) => spec_parse_objects_from(entries@, 0) == Err::<
                Seq<(Seq<char>, AssetV)>,
                ErrorV,
            >(e@),
        },
{
    let n = entries.len();
    let mut idx: usize = 0;
    let mut acc: Vec<(String, Asset)> = Vec::new();
    while idx < n
        invariant
            n == entries@.len(),
            idx <= n,
            spec_parse_objects_from(entries@, 0) == (match spec_parse_objects_from(
                entries@,
                idx as int,
            ) {
                Ok(rest) => Ok::<_, ErrorV>(objects_view(acc@) + rest),
                Err(e) => Err::<Seq<(Seq<char>, AssetV)>, ErrorV>(e),
            }),
        decreases n - idx,
    {
        let path = &entries[idx].0;
        let obj = match &entries[idx].1 {
            Json::Obj(obj) => obj,
            _ => {
                return Err(
                    crate::error::schema2(
                        field("objects"),
                        PointerPart::Field(path.clone()),
                        "object",
                    ),
                );
            },
        };
        let size: u32 = match obj_get(obj, "size") {
            Some(Json::Num(Some(nv))) => {
                if *nv <= u32::MAX as u64 {
                    *nv as u32
                } else {
                    return Err(object_size_error(path));
                }
            },
            _ => {
                return Err(object_size_error(path));
            },
        };
        let sha1: Sha1Hash = match obj_get(obj, "hash") {
            Some(Json::Str(h)) => {
                match parse_hex20(h.as_str()) {
                    Some(bytes) => bytes,
                    None => {
                        return Err(object_hash_error(path));
                    },
                }
            },
            _ => {
                return Err(object_hash_error(path));
            },
        };
        let ghost acc_before = acc@;
        acc.push((path.clone(), Asset { sha1, size }));
        proof {
            assert(objects_view(acc@) =~= objects_view(acc_before).push(
                (entries@[idx as int].0@, AssetV { sha1: sha1@, size: size }),
            ));
            match spec_parse_objects_from(entries@, idx + 1) {
                Ok(rest) => {
                    assert(objects_view(acc_before) + (seq![
                        (entries@[idx as int].0@, AssetV { sha1: sha1@, size: size }),
                    ] + rest) =~= objects_view(acc@) + rest);
                },
                Err(_) => {},
            }
        }
        idx += 1;
    }
    proof {
        match spec_parse_objects_from(entries@, idx as int) {
            Ok(rest) => {
                assert(objects_view(acc@) + rest =~= objects_view(acc@));
            },
            Err(_) => {},
        }
    }
    Ok(acc)
}

fn object_size_error(path: &String) -> (e: Error)
    ensures
        e@ == spec_object_size_error(path@),
{
    let mut pointer: Vec<PointerPart> = Vec::new();
    pointer.push(field("objects"));
    pointer.push(PointerPart::Field(path.clone()));
    pointer.push(field("size"));
    proof {
        assert(crate::error::pointer_view(pointer@) =~= seq![
            PointerPartV::Field("objects"@),
            PointerPartV::Field(path@),
            PointerPartV::Field("size"@),
        ]);
    }
    crate::error::schema_err(pointer, "number (32-bit unsigned)")
}

fn object_hash_error(path: &String) -> (e: Error)
    ensures
        e@ == spec_object_hash_error(path@),
{
    let mut pointer: Vec<PointerPart> = Vec::new();
    pointer.push(field("objects"));
    pointer.push(PointerPart::Field(path.clone()));
    pointer.push(field("hash"));
    proof {
        assert(crate::error::pointer_view(pointer@) =~= seq![
            PointerPartV::Field("objects"@),
            PointerPartV::Field(path@),
            PointerPartV::Field("hash"@),
        ]);
    }
    crate::error::schema_err(pointer, "string (40 hex characters)")
}

/// Parse a whole asset-index document under the given index identifier.
pub fn parse_asset_index(doc: &Json, id: &str) -> (r: Result<Assets, Error>)
    ensures
        match r {
            Ok(assets) => spec_parse_asset_index(*doc, id@) == Ok::<AssetsV, ErrorV>(assets@),
            Err(e) => spec_parse_asset_index(*doc, id@) == Err::<AssetsV, ErrorV>(e@),
        },
{
    if !matches!(doc, Json::Obj(_)) {
        let pointer: Vec<PointerPart> = Vec::new();
        proof {
            assert(crate::error::pointer_view(pointer@) =~= Seq::<PointerPartV>::empty());
        }
        return Err(crate::error::schema_err(pointer, "object"));
    }
    let with_resources = match doc.get("map_to_resources") {
        Some(Json::Bool(b)) => *b,
        None => false,
        Some(_) => {
            return Err(schema1(field("map_to_resources"), "bool"));
        },
    };
    let with_virtual = match doc.get("virtual") {
        Some(Json::Bool(b)) => *b,
        None => false,
        Some(_) => {
            return Err(schema1(field("virtual"), "bool"));
        },
    };
    let objects = match doc.get("objects") {
        Some(Json::Obj(entries)) => {
            match parse_objects(entries) {
                Ok(objects) => objects,
                Err(e) => {
                    return Err(e);
                },
            }
        },
        _ => {
            return Err(schema1(field("objects"), "object"));
        },
    };
    Ok(Assets { version: id.to_owned(), with_resources, with_virtual, objects })
}

/// Content-addressed location of an asset under the assets directory:
/// the first two digest characters name the subdirectory.
pub open spec fn spec_asset_file(inst: Installer, sha1: Seq<u8>) -> Seq<char> {
    inst.main_dir@ + "/assets/objects/"@ + hex_str_of(sha1).take(2) + "/"@ + hex_str_of(sha1)
}

/// Download url of an asset: the fixed resource base followed by the same
/// two-level digest path.
pub open spec fn spec_asset_url(sha1: Seq<u8>) -> Seq<char> {
    "https://resources.download.minecraft.net/"@ + hex_str_of(sha1).take(2) + "/"@ + hex_str_of(
        sha1,
    )
}

/// The one planned transfer of an asset: its derived url and destination,
/// with its declared size and digest as the expectations.
pub open spec fn spec_asset_download(inst: Installer, a: AssetV) -> crate::download::DownloadV {
    crate::download::DownloadV {
        url: spec_asset_url(a.sha1),
        file: spec_asset_file(inst, a.sha1),
        size: Some(a.size),
        sha1: Some(a.sha1),
        executable: false,
    }
}

/// Every download in `new_d` beyond `old_d` is the canonical plan entry
/// of some asset of `objects`.
pub open spec fn asset_downloads_appended(
    inst: Installer,
    objects: Seq<(String, Asset)>,
    old_d: Seq<crate::download::Download>,
    new_d: Seq<crate::download::Download>,
) -> bool {
    forall|k: int|
        old_d.len() <= k < new_d.len() ==> exists|j: int|
            0 <= j < objects.len() && (#[trigger] new_d[k])@ == spec_asset_download(
                inst,
                objects[j].1@,
            )
}

/// Local file of an asset object.
pub fn asset_file(inst: &Installer, asset: &Asset) -> (r: String)
    ensures
        r@ == spec_asset_file(*inst, asset.sha1@),
{
    let hex = hex_str20(&asset.sha1);
    let hh = hex.as_str().substring_char(0, 2);
    proof {
        assert(hex@.subrange(0, 2) =~= hex@.take(2));
    }
    let mut out = inst.main_dir.clone();
    out.append("/assets/objects/");
    out.append(hh);
    out.append("/");
    out.append(hex.as_str());
    out
}

/// Download url of an asset object.
pub fn asset_url(asset: &Asset) -> (r: String)
    ensures
        r@ == spec_asset_url(asset.sha1@),
{
    let hex = hex_str20(&asset.sha1);
    let hh = hex.as_str().substring_char(0, 2);
    proof {
        assert(hex@.subrange(0, 2) =~= hex@.take(2));
    }
    let mut out = "https://resources.download.minecraft.net/".to_owned();
    out.append(hh);
    out.append("/");
    out.append(hex.as_str());
    out
}

} // verus!
