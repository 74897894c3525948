//! Planned transfers and the generic download-descriptor parser: one
//! validation routine shared by the asset-index reference, the entry
//! artifact and every library download block.

use vstd::prelude::*;
use crate::error::{schema_at, Error, ErrorV, PointerPartV};
use crate::hex::{hex_bytes20, is_hex40, parse_hex20};
use crate::json::{obj_get, spec_get_entries, Json};

verus! {

/// A 20-byte content digest.
pub type Sha1Hash = [u8; 20];

/// Spec view of an optional digest.
pub open spec fn hash_view(h: Option<Sha1Hash>) -> Option<Seq<u8>> {
    match h {
        Some(b) => Some(b@),
        None => None,
    }
}

/// One planned transfer: fetch `url` into `file`, then check the expected
/// size and digest if given, and mark the file executable if asked.
#[derive(Debug, Clone, PartialEq, Eq)]
pub struct Download {
    /// Url of the file to download.
    pub url: String,
    /// Path of the file to ultimately download.
    pub file: String,
    /// Expected size of the file in bytes, checked after downloading.
    pub size: Option<u32>,
    /// Expected content digest of the file, checked after downloading.
    pub sha1: Option<Sha1Hash>,
    /// True if the file should be made executable afterwards.
    pub executable: bool,
}

/// Spec-level mirror of [`Download`].
pub struct DownloadV {
    pub url: Seq<char>,
    pub file: Seq<char>,
    pub size: Option<u32>,
    pub sha1: Option<Seq<u8>>,
    pub executable: bool,
}

impl View for Download {
    type V = DownloadV;

    open spec fn view(&self) -> DownloadV {
        DownloadV {
            url: self.url@,
            file: self.file@,
            size: self.size,
            sha1: hash_view(self.sha1),
            executable: self.executable,
        }
    }
}

/// A parsed download block: the remote url with optional expectations, not
/// yet bound to a destination file.
#[derive(Debug, Clone, PartialEq, Eq)]
pub struct JsonDownload {
    pub url: String,
    pub size: Option<u32>,
    pub sha1: Option<Sha1Hash>,
}

/// Spec-level mirror of [`JsonDownload`].
pub struct JsonDownloadV {
    pub url: Seq<char>,
    pub size: Option<u32>,
    pub sha1: Option<Seq<u8>>,
}

impl View for JsonDownload {
    type V = JsonDownloadV;

    open spec fn view(&self) -> JsonDownloadV {
        JsonDownloadV { url: self.url@, size: self.size, sha1: hash_view(self.sha1) }
    }
}

impl JsonDownload {
    /// Bind the parsed block to a destination file.
    pub fn to_owned(&self, file: String, executable: bool) -> (d: Download)
        ensures
            d@ == (DownloadV {
                url: self.url@,
                file: file@,
                size: self.size,
                sha1: hash_view(self.sha1),
                executable,
            }),
    {
        Download { url: self.url.clone(), file, size: self.size, sha1: self.sha1, executable }
    }
}

/// What parsing a download block yields: a mandatory `url` string, an
/// optional `size` that must fit 32 unsigned bits, and an optional `sha1`
/// of exactly 40 hexadecimal characters.
pub open spec fn spec_parse_download(fields: Seq<(String, Json)>) -> Result<
    JsonDownloadV,
    ErrorV,
> {
    match spec_get_entries(fields, "url"@) {
        Some(Json::Str(url)) => spec_parse_download_size(fields, url@),
        _ => Err(schema_at(seq![PointerPartV::Field("url"@)], "string"@)),
    }
}

pub open spec fn spec_parse_download_size(fields: Seq<(String, Json)>, url: Seq<char>) -> Result<
    JsonDownloadV,
    ErrorV,
> {
    match spec_get_entries(fields, "size"@) {
        None => spec_parse_download_hash(fields, url, None),
        Some(Json::Num(Some(n))) => if n <= u32::MAX {
            spec_parse_download_hash(fields, url, Some(n as u32))
        } else {
            Err(schema_at(seq![PointerPartV::Field("size"@)], "number (32-bit unsigned)"@))
        },
        Some(_) => Err(
            schema_at(seq![PointerPartV::Field("size"@)], "number (32-bit unsigned)"@),
        ),
    }
}

pub open spec fn spec_parse_download_hash(
    fields: Seq<(String, Json)>,
    url: Seq<char>,
    size: Option<u32>,
) -> Result<JsonDownloadV, ErrorV> {
    match spec_get_entries(fields, "sha1"@) {
        None => Ok(JsonDownloadV { url, size, sha1: None }),
        Some(Json::Str(h)) => if is_hex40(h@) {
            Ok(JsonDownloadV { url, size, sha1: Some(hex_bytes20(h@)) })
        } else {
            Err(schema_at(seq![PointerPartV::Field("sha1"@)], "string (40 hex characters)"@))
        },
        Some(_) => Err(
            schema_at(seq![PointerPartV::Field("sha1"@)], "string (40 hex characters)"@),
        ),
    }
}

/// Parse a download block from an object's fields.
pub fn resolve_download(fields: &Vec<(String, Json)>) -> (r: Result<JsonDownload, Error>)
    ensures
        match r {
            Ok(d) => spec_parse_download(fields@) == Ok::<JsonDownloadV, ErrorV>(d@),
            Err(e) => spec_parse_download(fields@) == Err::<JsonDownloadV, ErrorV>(e@) && e@
                is Schema,
        },
{
    let url = match obj_get(fields, "url") {
        Some(Json::Str(url)) => url.clone(),
        _ => {
            return Err(crate::error::schema1(crate::error::field("url"), "string"));
        },
    };
    let size: Option<u32> = match obj_get(fields, "size") {
        None => None,
        Some(Json::Num(Some(n))) => {
            if *n <= u32::MAX as u64 {
                Some(*n as u32)
            } else {
                return Err(
                    crate::error::schema1(
                        crate::error::field("size"),
                        "number (32-bit unsigned)",
                    ),
                );
            }
        },
        Some(_) => {
            return Err(
                crate::error::schema1(crate::error::field("size"), "number (32-bit unsigned)"),
            );
        },
    };
    let sha1: Option<Sha1Hash> = match obj_get(fields, "sha1") {
        None => None,
        Some(Json::Str(h)) => {
            match parse_hex20(h.as_str()) {
                Some(bytes) => Some(bytes),
                None => {
                    return Err(
                        crate::error::schema1(
                            crate::error::field("sha1"),
                            "string (40 hex characters)",
                        ),
                    );
                },
            }
        },
        Some(_) => {
            return Err(
                crate::error::schema1(
                    crate::error::field("sha1"),
                    "string (40 hex characters)",
                ),
            );
        },
    };
    Ok(JsonDownload { url, size, sha1 })
}

} // verus!
