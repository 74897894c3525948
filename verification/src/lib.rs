//! Core of a game-version installer: resolves a named version into a merged
//! configuration hierarchy, a set of libraries and assets, and an entry-point
//! artifact, together with the list of files that must still be fetched.
//!
//! All file and network access is delegated to a caller-supplied [`Handler`];
//! the resolution logic itself is pure and verified.

mod assets;
mod check;
mod download;
mod error;
mod handler;
mod hex;
mod installer;
mod json;
mod jsonio;
mod library;
mod rules;
mod specifier;
mod strutil;

pub use crate::assets::{asset_downloads_appended, spec_asset_download, asset_file, asset_url, objects_view, parse_asset_index, spec_asset_file, spec_asset_url, spec_parse_asset_index, spec_parse_asset_index_objects, spec_parse_asset_index_virtual, spec_parse_objects_from, Asset, AssetV, Assets, AssetsV};
pub use crate::check::{lemma_missing_file_needs_download, lemma_satisfied_file_needs_no_download, needs_download, sha1_digest, sha1_of, spec_needs_download};
pub use crate::download::{hash_view, resolve_download, spec_parse_download, spec_parse_download_hash, spec_parse_download_size, Download, DownloadV, JsonDownload, JsonDownloadV, Sha1Hash};
pub use crate::error::{entry, field, pointer_view, prefix1, prefix2, prefix3, prefix_schema, schema1, schema2, schema3, schema_at, schema_err, spec_prefix_schema, spec_with_origin, with_origin, Error, ErrorOrigin, ErrorV, OriginV, PointerPart, PointerPartV};
pub use crate::handler::{Handler, Version};
pub use crate::hex::{hex_bytes20, lemma_hex_round_trip, hex_str20, hex_str_of, hex_val, is_hex40, is_hex_digit, parse_hex20};
pub use crate::installer::{collect_hierarchy_libraries, opt_hash_view, pairs_view, retain_first_occurrences, spec_chain_linked, spec_collect_hierarchy_from, spec_has_specifier, spec_retain_from, version_from_parse, extract_inherits, find_asset_info, find_client_download, meta_origin, spec_files_with_from, spec_find_asset_info_from, spec_find_client_from, spec_meta_origin, split_class_files, strings_view, Environment, Installer};
pub use crate::json::{obj_get, spec_get, spec_get_entries, Json};
pub use crate::library::{collect_level, is_planned_from, library_downloads_appended, lemma_missing_native_classifier_rejected, lemma_no_libraries_no_entries, resolved_view, spec_collect_level, spec_collect_libs_from, spec_derived_library, spec_explicit_library, spec_library_downloads, spec_library_file, spec_library_natives, spec_library_rules, spec_library_url, spec_rejected_library, spec_resolve_library, spec_resolve_library_fields, resolve_library, Library, LibraryState, LibraryV, ResolvedLibrary, ResolvedLibraryV};
pub use crate::rules::{feature_enabled, lemma_later_rule_overrides, referenced_features, spec_add_names, spec_contains_name, spec_rule_feature_names, spec_rules_feature_names_from, resolve_rule, resolve_rule_os, resolve_rules, spec_feature_enabled, spec_rule_action, spec_rule_fields, spec_rule_features, spec_rule_of, spec_rule_os, spec_rule_os_arch, spec_rule_os_part, spec_rule_os_version, spec_rule_valid, spec_rules, spec_rules_from, RuleAction};
pub use crate::specifier::{parse_specifier, spec_path_of, spec_parse_specifier, spec_replace_dots, LibrarySpecifier, SpecifierV};
pub use crate::strutil::{find_char, spec_index_of, find_pat, replace_first, spec_find_pat, spec_replace_first, str_eq};
