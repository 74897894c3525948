//! The pluggable capability surrounding one installation: it supplies
//! missing descriptors, performs transfers, reads local files, and may
//! observe or adjust each resolution step.
//!
//! The engine itself performs no file or network access: everything it
//! needs from the machine comes through this trait, and every decision it
//! takes on the returned values is verified for every possible value.

use vstd::prelude::*;
use crate::assets::Assets;
use crate::download::Download;
use crate::error::Error;
use crate::installer::Installer;
use crate::json::Json;
use crate::library::{Library, LibraryState};
use crate::specifier::LibrarySpecifier;

verus! {

/// One version of the hierarchy: its name and its descriptor document.
#[derive(Debug)]
pub struct Version {
    /// The name of the version.
    pub name: String,
    /// The descriptor document of this version.
    pub metadata: Json,
}

/// The capability a caller hands to `install`: fetching, transfer, local
/// reads and the observation and adjustment hooks.
pub trait Handler {
    /// Examine a descriptor freshly loaded from a local file; returning
    /// false discards it and forces a re-fetch. It may adjust the
    /// metadata but must keep the version's name.
    fn filter_version(&mut self, installer: &Installer, version: &mut Version) -> (r: Result<
        bool,
        Error,
    >)
        ensures
            final(version).name@ == old(version).name@,
    ;

    /// Supply a missing descriptor, persisting it if desired. A returned
    /// descriptor carries the requested name.
    fn fetch_version(&mut self, installer: &Installer, version: &str) -> (r: Result<
        Version,
        Error,
    >)
        ensures
            (r matches Ok(v) ==> v.name@ == version@),
    ;

    /// Post-process the fully resolved chain; it is handed a non-empty
    /// chain and must not empty it.
    fn filter_hierarchy(&mut self, installer: &Installer, hierarchy: &mut Vec<Version>) -> (r:
        Result<(), Error>)
        requires
            old(hierarchy)@.len() >= 1,
        ensures
            (r matches Ok(u) ==> final(hierarchy)@.len() >= 1),
    ;

    /// Populate the feature flags used by rule evaluation.
    fn filter_features(&mut self, installer: &Installer, features: &mut Vec<(String, bool)>) -> (r:
        Result<(), Error>);

    /// Adjust the asset set before verification; hash and size must stay
    /// coherent, since storage is keyed off the hash alone.
    fn filter_assets(&mut self, installer: &Installer, assets: &mut Assets) -> (r: Result<
        (),
        Error,
    >);

    /// Observe the chosen entry-point artifact; the path is settled.
    /// Purely an observability hook.
    fn notify_jar(&mut self, installer: &Installer, jar_file: &str);

    /// Observe one resolved library and its final state.
    fn notify_library(
        &mut self,
        installer: &Installer,
        specifier: &LibrarySpecifier,
        state: LibraryState,
    );

    /// Adjust the retained libraries after resolution.
    fn filter_libraries(
        &mut self,
        installer: &Installer,
        libraries: &mut Vec<(LibrarySpecifier, Library)>,
    ) -> (r: Result<(), Error>);

    /// Perform all transfers now, without pre-checking existence, and
    /// report the bytes transferred; fail if any entry cannot be
    /// completed.
    fn download(&mut self, entries: &Vec<Download>) -> (r: Result<usize, Error>);

    /// Read a local file entirely; `Ok(None)` when no such file exists,
    /// and any failure other than not-found is reported as an `Io` error.
    /// The engine has no file access of its own, so local storage is part
    /// of this capability.
    fn read_file(&mut self, installer: &Installer, path: &str) -> (r: Result<
        Option<Vec<u8>>,
        Error,
    >)
        ensures
            (r matches Err(e) ==> e@ is Io),
    ;

    /// Length of a local file; `Ok(None)` when no such file exists, and
    /// any failure other than not-found is reported as an `Io` error.
    fn file_len(&mut self, installer: &Installer, path: &str) -> (r: Result<Option<u64>, Error>)
        ensures
            (r matches Err(e) ==> e@ is Io),
    ;
}

/// The no-op capability: nothing local, nothing remote. Useful to
/// terminate wrappers that compose handlers around one another.
impl Handler for () {
    fn filter_version(&mut self, installer: &Installer, version: &mut Version) -> (r: Result<
        bool,
        Error,
    >) {
        Ok(true)
    }

    fn fetch_version(&mut self, installer: &Installer, version: &str) -> (r: Result<
        Version,
        Error,
    >) {
        Err(Error::VersionNotFound { version: version.to_owned() })
    }

    fn filter_hierarchy(&mut self, installer: &Installer, hierarchy: &mut Vec<Version>) -> (r:
        Result<(), Error>) {
        Ok(())
    }

    fn filter_features(&mut self, installer: &Installer, features: &mut Vec<(String, bool)>) -> (r:
        Result<(), Error>) {
        Ok(())
    }

    fn filter_assets(&mut self, installer: &Installer, assets: &mut Assets) -> (r: Result<
        (),
        Error,
    >) {
        Ok(())
    }

    fn notify_jar(&mut self, installer: &Installer, jar_file: &str) {
    }

    fn notify_library(
        &mut self,
        installer: &Installer,
        specifier: &LibrarySpecifier,
        state: LibraryState,
    ) {
    }

    fn filter_libraries(
        &mut self,
        installer: &Installer,
        libraries: &mut Vec<(LibrarySpecifier, Library)>,
    ) -> (r: Result<(), Error>) {
        Ok(())
    }

    fn download(&mut self, entries: &Vec<Download>) -> (r: Result<usize, Error>) {
        Err(Error::NotSupported { operation: "Handler::download".to_owned() })
    }

    fn read_file(&mut self, installer: &Installer, path: &str) -> (r: Result<
        Option<Vec<u8>>,
        Error,
    >) {
        Ok(None)
    }

    fn file_len(&mut self, installer: &Installer, path: &str) -> (r: Result<Option<u64>, Error>) {
        Ok(None)
    }
}

} // verus!
