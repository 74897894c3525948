//! Error taxonomy of the resolution engine.
//!
//! Schema errors carry a structured locator: the origin names the offending
//! document, the pointer is the path of fields and indices leading to the
//! offending value.

use vstd::prelude::*;

verus! {

/// Identifies the document that a schema or parse error points into.
#[derive(Debug, Clone, PartialEq, Eq)]
pub enum ErrorOrigin {
    /// A document that did not come from a local file, named by its role.
    Raw(String),
    /// A document read from the file at this path.
    File(String),
}

/// Spec-level mirror of [`ErrorOrigin`], over character sequences.
pub enum OriginV {
    Raw(Seq<char>),
    File(Seq<char>),
}

impl View for ErrorOrigin {
    type V = OriginV;

    open spec fn view(&self) -> OriginV {
        match self {
            ErrorOrigin::Raw(s) => OriginV::Raw(s@),
            ErrorOrigin::File(s) => OriginV::File(s@),
        }
    }
}

/// One step of a pointer into a structured document: an object field or an
/// array index.
#[derive(Debug, Clone, PartialEq, Eq)]
pub enum PointerPart {
    Field(String),
    Entry(usize),
}

/// Spec-level mirror of [`PointerPart`].
pub enum PointerPartV {
    Field(Seq<char>),
    Entry(int),
}

impl View for PointerPart {
    type V = PointerPartV;

    open spec fn view(&self) -> PointerPartV {
        match self {
            PointerPart::Field(s) => PointerPartV::Field(s@),
            PointerPart::Entry(i) => PointerPartV::Entry(*i as int),
        }
    }
}

/// Spec-level view of a whole pointer.
pub open spec fn pointer_view(p: Seq<PointerPart>) -> Seq<PointerPartV> {
    p.map_values(|part: PointerPart| part@)
}

/// Every failure the resolution engine can report. Any error aborts the whole
/// `install` call; there is no partial-result mode.
#[derive(Debug, Clone, PartialEq, Eq)]
pub enum Error {
    /// A structured document misses a field or holds one of the wrong shape.
    /// `expected` says what shape was required at `pointer`.
    Schema { origin: ErrorOrigin, pointer: Vec<PointerPart>, expected: String },
    /// A filesystem failure other than not-found, reported by the handler.
    Io { path: String, message: String },
    /// A document could not be parsed as a structured document at all.
    JsonParse { origin: ErrorOrigin, message: String },
    /// No descriptor of this name could be loaded or fetched.
    VersionNotFound { version: String },
    /// The inheritance chain exceeded the supported depth; it most likely
    /// inherits from itself.
    HierarchyLoop { version: String },
    /// No entry-point artifact was declared and none exists locally.
    JarNotFound,
    /// A path of the engine that is deliberately not implemented.
    NotSupported { operation: String },
}

/// Spec-level mirror of [`Error`].
pub enum ErrorV {
    Schema { origin: OriginV, pointer: Seq<PointerPartV>, expected: Seq<char> },
    Io { path: Seq<char>, message: Seq<char> },
    JsonParse { origin: OriginV, message: Seq<char> },
    VersionNotFound { version: Seq<char> },
    HierarchyLoop { version: Seq<char> },
    JarNotFound,
    NotSupported { operation: Seq<char> },
}

impl View for Error {
    type V = ErrorV;

    open spec fn view(&self) -> ErrorV {
        match self {
            Error::Schema { origin, pointer, expected } => ErrorV::Schema {
                origin: origin@,
                pointer: pointer_view(pointer@),
                expected: expected@,
            },
            Error::Io { path, message } => ErrorV::Io { path: path@, message: message@ },
            Error::JsonParse { origin, message } => ErrorV::JsonParse {
                origin: origin@,
                message: message@,
            },
            Error::VersionNotFound { version } => ErrorV::VersionNotFound { version: version@ },
            Error::HierarchyLoop { version } => ErrorV::HierarchyLoop { version: version@ },
            Error::JarNotFound => ErrorV::JarNotFound,
            Error::NotSupported { operation } => ErrorV::NotSupported { operation: operation@ },
        }
    }
}

/// Build a field pointer part from a literal name.
pub fn field(name: &str) -> (p: PointerPart)
    ensures
        p@ == PointerPartV::Field(name@),
{
    PointerPart::Field(name.to_owned())
}

/// Build an index pointer part.
pub fn entry(idx: usize) -> (p: PointerPart)
    ensures
        p@ == PointerPartV::Entry(idx as int),
{
    PointerPart::Entry(idx)
}

/// A schema error whose origin is not known yet; the resolver that knows the
/// document's identity fills it in on the way out.
pub open spec fn schema_at(pointer: Seq<PointerPartV>, expected: Seq<char>) -> ErrorV {
    ErrorV::Schema { origin: OriginV::Raw(Seq::empty()), pointer, expected }
}

/// Build a schema error with a still-empty origin.
pub fn schema_err(pointer: Vec<PointerPart>, expected: &str) -> (e: Error)
    ensures
        e@ == schema_at(pointer_view(pointer@), expected@),
{
    Error::Schema {
        origin: ErrorOrigin::Raw(String::new()),
        pointer,
        expected: expected.to_owned(),
    }
}

/// Build a schema error whose pointer is one step deep.
pub fn schema1(p1: PointerPart, expected: &str) -> (e: Error)
    ensures
        e@ == schema_at(seq![p1@], expected@),
{
    let ghost p1v = p1@;
    let mut pointer: Vec<PointerPart> = Vec::new();
    pointer.push(p1);
    proof {
        assert(pointer_view(pointer@) =~= seq![p1v]);
    }
    schema_err(pointer, expected)
}

/// Build a schema error whose pointer is two steps deep.
pub fn schema2(p1: PointerPart, p2: PointerPart, expected: &str) -> (e: Error)
    ensures
        e@ == schema_at(seq![p1@, p2@], expected@),
{
    let ghost p1v = p1@;
    let ghost p2v = p2@;
    let mut pointer: Vec<PointerPart> = Vec::new();
    pointer.push(p1);
    pointer.push(p2);
    proof {
        assert(pointer_view(pointer@) =~= seq![p1v, p2v]);
    }
    schema_err(pointer, expected)
}

/// Build a schema error whose pointer is three steps deep.
pub fn schema3(p1: PointerPart, p2: PointerPart, p3: PointerPart, expected: &str) -> (e: Error)
    ensures
        e@ == schema_at(seq![p1@, p2@, p3@], expected@),
{
    let ghost p1v = p1@;
    let ghost p2v = p2@;
    let ghost p3v = p3@;
    let mut pointer: Vec<PointerPart> = Vec::new();
    pointer.push(p1);
    pointer.push(p2);
    pointer.push(p3);
    proof {
        assert(pointer_view(pointer@) =~= seq![p1v, p2v, p3v]);
    }
    schema_err(pointer, expected)
}

/// Prepend two pointer steps to a schema error.
pub fn prefix2(p1: PointerPart, p2: PointerPart, e: Error) -> (r: Error)
    ensures
        r@ == spec_prefix_schema(seq![p1@, p2@], e@),
{
    let ghost p1v = p1@;
    let ghost p2v = p2@;
    let mut pointer: Vec<PointerPart> = Vec::new();
    pointer.push(p1);
    pointer.push(p2);
    proof {
        assert(pointer_view(pointer@) =~= seq![p1v, p2v]);
    }
    prefix_schema(pointer, e)
}

/// Prepend three pointer steps to a schema error.
pub fn prefix3(p1: PointerPart, p2: PointerPart, p3: PointerPart, e: Error) -> (r: Error)
    ensures
        r@ == spec_prefix_schema(seq![p1@, p2@, p3@], e@),
{
    let ghost p1v = p1@;
    let ghost p2v = p2@;
    let ghost p3v = p3@;
    let mut pointer: Vec<PointerPart> = Vec::new();
    pointer.push(p1);
    pointer.push(p2);
    pointer.push(p3);
    proof {
        assert(pointer_view(pointer@) =~= seq![p1v, p2v, p3v]);
    }
    prefix_schema(pointer, e)
}

/// Prepend one pointer step to a schema error.
pub fn prefix1(p1: PointerPart, e: Error) -> (r: Error)
    ensures
        r@ == spec_prefix_schema(seq![p1@], e@),
{
    let ghost p1v = p1@;
    let mut pointer: Vec<PointerPart> = Vec::new();
    pointer.push(p1);
    proof {
        assert(pointer_view(pointer@) =~= seq![p1v]);
    }
    prefix_schema(pointer, e)
}

/// What stamping an origin does to an error: only errors that locate a place
/// in a document carry one.
pub open spec fn spec_with_origin(origin: OriginV, e: ErrorV) -> ErrorV {
    match e {
        ErrorV::Schema { origin: _, pointer, expected } => ErrorV::Schema {
            origin,
            pointer,
            expected,
        },
        ErrorV::JsonParse { origin: _, message } => ErrorV::JsonParse { origin, message },
        _ => e,
    }
}

/// Stamp the identity of the offending document onto an error.
pub fn with_origin(origin: ErrorOrigin, e: Error) -> (r: Error)
    ensures
        r@ == spec_with_origin(origin@, e@),
{
    match e {
        Error::Schema { origin: _, pointer, expected } => Error::Schema {
            origin,
            pointer,
            expected,
        },
        Error::JsonParse { origin: _, message } => Error::JsonParse { origin, message },
        other => other,
    }
}

/// What prefixing a pointer does to an error: only schema errors are touched.
pub open spec fn spec_prefix_schema(prefix: Seq<PointerPartV>, e: ErrorV) -> ErrorV {
    match e {
        ErrorV::Schema { origin, pointer, expected } => ErrorV::Schema {
            origin,
            pointer: prefix + pointer,
            expected,
        },
        _ => e,
    }
}

/// Prepend a pointer prefix to a schema error; other errors pass unchanged.
pub fn prefix_schema(prefix: Vec<PointerPart>, e: Error) -> (r: Error)
    ensures
        r@ == spec_prefix_schema(pointer_view(prefix@), e@),
{
    match e {
        Error::Schema { origin, pointer, expected } => {
            let ghost prefix_v = prefix@;
            let ghost pointer_v = pointer@;
            let mut joined = prefix;
            let mut rest = pointer;
            joined.append(&mut rest);
            proof {
                assert(pointer_view(joined@) =~= pointer_view(prefix_v) + pointer_view(pointer_v));
            }
            Error::Schema { origin, pointer: joined, expected }
        },
        other => other,
    }
}

} // verus!
