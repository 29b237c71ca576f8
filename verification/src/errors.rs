use vstd::prelude::*;

verus! {

/// The error taxonomy of the facade.
///
/// - `NotFound`: a path did not exist where existence was required.
/// - `InvalidInput`: a malformed URI, a wrong URI scheme, or a URI that
///   cannot map to a local path.
/// - `Io`: an underlying read/write/permission failure from the storage
///   layer.
///
/// The path and URI operations of this library only ever produce
/// `InvalidInput`; the other two variants classify the failures of the
/// disk-touching operations built on top of it.
#[derive(Clone, Copy, Debug, PartialEq, Eq, Structural)]
pub enum FsError {
    NotFound,
    InvalidInput,
    Io,
}

} // verus!
