use vstd::prelude::*;

verus! {

/// Everything that can go wrong around a logging session. The merge itself
/// never fails; failures come from the remote store, from decoding what it
/// returned, or from the best-effort local mirror.
#[derive(Clone, Copy, Debug, PartialEq, Eq, Structural)]
pub enum LogError {
    /// The store was unreachable or the identity invalid while the logger was
    /// being constructed.
    Construction,
    /// The remote object could not be read during a flush.
    RemoteRead,
    /// The merged content could not be written back during a flush.
    RemoteWrite,
    /// The bytes read from the remote object are not valid UTF-8.
    Decoding,
    /// The local mirror file could not be appended to. The remote write has
    /// already succeeded when this is reported; nothing is rolled back.
    LocalMirror,
}

} // verus!
