use vstd::prelude::*;

verus! {

/// When a timestamp is attached to logged text.
#[derive(Clone, Copy, Debug, PartialEq, Eq, Structural)]
pub enum TimestampMode {
    /// Each flush writes a single stamp line in place of the previous remote
    /// content, then the buffered entries. The stamp records the flush time.
    Flush,
    /// Each entry is stamped when `log` is called, so the stamp records the
    /// call time, not the later flush time.
    Log,
    /// No timestamps: entries are stored and flushed as given.
    Plain,
}

} // verus!
