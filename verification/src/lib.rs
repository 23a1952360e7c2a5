//! Resolve the current filesystem path of an already-open file handle.
//!
//! The operating system is asked which path it currently associates with an
//! open handle.  Three mutually exclusive platform strategies exist, one per
//! target family:
//!
//! - [`procfs::ProcFsStrategy`] (Linux): the kernel keeps a symbolic link per
//!   open descriptor; the link target is the path.  The verified part builds
//!   the query path `/proc/self/fd/<fd>`.
//! - [`fcntl::FcntlStrategy`] (macOS, iOS): a control operation fills a
//!   fixed-size, zero-initialized buffer with a null-terminated path.  The
//!   verified part strips every zero byte to recover the exact path bytes.
//! - [`winpath::WinApiStrategy`] (Windows): a two-call pattern probes for the
//!   required length, fetches the path as UTF-16 units, and normalizes the
//!   extended-length prefixes.  The verified part covers the length protocol
//!   and the prefix rewriting.
//!
//! The system calls themselves are raw OS interop and stay outside this
//! library; callers hand in the raw reply the OS wrote and get the finished
//! path value back.  Each call is an independent, read-only query: no state is
//! retained between calls, and the returned path is a snapshot that may be
//! stale as soon as it is returned.

use vstd::prelude::*;

pub mod fcntl;
pub mod procfs;
pub mod winpath;

verus! {

/// Interface of a platform path-resolution strategy.
///
/// A strategy turns the raw reply the operating system wrote (bytes on POSIX,
/// UTF-16 code units on Windows) into the finished path value.  Exactly one
/// concrete strategy is selected per target platform; callers depend only on
/// this interface.
pub trait FilePath {
    /// The code unit of the platform's native path representation.
    type Unit;

    /// The finished path, as a function of the raw reply.
    spec fn path_spec(raw: Seq<Self::Unit>) -> Seq<Self::Unit>;

    /// Decode the raw reply the OS wrote into the finished path.
    fn path(&self, raw: Vec<Self::Unit>) -> (out: Vec<Self::Unit>)
        ensures
            out@ == Self::path_spec(raw@),
    ;
}

/// Resolution is deterministic in the data the OS reports: two decodings of
/// the same unmodified raw reply yield the same path.  (Whether the OS reports
/// the same reply twice is up to the OS; the library adds no variance.)
pub proof fn lemma_path_deterministic<S: FilePath>(
    raw: Seq<S::Unit>,
    first: Seq<S::Unit>,
    second: Seq<S::Unit>,
)
    requires
        first == S::path_spec(raw),
        second == S::path_spec(raw),
    ensures
        first == second,
{
}

} // verus!
