//! Linux strategy: the kernel maintains, for every open descriptor `fd` of
//! the calling process, a symbolic link `/proc/self/fd/<fd>` whose target is
//! the path currently associated with the descriptor.
//!
//! The verified part is the construction of that query path.  Dereferencing
//! the link is a filesystem read and stays with the caller; the kernel returns
//! the link target directly, so no decoding is needed and the strategy's
//! decoding step is the identity.

use vstd::prelude::*;

use crate::FilePath;

verus! {

/// The Linux path-resolution strategy.
pub struct ProcFsStrategy;

/// The decimal digits of `n`, most significant first, as ASCII bytes.
pub open spec fn dec_digits(n: nat) -> Seq<u8>
    decreases n,
{
    if n < 10 {
        seq![(0x30 + n) as u8]
    } else {
        dec_digits(n / 10).push((0x30 + n % 10) as u8)
    }
}

/// The bytes of the directory `/proc/self/fd/`.
pub open spec fn proc_fd_dir() -> Seq<u8> {
    seq![47u8, 112u8, 114u8, 111u8, 99u8, 47u8, 115u8, 101u8, 108u8, 102u8, 47u8, 102u8, 100u8, 47u8]
}

/// The query path `/proc/self/fd/<fd>`, as bytes.
pub open spec fn fd_link_path_spec(fd: nat) -> Seq<u8> {
    proc_fd_dir() + dec_digits(fd)
}

/// Append the decimal digits of `n` to `out`.
fn push_decimal(n: u32, out: &mut Vec<u8>)
    ensures
        final(out)@ == old(out)@ + dec_digits(n as nat),
    decreases n,
{
    if n < 10 {
        out.push(0x30 + n as u8);
        assert(out@ =~= old(out)@ + dec_digits(n as nat));
    } else {
        push_decimal(n / 10, out);
        out.push(0x30 + (n % 10) as u8);
        assert(out@ =~= old(out)@ + dec_digits(n as nat));
    }
}

/// Build the query path `/proc/self/fd/<fd>` for an open descriptor.
///
/// Open descriptors are nonnegative; the pseudo-filesystem has no entry for
/// anything else.
pub fn fd_link_path(fd: i32) -> (out: Vec<u8>)
    requires
        fd >= 0,
    ensures
        out@ == fd_link_path_spec(fd as nat),
{
    let mut out: Vec<u8> = Vec::new();
    out.push(47);
    out.push(112);
    out.push(114);
    out.push(111);
    out.push(99);
    out.push(47);
    out.push(115);
    out.push(101);
    out.push(108);
    out.push(102);
    out.push(47);
    out.push(102);
    out.push(100);
    out.push(47);
    assert(out@ =~= proc_fd_dir());
    push_decimal(fd as u32, &mut out);
    out
}

impl FilePath for ProcFsStrategy {
    type Unit = u8;

    /// The kernel returns the link target directly: no decoding is needed.
    open spec fn path_spec(raw: Seq<u8>) -> Seq<u8> {
        raw
    }

    fn path(&self, raw: Vec<u8>) -> (out: Vec<u8>) {
        raw
    }
}

} // verus!
