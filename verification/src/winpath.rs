//! Windows strategy: the OS reports the final path of a handle through a
//! two-call pattern — probe with an empty buffer for the required length in
//! UTF-16 code units, then fetch into a buffer of exactly that length — and
//! the reported path carries an extended-length prefix that is normalized
//! before it reaches the caller:
//!
//! - `\\?\UNC\server\share\...` becomes `\\server\share\...`;
//! - `\\?\C:\...` becomes `C:\...`;
//! - anything else is returned unchanged.
//!
//! The two checks are ordered and mutually exclusive: the longer UNC prefix
//! is tested first, since every path that carries it also carries the shorter
//! prefix.  The OS calls themselves stay with the caller; the verified part
//! is the length protocol and the prefix rewriting.

use vstd::prelude::*;

use crate::FilePath;

verus! {

/// The Windows path-resolution strategy.
pub struct WinApiStrategy;

/// The extended-length network prefix `\\?\UNC\`, as UTF-16 units.
pub open spec fn unc_prefix() -> Seq<u16> {
    seq![92u16, 92u16, 63u16, 92u16, 85u16, 78u16, 67u16, 92u16]
}

/// The extended-length prefix `\\?\`, as UTF-16 units.
pub open spec fn verbatim_prefix() -> Seq<u16> {
    seq![92u16, 92u16, 63u16, 92u16]
}

/// `s` begins with the units of `p`.
pub open spec fn starts_with(s: Seq<u16>, p: Seq<u16>) -> bool {
    s.len() >= p.len() && s.subrange(0, p.len() as int) == p
}

/// The normalization rule: rewrite `\\?\UNC\` to `\\`, else strip `\\?\`,
/// else leave the path alone.
pub open spec fn normalize_spec(raw: Seq<u16>) -> Seq<u16> {
    if starts_with(raw, unc_prefix()) {
        seq![92u16, 92u16] + raw.subrange(8, raw.len() as int)
    } else if starts_with(raw, verbatim_prefix()) {
        raw.subrange(4, raw.len() as int)
    } else {
        raw
    }
}

/// The ordering of the two prefix checks matters: the UNC prefix is a
/// superset pattern, so every path that begins with `\\?\UNC\` also begins
/// with `\\?\`.
pub proof fn lemma_unc_prefix_is_superset(raw: Seq<u16>)
    requires
        starts_with(raw, unc_prefix()),
    ensures
        starts_with(raw, verbatim_prefix()),
{
    assert(raw.subrange(0, 4) =~= raw.subrange(0, 8).subrange(0, 4));
    assert(raw.subrange(0, 8) == unc_prefix());
    assert(unc_prefix().subrange(0, 4) =~= verbatim_prefix());
}

/// Copy the units of `raw` from position `start` on into a fresh vector.
fn copy_tail(raw: &Vec<u16>, start: usize, out: &mut Vec<u16>)
    requires
        start <= raw@.len(),
    ensures
        final(out)@ == old(out)@ + raw@.subrange(start as int, raw@.len() as int),
{
    let mut i: usize = start;
    while i < raw.len()
        invariant
            start <= i <= raw@.len(),
            out@ == old(out)@ + raw@.subrange(start as int, i as int),
        decreases raw@.len() - i,
    {
        out.push(raw[i]);
        assert(out@ =~= old(out)@ + raw@.subrange(start as int, i + 1));
        i = i + 1;
    }
    assert(out@ =~= old(out)@ + raw@.subrange(start as int, raw@.len() as int));
}

impl WinApiStrategy {
    /// Decide the probe phase: a reported length of zero is a failure; any
    /// other value is the exact number of units to allocate for the fetch.
    pub fn plan_fetch(&self, probed: u32) -> (out: Option<usize>)
        ensures
            match out {
                None => probed == 0,
                Some(size) => probed != 0 && size == probed as usize,
            },
    {
        if probed == 0 {
            None
        } else {
            Some(probed as usize)
        }
    }

    /// Decide the fetch phase and deliver the normalized path.
    ///
    /// `buf` is the buffer the fetch call filled, allocated with exactly the
    /// `probed` length; `written` is the number of units the OS reports it
    /// wrote.  A `written` of zero is a failure, and a `written` that still
    /// reaches `probed` means the path grew between the two calls (a benign
    /// race): both surface as `None`, never as a truncated path.  Otherwise
    /// the buffer is trimmed to the written length and normalized.
    pub fn finish_fetch(&self, buf: Vec<u16>, probed: u32, written: u32) -> (out: Option<Vec<u16>>)
        requires
            buf@.len() == probed,
        ensures
            match out {
                None => written == 0 || written >= probed,
                Some(path) => 0 < written < probed && path@ == normalize_spec(
                    buf@.subrange(0, written as int),
                ),
            },
    {
        if written == 0 || written >= probed {
            None
        } else {
            let mut trimmed = buf;
            trimmed.truncate(written as usize);
            Some(self.path(trimmed))
        }
    }
}

impl FilePath for WinApiStrategy {
    type Unit = u16;

    /// The fetched path with its extended-length prefix normalized.
    open spec fn path_spec(raw: Seq<u16>) -> Seq<u16> {
        normalize_spec(raw)
    }

    fn path(&self, raw: Vec<u16>) -> (out: Vec<u16>) {
        if raw.len() >= 8 && raw[0] == 92 && raw[1] == 92 && raw[2] == 63 && raw[3] == 92
            && raw[4] == 85 && raw[5] == 78 && raw[6] == 67 && raw[7] == 92 {
            proof {
                assert(raw@.subrange(0, 8) =~= unc_prefix());
            }
            let mut out: Vec<u16> = Vec::new();
            out.push(92);
            out.push(92);
            copy_tail(&raw, 8, &mut out);
            out
        } else if raw.len() >= 4 && raw[0] == 92 && raw[1] == 92 && raw[2] == 63 && raw[3] == 92 {
            proof {
                assert(raw@.subrange(0, 4) =~= verbatim_prefix());
            }
            let mut out: Vec<u16> = Vec::new();
            copy_tail(&raw, 4, &mut out);
            out
        } else {
            raw
        }
    }
}

} // verus!
