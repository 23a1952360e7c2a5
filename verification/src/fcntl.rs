//! macOS/iOS strategy: a control operation on the descriptor asks the kernel
//! to fill a fixed buffer of platform-maximum path length with the canonical
//! path as a null-terminated C string.
//!
//! The control operation itself is raw OS interop and stays with the caller.
//! The verified part is the post-processing: the kernel writes a
//! null-terminated string that may be shorter than the buffer, so every zero
//! byte is stripped — not only trailing ones — to recover the exact path
//! bytes without trusting anything past the terminator.

use vstd::prelude::*;

use crate::FilePath;

verus! {

/// The macOS/iOS path-resolution strategy.
pub struct FcntlStrategy;

/// `s` with every zero byte removed.
pub open spec fn strip_nul(s: Seq<u8>) -> Seq<u8> {
    s.filter(|b: u8| b != 0)
}

/// Stripping commutes with appending one byte: a zero byte vanishes, any
/// other byte is kept at the end.
proof fn lemma_strip_nul_push(s: Seq<u8>, b: u8)
    ensures
        strip_nul(s.push(b)) == if b != 0 {
            strip_nul(s).push(b)
        } else {
            strip_nul(s)
        },
{
    reveal_with_fuel(Seq::<u8>::filter, 2);
    assert(s.push(b).drop_last() =~= s);
}

/// A sequence without zero bytes is left unchanged by stripping.
proof fn lemma_strip_nul_all_kept(s: Seq<u8>)
    requires
        forall|i: int| 0 <= i < s.len() ==> s[i] != 0,
    ensures
        strip_nul(s) == s,
    decreases s.len(),
{
    if s.len() == 0 {
        assert(strip_nul(s) =~= s);
    } else {
        lemma_strip_nul_all_kept(s.drop_last());
        lemma_strip_nul_push(s.drop_last(), s.last());
        assert(s.drop_last().push(s.last()) =~= s);
    }
}

/// A sequence of only zero bytes strips to the empty sequence.
proof fn lemma_strip_nul_all_dropped(s: Seq<u8>)
    requires
        forall|i: int| 0 <= i < s.len() ==> s[i] == 0,
    ensures
        strip_nul(s) == Seq::<u8>::empty(),
    decreases s.len(),
{
    if s.len() == 0 {
        assert(strip_nul(s) =~= Seq::<u8>::empty());
    } else {
        lemma_strip_nul_all_dropped(s.drop_last());
        lemma_strip_nul_push(s.drop_last(), s.last());
        assert(s.drop_last().push(s.last()) =~= s);
    }
}

/// A path that exactly fills the buffer survives the strip intact: when the
/// kernel wrote `content` (which, being a path, holds no zero byte) followed
/// by zero padding, stripping returns exactly `content` — no truncation, no
/// corruption, no embedded zeros.
pub proof fn lemma_strip_null_padded(content: Seq<u8>, pad: Seq<u8>)
    requires
        forall|i: int| 0 <= i < content.len() ==> content[i] != 0,
        forall|i: int| 0 <= i < pad.len() ==> pad[i] == 0,
    ensures
        strip_nul(content + pad) == content,
    decreases pad.len(),
{
    if pad.len() == 0 {
        assert(content + pad =~= content);
        lemma_strip_nul_all_kept(content);
    } else {
        lemma_strip_null_padded(content, pad.drop_last());
        assert((content + pad).drop_last() =~= content + pad.drop_last());
        lemma_strip_nul_push(content + pad.drop_last(), pad.last());
        assert((content + pad.drop_last()).push(pad.last()) =~= content + pad);
    }
}

impl FcntlStrategy {
    /// Interpret the raw return contract of the control operation: a
    /// negative return value is the failure sentinel and yields no path;
    /// otherwise the kernel filled `buf` and the stripped bytes are the
    /// path.  The OS error behind a failure stays with the caller.
    pub fn finish_query(&self, ret: i32, buf: Vec<u8>) -> (out: Option<Vec<u8>>)
        ensures
            match out {
                None => ret < 0,
                Some(path) => ret >= 0 && path@ == strip_nul(buf@),
            },
    {
        if ret < 0 {
            None
        } else {
            Some(self.path(buf))
        }
    }
}

impl FilePath for FcntlStrategy {
    type Unit = u8;

    /// Every zero byte is stripped from the kernel-filled buffer.
    open spec fn path_spec(raw: Seq<u8>) -> Seq<u8> {
        strip_nul(raw)
    }

    fn path(&self, raw: Vec<u8>) -> (out: Vec<u8>) {
        let mut out: Vec<u8> = Vec::new();
        let mut i: usize = 0;
        while i < raw.len()
            invariant
                i <= raw.len(),
                out@ == strip_nul(raw@.subrange(0, i as int)),
            decreases raw.len() - i,
        {
            let b = raw[i];
            proof {
                assert(raw@.subrange(0, i + 1) =~= raw@.subrange(0, i as int).push(raw@[i as int]));
                lemma_strip_nul_push(raw@.subrange(0, i as int), raw@[i as int]);
            }
            if b != 0 {
                out.push(b);
            }
            i = i + 1;
        }
        proof {
            assert(raw@.subrange(0, raw@.len() as int) =~= raw@);
        }
        out
    }
}

} // verus!
