//! Boundary-exact capture of one command's output.
//!
//! A command is written to the shell followed by a `printf` line that prints
//! the session's sentinel, so the sentinel appears in the output stream once,
//! directly after the command's own output. Reading back, the stream is
//! buffered incrementally and scanned for the sentinel, which is matched even
//! when it arrives split across read chunks; everything before the first
//! occurrence is the capture, everything after it is kept for the next one.

use vstd::prelude::*;

use crate::sentinel::SentinelToken;

verus! {

/// The marker occurs in `hay` starting at position `i`.
pub open spec fn marker_at(hay: Seq<u8>, marker: Seq<u8>, i: int) -> bool {
    &&& 0 <= i
    &&& i + marker.len() <= hay.len()
    &&& hay.subrange(i, i + marker.len() as int) == marker
}

/// The marker occurs somewhere in `hay`.
pub open spec fn holds_marker(hay: Seq<u8>, marker: Seq<u8>) -> bool {
    exists|i: int| marker_at(hay, marker, i)
}

/// Bytes the shell reads between a command and its output capture: a newline
/// ending the command's line, then `printf '` opening the sentinel print.
pub open spec fn printf_prefix() -> Seq<u8> {
    seq![10u8, 112u8, 114u8, 105u8, 110u8, 116u8, 102u8, 32u8, 39u8]
}

/// Bytes closing the sentinel print: the quote and the line's newline.
pub open spec fn printf_suffix() -> Seq<u8> {
    seq![39u8, 10u8]
}

/// Exactly what is written to the shell's input to run one command: the
/// command text, then a line telling the shell to print the sentinel.
pub open spec fn framed_spec(cmd: Seq<u8>, token: Seq<u8>) -> Seq<u8> {
    cmd + printf_prefix() + token + printf_suffix()
}

/// Whether the marker occurs at position `i`, by comparing bytes.
fn marker_matches_at(hay: &Vec<u8>, marker: &Vec<u8>, i: usize) -> (b: bool)
    requires
        marker@.len() >= 1,
        i + marker@.len() <= hay@.len(),
    ensures
        b == marker_at(hay@, marker@, i as int),
{
    let n = hay.len();
    let m = marker.len();
    let mut j: usize = 0;
    while j < m
        invariant
            n == hay@.len(),
            m == marker@.len(),
            i + m <= n,
            j <= m,
            forall|k: int| 0 <= k < j ==> hay@[i as int + k] == marker@[k],
        decreases m - j,
    {
        if hay[i + j] != marker[j] {
            proof {
                if marker_at(hay@, marker@, i as int) {
                    assert(hay@.subrange(i as int, i as int + m as int)[j as int]
                        == hay@[i as int + j as int]);
                }
            }
            return false;
        }
        j = j + 1;
    }
    proof {
        assert(hay@.subrange(i as int, i as int + m as int) =~= marker@);
    }
    true
}

/// Position of the first occurrence of the marker in `hay`, if any.
pub fn find_marker(hay: &Vec<u8>, marker: &Vec<u8>) -> (r: Option<usize>)
    requires
        marker@.len() >= 1,
    ensures
        match r {
            Some(i) => {
                &&& marker_at(hay@, marker@, i as int)
                &&& forall|j: int| 0 <= j < i ==> !marker_at(hay@, marker@, j)
            },
            None => !holds_marker(hay@, marker@),
        },
{
    let n = hay.len();
    let m = marker.len();
    if n < m {
        proof {
            assert forall|j: int| !(#[trigger] marker_at(hay@, marker@, j)) by {}
        }
        return None;
    }
    let mut i: usize = 0;
    while i <= n - m
        invariant
            n == hay@.len(),
            m == marker@.len(),
            m >= 1,
            m <= n,
            i <= n - m + 1,
            forall|j: int| 0 <= j < i ==> !marker_at(hay@, marker@, j),
        decreases n - m + 1 - i,
    {
        if marker_matches_at(hay, marker, i) {
            return Some(i);
        }
        i = i + 1;
    }
    proof {
        assert forall|j: int| !(#[trigger] marker_at(hay@, marker@, j)) by {
            if 0 <= j <= n - m {
                assert(!marker_at(hay@, marker@, j));
            }
        }
    }
    None
}

/// The prefix that stops before the first occurrence of the marker holds no
/// occurrence of the marker itself.
proof fn lemma_prefix_free_of_marker(hay: Seq<u8>, marker: Seq<u8>, i: int)
    requires
        marker.len() >= 1,
        0 <= i <= hay.len(),
        forall|j: int| 0 <= j < i ==> !marker_at(hay, marker, j),
    ensures
        !holds_marker(hay.subrange(0, i), marker),
{
    let prefix = hay.subrange(0, i);
    assert forall|j: int| !(#[trigger] marker_at(prefix, marker, j)) by {
        if marker_at(prefix, marker, j) {
            assert(prefix.subrange(j, j + marker.len() as int)
                =~= hay.subrange(j, j + marker.len() as int));
            assert(marker_at(hay, marker, j));
        }
    }
}

/// Incremental scanner for one shell session's output stream.
///
/// Chunks read from the stream are appended to a pending buffer; a capture is
/// taken as soon as the sentinel occurs in it. Bytes past the sentinel stay
/// pending, so the output of one command never leaks into the capture of the
/// previous one, and is never lost for the next.
pub struct OutputScanner {
    /// The session's sentinel bytes.
    pub sentinel: Vec<u8>,
    /// Stream bytes read but not yet returned by a capture.
    pub pending: Vec<u8>,
}

impl OutputScanner {
    /// A usable scanner: the sentinel is non-empty.
    pub open spec fn wf(self) -> bool {
        self.sentinel@.len() >= 1
    }

    /// A scanner for a session using the given sentinel, with nothing pending.
    pub fn new(token: &SentinelToken) -> (r: OutputScanner)
        requires
            token.wf(),
        ensures
            r.wf(),
            r.sentinel@ == token.bytes@,
            r.pending@ =~= Seq::<u8>::empty(),
    {
        let mut sentinel: Vec<u8> = Vec::new();
        sentinel.extend_from_slice(token.bytes.as_slice());
        OutputScanner { sentinel, pending: Vec::new() }
    }

    /// Appends one chunk read from the stream to the pending buffer.
    pub fn push_chunk(&mut self, chunk: &[u8])
        requires
            old(self).wf(),
        ensures
            final(self).wf(),
            final(self).sentinel == old(self).sentinel,
            final(self).pending@ == old(self).pending@ + chunk@,
    {
        self.pending.extend_from_slice(chunk);
    }

    /// Takes one capture if the sentinel has arrived.
    ///
    /// Returns the pending bytes before the first occurrence of the sentinel;
    /// the capture never holds the sentinel itself, and the bytes after the
    /// occurrence remain pending for the next capture. Returns `None`, and
    /// changes nothing, while the sentinel has not arrived in full.
    pub fn try_capture(&mut self) -> (r: Option<Vec<u8>>)
        requires
            old(self).wf(),
        ensures
            final(self).wf(),
            final(self).sentinel == old(self).sentinel,
            match r {
                Some(cap) => {
                    &&& marker_at(old(self).pending@, old(self).sentinel@, cap@.len() as int)
                    &&& cap@ == old(self).pending@.subrange(0, cap@.len() as int)
                    &&& forall|j: int| 0 <= j < cap@.len()
                        ==> !marker_at(old(self).pending@, old(self).sentinel@, j)
                    &&& !holds_marker(cap@, old(self).sentinel@)
                    &&& final(self).pending@ == old(self).pending@.subrange(
                        cap@.len() + old(self).sentinel@.len() as int,
                        old(self).pending@.len() as int,
                    )
                },
                None => {
                    &&& !holds_marker(old(self).pending@, old(self).sentinel@)
                    &&& final(self).pending@ == old(self).pending@
                },
            },
    {
        let found = find_marker(&self.pending, &self.sentinel);
        match found {
            None => None,
            Some(i) => {
                let m = self.sentinel.len();
                let plen = self.pending.len();
                let mut cap: Vec<u8> = Vec::new();
                let mut k: usize = 0;
                while k < i
                    invariant
                        plen == self.pending@.len(),
                        i + m <= plen,
                        k <= i,
                        cap@.len() == k,
                        forall|t: int| 0 <= t < k ==> cap@[t] == self.pending@[t],
                    decreases i - k,
                {
                    cap.push(self.pending[k]);
                    k = k + 1;
                }
                let mut rest: Vec<u8> = Vec::new();
                let mut k2: usize = i + m;
                while k2 < self.pending.len()
                    invariant
                        plen == self.pending@.len(),
                        i + m <= k2 <= plen,
                        rest@.len() == k2 - (i + m),
                        forall|t: int| 0 <= t < rest@.len()
                            ==> rest@[t] == self.pending@[i + m + t],
                    decreases self.pending@.len() - k2,
                {
                    rest.push(self.pending[k2]);
                    k2 = k2 + 1;
                }
                proof {
                    assert(cap@ =~= self.pending@.subrange(0, i as int));
                    assert(rest@ =~= self.pending@.subrange(
                        i + m as int,
                        self.pending@.len() as int,
                    ));
                    lemma_prefix_free_of_marker(self.pending@, self.sentinel@, i as int);
                }
                self.pending = rest;
                Some(cap)
            },
        }
    }
}

/// Exactly what must be written to the shell to run `cmd` and have the
/// sentinel printed after its output: `cmd`, a newline, then
/// `printf '<sentinel>'` on a line of its own.
pub fn frame_command(cmd: &[u8], token: &SentinelToken) -> (r: Vec<u8>)
    requires
        token.wf(),
    ensures
        r@ == framed_spec(cmd@, token.bytes@),
{
    let mut out: Vec<u8> = Vec::new();
    out.extend_from_slice(cmd);
    out.push(10u8);
    out.push(112u8);
    out.push(114u8);
    out.push(105u8);
    out.push(110u8);
    out.push(116u8);
    out.push(102u8);
    out.push(32u8);
    out.push(39u8);
    proof {
        assert(out@ =~= cmd@ + printf_prefix());
    }
    let mut i: usize = 0;
    while i < token.bytes.len()
        invariant
            i <= token.bytes@.len(),
            out@ == cmd@ + printf_prefix() + token.bytes@.subrange(0, i as int),
        decreases token.bytes@.len() - i,
    {
        out.push(token.bytes[i]);
        proof {
            assert(out@ =~= cmd@ + printf_prefix()
                + token.bytes@.subrange(0, i as int + 1));
        }
        i = i + 1;
    }
    out.push(39u8);
    out.push(10u8);
    proof {
        assert(token.bytes@.subrange(0, token.bytes@.len() as int) =~= token.bytes@);
        assert(out@ =~= framed_spec(cmd@, token.bytes@));
    }
    out
}

} // verus!
