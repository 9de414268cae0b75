//! Generation of the sentinel that delimits one command's output.

use vstd::prelude::*;

verus! {

/// Length of a sentinel, in bytes. Long enough that an accidental collision
/// with real command output is negligible.
pub const SENTINEL_LEN: usize = 100;

/// An ASCII digit or letter: the only bytes a sentinel is made of, so the
/// sentinel never holds a shell metacharacter, a quote or a `printf` escape.
pub open spec fn is_sentinel_byte(b: u8) -> bool {
    ||| 48 <= b <= 57
    ||| 65 <= b <= 90
    ||| 97 <= b <= 122
}

/// A token of [`SENTINEL_LEN`] alphanumeric bytes, generated once per shell
/// session, whose appearance in the output stream marks the end of one
/// command's output.
pub struct SentinelToken {
    /// The token's bytes.
    pub bytes: Vec<u8>,
}

/// Relies on `rand::rngs::ThreadRng` through `rand::Rng::fill` on a `[u8]`
/// destination: fills the whole buffer with random bytes and changes its
/// length in no way.
#[verifier::external_body]
fn fill_random_bytes(n: usize) -> (r: Vec<u8>)
    ensures
        r@.len() == n,
{
    let mut buf = vec![0u8; n];
    rand::Rng::fill(&mut rand::thread_rng(), &mut buf[..]);
    buf
}

/// Maps an arbitrary byte onto the 62 ASCII alphanumerics.
fn alphanumeric_of(b: u8) -> (r: u8)
    ensures
        is_sentinel_byte(r),
{
    let v = b % 62;
    if v < 10 {
        48 + v
    } else if v < 36 {
        65 + (v - 10)
    } else {
        97 + (v - 36)
    }
}

impl SentinelToken {
    /// A well-formed token: exactly [`SENTINEL_LEN`] bytes, all alphanumeric.
    pub open spec fn wf(self) -> bool {
        &&& self.bytes@.len() == SENTINEL_LEN
        &&& forall|i: int| 0 <= i < self.bytes@.len() ==> is_sentinel_byte(#[trigger] self.bytes@[i])
    }

    /// Draws a fresh token. Called once per shell session, so tokens are
    /// never shared between sessions.
    pub fn generate() -> (t: SentinelToken)
        ensures
            t.wf(),
    {
        let raw = fill_random_bytes(SENTINEL_LEN);
        let mut bytes: Vec<u8> = Vec::new();
        let mut i: usize = 0;
        while i < raw.len()
            invariant
                raw@.len() == SENTINEL_LEN,
                i <= raw@.len(),
                bytes@.len() == i,
                forall|k: int| 0 <= k < bytes@.len() ==> is_sentinel_byte(#[trigger] bytes@[k]),
            decreases raw@.len() - i,
        {
            bytes.push(alphanumeric_of(raw[i]));
            i = i + 1;
        }
        SentinelToken { bytes }
    }
}

} // verus!
