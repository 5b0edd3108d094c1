//! C string handling: NUL-terminated character buffers and the checks that
//! `CString` construction performs.

use vstd::prelude::*;
use vstd::string::StringSliceAdditionalSpecFns;
use vstd::utf8::*;

use crate::error::{Error, ErrorCode};

verus! {

/// Index of the first NUL byte of `s`, or `s.len()` when it holds none.
pub open spec fn nul_index(s: Seq<u8>) -> nat
    decreases s.len(),
{
    if s.len() == 0 {
        0
    } else if s[0] == 0 {
        0
    } else {
        1 + nul_index(s.drop_first())
    }
}

/// The C string held by a character buffer: the bytes before the first NUL,
/// or the whole buffer when it holds no NUL.
pub open spec fn c_prefix(s: Seq<u8>) -> Seq<u8> {
    s.take(nul_index(s) as int)
}

/// `nul_index` is the first NUL, or the length when there is none.
pub proof fn lemma_nul_index(s: Seq<u8>)
    ensures
        nul_index(s) <= s.len(),
        forall|i: int| 0 <= i < nul_index(s) ==> s[i] != 0,
        nul_index(s) < s.len() ==> s[nul_index(s) as int] == 0,
    decreases s.len(),
{
    if s.len() > 0 && s[0] != 0 {
        lemma_nul_index(s.drop_first());
        assert forall|i: int| 0 <= i < nul_index(s) implies s[i] != 0 by {
            if i > 0 {
                assert(s[i] == s.drop_first()[i - 1]);
            }
        }
    }
}

/// Any index that is NUL-free before it and NUL (or the end) at it is `nul_index`.
proof fn lemma_nul_index_unique(s: Seq<u8>, k: int)
    requires
        0 <= k <= s.len(),
        forall|i: int| 0 <= i < k ==> s[i] != 0,
        k < s.len() ==> s[k] == 0,
    ensures
        nul_index(s) == k,
    decreases s.len(),
{
    if s.len() > 0 && s[0] != 0 {
        assert(k > 0);
        let t = s.drop_first();
        assert forall|i: int| 0 <= i < k - 1 implies t[i] != 0 by {
            assert(t[i] == s[i + 1]);
        }
        if k - 1 < t.len() {
            assert(t[k - 1] == s[k]);
        }
        lemma_nul_index_unique(t, k - 1);
    }
}

/// A buffer without NUL holds a C string that is the whole buffer.
pub proof fn lemma_c_prefix_nul_free(s: Seq<u8>)
    requires
        !s.contains(0u8),
    ensures
        c_prefix(s) == s,
{
    assert forall|i: int| 0 <= i < s.len() implies s[i] != 0u8 by {
        if s[i] == 0u8 {
            assert(s.contains(0u8));
        }
    }
    lemma_nul_index_unique(s, s.len() as int);
    assert(s.take(s.len() as int) =~= s);
}

/// A buffer whose first NUL is at `k` holds the C string of its first `k` bytes.
pub proof fn lemma_c_prefix_first_nul(s: Seq<u8>, k: int)
    requires
        0 <= k < s.len(),
        s[k] == 0,
        forall|i: int| 0 <= i < k ==> s[i] != 0,
    ensures
        c_prefix(s) == s.take(k),
{
    lemma_nul_index_unique(s, k);
}

/// Position of the first NUL byte in `bytes` (its length when it holds none).
pub fn nul_position(bytes: &[u8]) -> (k: usize)
    ensures
        k == nul_index(bytes@),
        k <= bytes@.len(),
        forall|i: int| 0 <= i < k ==> bytes@[i] != 0,
        k < bytes@.len() ==> bytes@[k as int] == 0,
{
    let mut k: usize = 0;
    while k < bytes.len()
        invariant
            k <= bytes@.len(),
            forall|i: int| 0 <= i < k ==> bytes@[i] != 0,
        ensures
            k <= bytes@.len(),
            forall|i: int| 0 <= i < k ==> bytes@[i] != 0,
            k < bytes@.len() ==> bytes@[k as int] == 0,
        decreases bytes@.len() - k,
    {
        if bytes[k] == 0 {
            break;
        }
        k = k + 1;
    }
    proof {
        lemma_nul_index_unique(bytes@, k as int);
    }
    k
}

/// What `String::from_utf8_lossy` makes of a byte sequence: its UTF-8
/// decoding, with each invalid sequence replaced by U+FFFD.
pub uninterp spec fn lossy_utf8(bytes: Seq<u8>) -> Seq<char>;

/// `s` is the text of `bytes`: their lossy decoding, which for valid UTF-8 is
/// the ordinary decoding.
pub open spec fn is_text_of(bytes: Seq<u8>, s: Seq<char>) -> bool {
    &&& s == lossy_utf8(bytes)
    &&& valid_utf8(bytes) ==> s == decode_utf8(bytes)
}

/// Calls `String::from_utf8_lossy` and takes the owned string. Claimed: the
/// result is `lossy_utf8` of the bytes, and, as std documents, valid UTF-8 is
/// decoded unchanged.
#[verifier::external_body]
pub(crate) fn utf8_lossy(bytes: &[u8]) -> (s: String)
    ensures
        s@ == lossy_utf8(bytes@),
        valid_utf8(bytes@) ==> s@ == decode_utf8(bytes@),
{
    String::from_utf8_lossy(bytes).into_owned()
}

/// The first `k` bytes of `buf`, copied.
pub fn bytes_prefix(buf: &[u8], k: usize) -> (out: Vec<u8>)
    requires
        k <= buf@.len(),
    ensures
        out@ == buf@.take(k as int),
{
    let mut out: Vec<u8> = Vec::new();
    let mut i: usize = 0;
    while i < k
        invariant
            k <= buf@.len(),
            i <= k,
            out@ == buf@.take(i as int),
        decreases k - i,
    {
        out.push(buf[i]);
        i = i + 1;
        assert(out@ =~= buf@.take(i as int));
    }
    out
}

/// The text of a character buffer: everything before the first NUL (the whole
/// buffer when it holds none), decoded lossily.
pub fn c_array_to_string(buf: &[u8]) -> (s: String)
    ensures
        is_text_of(c_prefix(buf@), s@),
{
    let n = nul_position(buf);
    let prefix = bytes_prefix(buf, n);
    utf8_lossy(prefix.as_slice())
}

/// The text of a C string that may be absent: an absent string reads as empty.
pub fn c_str_or_empty(p: Option<&[u8]>) -> (s: String)
    ensures
        p is None ==> s@ == Seq::<char>::empty(),
        p matches Some(b) ==> is_text_of(b@, s@),
{
    match p {
        None => String::new(),
        Some(b) => utf8_lossy(b),
    }
}

/// The text of a C string that may be absent, keeping the absence.
pub fn opt_c_str(p: Option<&[u8]>) -> (s: Option<String>)
    ensures
        p is None <==> s is None,
        p matches Some(b) ==> s matches Some(t) && is_text_of(b@, t@),
{
    match p {
        None => None,
        Some(b) => Some(utf8_lossy(b)),
    }
}

/// The error of a string that cannot become a C string: the byte position of
/// its first NUL.
#[derive(Debug, Clone, Copy, PartialEq, Eq, Structural)]
pub struct NulError {
    pub nul_position: usize,
}

/// Checks that `s` can become a C string, as `CString::new` does: refused,
/// with the position of the first NUL, when its bytes hold one.
pub fn check_c_string(s: &str) -> (r: Result<(), NulError>)
    ensures
        r is Ok <==> !has_nul(s),
        r matches Err(e) ==> e.nul_position == nul_index(s.spec_bytes()),
{
    let bytes = s.as_bytes();
    let k = nul_position(bytes);
    if k < bytes.len() {
        Err(NulError { nul_position: k })
    } else {
        proof {
            assert forall|i: int| 0 <= i < bytes@.len() implies bytes@[i] != 0u8 by {}
        }
        Ok(())
    }
}

/// Checks that `s` can become a C string for a chiaki call, reporting a NUL
/// in it as chiaki's `InvalidData` error.
pub fn c_string_or_invalid_data(s: &str) -> (r: Result<(), Error>)
    ensures
        r is Ok <==> !has_nul(s),
        r matches Err(e) ==> e.0 == ErrorCode::InvalidData,
{
    match check_c_string(s) {
        Ok(()) => Ok(()),
        Err(_) => Err(Error(ErrorCode::InvalidData)),
    }
}

/// Whether `s` holds a NUL byte, which `CString::new` refuses.
pub open spec fn has_nul(s: &str) -> bool {
    s.spec_bytes().contains(0u8)
}

/// Whether the UTF-8 encoding of `chars` holds a NUL byte.
pub open spec fn chars_have_nul(chars: Seq<char>) -> bool {
    encode_utf8(chars).contains(0u8)
}

} // verus!
