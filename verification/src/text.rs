//! Text carried in AMT responses: bytes decoded as UTF-8 with replacement of
//! invalid sequences, and trailing NUL characters removed.
use vstd::prelude::*;
use vstd::string::StrSliceExecFns;
use vstd::utf8::{decode_utf8, valid_utf8};

verus! {

/// The characters that `String::from_utf8_lossy` produces for `bytes`.
pub uninterp spec fn utf8_lossy(bytes: Seq<u8>) -> Seq<char>;

/// Calls `String::from_utf8_lossy` and takes ownership of the result.  The
/// contract claims that the result is a function of the bytes alone, that
/// valid UTF-8 comes back decoded unchanged, and that there are no more
/// characters than bytes (each character, decoded or a U+FFFD replacement,
/// uses up at least one byte), as std documents.  Which characters stand for
/// invalid sequences is left unstated.
#[verifier::external_body]
fn decode_utf8_lossy(bytes: &[u8]) -> (s: String)
    ensures
        s@ == utf8_lossy(bytes@),
        valid_utf8(bytes@) ==> s@ == decode_utf8(bytes@),
        s@.len() <= bytes@.len(),
{
    String::from_utf8_lossy(bytes).into_owned()
}

/// `s` without its trailing NUL characters.
pub open spec fn trim_trailing_nuls(s: Seq<char>) -> Seq<char>
    decreases s.len(),
{
    if s.len() > 0 && s.last() == '\0' {
        trim_trailing_nuls(s.drop_last())
    } else {
        s
    }
}

/// The text a response field carries: its bytes decoded leniently as UTF-8,
/// without trailing NUL characters.
pub open spec fn field_text(bytes: Seq<u8>) -> Seq<char> {
    trim_trailing_nuls(utf8_lossy(bytes))
}

/// Trimming keeps a prefix of `s`, drops only NUL characters, and leaves no
/// NUL at the end.
pub proof fn lemma_trim_trailing_nuls(s: Seq<char>)
    ensures
        ({
            let t = trim_trailing_nuls(s);
            &&& t.len() <= s.len()
            &&& t == s.take(t.len() as int)
            &&& forall|i: int| t.len() <= i < s.len() ==> s[i] == '\0'
            &&& t.len() == 0 || t.last() != '\0'
        }),
    decreases s.len(),
{
    if s.len() > 0 && s.last() == '\0' {
        lemma_trim_trailing_nuls(s.drop_last());
        let t = trim_trailing_nuls(s);
        assert(t == s.drop_last().take(t.len() as int));
        assert(t =~= s.take(t.len() as int));
        assert forall|i: int| t.len() <= i < s.len() implies s[i] == '\0' by {
            if i < s.len() - 1 {
                assert(s.drop_last()[i] == s[i]);
            }
        }
    } else {
        assert(s =~= s.take(s.len() as int));
    }
}

/// Trimming `s.take(n)` when the characters from `n` on are all NUL gives the
/// same text as trimming `s`.
proof fn lemma_trim_nul_suffix(s: Seq<char>, n: int)
    requires
        0 <= n <= s.len(),
        forall|i: int| n <= i < s.len() ==> s[i] == '\0',
    ensures
        trim_trailing_nuls(s.take(n)) == trim_trailing_nuls(s),
    decreases s.len() - n,
{
    if n < s.len() {
        assert(s.take(n + 1).drop_last() =~= s.take(n));
        lemma_trim_nul_suffix(s, n + 1);
    } else {
        assert(s.take(n) =~= s);
    }
}

/// Returns `s` without its trailing NUL characters.
pub fn trim_nuls(s: &str) -> (t: String)
    ensures
        t@ == trim_trailing_nuls(s@),
{
    let mut n: usize = s.unicode_len();
    while n > 0 && s.get_char(n - 1) == '\0'
        invariant
            n <= s@.len(),
            forall|i: int| n <= i < s@.len() ==> s@[i] == '\0',
        decreases n,
    {
        n = n - 1;
    }
    proof {
        lemma_trim_nul_suffix(s@, n as int);
        let p = s@.take(n as int);
        if n > 0 {
            assert(p.last() == s@[n - 1]);
        }
        assert(trim_trailing_nuls(p) == p);
    }
    s.substring_char(0, n).to_owned()
}

/// Decodes a response field: lenient UTF-8, trailing NULs removed.  Valid
/// UTF-8 is decoded as it stands; the text has no more characters than the
/// field has bytes and does not end in NUL.
pub fn decode_field_text(bytes: &[u8]) -> (t: String)
    ensures
        t@ == field_text(bytes@),
        valid_utf8(bytes@) ==> t@ == trim_trailing_nuls(decode_utf8(bytes@)),
        t@.len() <= bytes@.len(),
        t@.len() == 0 || t@.last() != '\0',
{
    let s = decode_utf8_lossy(bytes);
    proof {
        lemma_trim_trailing_nuls(s@);
    }
    trim_nuls(s.as_str())
}

} // verus!
