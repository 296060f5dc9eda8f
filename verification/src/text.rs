//! String facts and helpers shared by the rest of the crate.

use vstd::prelude::*;
use vstd::utf8::*;

verus! {

/// Number of bytes that `s` occupies in UTF-8.
pub open spec fn byte_len(s: Seq<char>) -> nat {
    encode_utf8(s).len()
}

/// Only the empty string occupies zero bytes.
pub proof fn lemma_byte_len_zero(s: Seq<char>)
    ensures
        byte_len(s) == 0 <==> s.len() == 0,
{
    if s.len() > 0 {
        assert(encode_scalar(s[0] as u32).len() >= 1);
    }
}

/// Whether two string slices hold the same text.
pub fn str_eq(a: &str, b: &str) -> (r: bool)
    ensures
        r == (a@ == b@),
{
    broadcast use encode_utf8_decode_utf8;

    let x = a.as_bytes();
    let y = b.as_bytes();
    if x.len() != y.len() {
        return false;
    }
    let mut i: usize = 0;
    while i < x.len()
        invariant
            x.len() == y.len(),
            i <= x.len(),
            forall|j: int| 0 <= j < i ==> x@[j] == y@[j],
            x@ == encode_utf8(a@),
            y@ == encode_utf8(b@),
        decreases x.len() - i,
    {
        if x[i] != y[i] {
            return false;
        }
        i += 1;
    }
    assert(x@ =~= y@);
    assert(decode_utf8(encode_utf8(a@)) == a@);
    assert(decode_utf8(encode_utf8(b@)) == b@);
    true
}

/// The lowercase form of one ASCII-range character: `A`..`Z` move to
/// `a`..`z`, every other character stays.
pub open spec fn ascii_lower_char(c: char) -> char {
    if 'A' <= c && c <= 'Z' {
        ((c as u32) + 32) as char
    } else {
        c
    }
}

/// `s` with each character replaced by its ASCII lowercase form.
pub open spec fn ascii_lowercase(s: Seq<char>) -> Seq<char> {
    Seq::new(s.len(), |i: int| ascii_lower_char(s[i]))
}

/// What `str::to_lowercase` returns for the text `s`: its lowercase form
/// under the Unicode case mapping.
pub uninterp spec fn unicode_lowercase(s: Seq<char>) -> Seq<char>;

/// The lowercase form of `s`. On text made of ASCII characters only it is
/// spelled out; on other text it is whatever the Unicode mapping gives.
pub open spec fn lowercase(s: Seq<char>) -> Seq<char> {
    if is_ascii_chars(s) {
        ascii_lowercase(s)
    } else {
        unicode_lowercase(s)
    }
}

/// Calls `str::to_lowercase`. Trusted: the result is the Unicode lowercase
/// form of `s`, and for text made of ASCII characters only that form is the
/// ASCII one (`A`..`Z` become `a`..`z`, nothing else changes).
#[verifier::external_body]
pub(crate) fn str_to_lowercase(s: &str) -> (r: String)
    ensures
        r@ == unicode_lowercase(s@),
        is_ascii_chars(s@) ==> r@ == ascii_lowercase(s@),
{
    s.to_lowercase()
}

/// Two sequences that share a head are prefix and whole exactly when their
/// tails are.
proof fn lemma_prefix_after_head<T>(head: Seq<T>, a: Seq<T>, b: Seq<T>)
    ensures
        (head + a).is_prefix_of(head + b) <==> a.is_prefix_of(b),
{
    let n = head.len() as int;
    let m = (head + a).len() as int;
    if (head + a).is_prefix_of(head + b) {
        assert forall|i: int| 0 <= i < a.len() implies a[i] == b[i] by {
            assert((head + a)[n + i] == (head + b).subrange(0, m)[n + i]);
        }
        assert(a =~= b.subrange(0, a.len() as int));
    }
    if a.is_prefix_of(b) {
        assert forall|i: int| 0 <= i < m implies (head + a)[i] == (head + b)[i] by {
            if i >= n {
                assert(a[i - n] == b.subrange(0, a.len() as int)[i - n]);
            }
        }
        assert((head + a) =~= (head + b).subrange(0, m));
    }
}

/// Text begins with `p` exactly when its UTF-8 encoding begins with the
/// encoding of `p`.
pub proof fn lemma_prefix_of_encoding(p: Seq<char>, s: Seq<char>)
    ensures
        encode_utf8(p).is_prefix_of(encode_utf8(s)) <==> p.is_prefix_of(s),
    decreases p.len(),
{
    let bp = encode_utf8(p);
    let bs = encode_utf8(s);
    if p.len() == 0 {
        assert(bp =~= bs.subrange(0, 0));
        assert(p =~= s.subrange(0, 0));
    } else if s.len() == 0 {
        lemma_byte_len_zero(p);
    } else {
        let tp = p.drop_first();
        let ts = s.drop_first();
        let ep = encode_scalar(p[0] as u32);
        let es = encode_scalar(s[0] as u32);
        assert(bp == ep + encode_utf8(tp));
        assert(bs == es + encode_utf8(ts));
        assert(p =~= seq![p[0]] + tp);
        assert(s =~= seq![s[0]] + ts);
        lemma_prefix_of_encoding(tp, ts);
        if p[0] == s[0] {
            lemma_prefix_after_head(ep, encode_utf8(tp), encode_utf8(ts));
            lemma_prefix_after_head(seq![p[0]], tp, ts);
        } else {
            if p.is_prefix_of(s) {
                assert(p[0] == s.subrange(0, p.len() as int)[0]);
            }
            if bp.is_prefix_of(bs) {
                encode_utf8_first_scalar(p);
                encode_utf8_first_scalar(s);
                assert forall|i: int| 0 <= i < bp.len() implies bp[i] == bs[i] by {
                    assert(bp[i] == bs.subrange(0, bp.len() as int)[i]);
                }
                assert(decode_first_scalar(bp) == decode_first_scalar(bs));
                char_u32_cast(p[0], p[0] as u32);
                char_u32_cast(s[0], s[0] as u32);
            }
        }
    }
}

/// Whether `s` begins with `prefix`.
pub fn starts_with(s: &str, prefix: &str) -> (r: bool)
    ensures
        r == prefix@.is_prefix_of(s@),
{
    let x = s.as_bytes();
    let y = prefix.as_bytes();
    proof {
        lemma_prefix_of_encoding(prefix@, s@);
    }
    if y.len() > x.len() {
        return false;
    }
    let mut i: usize = 0;
    while i < y.len()
        invariant
            y.len() <= x.len(),
            i <= y.len(),
            forall|j: int| 0 <= j < i ==> x@[j] == y@[j],
            x@ == encode_utf8(s@),
            y@ == encode_utf8(prefix@),
            y@.is_prefix_of(x@) <==> prefix@.is_prefix_of(s@),
        decreases y.len() - i,
    {
        if x[i] != y[i] {
            assert(y@[i as int] != x@.subrange(0, y@.len() as int)[i as int]);
            return false;
        }
        i += 1;
    }
    assert(y@ =~= x@.subrange(0, y@.len() as int));
    true
}

/// Lowercasing ASCII text keeps it ASCII, and doing it twice changes nothing
/// more.
pub proof fn lemma_lowercase_ascii(s: Seq<char>)
    requires
        is_ascii_chars(s),
    ensures
        lowercase(s) == ascii_lowercase(s),
        is_ascii_chars(lowercase(s)),
        lowercase(lowercase(s)) == lowercase(s),
{
    let once = ascii_lowercase(s);
    assert forall|i: int| 0 <= i < once.len() implies '\0' <= #[trigger] once[i] <= '\u{7f}' by {
        assert('\0' <= s[i] <= '\u{7f}');
    }
    assert(ascii_lowercase(once) =~= once);
}

} // verus!
