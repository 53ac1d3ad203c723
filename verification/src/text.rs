//! Text primitives: substrings, equality, blankness and lowercase. Search
//! and comparison run over UTF-8 bytes and are stated over characters.

use vstd::prelude::*;
use vstd::string::*;
use vstd::utf8::*;

verus! {

/// `needle` stands in `hay` at offset `at`.
pub open spec fn occurs_at<T>(hay: Seq<T>, needle: Seq<T>, at: int) -> bool {
    &&& 0 <= at
    &&& at + needle.len() <= hay.len()
    &&& hay.subrange(at, at + needle.len()) =~= needle
}

/// `needle` stands somewhere in `hay` as a contiguous run.
pub open spec fn occurs<T>(hay: Seq<T>, needle: Seq<T>) -> bool {
    exists|at: int| occurs_at(hay, needle, at)
}

/// `needle` is a substring of `hay`: its characters stand somewhere in
/// `hay`, one after the other.
pub open spec fn contains_text(hay: Seq<char>, needle: Seq<char>) -> bool {
    occurs(hay, needle)
}

/// Length of a text in UTF-8 bytes.
pub open spec fn byte_len(text: Seq<char>) -> nat {
    encode_utf8(text).len()
}

/// The lowercase form of a text, as `str::to_lowercase` computes it.
pub uninterp spec fn lowercased(text: Seq<char>) -> Seq<char>;

/// The character has the Unicode property `White_Space`; these are the
/// characters that `str::trim` takes away.
pub open spec fn is_white_space(c: char) -> bool {
    let code = c as u32;
    ||| 0x09 <= code <= 0x0d
    ||| code == 0x20
    ||| code == 0x85
    ||| code == 0xa0
    ||| code == 0x1680
    ||| 0x2000 <= code <= 0x200a
    ||| code == 0x2028
    ||| code == 0x2029
    ||| code == 0x202f
    ||| code == 0x205f
    ||| code == 0x3000
}

/// A text is blank when nothing but whitespace stands in it.
pub open spec fn is_blank(text: Seq<char>) -> bool {
    forall|i: int| 0 <= i < text.len() ==> is_white_space(#[trigger] text[i])
}

/// The first `limit` characters of a text, or all of it when it is shorter.
pub open spec fn leading_chars(text: Seq<char>, limit: nat) -> Seq<char> {
    if text.len() <= limit {
        text
    } else {
        text.subrange(0, limit as int)
    }
}

/// Calls `str::to_lowercase`. Trusted: the result is named `lowercased` of
/// the input; nothing else is claimed of it.
#[verifier::external_body]
pub(crate) fn to_lowercase(text: &str) -> (lower: String)
    ensures
        lower@ == lowercased(text@),
{
    text.to_lowercase()
}

/// Two texts are equal exactly when their UTF-8 encodings are.
pub proof fn lemma_utf8_injective(a: Seq<char>, b: Seq<char>)
    requires
        encode_utf8(a) == encode_utf8(b),
    ensures
        a == b,
{
    encode_utf8_decode_utf8(a);
    encode_utf8_decode_utf8(b);
}

/// Whether `needle` stands in `hay` at offset `at`.
fn bytes_match_at(hay: &[u8], needle: &[u8], at: usize) -> (hit: bool)
    requires
        at + needle@.len() <= hay@.len(),
    ensures
        hit == occurs_at(hay@, needle@, at as int),
{
    let n = needle.len();
    let h = hay.len();
    let mut k: usize = 0;
    while k < n
        invariant
            n == needle@.len(),
            h == hay@.len(),
            at + n <= h,
            k <= n,
            forall|j: int| 0 <= j < k ==> hay@[at + j] == needle@[j],
        decreases n - k,
    {
        if hay[at + k] != needle[k] {
            proof {
                let window = hay@.subrange(at as int, at + n);
                assert(window[k as int] == hay@[at + k]);
            }
            return false;
        }
        k += 1;
    }
    true
}

/// Whether the bytes `needle` stand somewhere in the bytes `hay`.
pub fn bytes_contain(hay: &[u8], needle: &[u8]) -> (found: bool)
    ensures
        found == occurs(hay@, needle@),
{
    let h = hay.len();
    let n = needle.len();
    if n > h {
        return false;
    }
    let last = h - n;
    let mut at: usize = 0;
    while at <= last
        invariant
            h == hay@.len(),
            n == needle@.len(),
            n <= h,
            last == h - n,
            at <= last + 1,
            forall|p: int| 0 <= p < at ==> !occurs_at(hay@, needle@, p),
        decreases last + 1 - at,
    {
        if bytes_match_at(hay, needle, at) {
            return true;
        }
        at += 1;
    }
    false
}

/// The encoding of two texts, one after the other, is the encoding of the
/// first followed by the encoding of the second.
pub proof fn lemma_encode_concat(a: Seq<char>, b: Seq<char>)
    ensures
        encode_utf8(a + b) =~= encode_utf8(a) + encode_utf8(b),
    decreases a.len(),
{
    if a.len() == 0 {
        assert(a + b =~= b);
    } else {
        assert((a + b).drop_first() =~= a.drop_first() + b);
        lemma_encode_concat(a.drop_first(), b);
    }
}

/// Bytes that are valid UTF-8 and begin with valid UTF-8 end with valid
/// UTF-8, and decode to what the two parts decode to.
pub proof fn lemma_decode_concat(front: Seq<u8>, back: Seq<u8>)
    requires
        valid_utf8(front),
        valid_utf8(front + back),
    ensures
        valid_utf8(back),
        decode_utf8(front + back) =~= decode_utf8(front) + decode_utf8(back),
    decreases front.len(),
{
    if front.len() == 0 {
        assert(front + back =~= back);
    } else {
        let whole = front + back;
        let width = length_of_first_scalar(front);
        assert(width <= front.len());
        assert(forall|i: int| 0 <= i < width ==> whole[i] == front[i]);
        assert(pop_first_scalar(whole) =~= pop_first_scalar(front) + back);
        lemma_decode_concat(pop_first_scalar(front), back);
    }
}

/// A text stands in another text exactly where its encoding stands in the
/// encoding of the other, one character for one run of bytes.
pub proof fn lemma_substring_by_bytes(hay: Seq<char>, needle: Seq<char>)
    ensures
        occurs(encode_utf8(hay), encode_utf8(needle)) == contains_text(hay, needle),
{
    let long = encode_utf8(hay);
    let short = encode_utf8(needle);
    if contains_text(hay, needle) {
        let at = choose|at: int| occurs_at(hay, needle, at);
        let before = hay.subrange(0, at);
        let after = hay.subrange(at + needle.len(), hay.len() as int);
        assert(hay =~= before + (needle + after));
        lemma_encode_concat(before, needle + after);
        lemma_encode_concat(needle, after);
        assert(occurs_at(long, short, encode_utf8(before).len() as int));
    }
    if occurs(long, short) {
        let at = choose|at: int| occurs_at(long, short, at);
        if needle.len() == 0 {
            assert(occurs_at(hay, needle, 0));
        } else {
            encode_utf8_valid_utf8(hay);
            encode_utf8_valid_utf8(needle);
            encode_utf8_decode_utf8(hay);
            encode_utf8_decode_utf8(needle);
            assert(short.len() > 0) by {
                if short.len() == 0 {
                    assert(decode_utf8(short).len() == 0);
                }
            }
            assert(long.subrange(at, at + short.len())[0] == short[0]);
            is_char_boundary_start_end_of_seq(short);
            is_char_boundary_iff_not_is_continuation_byte(short, 0);
            is_char_boundary_iff_not_is_continuation_byte(long, at);
            valid_utf8_split(long, at);
            decode_utf8_split(long, at);
            let front = long.subrange(0, at);
            let back = long.subrange(at, long.len() as int);
            let rest = long.subrange(at + short.len(), long.len() as int);
            assert(back =~= short + rest);
            lemma_decode_concat(short, rest);
            let skipped = decode_utf8(front).len() as int;
            assert(hay =~= decode_utf8(front) + (needle + decode_utf8(rest)));
            assert(occurs_at(hay, needle, skipped));
        }
    }
}

/// Whether `needle` is a substring of `hay`.
pub fn contains(hay: &str, needle: &str) -> (found: bool)
    ensures
        found == contains_text(hay@, needle@),
{
    proof {
        lemma_substring_by_bytes(hay@, needle@);
    }
    bytes_contain(hay.as_bytes(), needle.as_bytes())
}

/// Whether two texts are the same.
pub fn same_text(a: &str, b: &str) -> (same: bool)
    ensures
        same == (a@ == b@),
{
    let x = a.as_bytes();
    let y = b.as_bytes();
    if x.len() != y.len() {
        return false;
    }
    let hit = bytes_match_at(x, y, 0);
    proof {
        if hit {
            assert(x@.subrange(0, x@.len() as int) =~= x@);
            lemma_utf8_injective(a@, b@);
        }
    }
    hit
}

/// The first `limit` characters of `text`.
pub fn take_chars(text: &str, limit: usize) -> (head: String)
    ensures
        head@ == leading_chars(text@, limit as nat),
{
    let total = text.unicode_len();
    if total <= limit {
        text.to_owned()
    } else {
        text.substring_char(0, limit).to_owned()
    }
}

/// Whether the character has the Unicode property `White_Space`.
pub fn is_whitespace_char(c: char) -> (white: bool)
    ensures
        white == is_white_space(c),
{
    let code = c as u32;
    (0x09 <= code && code <= 0x0d) || code == 0x20 || code == 0x85 || code == 0xa0 || code
        == 0x1680 || (0x2000 <= code && code <= 0x200a) || code == 0x2028 || code == 0x2029
        || code == 0x202f || code == 0x205f || code == 0x3000
}

/// Whether nothing but whitespace stands in `text`.
pub fn blank(text: &str) -> (blank: bool)
    ensures
        blank == is_blank(text@),
{
    broadcast use vstd::string::group_string_axioms;

    let mut rest = text.chars();
    let ghost mut seen: int = 0;
    loop
        invariant
            0 <= seen <= text@.len(),
            vstd::std_specs::iter::IteratorSpec::remaining(&rest) == text@.skip(seen),
            forall|i: int| 0 <= i < seen ==> is_white_space(#[trigger] text@[i]),
        decreases text@.len() - seen,
    {
        match rest.next() {
            Some(c) => {
                assert(c == text@[seen]);
                if !is_whitespace_char(c) {
                    return false;
                }
                proof {
                    assert(text@.skip(seen).drop_first() =~= text@.skip(seen + 1));
                    seen = seen + 1;
                }
            },
            None => {
                return true;
            },
        }
    }
}

/// A text that holds a substring that begins with something other than
/// whitespace is not blank.
pub proof fn lemma_substring_not_blank(text: Seq<char>, needle: Seq<char>)
    requires
        contains_text(text, needle),
        needle.len() > 0,
        !is_white_space(needle[0]),
    ensures
        !is_blank(text),
{
    let at = choose|at: int| occurs_at(text, needle, at);
    assert(text.subrange(at, at + needle.len())[0] == needle[0]);
    assert(!is_white_space(text[at]));
}

/// A text that holds a substring holds every beginning of it.
pub proof fn lemma_contains_beginning(text: Seq<char>, needle: Seq<char>, beginning: Seq<char>)
    requires
        contains_text(text, needle),
        beginning.len() <= needle.len(),
        beginning =~= needle.subrange(0, beginning.len() as int),
    ensures
        contains_text(text, beginning),
{
    let at = choose|at: int| occurs_at(text, needle, at);
    assert(text.subrange(at, at + beginning.len()) =~= text.subrange(
        at,
        at + needle.len(),
    ).subrange(0, beginning.len() as int));
    assert(occurs_at(text, beginning, at));
}

} // verus!
