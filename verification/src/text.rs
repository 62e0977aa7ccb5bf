//! Handling of text as the vault needs it: trimming, comparing without
//! regard to case, searching, and ordering.

use vstd::prelude::*;
use vstd::string::StrSliceExecFns;
use vstd::utf8::encode_utf8;

verus! {

/// Whether Unicode counts the character as white space.
pub uninterp spec fn is_whitespace_char(c: char) -> bool;

/// The text in lower case, as Unicode defines it.
pub uninterp spec fn lowercase(text: Seq<char>) -> Seq<char>;

/// `char::is_whitespace`.
#[verifier::external_body]
fn is_whitespace(c: char) -> (verdict: bool)
    ensures
        verdict == is_whitespace_char(c),
{
    c.is_whitespace()
}

/// `str::to_lowercase`.
#[verifier::external_body]
pub(crate) fn to_lowercase(text: &str) -> (lowered: String)
    ensures
        lowered@ == lowercase(text@),
{
    text.to_lowercase()
}

/// The text without the white space at its start.
pub open spec fn trimmed_start(text: Seq<char>) -> Seq<char>
    decreases text.len(),
{
    if text.len() > 0 && is_whitespace_char(text[0]) {
        trimmed_start(text.drop_first())
    } else {
        text
    }
}

/// The text without the white space at its end.
pub open spec fn trimmed_end(text: Seq<char>) -> Seq<char>
    decreases text.len(),
{
    if text.len() > 0 && is_whitespace_char(text.last()) {
        trimmed_end(text.drop_last())
    } else {
        text
    }
}

/// The text without the white space at its start and at its end.
pub open spec fn trimmed(text: Seq<char>) -> Seq<char> {
    trimmed_end(trimmed_start(text))
}

/// Cuts the white space off both ends of a text.
pub fn trim(text: &str) -> (cut: &str)
    ensures
        cut@ == trimmed(text@),
{
    let count = text.unicode_len();
    let mut from: usize = 0;
    proof {
        assert(text@.subrange(0, count as int) =~= text@);
    }
    while from < count && is_whitespace(text.get_char(from))
        invariant
            from <= count,
            count == text@.len(),
            trimmed_start(text@) == trimmed_start(text@.subrange(from as int, count as int)),
        decreases count - from,
    {
        proof {
            let rest = text@.subrange(from as int, count as int);
            assert(rest[0] == text@[from as int]);
            assert(rest.drop_first() =~= text@.subrange(from + 1, count as int));
        }
        from = from + 1;
    }
    proof {
        let rest = text@.subrange(from as int, count as int);
        if from < count {
            assert(rest[0] == text@[from as int]);
        }
        assert(trimmed_start(text@) == rest);
    }
    let mut to: usize = count;
    while to > from && is_whitespace(text.get_char(to - 1))
        invariant
            from <= to <= count,
            count == text@.len(),
            trimmed(text@) == trimmed_end(text@.subrange(from as int, to as int)),
        decreases to - from,
    {
        proof {
            let rest = text@.subrange(from as int, to as int);
            assert(rest.last() == text@[to - 1]);
            assert(rest.drop_last() =~= text@.subrange(from as int, to - 1));
        }
        to = to - 1;
    }
    proof {
        let rest = text@.subrange(from as int, to as int);
        if to > from {
            assert(rest.last() == text@[to - 1]);
        }
        assert(trimmed(text@) == rest);
    }
    text.substring_char(from, to)
}

/// A byte with an ASCII capital letter turned into its small letter.
pub open spec fn ascii_lowered(byte: u8) -> u8 {
    if 0x41 <= byte <= 0x5A {
        (byte + 32) as u8
    } else {
        byte
    }
}

/// Whether two texts, given by their bytes, are the same but for the case of
/// ASCII letters.
pub open spec fn same_ignoring_ascii_case(left: Seq<u8>, right: Seq<u8>) -> bool {
    &&& left.len() == right.len()
    &&& forall|i: int| 0 <= i < left.len() ==> ascii_lowered(left[i]) == ascii_lowered(right[i])
}

fn lower_ascii(byte: u8) -> (lowered: u8)
    ensures
        lowered == ascii_lowered(byte),
{
    if 0x41 <= byte && byte <= 0x5A {
        byte + 32
    } else {
        byte
    }
}

/// Compares two texts without regard to the case of ASCII letters.
pub fn eq_ignore_ascii_case(left: &str, right: &str) -> (same: bool)
    ensures
        same == same_ignoring_ascii_case(encode_utf8(left@), encode_utf8(right@)),
{
    let a = left.as_bytes();
    let b = right.as_bytes();
    if a.len() != b.len() {
        return false;
    }
    let mut i: usize = 0;
    while i < a.len()
        invariant
            i <= a.len(),
            a.len() == b.len(),
            a@ == encode_utf8(left@),
            b@ == encode_utf8(right@),
            forall|j: int| 0 <= j < i ==> ascii_lowered(a@[j]) == ascii_lowered(b@[j]),
        decreases a.len() - i,
    {
        if lower_ascii(a[i]) != lower_ascii(b[i]) {
            assert(ascii_lowered(a@[i as int]) != ascii_lowered(b@[i as int]));
            return false;
        }
        i = i + 1;
    }
    true
}

/// Whether `needle` starts at place `at` of `hay`.
pub open spec fn occurs_at(hay: Seq<u8>, needle: Seq<u8>, at: int) -> bool {
    0 <= at && at + needle.len() <= hay.len() && hay.subrange(at, at + needle.len()) == needle
}

/// Whether `needle` occurs in `hay`. The empty text occurs in every text.
pub open spec fn occurs_in(hay: Seq<u8>, needle: Seq<u8>) -> bool {
    exists|at: int| occurs_at(hay, needle, at)
}

fn starts_at(hay: &[u8], needle: &[u8], at: usize) -> (found: bool)
    requires
        at + needle@.len() <= hay@.len(),
    ensures
        found == occurs_at(hay@, needle@, at as int),
{
    let total = hay.len();
    let mut i: usize = 0;
    while i < needle.len()
        invariant
            i <= needle.len(),
            total == hay@.len(),
            at + needle@.len() <= hay@.len(),
            forall|j: int| 0 <= j < i ==> hay@[at + j] == needle@[j],
        decreases needle.len() - i,
    {
        if hay[at + i] != needle[i] {
            proof {
                let part = hay@.subrange(at as int, at + needle@.len());
                assert(part[i as int] != needle@[i as int]);
            }
            return false;
        }
        i = i + 1;
    }
    proof {
        assert(hay@.subrange(at as int, at + needle@.len()) =~= needle@);
    }
    true
}

/// Tells whether one text occurs in another.
pub fn contains_text(hay: &str, needle: &str) -> (found: bool)
    ensures
        found == occurs_in(encode_utf8(hay@), encode_utf8(needle@)),
{
    let h = hay.as_bytes();
    let n = needle.as_bytes();
    if n.len() > h.len() {
        return false;
    }
    let last = h.len() - n.len();
    let mut at: usize = 0;
    loop
        invariant
            at <= last,
            last == h@.len() - n@.len(),
            h@ == encode_utf8(hay@),
            n@ == encode_utf8(needle@),
            forall|k: int| 0 <= k < at ==> !occurs_at(h@, n@, k),
        decreases last - at,
    {
        if starts_at(h, n, at) {
            assert(occurs_at(h@, n@, at as int));
            return true;
        }
        if at == last {
            return false;
        }
        at = at + 1;
    }
}

/// The order of texts: byte by byte, a text before every longer text that
/// starts with it.
pub open spec fn precedes_or_equals(left: Seq<u8>, right: Seq<u8>) -> bool
    decreases left.len(),
{
    if left.len() == 0 {
        true
    } else if right.len() == 0 {
        false
    } else if left[0] != right[0] {
        left[0] < right[0]
    } else {
        precedes_or_equals(left.drop_first(), right.drop_first())
    }
}

/// Tells whether one text stands before another, or is the same.
pub fn text_le(left: &str, right: &str) -> (ordered: bool)
    ensures
        ordered == precedes_or_equals(encode_utf8(left@), encode_utf8(right@)),
{
    let a = left.as_bytes();
    let b = right.as_bytes();
    let mut i: usize = 0;
    proof {
        assert(a@.subrange(0, a@.len() as int) =~= a@);
        assert(b@.subrange(0, b@.len() as int) =~= b@);
    }
    while i < a.len() && i < b.len()
        invariant
            i <= a.len(),
            i <= b.len(),
            a@ == encode_utf8(left@),
            b@ == encode_utf8(right@),
            precedes_or_equals(a@, b@) == precedes_or_equals(
                a@.subrange(i as int, a@.len() as int),
                b@.subrange(i as int, b@.len() as int),
            ),
        decreases a.len() - i,
    {
        proof {
            let ra = a@.subrange(i as int, a@.len() as int);
            let rb = b@.subrange(i as int, b@.len() as int);
            assert(ra[0] == a@[i as int]);
            assert(rb[0] == b@[i as int]);
            assert(ra.drop_first() =~= a@.subrange(i + 1, a@.len() as int));
            assert(rb.drop_first() =~= b@.subrange(i + 1, b@.len() as int));
        }
        if a[i] != b[i] {
            return a[i] < b[i];
        }
        i = i + 1;
    }
    proof {
        let ra = a@.subrange(i as int, a@.len() as int);
        let rb = b@.subrange(i as int, b@.len() as int);
        assert(ra.len() == a@.len() - i);
        assert(rb.len() == b@.len() - i);
    }
    i == a.len()
}

/// The order of texts is total.
pub proof fn lemma_order_is_total(left: Seq<u8>, right: Seq<u8>)
    ensures
        precedes_or_equals(left, right) || precedes_or_equals(right, left),
    decreases left.len(),
{
    if left.len() > 0 && right.len() > 0 && left[0] == right[0] {
        lemma_order_is_total(left.drop_first(), right.drop_first());
    }
}

/// The order of texts is transitive.
pub proof fn lemma_order_is_transitive(a: Seq<u8>, b: Seq<u8>, c: Seq<u8>)
    requires
        precedes_or_equals(a, b),
        precedes_or_equals(b, c),
    ensures
        precedes_or_equals(a, c),
    decreases a.len(),
{
    if a.len() > 0 && b.len() > 0 && c.len() > 0 && a[0] == b[0] && b[0] == c[0] {
        lemma_order_is_transitive(a.drop_first(), b.drop_first(), c.drop_first());
    }
}

} // verus!
