//! Text tests on names: substring search and equality.
use vstd::prelude::*;
use vstd::string::StringSliceAdditionalSpecFns;
use vstd::utf8::encode_utf8;

verus! {

/// Whether `needle` occurs in `hay` as a contiguous run, at any offset.
pub open spec fn has_infix(hay: Seq<u8>, needle: Seq<u8>) -> bool {
    exists|i: int|
        0 <= i <= hay.len() - needle.len() && #[trigger] hay.subrange(i, i + needle.len())
            == needle
}

/// Whether the UTF-8 text of `name` holds that of `part` at some offset
/// (case-sensitive, unanchored).
pub open spec fn text_contains(name: Seq<char>, part: Seq<char>) -> bool {
    has_infix(encode_utf8(name), encode_utf8(part))
}

/// Whether `needle` occurs in `hay` starting at byte `at`.
fn occurs_at(hay: &[u8], needle: &[u8], at: usize) -> (r: bool)
    requires
        at + needle@.len() <= hay@.len(),
    ensures
        r == (hay@.subrange(at as int, at + needle@.len()) == needle@),
{
    let hay_len: usize = hay.len();
    let mut j: usize = 0;
    while j < needle.len()
        invariant
            at + needle@.len() <= hay@.len(),
            hay_len == hay@.len(),
            j <= needle@.len(),
            forall|m: int| 0 <= m < j ==> hay@[at + m] == needle@[m],
        decreases needle@.len() - j,
    {
        if hay[at + j] != needle[j] {
            assert(hay@.subrange(at as int, at + needle@.len())[j as int] != needle@[j as int]);
            return false;
        }
        j = j + 1;
    }
    assert(hay@.subrange(at as int, at + needle@.len()) =~= needle@);
    true
}

/// Byte-wise substring test, the test `str::contains` makes for a `&str` pattern.
pub fn contains_text(name: &str, part: &str) -> (r: bool)
    ensures
        r == text_contains(name@, part@),
{
    let hay = name.as_bytes();
    let needle = part.as_bytes();
    if needle.len() > hay.len() {
        return false;
    }
    if needle.len() == 0 {
        assert(encode_utf8(name@).subrange(0int, 0int + encode_utf8(part@).len()) =~= encode_utf8(part@));
        return true;
    }
    let last: usize = hay.len() - needle.len();
    let mut i: usize = 0;
    while i <= last
        invariant
            hay@ == encode_utf8(name@),
            needle@ == encode_utf8(part@),
            last == hay@.len() - needle@.len(),
            last < usize::MAX,
            i <= last + 1,
            forall|k: int|
                0 <= k < i ==> #[trigger] hay@.subrange(k, k + needle@.len()) != needle@,
        decreases last + 1 - i,
    {
        if occurs_at(hay, needle, i) {
            return true;
        }
        i = i + 1;
    }
    false
}

/// Text equality of two string slices.
pub fn same_text(a: &str, b: &str) -> (r: bool)
    ensures
        r == (a@ == b@),
{
    let x = a.to_owned();
    let y = b.to_owned();
    x == y
}

} // verus!
