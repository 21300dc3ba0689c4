//! Character-level text rules: Unicode white space, blank text, and
//! substring search.

use vstd::prelude::*;

verus! {

broadcast use vstd::string::group_string_axioms;

/// The characters with the Unicode `White_Space` property (PropList.txt).
pub open spec fn is_white_space(c: char) -> bool {
    let v = c as u32;
    ||| 0x9 <= v <= 0xd
    ||| v == 0x20
    ||| v == 0x85
    ||| v == 0xa0
    ||| v == 0x1680
    ||| 0x2000 <= v <= 0x200a
    ||| v == 0x2028
    ||| v == 0x2029
    ||| v == 0x202f
    ||| v == 0x205f
    ||| v == 0x3000
}

/// Text that is empty once white space is trimmed from both ends.
pub open spec fn is_blank(s: Seq<char>) -> bool {
    forall|i: int| 0 <= i < s.len() ==> is_white_space(#[trigger] s[i])
}

/// Whether `c` has the Unicode `White_Space` property.
pub fn white_space(c: char) -> (b: bool)
    ensures
        b == is_white_space(c),
{
    let v = c as u32;
    (0x9 <= v && v <= 0xd) || v == 0x20 || v == 0x85 || v == 0xa0 || v == 0x1680
        || (0x2000 <= v && v <= 0x200a) || v == 0x2028 || v == 0x2029 || v == 0x202f
        || v == 0x205f || v == 0x3000
}

/// Whether `s` holds nothing but white space.
pub fn blank(s: &str) -> (b: bool)
    ensures
        b == is_blank(s@),
{
    let mut all_white = true;
    for c in it: s.chars()
        invariant
            it.seq() == s@,
            all_white == (forall|j: int| 0 <= j < it.index() ==> is_white_space(#[trigger] it.seq()[j])),
    {
        if !white_space(c) {
            all_white = false;
        }
    }
    all_white
}

} // verus!

verus! {

/// `needle` occurs in `hay` at position `i`.
pub open spec fn occurs_at(hay: Seq<char>, needle: Seq<char>, i: int) -> bool {
    &&& 0 <= i
    &&& i + needle.len() <= hay.len()
    &&& forall|j: int| 0 <= j < needle.len() ==> hay[i + j] == #[trigger] needle[j]
}

/// `needle` is a substring of `hay`.
pub open spec fn contains_text(hay: Seq<char>, needle: Seq<char>) -> bool {
    exists|i: int| #[trigger] occurs_at(hay, needle, i)
}

/// A substring of a substring of `hay` is a substring of `hay`.
pub proof fn lemma_contains_text_transitive(hay: Seq<char>, mid: Seq<char>, needle: Seq<char>)
    requires
        contains_text(hay, mid),
        contains_text(mid, needle),
    ensures
        contains_text(hay, needle),
{
    let i = choose|i: int| occurs_at(hay, mid, i);
    let k = choose|k: int| occurs_at(mid, needle, k);
    assert forall|j: int| 0 <= j < needle.len() implies hay[i + k + j] == #[trigger] needle[j] by {
        assert(mid[k + j] == needle[j]);
        assert(hay[i + (k + j)] == mid[k + j]);
    }
    assert(occurs_at(hay, needle, i + k));
}

/// The characters of `s`, in order.
pub fn chars_of(s: &str) -> (v: Vec<char>)
    ensures
        v@ == s@,
{
    let mut v: Vec<char> = Vec::new();
    for c in it: s.chars()
        invariant
            it.seq() == s@,
            v@ == it.seq().take(it.index() as int),
    {
        v.push(c);
    }
    v
}

fn occurs_at_index(hay: &Vec<char>, needle: &Vec<char>, i: usize) -> (b: bool)
    requires
        i + needle.len() <= hay.len(),
    ensures
        b == occurs_at(hay@, needle@, i as int),
{
    let mut j: usize = 0;
    while j < needle.len()
        invariant
            i + needle.len() <= hay.len(),
            j <= needle.len(),
            forall|k: int| 0 <= k < j ==> hay@[i + k] == #[trigger] needle@[k],
        decreases needle.len() - j,
    {
        if hay[i + j] != needle[j] {
            return false;
        }
        j = j + 1;
    }
    true
}

/// Whether `needle` is a substring of `hay`.
pub fn contains_substring(hay: &str, needle: &str) -> (b: bool)
    ensures
        b == contains_text(hay@, needle@),
{
    let h = chars_of(hay);
    let n = chars_of(needle);
    if n.len() > h.len() {
        return false;
    }
    let last = h.len() - n.len();
    let mut i: usize = 0;
    while i <= last
        invariant
            h@ == hay@,
            n@ == needle@,
            last == h.len() - n.len(),
            n.len() <= h.len(),
            i <= last + 1,
            forall|k: int| 0 <= k < i ==> !occurs_at(hay@, needle@, k),
        decreases last + 1 - i,
    {
        if occurs_at_index(&h, &n, i) {
            return true;
        }
        i = i + 1;
    }
    proof {
        assert forall|k: int| !occurs_at(hay@, needle@, k) by {
            if 0 <= k < i {
            }
        }
    }
    false
}

} // verus!
