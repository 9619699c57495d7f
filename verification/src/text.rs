//! Byte-level substring search over string slices.
use vstd::prelude::*;
use vstd::string::StringSliceAdditionalSpecFns;

verus! {

/// `needle` occurs in `hay` starting at byte offset `i`.
pub open spec fn occurs_at(hay: Seq<u8>, needle: Seq<u8>, i: int) -> bool {
    0 <= i && i + needle.len() <= hay.len() && hay.subrange(i, i + needle.len()) == needle
}

/// `needle` occurs somewhere in `hay` as a contiguous run of bytes.
pub open spec fn contains_bytes(hay: Seq<u8>, needle: Seq<u8>) -> bool {
    exists|i: int| occurs_at(hay, needle, i)
}

/// `pattern` occurs in `text`, comparing their UTF-8 encodings.
pub open spec fn mentions(text: &str, pattern: &str) -> bool {
    contains_bytes(text.spec_bytes(), pattern.spec_bytes())
}

/// Whether `needle` matches a sub-slice of `hay` (the behaviour of `str::contains`
/// with a string pattern).
pub fn str_contains(hay: &str, needle: &str) -> (found: bool)
    ensures
        found == mentions(hay, needle),
{
    let h = hay.as_bytes();
    let n = needle.as_bytes();
    let hl = h.len();
    let nl = n.len();
    if nl > hl {
        assert(!contains_bytes(h@, n@));
        return false;
    }
    let mut i: usize = 0;
    while i <= hl - nl
        invariant
            h@ == hay.spec_bytes(),
            n@ == needle.spec_bytes(),
            hl == h@.len(),
            nl == n@.len(),
            nl <= hl,
            i <= hl - nl + 1,
            forall|k: int| 0 <= k < i ==> !occurs_at(h@, n@, k),
        decreases hl - nl + 1 - i,
    {
        let mut j: usize = 0;
        let mut same = true;
        while j < nl
            invariant
                h@ == hay.spec_bytes(),
                n@ == needle.spec_bytes(),
                hl == h@.len(),
                nl == n@.len(),
                i + nl <= hl,
                j <= nl,
                same <==> (forall|m: int| 0 <= m < j ==> h@[i + m] == n@[m]),
            decreases nl - j,
        {
            if h[i + j] != n[j] {
                same = false;
            }
            j = j + 1;
        }
        if same {
            assert(h@.subrange(i as int, i + nl) =~= n@);
            assert(occurs_at(h@, n@, i as int));
            return true;
        }
        assert(!occurs_at(h@, n@, i as int)) by {
            if h@.subrange(i as int, i + nl) == n@ {
                let m = choose|m: int| 0 <= m < nl && h@[i + m] != n@[m];
                assert(h@.subrange(i as int, i + nl)[m] == h@[i + m]);
            }
        }
        i = i + 1;
    }
    assert forall|k: int| !occurs_at(h@, n@, k) by {
        if 0 <= k && k + nl <= hl {
            assert(k < i);
        }
    }
    false
}

} // verus!
