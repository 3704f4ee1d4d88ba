//! Agreement-sentinel detection.
//!
//! The conversation ends early when the junior agent's reply contains the
//! configured agreement sentinel. Detection is a case-insensitive (ASCII)
//! substring match.

use vstd::prelude::*;
use vstd::string::StrSliceExecFns;

verus! {

/// Case-folded code point of a character: ASCII upper-case letters map to
/// their lower-case counterpart, every other character to itself.
pub open spec fn fold_char(c: char) -> int {
    if 65 <= c as u32 && c as u32 <= 90 {
        c as u32 + 32
    } else {
        c as u32 as int
    }
}

/// The pattern matches the text at offset `i`, ignoring ASCII case.
pub open spec fn matches_at(text: Seq<char>, pat: Seq<char>, i: int) -> bool {
    forall|j: int| 0 <= j < pat.len() ==> fold_char(text[i + j]) == fold_char(pat[j])
}

/// The text contains the pattern at some offset, ignoring ASCII case.
pub open spec fn contains_sentinel(text: Seq<char>, pat: Seq<char>) -> bool {
    exists|i: int| 0 <= i && i + pat.len() <= text.len() && matches_at(text, pat, i)
}

/// Returns the case-folded code point of a character.
fn fold_char_exec(c: char) -> (r: u32)
    ensures
        r as int == fold_char(c),
{
    let u = c as u32;
    if 65 <= u && u <= 90 {
        u + 32
    } else {
        u
    }
}

/// Reports whether `text` contains `pat`, ignoring ASCII case.
pub fn detect_sentinel(text: &str, pat: &str) -> (r: bool)
    ensures
        r == contains_sentinel(text@, pat@),
{
    let n = text.unicode_len();
    let m = pat.unicode_len();
    if m > n {
        assert(!contains_sentinel(text@, pat@));
        return false;
    }
    let mut i: usize = 0;
    while i <= n - m
        invariant
            m <= n,
            n == text@.len(),
            m == pat@.len(),
            i <= n - m + 1,
            forall|k: int| 0 <= k < i ==> !matches_at(text@, pat@, k),
        decreases n - m - i + 1,
    {
        let mut j: usize = 0;
        let mut ok = true;
        while j < m && ok
            invariant
                m <= n,
                n == text@.len(),
                m == pat@.len(),
                i <= n - m,
                j <= m,
                ok ==> forall|l: int| 0 <= l < j ==> fold_char(text@[i + l]) == fold_char(
                    pat@[l],
                ),
                !ok ==> !matches_at(text@, pat@, i as int),
            decreases m - j + (if ok { 1int } else { 0int }),
        {
            let tc = text.get_char(i + j);
            let pc = pat.get_char(j);
            if fold_char_exec(tc) != fold_char_exec(pc) {
                assert(fold_char(text@[i + j]) != fold_char(pat@[j as int]));
                ok = false;
            } else {
                j = j + 1;
            }
        }
        if ok {
            assert(matches_at(text@, pat@, i as int));
            return true;
        }
        i = i + 1;
    }
    assert forall|k: int| 0 <= k && k + pat@.len() <= text@.len() implies !matches_at(
        text@,
        pat@,
        k,
    ) by {
        assert(k < i);
    }
    false
}

} // verus!
