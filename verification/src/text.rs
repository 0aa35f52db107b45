//! Literal text inspection: substring containment and blank detection.

use vstd::prelude::*;

verus! {

/// `pat` occurs in `text` starting at character position `i`.
pub open spec fn occurs_at(text: Seq<char>, pat: Seq<char>, i: int) -> bool {
    0 <= i && i + pat.len() <= text.len() && text.subrange(i, i + pat.len()) == pat
}

/// Literal, case-sensitive substring containment: `pat` occurs somewhere in
/// `text`. The empty pattern is contained in every text.
pub open spec fn contains_sub(text: Seq<char>, pat: Seq<char>) -> bool {
    exists|i: int| occurs_at(text, pat, i)
}

/// Whether `pat` occurs in `text` at position `i`, by character comparison.
fn match_at(text: &str, pat: &str, i: usize, text_len: usize, pat_len: usize) -> (r: bool)
    requires
        text_len == text@.len(),
        pat_len == pat@.len(),
        i + pat_len <= text_len,
    ensures
        r == occurs_at(text@, pat@, i as int),
{
    let mut j: usize = 0;
    while j < pat_len
        invariant
            text_len == text@.len(),
            pat_len == pat@.len(),
            i + pat_len <= text_len,
            j <= pat_len,
            forall|k: int| 0 <= k < j ==> text@[i + k] == pat@[k],
        decreases pat_len - j,
    {
        if text.get_char(i + j) != pat.get_char(j) {
            proof {
                assert(!occurs_at(text@, pat@, i as int)) by {
                    if occurs_at(text@, pat@, i as int) {
                        assert(text@.subrange(i as int, i + pat@.len())[j as int]
                            == text@[i + j]);
                    }
                }
            }
            return false;
        }
        j += 1;
    }
    proof {
        assert(text@.subrange(i as int, i + pat@.len()) =~= pat@);
    }
    true
}

/// Whether `pat` occurs in `text` as a literal substring, exactly as the
/// containment relation `contains_sub` states it.
pub fn contains_snippet(text: &str, pat: &str) -> (r: bool)
    ensures
        r == contains_sub(text@, pat@),
{
    let text_len = text.unicode_len();
    let pat_len = pat.unicode_len();
    if pat_len > text_len {
        return false;
    }
    let last = text_len - pat_len;
    let mut i: usize = 0;
    loop
        invariant
            text_len == text@.len(),
            pat_len == pat@.len(),
            pat_len <= text_len,
            last == text_len - pat_len,
            i <= last + 1,
            forall|k: int| 0 <= k < i ==> !occurs_at(text@, pat@, k),
        decreases last + 1 - i,
    {
        if i > last {
            return false;
        }
        if match_at(text, pat, i, text_len, pat_len) {
            return true;
        }
        proof {
            // The empty pattern occurs at every position, so a failed match
            // means the pattern is non-empty and `i` stays below `text_len`.
            if pat@.len() == 0 {
                assert(text@.subrange(i as int, i as int) =~= pat@);
            }
        }
        i += 1;
    }
}

/// Whether the character counts as whitespace for blank detection.
pub uninterp spec fn is_space_char(c: char) -> bool;

/// Relies on char::is_whitespace: whether the character has the Unicode
/// White_Space property, a fixed function of the character alone.
#[verifier::external_body]
fn space_char(c: char) -> (r: bool)
    ensures
        r == is_space_char(c),
{
    c.is_whitespace()
}

/// The text is empty or consists of whitespace only, i.e. it trims to the
/// empty string.
pub open spec fn blank(s: Seq<char>) -> bool {
    forall|i: int| 0 <= i < s.len() ==> is_space_char(s[i])
}

/// Whether the text trims to the empty string.
pub fn is_blank(s: &str) -> (r: bool)
    ensures
        r == blank(s@),
{
    let n = s.unicode_len();
    let mut i: usize = 0;
    while i < n
        invariant
            n == s@.len(),
            i <= n,
            forall|k: int| 0 <= k < i ==> is_space_char(s@[k]),
        decreases n - i,
    {
        if !space_char(s.get_char(i)) {
            return false;
        }
        i += 1;
    }
    true
}

} // verus!
