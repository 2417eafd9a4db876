//! Whitespace trimming over character sequences, specified exactly.
//!
//! The version marker file may surround its text with spaces, tabs or
//! newlines; the accessor strips those before any further checks. The
//! whitespace set is the Unicode `White_Space` code points, the same set
//! that ordinary Rust string trimming removes.
use vstd::prelude::*;
use vstd::string::StrSliceExecFns;

verus! {

/// Whether `c` carries the Unicode `White_Space` property.
pub open spec fn is_ws(c: char) -> bool {
    ||| c == '\u{0009}'
    ||| c == '\u{000A}'
    ||| c == '\u{000B}'
    ||| c == '\u{000C}'
    ||| c == '\u{000D}'
    ||| c == '\u{0020}'
    ||| c == '\u{0085}'
    ||| c == '\u{00A0}'
    ||| c == '\u{1680}'
    ||| c == '\u{2000}'
    ||| c == '\u{2001}'
    ||| c == '\u{2002}'
    ||| c == '\u{2003}'
    ||| c == '\u{2004}'
    ||| c == '\u{2005}'
    ||| c == '\u{2006}'
    ||| c == '\u{2007}'
    ||| c == '\u{2008}'
    ||| c == '\u{2009}'
    ||| c == '\u{200A}'
    ||| c == '\u{2028}'
    ||| c == '\u{2029}'
    ||| c == '\u{202F}'
    ||| c == '\u{205F}'
    ||| c == '\u{3000}'
}

/// Runtime test for [`is_ws`].
pub fn is_whitespace_char(c: char) -> (r: bool)
    ensures
        r == is_ws(c),
{
    c == '\u{0009}' || c == '\u{000A}' || c == '\u{000B}' || c == '\u{000C}' || c == '\u{000D}'
        || c == '\u{0020}' || c == '\u{0085}' || c == '\u{00A0}' || c == '\u{1680}'
        || c == '\u{2000}' || c == '\u{2001}' || c == '\u{2002}' || c == '\u{2003}'
        || c == '\u{2004}' || c == '\u{2005}' || c == '\u{2006}' || c == '\u{2007}'
        || c == '\u{2008}' || c == '\u{2009}' || c == '\u{200A}' || c == '\u{2028}'
        || c == '\u{2029}' || c == '\u{202F}' || c == '\u{205F}' || c == '\u{3000}'
}

/// Index of the first character at or after `i` that is not whitespace,
/// or `s.len()` when only whitespace remains.
pub open spec fn first_keep(s: Seq<char>, i: int) -> int
    decreases s.len() - i,
{
    if 0 <= i < s.len() {
        if is_ws(s[i]) {
            first_keep(s, i + 1)
        } else {
            i
        }
    } else {
        i
    }
}

/// One past the last character before `j` that is not whitespace,
/// or `0` when only whitespace precedes `j`.
pub open spec fn last_keep(s: Seq<char>, j: int) -> int
    decreases j,
{
    if 0 < j <= s.len() {
        if is_ws(s[j - 1]) {
            last_keep(s, j - 1)
        } else {
            j
        }
    } else {
        j
    }
}

/// `s` with every leading and trailing whitespace character removed.
pub open spec fn spec_trim(s: Seq<char>) -> Seq<char> {
    let a = first_keep(s, 0);
    if a == s.len() {
        Seq::empty()
    } else {
        s.subrange(a, last_keep(s, s.len() as int))
    }
}

pub proof fn lemma_first_keep_bounds(s: Seq<char>, i: int)
    requires
        0 <= i <= s.len(),
    ensures
        i <= first_keep(s, i) <= s.len(),
        forall|k: int| i <= k < first_keep(s, i) ==> is_ws(s[k]),
        first_keep(s, i) < s.len() ==> !is_ws(s[first_keep(s, i)]),
    decreases s.len() - i,
{
    if i < s.len() && is_ws(s[i]) {
        lemma_first_keep_bounds(s, i + 1);
    }
}

pub proof fn lemma_last_keep_bounds(s: Seq<char>, j: int)
    requires
        0 <= j <= s.len(),
    ensures
        0 <= last_keep(s, j) <= j,
        forall|k: int| last_keep(s, j) <= k < j ==> is_ws(s[k]),
        last_keep(s, j) > 0 ==> !is_ws(s[last_keep(s, j) - 1]),
    decreases j,
{
    if 0 < j && is_ws(s[j - 1]) {
        lemma_last_keep_bounds(s, j - 1);
    }
}

/// A non-whitespace character below `j` keeps the trailing scan above it.
pub proof fn lemma_last_keep_above(s: Seq<char>, j: int, a: int)
    requires
        0 <= a < j <= s.len(),
        !is_ws(s[a]),
    ensures
        a < last_keep(s, j),
    decreases j,
{
    if is_ws(s[j - 1]) {
        lemma_last_keep_above(s, j - 1, a);
    }
}

/// Trimming yields the empty sequence exactly when the input holds nothing
/// but whitespace.
pub proof fn lemma_trim_empty_iff_whitespace(s: Seq<char>)
    ensures
        spec_trim(s).len() == 0 <==> (forall|i: int| 0 <= i < s.len() ==> is_ws(s[i])),
{
    lemma_first_keep_bounds(s, 0);
    let a = first_keep(s, 0);
    if a < s.len() {
        lemma_last_keep_above(s, s.len() as int, a);
        lemma_last_keep_bounds(s, s.len() as int);
    }
}

/// Removes leading and trailing whitespace, exactly as [`spec_trim`] states.
pub fn trim_str(s: &str) -> (r: String)
    ensures
        r@ == spec_trim(s@),
{
    let n = s.unicode_len();
    let mut start: usize = 0;
    loop
        invariant
            n == s@.len(),
            0 <= start <= n,
            forall|k: int| 0 <= k < start ==> is_ws(s@[k]),
            first_keep(s@, 0) == first_keep(s@, start as int),
        ensures
            0 <= start <= n,
            first_keep(s@, 0) == start,
            start == n || !is_ws(s@[start as int]),
        decreases n - start,
    {
        if start >= n {
            break;
        }
        let c = s.get_char(start);
        if !is_whitespace_char(c) {
            break;
        }
        proof {
            assert(first_keep(s@, start as int) == first_keep(s@, start + 1));
        }
        start = start + 1;
    }
    let mut end: usize = n;
    loop
        invariant
            n == s@.len(),
            first_keep(s@, 0) == start,
            start == n || !is_ws(s@[start as int]),
            start <= end <= n,
            forall|k: int| end <= k < n ==> is_ws(s@[k]),
            last_keep(s@, n as int) == last_keep(s@, end as int),
        ensures
            start <= end <= n,
            last_keep(s@, n as int) == last_keep(s@, end as int),
            end == start || !is_ws(s@[end - 1]),
        decreases end,
    {
        if end <= start {
            break;
        }
        let c = s.get_char(end - 1);
        if !is_whitespace_char(c) {
            break;
        }
        proof {
            assert(last_keep(s@, end as int) == last_keep(s@, end - 1));
        }
        end = end - 1;
    }
    proof {
        if start == n {
            assert(end == n);
            assert(s@.subrange(start as int, end as int) =~= spec_trim(s@));
        } else {
            lemma_last_keep_bounds(s@, end as int);
            lemma_last_keep_above(s@, n as int, start as int);
            assert(end != start);
            assert(last_keep(s@, end as int) == end as int);
            assert(s@.subrange(start as int, end as int) == spec_trim(s@));
        }
    }
    let t = s.substring_char(start, end);
    t.to_owned()
}

} // verus!
