//! Character-level text helpers: whitespace tests, lower-casing,
//! substring search and trimming, with sequence-level specifications.

use vstd::prelude::*;
use vstd::string::StrSliceExecFns;
use vstd::string::StringExecFns;

verus! {

/// The Unicode white-space characters, as std's `char::is_whitespace`
/// documents them.
pub open spec fn is_ws_char(c: char) -> bool {
    let u = c as u32;
    u == 0x09 || u == 0x0A || u == 0x0B || u == 0x0C || u == 0x0D || u == 0x20 || u == 0x85
        || u == 0xA0 || u == 0x1680 || (0x2000 <= u && u <= 0x200A) || u == 0x2028 || u == 0x2029
        || u == 0x202F || u == 0x205F || u == 0x3000
}

/// Whether `c` is a white-space character.
pub fn is_ws(c: char) -> (r: bool)
    ensures
        r == is_ws_char(c),
{
    let u = c as u32;
    u == 0x09 || u == 0x0A || u == 0x0B || u == 0x0C || u == 0x0D || u == 0x20 || u == 0x85
        || u == 0xA0 || u == 0x1680 || (0x2000 <= u && u <= 0x200A) || u == 0x2028 || u == 0x2029
        || u == 0x202F || u == 0x205F || u == 0x3000
}

/// Every character of `s` is white space; true of the empty sequence.
pub open spec fn all_ws(s: Seq<char>) -> bool {
    forall|i: int| 0 <= i < s.len() ==> is_ws_char(#[trigger] s[i])
}

/// The characters of `s`, as a vector.
pub fn chars_vec(s: &str) -> (r: Vec<char>)
    ensures
        r@ == s@,
{
    let n = s.unicode_len();
    let mut r: Vec<char> = Vec::new();
    let mut i: usize = 0;
    while i < n
        invariant
            i <= n,
            n == s@.len(),
            r@ =~= s@.subrange(0, i as int),
        decreases n - i,
    {
        let c = s.get_char(i);
        r.push(c);
        i = i + 1;
    }
    proof {
        assert(r@ =~= s@);
    }
    r
}

/// Whether `v` holds white space only (true when `v` is empty).
pub fn is_blank(v: &Vec<char>) -> (r: bool)
    ensures
        r == all_ws(v@),
{
    let mut i: usize = 0;
    while i < v.len()
        invariant
            i <= v@.len(),
            forall|j: int| 0 <= j < i ==> is_ws_char(#[trigger] v@[j]),
        decreases v@.len() - i,
    {
        if !is_ws(v[i]) {
            return false;
        }
        i = i + 1;
    }
    true
}

/// Whether `s` holds white space only (true when `s` is empty).
pub fn str_is_blank(s: &str) -> (r: bool)
    ensures
        r == all_ws(s@),
{
    let v = chars_vec(s);
    is_blank(&v)
}

/// Whether `v` holds the character `c`.
pub fn vec_contains_char(v: &Vec<char>, c: char) -> (r: bool)
    ensures
        r == v@.contains(c),
{
    let mut i: usize = 0;
    while i < v.len()
        invariant
            i <= v@.len(),
            forall|j: int| 0 <= j < i ==> v@[j] != c,
        decreases v@.len() - i,
    {
        if v[i] == c {
            return true;
        }
        i = i + 1;
    }
    false
}

/// The pattern `p` occurs in `s` starting at position `i`.
pub open spec fn is_match_at(s: Seq<char>, p: Seq<char>, i: int) -> bool {
    0 <= i && i + p.len() <= s.len() && s.subrange(i, i + p.len()) == p
}

/// The pattern `p` occurs somewhere in `s`.
pub open spec fn contains_seq(s: Seq<char>, p: Seq<char>) -> bool {
    exists|i: int| is_match_at(s, p, i)
}

/// Whether the pattern occurs in the text at position `i`.
pub(crate) fn match_at(text: &Vec<char>, pat: &Vec<char>, i: usize) -> (r: bool)
    requires
        i + pat@.len() <= text@.len(),
    ensures
        r == is_match_at(text@, pat@, i as int),
{
    let n = text.len();
    let m = pat.len();
    let mut j: usize = 0;
    while j < m
        invariant
            j <= m,
            n == text@.len(),
            m == pat@.len(),
            i + m <= n,
            forall|k: int| 0 <= k < j ==> text@[i + k] == pat@[k],
        decreases m - j,
    {
        if text[i + j] != pat[j] {
            proof {
                assert(text@.subrange(i as int, i + pat@.len())[j as int] != pat@[j as int]);
            }
            return false;
        }
        j = j + 1;
    }
    proof {
        assert(text@.subrange(i as int, i + pat@.len()) =~= pat@);
    }
    true
}

/// Whether the pattern occurs in the text (an empty pattern always occurs).
pub fn contains_pattern(text: &Vec<char>, pat: &Vec<char>) -> (r: bool)
    ensures
        r == contains_seq(text@, pat@),
{
    if pat.len() == 0 {
        proof {
            assert(text@.subrange(0, 0) =~= pat@);
            assert(is_match_at(text@, pat@, 0));
        }
        return true;
    }
    if pat.len() > text.len() {
        proof {
            assert(forall|k: int| !is_match_at(text@, pat@, k));
        }
        return false;
    }
    let tl = text.len();
    let pl = pat.len();
    let last = tl - pl;
    let mut i: usize = 0;
    while i <= last
        invariant
            tl == text@.len(),
            pl == pat@.len(),
            1 <= pl <= tl,
            last == tl - pl,
            i <= last + 1,
            forall|k: int| 0 <= k < i ==> !is_match_at(text@, pat@, k),
        decreases last + 1 - i,
    {
        if match_at(text, pat, i) {
            return true;
        }
        i = i + 1;
    }
    proof {
        assert forall|k: int| !is_match_at(text@, pat@, k) by {
            if 0 <= k && k + pat@.len() <= text@.len() {
                assert(k < i);
            }
        }
    }
    false
}

/// Whether the text begins with the pattern.
pub fn has_prefix(text: &Vec<char>, pat: &Vec<char>) -> (r: bool)
    ensures
        r == is_match_at(text@, pat@, 0),
{
    if pat.len() > text.len() {
        return false;
    }
    match_at(text, pat, 0)
}

/// `c` with an ASCII capital letter replaced by its small form; any other
/// character is kept.
pub open spec fn lower_char(c: char) -> char {
    if c == 'A' { 'a' }
    else if c == 'B' { 'b' }
    else if c == 'C' { 'c' }
    else if c == 'D' { 'd' }
    else if c == 'E' { 'e' }
    else if c == 'F' { 'f' }
    else if c == 'G' { 'g' }
    else if c == 'H' { 'h' }
    else if c == 'I' { 'i' }
    else if c == 'J' { 'j' }
    else if c == 'K' { 'k' }
    else if c == 'L' { 'l' }
    else if c == 'M' { 'm' }
    else if c == 'N' { 'n' }
    else if c == 'O' { 'o' }
    else if c == 'P' { 'p' }
    else if c == 'Q' { 'q' }
    else if c == 'R' { 'r' }
    else if c == 'S' { 's' }
    else if c == 'T' { 't' }
    else if c == 'U' { 'u' }
    else if c == 'V' { 'v' }
    else if c == 'W' { 'w' }
    else if c == 'X' { 'x' }
    else if c == 'Y' { 'y' }
    else if c == 'Z' { 'z' }
    else { c }
}

/// `s` with each ASCII capital letter replaced by its small form.
pub open spec fn lower_seq(s: Seq<char>) -> Seq<char> {
    s.map_values(|c: char| lower_char(c))
}

fn lower_char_exec(c: char) -> (r: char)
    ensures
        r == lower_char(c),
{
    if c == 'A' { 'a' }
    else if c == 'B' { 'b' }
    else if c == 'C' { 'c' }
    else if c == 'D' { 'd' }
    else if c == 'E' { 'e' }
    else if c == 'F' { 'f' }
    else if c == 'G' { 'g' }
    else if c == 'H' { 'h' }
    else if c == 'I' { 'i' }
    else if c == 'J' { 'j' }
    else if c == 'K' { 'k' }
    else if c == 'L' { 'l' }
    else if c == 'M' { 'm' }
    else if c == 'N' { 'n' }
    else if c == 'O' { 'o' }
    else if c == 'P' { 'p' }
    else if c == 'Q' { 'q' }
    else if c == 'R' { 'r' }
    else if c == 'S' { 's' }
    else if c == 'T' { 't' }
    else if c == 'U' { 'u' }
    else if c == 'V' { 'v' }
    else if c == 'W' { 'w' }
    else if c == 'X' { 'x' }
    else if c == 'Y' { 'y' }
    else if c == 'Z' { 'z' }
    else { c }
}

/// The characters of `v`, ASCII-lower-cased.
pub fn to_lower(v: &Vec<char>) -> (r: Vec<char>)
    ensures
        r@ == lower_seq(v@),
{
    let mut r: Vec<char> = Vec::new();
    let mut i: usize = 0;
    while i < v.len()
        invariant
            i <= v@.len(),
            r@.len() == i,
            forall|j: int| 0 <= j < i ==> r@[j] == lower_char(#[trigger] v@[j]),
        decreases v@.len() - i,
    {
        r.push(lower_char_exec(v[i]));
        i = i + 1;
    }
    proof {
        assert(r@ =~= lower_seq(v@));
    }
    r
}

/// `s` without its leading white space.
pub open spec fn ltrim(s: Seq<char>) -> Seq<char>
    decreases s.len(),
{
    if s.len() > 0 && is_ws_char(s[0]) {
        ltrim(s.subrange(1, s.len() as int))
    } else {
        s
    }
}

/// `s` without its trailing white space.
pub open spec fn rtrim(s: Seq<char>) -> Seq<char>
    decreases s.len(),
{
    if s.len() > 0 && is_ws_char(s[s.len() - 1]) {
        rtrim(s.subrange(0, s.len() - 1))
    } else {
        s
    }
}

/// `s` without its leading and trailing white space.
pub open spec fn trim_seq(s: Seq<char>) -> Seq<char> {
    rtrim(ltrim(s))
}

proof fn lemma_ltrim_at(s: Seq<char>, k: int)
    requires
        0 <= k <= s.len(),
        forall|j: int| 0 <= j < k ==> is_ws_char(#[trigger] s[j]),
        k == s.len() || !is_ws_char(s[k]),
    ensures
        ltrim(s) == s.subrange(k, s.len() as int),
    decreases k,
{
    if k == 0 {
        assert(s.subrange(0, s.len() as int) =~= s);
    } else {
        assert(is_ws_char(s[0]));
        let t = s.subrange(1, s.len() as int);
        assert forall|j: int| 0 <= j < k - 1 implies is_ws_char(#[trigger] t[j]) by {
            assert(t[j] == s[j + 1]);
        }
        if k - 1 < t.len() {
            assert(t[k - 1] == s[k]);
        }
        lemma_ltrim_at(t, k - 1);
        assert(t.subrange(k - 1, t.len() as int) =~= s.subrange(k, s.len() as int));
    }
}

proof fn lemma_rtrim_at(s: Seq<char>, k: int)
    requires
        0 <= k <= s.len(),
        forall|j: int| k <= j < s.len() ==> is_ws_char(#[trigger] s[j]),
        k == 0 || !is_ws_char(s[k - 1]),
    ensures
        rtrim(s) == s.subrange(0, k),
    decreases s.len() - k,
{
    if k == s.len() {
        assert(s.subrange(0, s.len() as int) =~= s);
    } else {
        assert(is_ws_char(s[s.len() - 1]));
        let t = s.subrange(0, s.len() - 1);
        assert forall|j: int| k <= j < t.len() implies is_ws_char(#[trigger] t[j]) by {
            assert(t[j] == s[j]);
        }
        if k > 0 {
            assert(t[k - 1] == s[k - 1]);
        }
        lemma_rtrim_at(t, k);
        assert(t.subrange(0, k) =~= s.subrange(0, k));
    }
}

proof fn lemma_ltrim_blank(s: Seq<char>)
    ensures
        all_ws(ltrim(s)) <==> all_ws(s),
    decreases s.len(),
{
    if s.len() > 0 && is_ws_char(s[0]) {
        let t = s.subrange(1, s.len() as int);
        lemma_ltrim_blank(t);
        assert forall|j: int| 0 <= j < t.len() && all_ws(s) implies is_ws_char(#[trigger] t[j]) by {
            assert(t[j] == s[j + 1]);
        }
        if all_ws(t) {
            assert forall|j: int| 0 <= j < s.len() implies is_ws_char(#[trigger] s[j]) by {
                if j > 0 {
                    assert(s[j] == t[j - 1]);
                    assert(is_ws_char(t[j - 1]));
                }
            }
        }
    }
}

proof fn lemma_rtrim_blank(s: Seq<char>)
    ensures
        all_ws(rtrim(s)) <==> all_ws(s),
    decreases s.len(),
{
    if s.len() > 0 && is_ws_char(s[s.len() - 1]) {
        let t = s.subrange(0, s.len() - 1);
        lemma_rtrim_blank(t);
        assert forall|j: int| 0 <= j < t.len() && all_ws(s) implies is_ws_char(#[trigger] t[j]) by {
            assert(t[j] == s[j]);
        }
        if all_ws(t) {
            assert forall|j: int| 0 <= j < s.len() implies is_ws_char(#[trigger] s[j]) by {
                if j < s.len() - 1 {
                    assert(s[j] == t[j]);
                    assert(is_ws_char(t[j]));
                }
            }
        }
    }
}

/// Trimming yields the empty sequence exactly when the text is all
/// white space.
pub proof fn lemma_trim_empty(s: Seq<char>)
    ensures
        trim_seq(s).len() == 0 <==> all_ws(s),
{
    lemma_ltrim_blank(s);
    lemma_rtrim_blank(ltrim(s));
    if trim_seq(s).len() == 0 {
        assert(all_ws(trim_seq(s)));
    }
    if all_ws(s) {
        lemma_ltrim_at(s, s.len() as int);
        assert(s.subrange(s.len() as int, s.len() as int) =~= Seq::<char>::empty());
    }
}

/// `s` with leading and trailing white space removed.
pub fn trim_str(s: &str) -> (r: String)
    ensures
        r@ == trim_seq(s@),
{
    let n = s.unicode_len();
    let mut lo: usize = 0;
    let mut found_lo: bool = false;
    while !found_lo && lo < n
        invariant
            lo <= n,
            n == s@.len(),
            forall|j: int| 0 <= j < lo ==> is_ws_char(#[trigger] s@[j]),
            found_lo ==> lo < n && !is_ws_char(s@[lo as int]),
        decreases 2 * (n - lo) + (if found_lo { 0int } else { 1int }),
    {
        if is_ws(s.get_char(lo)) {
            lo = lo + 1;
        } else {
            found_lo = true;
        }
    }
    if !found_lo {
        proof {
            lemma_ltrim_at(s@, n as int);
            assert(s@.subrange(n as int, n as int) =~= Seq::<char>::empty());
        }
        return String::new();
    }
    let mut hi: usize = n;
    let mut found_hi: bool = false;
    while !found_hi
        invariant
            n == s@.len(),
            lo < n,
            !is_ws_char(s@[lo as int]),
            lo + 1 <= hi <= n,
            forall|j: int| hi <= j < n ==> is_ws_char(#[trigger] s@[j]),
            found_hi ==> !is_ws_char(s@[hi - 1]),
        decreases 2 * hi + (if found_hi { 0int } else { 1int }),
    {
        if is_ws(s.get_char(hi - 1)) {
            proof {
                assert(hi - 1 != lo);
            }
            hi = hi - 1;
        } else {
            found_hi = true;
        }
    }
    let sub = s.substring_char(lo, hi);
    let r = String::from_str(sub);
    proof {
        lemma_ltrim_at(s@, lo as int);
        let t = s@.subrange(lo as int, n as int);
        assert forall|j: int| (hi - lo) <= j < t.len() implies is_ws_char(#[trigger] t[j]) by {
            assert(t[j] == s@[j + lo]);
        }
        assert(t[hi - lo - 1] == s@[hi - 1]);
        lemma_rtrim_at(t, hi - lo);
        assert(t.subrange(0, hi - lo) =~= s@.subrange(lo as int, hi as int));
    }
    r
}

} // verus!
