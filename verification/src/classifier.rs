//! The code/prose classifier: additive scoring over independent textual
//! signals, with the text labelled as code exactly when the score reaches
//! the fixed threshold of 3.

use vstd::prelude::*;
use crate::text::{
    all_ws, chars_vec, contains_pattern, contains_seq, has_prefix, is_blank, is_match_at,
    is_ws_char, lower_seq, match_at, to_lower, vec_contains_char,
};

verus! {

/// The text holds a matched brace pair (worth 2 points).
pub open spec fn brace_signal(s: Seq<char>) -> bool {
    s.contains('{') && s.contains('}')
}

/// The text holds a matched parenthesis pair (worth 1 point).
pub open spec fn paren_signal(s: Seq<char>) -> bool {
    s.contains('(') && s.contains(')')
}

/// The text holds a matched bracket pair (worth 1 point).
pub open spec fn bracket_signal(s: Seq<char>) -> bool {
    s.contains('[') && s.contains(']')
}

/// The text holds a statement terminator (worth 1 point).
pub open spec fn semicolon_signal(s: Seq<char>) -> bool {
    s.contains(';')
}

/// The text holds a function arrow (worth 2 points).
pub open spec fn arrow_signal(s: Seq<char>) -> bool {
    contains_seq(s, "=>"@) || contains_seq(s, "->"@)
}

/// The text holds a logical or equality operator (worth 1 point).
pub open spec fn operator_signal(s: Seq<char>) -> bool {
    contains_seq(s, "==="@) || contains_seq(s, "!=="@) || contains_seq(s, "&&"@)
        || contains_seq(s, "||"@)
}

/// The text holds a comment marker (worth 1 point).
pub open spec fn comment_signal(s: Seq<char>) -> bool {
    contains_seq(s, "//"@) || contains_seq(s, "/*"@) || contains_seq(s, "#!"@)
}

/// A line after the first begins with two spaces or a tab at position
/// `i + 1`, right after the line break at `i`.
pub open spec fn indent_at(s: Seq<char>, i: int) -> bool {
    0 <= i && i + 1 < s.len() && s[i] == '\n' && (s[i + 1] == '\t' || (i + 2 < s.len() && s[i
        + 1] == ' ' && s[i + 2] == ' '))
}

/// The text has several lines and one after the first begins with two
/// spaces or a tab (worth 2 points).
pub open spec fn indent_signal(s: Seq<char>) -> bool {
    exists|i: int| indent_at(s, i)
}

/// The keyword `k` occurs in the lower-cased text `low` at position `i`
/// as a space-delimited token: each side of the occurrence is a space or
/// an end of the text.
pub open spec fn token_at(low: Seq<char>, k: Seq<char>, i: int) -> bool {
    &&& is_match_at(low, k, i)
    &&& (i == 0 || low[i - 1] == ' ')
    &&& (i + k.len() == low.len() || low[i + k.len()] == ' ')
}

/// The lower-cased text `low` starts with the keyword `k`, or holds it
/// somewhere as a space-delimited token.
pub open spec fn keyword_match(low: Seq<char>, k: Seq<char>) -> bool {
    is_match_at(low, k, 0) || exists|i: int| token_at(low, k, i)
}

/// The lower-cased text matches one of the fixed code keywords
/// (worth 2 points, applied once).
pub open spec fn keyword_signal(low: Seq<char>) -> bool {
    ||| keyword_match(low, "function"@)
    ||| keyword_match(low, "class"@)
    ||| keyword_match(low, "def"@)
    ||| keyword_match(low, "import"@)
    ||| keyword_match(low, "export"@)
    ||| keyword_match(low, "const"@)
    ||| keyword_match(low, "let"@)
    ||| keyword_match(low, "var"@)
    ||| keyword_match(low, "return"@)
    ||| keyword_match(low, "if"@)
    ||| keyword_match(low, "else"@)
    ||| keyword_match(low, "for"@)
    ||| keyword_match(low, "while"@)
    ||| keyword_match(low, "fn"@)
    ||| keyword_match(low, "pub"@)
    ||| keyword_match(low, "struct"@)
    ||| keyword_match(low, "enum"@)
    ||| keyword_match(low, "interface"@)
    ||| keyword_match(low, "type"@)
    ||| keyword_match(low, "async"@)
    ||| keyword_match(low, "await"@)
    ||| keyword_match(low, "try"@)
    ||| keyword_match(low, "catch"@)
    ||| keyword_match(low, "throw"@)
    ||| keyword_match(low, "new"@)
    ||| keyword_match(low, "extends"@)
    ||| keyword_match(low, "implements"@)
    ||| keyword_match(low, "package"@)
    ||| keyword_match(low, "use"@)
    ||| keyword_match(low, "mod"@)
    ||| keyword_match(low, "impl"@)
    ||| keyword_match(low, "trait"@)
}

/// The weighted sum of nine signal verdicts.
pub open spec fn signal_sum(
    brace: bool,
    paren: bool,
    bracket: bool,
    semi: bool,
    arrow: bool,
    op: bool,
    kw: bool,
    indent: bool,
    comment: bool,
) -> int {
    (if brace { 2int } else { 0int }) + (if paren { 1int } else { 0int }) + (if bracket {
        1int
    } else {
        0int
    }) + (if semi { 1int } else { 0int }) + (if arrow { 2int } else { 0int }) + (if op {
        1int
    } else {
        0int
    }) + (if kw { 2int } else { 0int }) + (if indent { 2int } else { 0int }) + (if comment {
        1int
    } else {
        0int
    })
}

/// The cumulative score of all signals.
pub open spec fn code_score(s: Seq<char>) -> int {
    signal_sum(
        brace_signal(s),
        paren_signal(s),
        bracket_signal(s),
        semicolon_signal(s),
        arrow_signal(s),
        operator_signal(s),
        keyword_signal(lower_seq(s)),
        indent_signal(s),
        comment_signal(s),
    )
}

/// The text counts as code: it has visible content and its score reaches
/// the threshold of 3.
pub open spec fn is_likely_code_spec(s: Seq<char>) -> bool {
    !all_ws(s) && code_score(s) >= 3
}

fn keyword_token_search(low: &Vec<char>, k: &Vec<char>) -> (r: bool)
    requires
        k@.len() >= 1,
    ensures
        r == (exists|i: int| token_at(low@, k@, i)),
{
    let ll = low.len();
    let kl = k.len();
    if kl > ll {
        proof {
            assert(forall|i: int| !token_at(low@, k@, i));
        }
        return false;
    }
    let last = ll - kl;
    let mut i: usize = 0;
    while i <= last
        invariant
            ll == low@.len(),
            kl == k@.len(),
            1 <= kl <= ll,
            last == ll - kl,
            i <= last + 1,
            forall|j: int| 0 <= j < i ==> !token_at(low@, k@, j),
        decreases last + 1 - i,
    {
        if match_at(low, k, i) {
            let left_ok = i == 0 || low[i - 1] == ' ';
            let right_ok = i + kl == ll || low[i + kl] == ' ';
            if left_ok && right_ok {
                proof {
                    assert(token_at(low@, k@, i as int));
                }
                return true;
            }
        }
        proof {
            assert(!token_at(low@, k@, i as int));
        }
        i = i + 1;
    }
    proof {
        assert forall|j: int| !token_at(low@, k@, j) by {
            if 0 <= j && j + k@.len() <= low@.len() {
                assert(j < i);
            }
        }
    }
    false
}

fn keyword_at(low: &Vec<char>, kw: &str) -> (r: bool)
    ensures
        r == keyword_match(low@, kw@),
{
    let k = chars_vec(kw);
    if k.len() == 0 {
        proof {
            assert(low@.subrange(0, 0) =~= k@);
            assert(is_match_at(low@, k@, 0));
        }
        return true;
    }
    if has_prefix(low, &k) {
        return true;
    }
    keyword_token_search(low, &k)
}

fn has_keyword(low: &Vec<char>) -> (r: bool)
    ensures
        r == keyword_signal(low@),
{
    keyword_at(low, "function") || keyword_at(low, "class") || keyword_at(low, "def")
        || keyword_at(low, "import") || keyword_at(low, "export") || keyword_at(low, "const")
        || keyword_at(low, "let") || keyword_at(low, "var") || keyword_at(low, "return")
        || keyword_at(low, "if") || keyword_at(low, "else") || keyword_at(low, "for")
        || keyword_at(low, "while") || keyword_at(low, "fn") || keyword_at(low, "pub")
        || keyword_at(low, "struct") || keyword_at(low, "enum") || keyword_at(low, "interface")
        || keyword_at(low, "type") || keyword_at(low, "async") || keyword_at(low, "await")
        || keyword_at(low, "try") || keyword_at(low, "catch") || keyword_at(low, "throw")
        || keyword_at(low, "new") || keyword_at(low, "extends") || keyword_at(low, "implements")
        || keyword_at(low, "package") || keyword_at(low, "use") || keyword_at(low, "mod")
        || keyword_at(low, "impl") || keyword_at(low, "trait")
}

fn has_indent(cs: &Vec<char>) -> (r: bool)
    ensures
        r == indent_signal(cs@),
{
    let n = cs.len();
    if n < 2 {
        proof {
            assert(forall|j: int| !indent_at(cs@, j));
        }
        return false;
    }
    let mut i: usize = 0;
    while i < n - 1
        invariant
            n == cs@.len(),
            n >= 2,
            i <= n,
            forall|j: int| 0 <= j < i ==> !indent_at(cs@, j),
        decreases n - i,
    {
        if cs[i] == '\n' {
            if cs[i + 1] == '\t' {
                proof {
                    assert(indent_at(cs@, i as int));
                }
                return true;
            }
            if i + 2 < n {
                if cs[i + 1] == ' ' && cs[i + 2] == ' ' {
                    proof {
                        assert(indent_at(cs@, i as int));
                    }
                    return true;
                }
            }
        }
        proof {
            assert(!indent_at(cs@, i as int));
        }
        i = i + 1;
    }
    proof {
        assert forall|j: int| !indent_at(cs@, j) by {
            if 0 <= j && j + 1 < cs@.len() {
                assert(j < i);
            }
        }
    }
    false
}

fn threshold_reached(
    brace: bool,
    paren: bool,
    bracket: bool,
    semi: bool,
    arrow: bool,
    op: bool,
    kw: bool,
    indent: bool,
    comment: bool,
) -> (r: bool)
    ensures
        r == (signal_sum(brace, paren, bracket, semi, arrow, op, kw, indent, comment) >= 3),
{
    let score: u32 = (if brace { 2 } else { 0 }) + (if paren { 1 } else { 0 }) + (if bracket {
        1
    } else {
        0
    }) + (if semi { 1 } else { 0 }) + (if arrow { 2 } else { 0 }) + (if op { 1 } else { 0 }) + (
    if kw { 2 } else { 0 }) + (if indent { 2 } else { 0 }) + (if comment { 1 } else { 0 });
    score >= 3
}

/// Whether the text appears to be code. Empty or all-white-space input is
/// never code; otherwise the signals are scored and compared against the
/// threshold.
pub fn is_likely_code(text: &str) -> (r: bool)
    ensures
        r == is_likely_code_spec(text@),
{
    let cs = chars_vec(text);
    if is_blank(&cs) {
        return false;
    }
    let b_brace = vec_contains_char(&cs, '{') && vec_contains_char(&cs, '}');
    let b_paren = vec_contains_char(&cs, '(') && vec_contains_char(&cs, ')');
    let b_bracket = vec_contains_char(&cs, '[') && vec_contains_char(&cs, ']');
    let b_semi = vec_contains_char(&cs, ';');
    let p_fat = chars_vec("=>");
    let p_thin = chars_vec("->");
    let b_arrow = contains_pattern(&cs, &p_fat) || contains_pattern(&cs, &p_thin);
    let p_eq3 = chars_vec("===");
    let p_ne3 = chars_vec("!==");
    let p_and = chars_vec("&&");
    let p_or = chars_vec("||");
    let b_op = contains_pattern(&cs, &p_eq3) || contains_pattern(&cs, &p_ne3)
        || contains_pattern(&cs, &p_and) || contains_pattern(&cs, &p_or);
    let low = to_lower(&cs);
    let b_kw = has_keyword(&low);
    let b_indent = has_indent(&cs);
    let p_line = chars_vec("//");
    let p_block = chars_vec("/*");
    let p_shebang = chars_vec("#!");
    let b_comment = contains_pattern(&cs, &p_line) || contains_pattern(&cs, &p_block)
        || contains_pattern(&cs, &p_shebang);
    threshold_reached(
        b_brace,
        b_paren,
        b_bracket,
        b_semi,
        b_arrow,
        b_op,
        b_kw,
        b_indent,
        b_comment,
    )
}

/// Law: classification is a function of the text alone. Any two results
/// that meet the classifier's contract on the same text are equal, so
/// repeated calls on identical input return identical output.
pub proof fn lemma_classify_deterministic(s: Seq<char>, r1: bool, r2: bool)
    requires
        r1 == is_likely_code_spec(s),
        r2 == is_likely_code_spec(s),
    ensures
        r1 == r2,
{
}

/// Law: a text holding a matched brace pair and a statement terminator
/// already scores at the threshold, so it is classified as code whatever
/// further signals fire.
pub proof fn lemma_braces_and_semicolon_classified(s: Seq<char>)
    requires
        s.contains('{'),
        s.contains('}'),
        s.contains(';'),
    ensures
        code_score(s) >= 3,
        is_likely_code_spec(s),
{
    let i = choose|i: int| 0 <= i < s.len() && s[i] == '{';
    assert(!is_ws_char('{'));
    assert(!all_ws(s));
}

} // verus!
