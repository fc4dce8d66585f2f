use snippet_capture::classifier::is_likely_code;

#[test]
fn test_is_likely_code_javascript() {
    let code = "function hello() {\n    console.log(\"Hello, World!\");\n}";
    assert!(is_likely_code(code));
}

#[test]
fn test_is_likely_code_rust() {
    let code = "fn main() {\n    println!(\"Hello\");\n}";
    assert!(is_likely_code(code));
}

#[test]
fn test_is_likely_code_plain_text() {
    let text = "This is just a regular sentence without any code.";
    assert!(!is_likely_code(text));
}

#[test]
fn test_is_likely_code_python() {
    let code = "def hello():\n    print(\"Hello\")\n    return True";
    assert!(is_likely_code(code));
}

#[test]
fn classify_empty_and_whitespace_is_false() {
    assert!(!is_likely_code(""));
    assert!(!is_likely_code("   "));
    assert!(!is_likely_code("\n\t"));
}

#[test]
fn classify_is_deterministic() {
    let samples = ["let x = 1;", "plain words", "", "fn f() {}"];
    for sample in samples {
        let first = is_likely_code(sample);
        for _ in 0..5 {
            assert_eq!(is_likely_code(sample), first);
        }
    }
}

#[test]
fn classify_braces_and_semicolon_reach_threshold() {
    // A matched brace pair (+2) and a semicolon (+1) reach the threshold,
    // with an arrow as one more signal on top.
    assert!(is_likely_code("{ x => y; }"));
    // Even without a further signal the brace pair and semicolon suffice.
    assert!(is_likely_code("qqq { www } eee;"));
}

#[test]
fn classify_function_snippet_is_code() {
    let code = "function hello() {\n    console.log(\"hi\");\n}";
    assert!(is_likely_code(code));
}

#[test]
fn classify_operators_alone_below_threshold() {
    // Operator (+1) and semicolon (+1) stay below the threshold of 3.
    assert!(!is_likely_code("a && b || c;"));
}

#[test]
fn classify_keyword_alone_below_threshold() {
    // A leading keyword scores 2, one short of the threshold.
    assert!(!is_likely_code("return x"));
    // The semicolon adds the missing point.
    assert!(is_likely_code("return x;"));
}

#[test]
fn classify_arrow_alone_below_threshold() {
    assert!(!is_likely_code("x -> y"));
    // Parentheses and a semicolon push the arrow over the threshold.
    assert!(is_likely_code("(x) => x + 1;"));
}

#[test]
fn classify_keywords_case_insensitive() {
    // Lower-casing lets the keyword match; with the parentheses the
    // score reaches the threshold even though the brace is unmatched.
    assert!(is_likely_code("FUNCTION test() {"));
}

#[test]
fn classify_indentation_alone_below_threshold() {
    assert!(!is_likely_code("first\n  second"));
    // Keyword, indentation, semicolon and parentheses together pass.
    assert!(is_likely_code("if ready\n  go();"));
}

#[test]
fn classify_keywords_need_space_delimited_tokens() {
    // "if" occurs inside "serif" but is no space-delimited token, so only
    // the semicolon scores and the text stays prose.
    assert!(!is_likely_code("serif x;"));
    // The same keyword as a token between spaces adds its two points.
    assert!(is_likely_code("ask if ready;"));
    // The text's end delimits the final token.
    assert!(is_likely_code("x = 1; call if"));
}

#[test]
fn classify_brackets_and_comment() {
    // Brackets (+1), parentheses (+1) and a semicolon (+1) reach 3.
    assert!(is_likely_code("items[0] = get(x);"));
    // A comment marker alone stays far below the threshold.
    assert!(!is_likely_code("// just a note"));
}
