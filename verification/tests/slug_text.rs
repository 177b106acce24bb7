use issue_autofix::slug::slugify;
use issue_autofix::text::{strip_fences, trim, u32_to_string};

fn assert_slug_shape(s: &str) {
    assert!(s.chars().all(|c| c.is_ascii_lowercase() || c.is_ascii_digit() || c == '-'));
    assert!(!s.starts_with('-'));
    assert!(!s.ends_with('-'));
    assert!(!s.contains("--"));
}

#[test]
fn slug_of_example_title() {
    assert_eq!(slugify("Fix Login!! Bug"), "fix-login-bug");
}

#[test]
fn slug_shape_and_idempotence_on_samples() {
    let samples = [
        "Fix Login!! Bug",
        "  --Weird__input//mix  ",
        "Árbol de Navidad",
        "",
        "ABC123",
        "a-b",
        "!!!",
        "CamelCase and_underscores/slashes",
    ];
    for s in samples {
        let once = slugify(s);
        assert_slug_shape(&once);
        assert_eq!(slugify(&once), once);
    }
}

#[test]
fn slug_lower_cases_ascii() {
    assert_eq!(slugify("ABC"), "abc");
    assert_eq!(slugify("MiXeD 42"), "mixed-42");
}

#[test]
fn slug_uses_unicode_lower_casing() {
    // The Kelvin sign lower-cases to the ASCII letter k; without real
    // Unicode lower-casing the character would be dropped instead.
    assert_eq!(slugify("\u{212A}"), "k");
    // The dotted capital I lower-cases to i plus a combining dot.
    assert_eq!(slugify("\u{0130}"), "i");
}

#[test]
fn slug_collapses_runs_and_trims() {
    assert_eq!(slugify("--a  b--"), "a-b");
    assert_eq!(slugify("a!!!b"), "a-b");
    assert_eq!(slugify(" spaced  out "), "spaced-out");
}

#[test]
fn trim_removes_surrounding_whitespace() {
    assert_eq!(trim("  hello \n"), "hello");
    assert_eq!(trim("hello"), "hello");
    assert_eq!(trim(" \t\r\n "), "");
    assert_eq!(trim("\u{00A0}wide\u{3000}"), "wide");
    assert_eq!(trim("inner  space kept"), "inner  space kept");
}

#[test]
fn strip_fences_removes_markers_and_trims() {
    assert_eq!(strip_fences("```\ncode\n```"), "code");
    assert_eq!(strip_fences("```"), "");
    assert_eq!(strip_fences("``````"), "");
    assert_eq!(strip_fences("no fences"), "no fences");
    // A fence marker only at the end is not stripped.
    assert_eq!(strip_fences("code\n```"), "code\n```");
}

#[test]
fn strip_fences_keeps_language_tag() {
    // The stripping deliberately does not remove a language tag after the
    // opening marker.
    assert_eq!(strip_fences("```js\ncode\n```"), "js\ncode");
}

#[test]
fn decimal_rendering() {
    assert_eq!(u32_to_string(0), "0");
    assert_eq!(u32_to_string(7), "7");
    assert_eq!(u32_to_string(42), "42");
    assert_eq!(u32_to_string(65535), "65535");
    assert_eq!(u32_to_string(1000), "1000");
}
