use atm_auto_runner::text::{chars_of, replace_all, same_text, split_lines, split_words, str_contains, trim_bounds};

fn strs(v: Vec<Vec<char>>) -> Vec<String> {
    v.into_iter().map(|l| l.into_iter().collect()).collect()
}

#[test]
fn lines_like_std() {
    for s in ["", "a", "a\n", "a\r\nb", "\n\n", "a\rb\n", "x\r", "one\ntwo\r\n\r\nthree"] {
        let want: Vec<String> = s.lines().map(|l| l.to_string()).collect();
        assert_eq!(strs(split_lines(&chars_of(s))), want, "{:?}", s);
    }
}

#[test]
fn words_and_trim_like_std() {
    for s in ["", "  ", " a  b\tc\u{3000}d ", "abc", "\u{85}x\u{2028}"] {
        let v = chars_of(s);
        let want: Vec<String> = s.split_whitespace().map(|w| w.to_string()).collect();
        assert_eq!(strs(split_words(&v, 0, v.len())), want, "{:?}", s);
        let (lo, hi) = trim_bounds(&v);
        let got: String = v[lo..hi].iter().collect();
        assert_eq!(got, s.trim(), "{:?}", s);
    }
}

#[test]
fn search_and_replace_like_std() {
    assert!(str_contains("abcabd", "abd"));
    assert!(str_contains("abc", ""));
    assert!(!str_contains("ab", "abc"));
    assert!(same_text("x", "x"));
    assert!(!same_text("x", "xy"));
    for (s, p, r) in [("aaaa", "aa", "b"), ("abc", "x", "y"), ("&amp;amp;", "&amp;", "&")] {
        let got: String = replace_all(&chars_of(s), &chars_of(p), &chars_of(r)).into_iter().collect();
        assert_eq!(got, s.replace(p, r));
    }
}
