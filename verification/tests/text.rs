use rustroast::text::{push_decimal, push_signed_decimal, split_str, str_eq};

fn strings(parts: &[&str]) -> Vec<String> {
    parts.iter().map(|p| p.to_string()).collect()
}

#[test]
fn split_matches_the_standard_split() {
    for text in ["", "a", "/", "a/b", "a//b", "/a/", "roaster/dev1/telemetry", "ö/β/€"] {
        let expected: Vec<String> = text.split('/').map(|p| p.to_string()).collect();
        assert_eq!(split_str(text, '/'), expected);
    }
}

#[test]
fn split_examples() {
    assert_eq!(split_str("", '/'), strings(&[""]));
    assert_eq!(split_str("/", '/'), strings(&["", ""]));
    assert_eq!(split_str("a/b/c", '/'), strings(&["a", "b", "c"]));
    assert_eq!(split_str("a;b", ';'), strings(&["a", "b"]));
    assert_eq!(split_str("a/b", ';'), strings(&["a/b"]));
}

#[test]
fn string_equality() {
    assert!(str_eq("", ""));
    assert!(str_eq("telemetry", "telemetry"));
    assert!(!str_eq("telemetry", "telemetrx"));
    assert!(!str_eq("telemetry", "telemetr"));
    assert!(!str_eq("telemetr", "telemetry"));
    assert!(str_eq("β€", "β€"));
    assert!(!str_eq("β", "€"));
}

#[test]
fn decimal_numerals() {
    for n in [0u64, 1, 9, 10, 11, 99, 100, 255, 1883, 65535, 4294967295, u64::MAX] {
        let mut out = String::from("x");
        push_decimal(&mut out, n);
        assert_eq!(out, format!("x{}", n));
    }
}

#[test]
fn signed_decimal_numerals() {
    for n in [0i64, 1, -1, 10, -10, -40, 123456, i64::MAX, i64::MIN, i64::MIN + 1] {
        let mut out = String::new();
        push_signed_decimal(&mut out, n);
        assert_eq!(out, format!("{}", n));
    }
}
