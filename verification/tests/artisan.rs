use rustroast::artisan::{
    alog_document, alog_event_keys, alog_event_name, alog_roast_date, alog_title,
    import_description, import_name, is_whitespace, lines, python_to_json, replace_all,
};
use rustroast::json::Json;

fn chars(text: &str) -> Vec<char> {
    text.chars().collect()
}

fn text(chars: &[char]) -> String {
    chars.iter().collect()
}

#[test]
fn white_space_is_what_the_standard_library_calls_so() {
    for code in 0u32..=0x10ffff {
        if let Some(c) = char::from_u32(code) {
            assert_eq!(is_whitespace(c), c.is_whitespace(), "for U+{:04X}", code);
        }
    }
}

#[test]
fn replacing_matches_the_standard_replace() {
    for (input, from, to) in [
        ("", "a", "b"),
        ("aaa", "a", "b"),
        ("aaa", "aa", "b"),
        ("aaaa", "aa", "a"),
        ("True or False", "True", "true"),
        ("TrTrueue", "True", "true"),
        ("xTrue", "True", ""),
        ("abc", "abcd", "x"),
        ("abcabc", "bc", "—"),
        ("(1, 2)", "(", "["),
        ("it's", "'", "\""),
    ] {
        assert_eq!(
            text(&replace_all(&chars(input), &chars(from), &chars(to))),
            input.replace(from, to),
            "for {:?}",
            input
        );
    }
}

#[test]
fn lines_match_the_standard_lines() {
    for input in
        ["", "\n", "a", "a\n", "a\nb", "a\r\nb\r\n", "a\n\nb", "\n\n", "a\r", "a\r\r\nb", "\r\n", "a\rb\n"]
    {
        let expected: Vec<String> = input.lines().map(|l| l.to_string()).collect();
        let found: Vec<String> = lines(&chars(input)).iter().map(|l| text(l)).collect();
        assert_eq!(found, expected, "for {:?}", input);
    }
}

fn by_the_standard_library(content: &str) -> String {
    content
        .replace("True", "true")
        .replace("False", "false")
        .replace("None", "null")
        .replace("(", "[")
        .replace(")", "]")
        .replace("'", "\"")
        .lines()
        .filter(|line| !line.trim_start().starts_with('#'))
        .collect::<Vec<_>>()
        .join("\n")
}

#[test]
fn python_literals_become_json() {
    for input in [
        "",
        "{'title': 'Kenya', 'flag': True, 'other': False, 'none': None}",
        "# comment\n{'timex': (0.0, 1.5),\n  # another\n 'temp1': [1, 2]}\n",
        "  \t# indented comment\n{}\n#last",
        "\u{a0}# after a no-break space\n{'a': 1}",
        "#only\n#comments\n",
        "{'a': '#not a comment'}\r\n{'b': 2}\r\n",
        "NoneTrueFalse()''",
    ] {
        assert_eq!(python_to_json(input), by_the_standard_library(input), "for {:?}", input);
    }
    assert_eq!(
        python_to_json("{'title': 'Kenya', 'ok': True, 'points': (1, 2)}"),
        "{\"title\": \"Kenya\", \"ok\": true, \"points\": [1, 2]}"
    );
}

#[test]
fn a_log_is_read_as_json_or_as_a_python_literal() {
    let json = alog_document("{\"title\":\"Kenya\",\"roastdate\":\"2024-01-02\"}").unwrap();
    assert_eq!(alog_title(&json), "Kenya");
    assert_eq!(alog_roast_date(&json), "2024-01-02");
    let python = alog_document("# log\n{'title': 'Kenya', 'timex': (0.0, 1.0), 'ok': True}").unwrap();
    assert_eq!(python.text(), "{\"ok\":true,\"timex\":[0.0,1.0],\"title\":\"Kenya\"}");
    assert_eq!(alog_title(&python), "Kenya");
    assert_eq!(alog_roast_date(&python), "");
    assert!(alog_document("neither {").is_err());
    assert!(alog_document("").is_err());
}

#[test]
fn a_log_without_a_title_gets_one() {
    assert_eq!(alog_title(&Json::parse(b"{}").unwrap()), "Imported Profile");
    assert_eq!(alog_title(&Json::parse(b"{\"title\":7}").unwrap()), "Imported Profile");
    assert_eq!(alog_title(&Json::parse(b"[]").unwrap()), "Imported Profile");
    assert_eq!(alog_title(&Json::parse(b"{\"title\":\"\"}").unwrap()), "");
}

#[test]
fn events_of_a_log() {
    assert_eq!(alog_event_keys(), vec!["CHARGE", "TP", "DRY", "FCs", "FCe", "SCs", "DROP"]);
    assert_eq!(alog_event_name("CHARGE"), "Charge");
    assert_eq!(alog_event_name("TP"), "Turning Point");
    assert_eq!(alog_event_name("DRY"), "Dry End");
    assert_eq!(alog_event_name("FCs"), "First Crack Start");
    assert_eq!(alog_event_name("FCe"), "First Crack End");
    assert_eq!(alog_event_name("SCs"), "Second Crack Start");
    assert_eq!(alog_event_name("DROP"), "Drop");
    assert_eq!(alog_event_name("SCe"), "SCe");
}

#[test]
fn names_of_an_imported_profile() {
    assert_eq!(import_name(Some("Mine".to_string()), "Kenya"), "Mine");
    assert_eq!(import_name(Some("".to_string()), "Kenya"), "");
    assert_eq!(import_name(None, "Kenya"), "Kenya");
    assert_eq!(import_name(None, ""), "Imported Artisan Profile");
    assert_eq!(import_description("2024-01-02"), "Imported from Artisan - Date: 2024-01-02");
    assert_eq!(import_description(""), "Imported from Artisan - Date: ");
}

#[test]
fn decode_tells_why_bytes_are_no_document() {
    assert!(Json::decode(b"{\"a\":1}").is_ok());
    assert!(Json::decode(b"{\"a\":").is_err());
}
