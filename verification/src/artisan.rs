//! The text of an Artisan roast log.
//!
//! Artisan writes its logs either as JSON or as a Python literal. This module
//! turns the literal into JSON text, decodes the document, and holds the rules
//! on the names of an imported profile. The measurements of a log are read
//! elsewhere.

use crate::json::{json_member, json_parse, json_string, Json};
use crate::text::{collect_chars, join, split};
use vstd::prelude::*;
use vstd::string::*;

verus! {

/// Whether a character is white space.
pub open spec fn is_space(c: char) -> bool {
    let u = c as u32;
    ||| 0x09 <= u <= 0x0d
    ||| u == 0x20
    ||| u == 0x85
    ||| u == 0xa0
    ||| u == 0x1680
    ||| 0x2000 <= u <= 0x200a
    ||| u == 0x2028
    ||| u == 0x2029
    ||| u == 0x202f
    ||| u == 0x205f
    ||| u == 0x3000
}

/// Whether a character is white space.
pub fn is_whitespace(c: char) -> (r: bool)
    ensures
        r == is_space(c),
{
    let u: u32 = c as u32;
    (0x09 <= u && u <= 0x0d) || u == 0x20 || u == 0x85 || u == 0xa0 || u == 0x1680 || (0x2000 <= u
        && u <= 0x200a) || u == 0x2028 || u == 0x2029 || u == 0x202f || u == 0x205f || u == 0x3000
}

/// Whether `text` has `pattern` at index `at`.
pub open spec fn occurs_at(text: Seq<char>, pattern: Seq<char>, at: int) -> bool {
    0 <= at && at + pattern.len() <= text.len() && text.subrange(at, at + pattern.len()) == pattern
}

/// `text` with every occurrence of `from` replaced by `to`, the occurrences
/// taken from the left and not overlapping. `from` is not empty.
pub open spec fn replaced(text: Seq<char>, from: Seq<char>, to: Seq<char>) -> Seq<char>
    recommends
        from.len() > 0,
    decreases text.len(),
{
    if text.len() == 0 || from.len() == 0 {
        text
    } else if occurs_at(text, from, 0) {
        to + replaced(text.skip(from.len() as int), from, to)
    } else {
        seq![text[0]] + replaced(text.skip(1), from, to)
    }
}

/// The lines of a text: the text is cut after every line feed, a carriage
/// return just before a line feed goes with it, and a text that ends with a
/// line feed has no empty last line.
pub open spec fn lines_of(text: Seq<char>) -> Seq<Seq<char>> {
    let parts = split(text, '\n');
    let ended = Seq::new(
        (parts.len() - 1) as nat,
        |i: int|
            if parts[i].len() > 0 && parts[i].last() == '\r' {
                parts[i].drop_last()
            } else {
                parts[i]
            },
    );
    if parts.len() > 0 && parts.last().len() > 0 {
        ended.push(parts.last())
    } else {
        ended
    }
}

/// Whether a line is a comment: its first character that is no white space is `#`.
pub open spec fn is_comment(line: Seq<char>) -> bool
    decreases line.len(),
{
    if line.len() == 0 {
        false
    } else if line[0] == '#' {
        true
    } else if is_space(line[0]) {
        is_comment(line.skip(1))
    } else {
        false
    }
}

/// The lines that are no comments, in order.
pub open spec fn code_lines(lines: Seq<Seq<char>>) -> Seq<Seq<char>>
    decreases lines.len(),
{
    if lines.len() == 0 {
        lines
    } else if is_comment(lines.last()) {
        code_lines(lines.drop_last())
    } else {
        code_lines(lines.drop_last()).push(lines.last())
    }
}

/// The lines put together again, with a line feed between each two.
pub open spec fn joined(lines: Seq<Seq<char>>) -> Seq<char> {
    join(lines, '\n')
}

/// The JSON text for a Python literal: the constants `True`, `False` and
/// `None` become `true`, `false` and `null`, round brackets become square
/// ones, single quotes become double ones, and comment lines are left out.
pub open spec fn json_from_python(text: Seq<char>) -> Seq<char> {
    let constants = replaced(
        replaced(replaced(text, "True"@, "true"@), "False"@, "false"@),
        "None"@,
        "null"@,
    );
    let brackets = replaced(replaced(constants, seq!['('], seq!['[']), seq![')'], seq![']']);
    let quotes = replaced(brackets, seq!['\''], seq!['"']);
    joined(code_lines(lines_of(quotes)))
}

/// The views of a list of lines.
pub open spec fn line_views(lines: Seq<Vec<char>>) -> Seq<Seq<char>> {
    Seq::new(lines.len(), |i: int| lines[i]@)
}

fn matches_at(text: &Vec<char>, pattern: &Vec<char>, at: usize) -> (r: bool)
    requires
        at <= text.len(),
    ensures
        r == occurs_at(text@, pattern@, at as int),
{
    if pattern.len() > text.len() - at {
        return false;
    }
    let mut k: usize = 0;
    while k < pattern.len()
        invariant
            at + pattern.len() <= text.len(),
            k <= pattern.len(),
            forall|j: int| 0 <= j < k ==> text@[at + j] == pattern@[j],
        decreases pattern.len() - k,
    {
        if text[at + k] != pattern[k] {
            proof {
                let window = text@.subrange(at as int, at + pattern.len());
                assert(window[k as int] == text@[at + k]);
            }
            return false;
        }
        k += 1;
    }
    proof {
        assert(text@.subrange(at as int, at + pattern.len()) =~= pattern@);
    }
    true
}

fn append_all(out: &mut Vec<char>, more: &Vec<char>)
    ensures
        final(out)@ == old(out)@ + more@,
{
    let mut k: usize = 0;
    while k < more.len()
        invariant
            k <= more.len(),
            out@ == old(out)@ + more@.take(k as int),
        decreases more.len() - k,
    {
        out.push(more[k]);
        proof {
            assert(more@.take(k + 1) == more@.take(k as int).push(more@[k as int]));
        }
        k += 1;
    }
    proof {
        assert(more@.take(more.len() as int) == more@);
    }
}

/// Replaces every occurrence of `from` in `text` by `to`.
pub fn replace_all(text: &Vec<char>, from: &Vec<char>, to: &Vec<char>) -> (r: Vec<char>)
    requires
        from.len() > 0,
    ensures
        r@ == replaced(text@, from@, to@),
{
    let mut out: Vec<char> = Vec::new();
    let mut i: usize = 0;
    proof {
        assert(text@.skip(0) == text@);
    }
    while i < text.len()
        invariant
            from.len() > 0,
            i <= text.len(),
            out@ + replaced(text@.skip(i as int), from@, to@) == replaced(text@, from@, to@),
        decreases text.len() - i,
    {
        let ghost rest = text@.skip(i as int);
        proof {
            assert(rest.len() > 0);
            assert(occurs_at(rest, from@, 0) == occurs_at(text@, from@, i as int)) by {
                if i + from.len() <= text.len() {
                    assert(rest.subrange(0, from.len() as int) == text@.subrange(
                        i as int,
                        i + from.len(),
                    ));
                }
            }
        }
        if matches_at(text, from, i) {
            let ghost before = out@;
            append_all(&mut out, to);
            proof {
                assert(rest.skip(from.len() as int) == text@.skip(i + from.len()));
                assert(before + (to@ + replaced(rest.skip(from.len() as int), from@, to@)) == (
                before + to@) + replaced(rest.skip(from.len() as int), from@, to@));
            }
            i += from.len();
        } else {
            let ghost before = out@;
            out.push(text[i]);
            proof {
                assert(rest.skip(1) == text@.skip(i + 1));
                assert(rest[0] == text@[i as int]);
                assert(before + (seq![rest[0]] + replaced(rest.skip(1), from@, to@)) == before.push(
                    rest[0],
                ) + replaced(rest.skip(1), from@, to@));
            }
            i += 1;
        }
    }
    proof {
        assert(text@.skip(text.len() as int) == Seq::<char>::empty());
        assert(out@ + Seq::<char>::empty() == out@);
    }
    out
}

fn split_chars(text: &Vec<char>, sep: char) -> (r: Vec<Vec<char>>)
    ensures
        line_views(r@) == split(text@, sep),
{
    let mut parts: Vec<Vec<char>> = Vec::new();
    let mut current: Vec<char> = Vec::new();
    let mut i: usize = 0;
    proof {
        assert(text@.take(0) == Seq::<char>::empty());
        assert(line_views(parts@).push(current@) == seq![Seq::<char>::empty()]);
    }
    while i < text.len()
        invariant
            i <= text.len(),
            line_views(parts@).push(current@) == split(text@.take(i as int), sep),
        decreases text.len() - i,
    {
        let c = text[i];
        let ghost after = text@.take(i + 1);
        let ghost old_parts = parts@;
        let ghost old_current = current@;
        proof {
            assert(after.drop_last() == text@.take(i as int));
            assert(after.last() == c);
        }
        if c == sep {
            parts.push(current);
            current = Vec::new();
            proof {
                assert(line_views(parts@) == line_views(old_parts).push(old_current));
            }
        } else {
            current.push(c);
            proof {
                let before = line_views(old_parts).push(old_current);
                assert(before.drop_last() == line_views(old_parts));
                assert(before.last() == old_current);
            }
        }
        i += 1;
    }
    proof {
        assert(text@.take(text.len() as int) == text@);
    }
    let ghost old_parts = parts@;
    parts.push(current);
    proof {
        assert(line_views(parts@) == line_views(old_parts).push(current@));
    }
    parts
}

/// The lines of a text.
pub fn lines(text: &Vec<char>) -> (r: Vec<Vec<char>>)
    ensures
        line_views(r@) == lines_of(text@),
{
    let mut parts = split_chars(text, '\n');
    proof {
        crate::text::lemma_split_nonempty(text@, '\n');
        assert(line_views(parts@).len() == parts@.len());
    }
    let ghost all = line_views(parts@);
    let last = match parts.pop() {
        Some(last) => last,
        None => Vec::new(),
    };
    assert(last@ == all.last());
    assert(line_views(parts@) == all.drop_last());
    let mut out: Vec<Vec<char>> = Vec::new();
    let mut i: usize = 0;
    let ghost ended = Seq::new(
        (all.len() - 1) as nat,
        |i: int|
            if all[i].len() > 0 && all[i].last() == '\r' {
                all[i].drop_last()
            } else {
                all[i]
            },
    );
    while i < parts.len()
        invariant
            i <= parts.len(),
            parts.len() == all.len() - 1,
            line_views(parts@) == all.drop_last(),
            ended == Seq::new(
                (all.len() - 1) as nat,
                |i: int|
                    if all[i].len() > 0 && all[i].last() == '\r' {
                        all[i].drop_last()
                    } else {
                        all[i]
                    },
            ),
            line_views(out@) == ended.take(i as int),
        decreases parts.len() - i,
    {
        let ghost before = out@;
        assert(line_views(parts@)[i as int] == parts@[i as int]@);
        let part = &parts[i];
        let mut line: Vec<char> = Vec::new();
        append_all(&mut line, part);
        assert(line@ == part@);
        if line.len() > 0 && line[line.len() - 1] == '\r' {
            line.pop();
        }
        out.push(line);
        proof {
            assert(line_views(out@) == line_views(before).push(line@));
            assert(ended.take(i + 1) == ended.take(i as int).push(ended[i as int]));
        }
        i += 1;
    }
    proof {
        assert(ended.take(ended.len() as int) == ended);
    }
    if last.len() > 0 {
        let ghost before = out@;
        out.push(last);
        proof {
            assert(line_views(out@) == line_views(before).push(last@));
        }
    }
    out
}

fn comment(line: &Vec<char>) -> (r: bool)
    ensures
        r == is_comment(line@),
{
    let mut i: usize = 0;
    proof {
        assert(line@.skip(0) == line@);
    }
    while i < line.len()
        invariant
            i <= line.len(),
            is_comment(line@.skip(i as int)) == is_comment(line@),
        decreases line.len() - i,
    {
        let ghost rest = line@.skip(i as int);
        proof {
            assert(rest[0] == line@[i as int]);
            assert(rest.skip(1) == line@.skip(i + 1));
        }
        if line[i] == '#' {
            return true;
        }
        if !is_whitespace(line[i]) {
            return false;
        }
        i += 1;
    }
    proof {
        assert(line@.skip(line.len() as int).len() == 0);
    }
    false
}

fn join_code_lines(lines: &Vec<Vec<char>>) -> (r: Vec<char>)
    ensures
        r@ == joined(code_lines(line_views(lines@))),
{
    let mut out: Vec<char> = Vec::new();
    let mut kept: usize = 0;
    let mut i: usize = 0;
    let ghost all = line_views(lines@);
    proof {
        assert(all.take(0) == Seq::<Seq<char>>::empty());
    }
    while i < lines.len()
        invariant
            i <= lines.len(),
            all == line_views(lines@),
            kept == code_lines(all.take(i as int)).len(),
            kept <= i,
            out@ == joined(code_lines(all.take(i as int))),
        decreases lines.len() - i,
    {
        let ghost done = all.take(i as int);
        let ghost next = all.take(i + 1);
        proof {
            assert(next.drop_last() == done);
            assert(next.last() == lines@[i as int]@);
        }
        if !comment(&lines[i]) {
            let ghost before = out@;
            if kept > 0 {
                out.push('\n');
            }
            append_all(&mut out, &lines[i]);
            proof {
                let grown = code_lines(done).push(next.last());
                assert(grown.drop_last() == code_lines(done));
                assert(grown.last() == next.last());
                if kept == 0 {
                    assert(code_lines(done).len() == 0);
                    assert(before == Seq::<char>::empty());
                    assert(grown[0] == next.last());
                    assert(Seq::<char>::empty() + next.last() == next.last());
                } else {
                    assert(before.push('\n') + next.last() == before + seq!['\n'] + next.last());
                }
            }
            kept += 1;
        }
        i += 1;
    }
    proof {
        assert(all.take(lines.len() as int) == all);
    }
    out
}

fn one(c: char) -> (r: Vec<char>)
    ensures
        r@ == seq![c],
{
    let mut out: Vec<char> = Vec::new();
    out.push(c);
    out
}

fn string_of(chars: &Vec<char>) -> (r: String)
    ensures
        r@ == chars@,
{
    let mut out = String::new();
    let mut i: usize = 0;
    while i < chars.len()
        invariant
            i <= chars.len(),
            out@ == chars@.take(i as int),
        decreases chars.len() - i,
    {
        out.push(chars[i]);
        proof {
            assert(chars@.take(i + 1) == chars@.take(i as int).push(chars@[i as int]));
        }
        i += 1;
    }
    proof {
        assert(chars@.take(chars.len() as int) == chars@);
    }
    out
}

/// Turns the text of a Python literal into JSON text.
pub fn python_to_json(content: &str) -> (r: String)
    ensures
        r@ == json_from_python(content@),
{
    proof {
        reveal_strlit("True");
        reveal_strlit("False");
        reveal_strlit("None");
    }
    let text = collect_chars(content);
    let text = replace_all(&text, &collect_chars("True"), &collect_chars("true"));
    let text = replace_all(&text, &collect_chars("False"), &collect_chars("false"));
    let text = replace_all(&text, &collect_chars("None"), &collect_chars("null"));
    let text = replace_all(&text, &one('('), &one('['));
    let text = replace_all(&text, &one(')'), &one(']'));
    let text = replace_all(&text, &one('\''), &one('"'));
    let all = lines(&text);
    string_of(&join_code_lines(&all))
}

/// The document of an Artisan log: the text as it is where it is JSON, else
/// the text turned from a Python literal into JSON.
pub open spec fn alog_document_of(content: Seq<char>) -> Option<Seq<char>> {
    match json_parse(vstd::utf8::encode_utf8(content)) {
        Some(doc) => Some(doc),
        None => json_parse(vstd::utf8::encode_utf8(json_from_python(content))),
    }
}

/// Decodes the text of an Artisan log. Where neither the text nor its
/// reading as a Python literal is JSON, the complaint about the latter is
/// handed back.
pub fn alog_document(content: &str) -> (r: Result<Json, serde_json::Error>)
    ensures
        match r {
            Ok(doc) => alog_document_of(content@) == Some(doc@),
            Err(_) => alog_document_of(content@) is None,
        },
{
    match Json::decode(content.as_bytes()) {
        Ok(doc) => Ok(doc),
        Err(_) => {
            let converted = python_to_json(content);
            Json::decode(converted.as_str().as_bytes())
        },
    }
}

/// The string under `key` in a log, or `default` where the log has none.
pub open spec fn alog_text_of(doc: Seq<char>, key: Seq<char>, default: Seq<char>) -> Seq<char> {
    match json_member(doc, key) {
        Some(member) => match json_string(member) {
            Some(text) => text,
            None => default,
        },
        None => default,
    }
}

fn alog_text(doc: &Json, key: &str, default: &str) -> (r: String)
    ensures
        r@ == alog_text_of(doc@, key@, default@),
{
    match doc.get(key) {
        Some(member) => match member.as_str() {
            Some(text) => text,
            None => String::from_str(default),
        },
        None => String::from_str(default),
    }
}

/// The title of a log, `Imported Profile` where it has none.
pub fn alog_title(doc: &Json) -> (r: String)
    ensures
        r@ == alog_text_of(doc@, "title"@, "Imported Profile"@),
{
    alog_text(doc, "title", "Imported Profile")
}

/// The date of the roast of a log, empty where it has none.
pub fn alog_roast_date(doc: &Json) -> (r: String)
    ensures
        r@ == alog_text_of(doc@, "roastdate"@, ""@),
{
    alog_text(doc, "roastdate", "")
}

/// The events that a log may mark, by the key under which it marks them, in
/// the order in which they are read.
pub fn alog_event_keys() -> (r: Vec<&'static str>)
    ensures
        r@.len() == 7,
        r@[0]@ == "CHARGE"@,
        r@[1]@ == "TP"@,
        r@[2]@ == "DRY"@,
        r@[3]@ == "FCs"@,
        r@[4]@ == "FCe"@,
        r@[5]@ == "SCs"@,
        r@[6]@ == "DROP"@,
{
    let mut keys: Vec<&'static str> = Vec::new();
    keys.push("CHARGE");
    keys.push("TP");
    keys.push("DRY");
    keys.push("FCs");
    keys.push("FCe");
    keys.push("SCs");
    keys.push("DROP");
    keys
}

/// The name of the event that a log marks under `key`.
pub open spec fn event_name_of(key: Seq<char>) -> Seq<char> {
    if key == "CHARGE"@ {
        "Charge"@
    } else if key == "TP"@ {
        "Turning Point"@
    } else if key == "DRY"@ {
        "Dry End"@
    } else if key == "FCs"@ {
        "First Crack Start"@
    } else if key == "FCe"@ {
        "First Crack End"@
    } else if key == "SCs"@ {
        "Second Crack Start"@
    } else if key == "DROP"@ {
        "Drop"@
    } else {
        key
    }
}

/// The name of the event that a log marks under `key`; a key that is not
/// known is its own name.
pub fn alog_event_name(key: &str) -> (r: String)
    ensures
        r@ == event_name_of(key@),
{
    if crate::text::str_eq(key, "CHARGE") {
        String::from_str("Charge")
    } else if crate::text::str_eq(key, "TP") {
        String::from_str("Turning Point")
    } else if crate::text::str_eq(key, "DRY") {
        String::from_str("Dry End")
    } else if crate::text::str_eq(key, "FCs") {
        String::from_str("First Crack Start")
    } else if crate::text::str_eq(key, "FCe") {
        String::from_str("First Crack End")
    } else if crate::text::str_eq(key, "SCs") {
        String::from_str("Second Crack Start")
    } else if crate::text::str_eq(key, "DROP") {
        String::from_str("Drop")
    } else {
        String::from_str(key)
    }
}

/// The name of an imported profile: the name asked for, else the title of the
/// log, else `Imported Artisan Profile`.
pub fn import_name(requested: Option<String>, title: &str) -> (r: String)
    ensures
        r@ == match requested {
            Some(name) => name@,
            None => if title@.len() == 0 {
                "Imported Artisan Profile"@
            } else {
                title@
            },
        },
{
    match requested {
        Some(name) => name,
        None => {
            if title.unicode_len() == 0 {
                String::from_str("Imported Artisan Profile")
            } else {
                String::from_str(title)
            }
        },
    }
}

/// The description of an imported profile.
pub fn import_description(roast_date: &str) -> (r: String)
    ensures
        r@ == "Imported from Artisan - Date: "@ + roast_date@,
{
    let mut out = String::from_str("Imported from Artisan - Date: ");
    out.append(roast_date);
    out
}

} // verus!
