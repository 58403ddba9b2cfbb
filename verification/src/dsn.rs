//! Build-time telemetry settings: the shape check of the error-reporting
//! DSN, and reading a key out of a `.env`-style file.

use vstd::prelude::*;
use crate::pending::{decimal, push_decimal};
use crate::text::{chars_of, has_prefix, push_chars, starts_with, str_eq, string_from_chars, trim, trim_range};

verus! {

/// How many times `c` occurs in `s`.
pub open spec fn count_char(s: Seq<char>, c: char) -> nat
    decreases s.len(),
{
    if s.len() == 0 {
        0
    } else {
        count_char(s.drop_last(), c) + if s.last() == c { 1nat } else { 0nat }
    }
}

/// The message for a DSN with `n` `@` separators.
pub open spec fn at_count_message(n: nat) -> Seq<char> {
    "expected exactly 1 '@' separator, found "@ + decimal(n) + " (标准格式为 https://<key>@<host>/<id>)"@
}

/// The problem with a DSN, checked on its trimmed text in this order: it
/// is empty; it has not exactly one `@`; it starts with neither `http://`
/// nor `https://`; it has a `?` query string.
pub open spec fn dsn_problem(dsn: Seq<char>) -> Option<Seq<char>> {
    let t = trim(dsn);
    if t.len() == 0 {
        Some("empty"@)
    } else if count_char(t, '@') != 1 {
        Some(at_count_message(count_char(t, '@')))
    } else if !has_prefix(t, "http://"@) && !has_prefix(t, "https://"@) {
        Some("must start with http:// or https://"@)
    } else if count_char(t, '?') > 0 {
        Some("contains '?' query string (疑似 GlitchTip Key URL 而非标准 Sentry DSN)"@)
    } else {
        None
    }
}

fn count_of(s: &Vec<char>, c: char) -> (n: usize)
    ensures
        n == count_char(s@, c),
{
    let mut n: usize = 0;
    let mut i: usize = 0;
    while i < s.len()
        invariant
            0 <= i <= s@.len(),
            n == count_char(s@.take(i as int), c),
            n <= i,
        decreases s@.len() - i,
    {
        proof {
            assert(s@.take(i + 1).drop_last() =~= s@.take(i as int));
        }
        if s[i] == c {
            n = n + 1;
        }
        i = i + 1;
    }
    proof {
        assert(s@.take(i as int) =~= s@);
    }
    n
}

/// Checks that a DSN has the standard `https://<key>@<host>/<id>` shape.
pub fn validate_dsn(dsn: &str) -> (r: Result<(), String>)
    ensures
        match dsn_problem(dsn@) {
            None => r is Ok,
            Some(m) => r matches Err(e) && e@ == m,
        },
{
    proof {
        reveal_strlit("empty");
        reveal_strlit("http://");
        reveal_strlit("https://");
    }
    let c = chars_of(dsn);
    let t = trim_range(&c, 0, c.len());
    proof {
        assert(c@.subrange(0, c@.len() as int) =~= c@);
    }
    if t.len() == 0 {
        return Err("empty".to_owned());
    }
    let ats = count_of(&t, '@');
    if ats != 1 {
        let mut v: Vec<char> = Vec::new();
        push_chars(&mut v, "expected exactly 1 '@' separator, found ");
        push_decimal(&mut v, ats as u64);
        push_chars(&mut v, " (标准格式为 https://<key>@<host>/<id>)");
        return Err(string_from_chars(&v));
    }
    let ts = string_from_chars(&t);
    if !starts_with(ts.as_str(), "http://") && !starts_with(ts.as_str(), "https://") {
        return Err("must start with http:// or https://".to_owned());
    }
    if count_of(&t, '?') > 0 {
        return Err("contains '?' query string (疑似 GlitchTip Key URL 而非标准 Sentry DSN)".to_owned());
    }
    Ok(())
}

/// The first position at or after `from` holding `c`; the length when
/// there is none.
pub open spec fn find_char(s: Seq<char>, c: char, from: int) -> int
    decreases s.len() - from,
{
    if from >= s.len() || from < 0 {
        s.len() as int
    } else if s[from] == c {
        from
    } else {
        find_char(s, c, from + 1)
    }
}

/// The value a trimmed line gives `key`: none for a blank line, a comment
/// (`#`) or a line without `=`; for `k = v` with `k` (trimmed) equal to
/// `key`, the trimmed `v` unless it is empty.
pub open spec fn line_value(line: Seq<char>, key: Seq<char>) -> Option<Seq<char>> {
    if line.len() == 0 || line[0] == '#' {
        None
    } else {
        let j = find_char(line, '=', 0);
        if j >= line.len() {
            None
        } else if trim(line.take(j)) != key {
            None
        } else {
            let v = trim(line.skip(j + 1));
            if v.len() > 0 { Some(v) } else { None }
        }
    }
}

/// The value of `key` in the lines of `s` from position `from` on: the
/// first line that gives one.
pub open spec fn env_value_from(s: Seq<char>, key: Seq<char>, from: int) -> Option<Seq<char>>
    decreases s.len() - from,
{
    if from < 0 || from > s.len() {
        None
    } else {
        let e = find_char(s, '\n', from);
        match line_value(trim(s.subrange(from, e)), key) {
            Some(v) => Some(v),
            None => if e < s.len() {
                proof {
                    lemma_find_char_bounds(s, '\n', from);
                }
                env_value_from(s, key, e + 1)
            } else {
                None
            },
        }
    }
}

pub proof fn lemma_find_char_bounds(s: Seq<char>, c: char, from: int)
    requires
        0 <= from <= s.len(),
    ensures
        from <= find_char(s, c, from) <= s.len(),
        find_char(s, c, from) < s.len() ==> s[find_char(s, c, from)] == c,
        forall|k: int| from <= k < find_char(s, c, from) ==> s[k] != c,
    decreases s.len() - from,
{
    if from < s.len() && s[from] != c {
        lemma_find_char_bounds(s, c, from + 1);
    }
}

fn find_in(s: &Vec<char>, c: char, from: usize) -> (r: usize)
    requires
        from <= s@.len(),
    ensures
        r == find_char(s@, c, from as int),
        from <= r <= s@.len(),
{
    proof {
        lemma_find_char_bounds(s@, c, from as int);
    }
    let mut i = from;
    while i < s.len()
        invariant
            from <= i <= s@.len(),
            find_char(s@, c, i as int) == find_char(s@, c, from as int),
        decreases s@.len() - i,
    {
        if s[i] == c {
            return i;
        }
        i = i + 1;
    }
    i
}

fn value_of_line(line: &Vec<char>, key: &str) -> (r: Option<String>)
    ensures
        match line_value(line@, key@) {
            Some(v) => r matches Some(s) && s@ == v,
            None => r is None,
        },
{
    if line.len() == 0 || line[0] == '#' {
        return None;
    }
    let j = find_in(line, '=', 0);
    if j >= line.len() {
        return None;
    }
    let k = trim_range(line, 0, j);
    proof {
        assert(line@.subrange(0, j as int) =~= line@.take(j as int));
        assert(line@.subrange(j + 1, line@.len() as int) =~= line@.skip(j + 1));
    }
    let ks = string_from_chars(&k);
    if !str_eq(ks.as_str(), key) {
        return None;
    }
    let v = trim_range(line, j + 1, line.len());
    if v.len() == 0 {
        return None;
    }
    Some(string_from_chars(&v))
}

/// The value of `key` in the contents of a `.env`-style file: the first
/// `key = value` line with a value, ignoring blank lines and `#` comments,
/// keys and values trimmed.
pub fn read_env_value(content: &str, key: &str) -> (r: Option<String>)
    ensures
        match env_value_from(content@, key@, 0) {
            Some(v) => r matches Some(s) && s@ == v,
            None => r is None,
        },
{
    let s = chars_of(content);
    let mut from: usize = 0;
    loop
        invariant
            s@ == content@,
            0 <= from <= s@.len(),
            env_value_from(s@, key@, from as int) == env_value_from(s@, key@, 0),
        decreases s@.len() - from,
    {
        let e = find_in(&s, '\n', from);
        let line = trim_range(&s, from, e);
        match value_of_line(&line, key) {
            Some(v) => return Some(v),
            None => {},
        }
        if e >= s.len() {
            return None;
        }
        from = e + 1;
    }
}

} // verus!
