//! Telemetry text handling: path anonymisation, event classification and the
//! decisions of the local pending-report store.

use vstd::prelude::*;
use crate::text::string_from_chars;

verus! {

/// Characters that end a user name inside a path: `\ / " ' space \n \t \r`.
pub open spec fn is_name_delimiter(c: char) -> bool {
    c == '\\' || c == '/' || c == '"' || c == '\'' || c == ' ' || c == '\n' || c == '\t' || c == '\r'
}

/// First index at or after `k` holding a name delimiter, or the length.
pub open spec fn name_end(s: Seq<char>, k: int) -> int
    decreases s.len() - k,
{
    if k >= s.len() || k < 0 || is_name_delimiter(s[k]) {
        k
    } else {
        name_end(s, k + 1)
    }
}

/// `\Users\`.
pub open spec fn windows_users_prefix() -> Seq<char> {
    seq!['\\', 'U', 's', 'e', 'r', 's', '\\']
}

/// `/Users/`.
pub open spec fn mac_users_prefix() -> Seq<char> {
    seq!['/', 'U', 's', 'e', 'r', 's', '/']
}

/// `/home/`.
pub open spec fn linux_home_prefix() -> Seq<char> {
    seq!['/', 'h', 'o', 'm', 'e', '/']
}

/// Whether `s[i..]` begins with `p`.
pub open spec fn chars_at(s: Seq<char>, i: int, p: Seq<char>) -> bool {
    0 <= i && i + p.len() <= s.len() && s.subrange(i, i + p.len()) == p
}

/// The first of the three user-directory prefixes found at `s[i..]`.
pub open spec fn prefix_at(s: Seq<char>, i: int) -> Option<Seq<char>> {
    if chars_at(s, i, windows_users_prefix()) {
        Some(windows_users_prefix())
    } else if chars_at(s, i, mac_users_prefix()) {
        Some(mac_users_prefix())
    } else if chars_at(s, i, linux_home_prefix()) {
        Some(linux_home_prefix())
    } else {
        None
    }
}

/// `{user}`.
pub open spec fn user_placeholder() -> Seq<char> {
    seq!['{', 'u', 's', 'e', 'r', '}']
}

pub proof fn lemma_name_end_ge(s: Seq<char>, k: int)
    ensures
        name_end(s, k) >= k,
        k <= s.len() ==> name_end(s, k) <= s.len(),
    decreases s.len() - k,
{
    if !(k >= s.len() || k < 0 || is_name_delimiter(s[k])) {
        lemma_name_end_ge(s, k + 1);
    }
}

/// Anonymised text of `s[i..]`: at each user-directory prefix, the prefix,
/// then `{user}` in place of the name that follows; every other character
/// copied as it is.
pub open spec fn anonymize_from(s: Seq<char>, i: int) -> Seq<char>
    decreases s.len() - i,
{
    if i >= s.len() || i < 0 {
        Seq::empty()
    } else {
        match prefix_at(s, i) {
            Some(p) => {
                let j = name_end(s, i + p.len());
                proof {
                    lemma_name_end_ge(s, i + p.len());
                }
                p + user_placeholder() + anonymize_from(s, j)
            },
            None => seq![s[i]] + anonymize_from(s, i + 1),
        }
    }
}

/// Text with no user-directory prefix anywhere comes back unchanged,
/// whatever characters it holds.
pub proof fn law_plain_text_unchanged(s: Seq<char>)
    requires
        forall|i: int| 0 <= i < s.len() ==> #[trigger] prefix_at(s, i) is None,
    ensures
        anonymize_from(s, 0) == s,
{
    lemma_plain_suffix(s, 0);
    assert(s.subrange(0, s.len() as int) =~= s);
}

proof fn lemma_plain_suffix(s: Seq<char>, i: int)
    requires
        0 <= i <= s.len(),
        forall|k: int| 0 <= k < s.len() ==> #[trigger] prefix_at(s, k) is None,
    ensures
        anonymize_from(s, i) == s.subrange(i, s.len() as int),
    decreases s.len() - i,
{
    if i < s.len() {
        assert(prefix_at(s, i) is None);
        lemma_plain_suffix(s, i + 1);
        assert(s.subrange(i, s.len() as int) =~= seq![s[i]] + s.subrange(i + 1, s.len() as int));
    } else {
        assert(s.subrange(i, s.len() as int) =~= Seq::<char>::empty());
    }
}

fn chars_at_exec(s: &Vec<char>, i: usize, p: &Vec<char>) -> (r: bool)
    requires
        i <= s@.len(),
    ensures
        r == chars_at(s@, i as int, p@),
{
    if p.len() > s.len() - i {
        return false;
    }
    let mut k: usize = 0;
    while k < p.len()
        invariant
            i + p@.len() <= s@.len(),
            s@.len() == s.len(),
            0 <= k <= p@.len(),
            forall|m: int| 0 <= m < k ==> s@[i + m] == p@[m],
        decreases p@.len() - k,
    {
        if s[i + k] != p[k] {
            proof {
                assert(s@.subrange(i as int, i + p@.len())[k as int] != p@[k as int]);
            }
            return false;
        }
        k = k + 1;
    }
    proof {
        assert(s@.subrange(i as int, i + p@.len()) =~= p@);
    }
    true
}

fn is_name_delimiter_exec(c: char) -> (r: bool)
    ensures
        r == is_name_delimiter(c),
{
    c == '\\' || c == '/' || c == '"' || c == '\'' || c == ' ' || c == '\n' || c == '\t' || c == '\r'
}

/// Anonymises user names in absolute paths: `\Users\<name>`,
/// `/Users/<name>` and `/home/<name>` become `\Users\{user}`,
/// `/Users/{user}` and `/home/{user}`; a name runs to the next
/// `\ / " '`, space, newline, tab or carriage return. Every other character
/// is kept, so text without such a path comes back unchanged.
pub fn anonymize_text(input: &str) -> (r: String)
    ensures
        r@ == anonymize_from(input@, 0),
{
    let c = crate::text::chars_of(input);
    let prefixes: Vec<Vec<char>> = vec![
        vec!['\\', 'U', 's', 'e', 'r', 's', '\\'],
        vec!['/', 'U', 's', 'e', 'r', 's', '/'],
        vec!['/', 'h', 'o', 'm', 'e', '/'],
    ];
    proof {
        assert(prefixes@[0]@ =~= windows_users_prefix());
        assert(prefixes@[1]@ =~= mac_users_prefix());
        assert(prefixes@[2]@ =~= linux_home_prefix());
    }
    let mut out: Vec<char> = Vec::new();
    let mut i: usize = 0;
    while i < c.len()
        invariant
            c@ == input@,
            0 <= i <= c@.len(),
            prefixes@.len() == 3,
            prefixes@[0]@ == windows_users_prefix(),
            prefixes@[1]@ == mac_users_prefix(),
            prefixes@[2]@ == linux_home_prefix(),
            anonymize_from(c@, 0) == out@ + anonymize_from(c@, i as int),
        decreases c@.len() - i,
    {
        let mut which: usize = 3;
        let mut t: usize = 0;
        while t < 3
            invariant
                0 <= t <= 3,
                prefixes@.len() == 3,
                i < c@.len(),
                which == 3 || (which < t && chars_at(c@, i as int, prefixes@[which as int]@)),
                which == 3 ==> forall|m: int| 0 <= m < t ==> !chars_at(c@, i as int, #[trigger] prefixes@[m]@),
                which < 3 ==> forall|m: int| 0 <= m < which ==> !chars_at(c@, i as int, #[trigger] prefixes@[m]@),
            decreases 3 - t,
        {
            if which == 3 && chars_at_exec(&c, i, &prefixes[t]) {
                which = t;
            }
            t = t + 1;
        }
        proof {
            if which == 3 {
                assert(!chars_at(c@, i as int, prefixes@[0]@));
                assert(!chars_at(c@, i as int, prefixes@[1]@));
                assert(!chars_at(c@, i as int, prefixes@[2]@));
                assert(prefix_at(c@, i as int) is None);
            } else if which == 0 {
                assert(prefix_at(c@, i as int) == Some(windows_users_prefix()));
            } else if which == 1 {
                assert(!chars_at(c@, i as int, prefixes@[0]@));
                assert(prefix_at(c@, i as int) == Some(mac_users_prefix()));
            } else {
                assert(!chars_at(c@, i as int, prefixes@[0]@));
                assert(!chars_at(c@, i as int, prefixes@[1]@));
                assert(prefix_at(c@, i as int) == Some(linux_home_prefix()));
            }
        }
        if which < 3 {
            let p = &prefixes[which];
            let ghost pre_out = out@;
            let mut k: usize = 0;
            while k < p.len()
                invariant
                    0 <= k <= p@.len(),
                    out@ == pre_out + p@.take(k as int),
                decreases p@.len() - k,
            {
                out.push(p[k]);
                proof {
                    assert(p@.take(k + 1) =~= p@.take(k as int).push(p@[k as int]));
                }
                k = k + 1;
            }
            out.push('{');
            out.push('u');
            out.push('s');
            out.push('e');
            out.push('r');
            out.push('}');
            let mut j = i + p.len();
            proof {
                lemma_name_end_ge(c@, j as int);
            }
            while j < c.len() && !is_name_delimiter_exec(c[j])
                invariant
                    i + p@.len() <= j <= c@.len(),
                    name_end(c@, (i + p@.len()) as int) == name_end(c@, j as int),
                decreases c@.len() - j,
            {
                j = j + 1;
            }
            proof {
                assert(p@.take(p@.len() as int) =~= p@);
                assert(out@ =~= pre_out + (p@ + user_placeholder()));
                assert(name_end(c@, j as int) == j);
                assert(pre_out + (p@ + user_placeholder() + anonymize_from(c@, j as int)) =~= out@
                    + anonymize_from(c@, j as int));
            }
            i = j;
        } else {
            let ghost pre_out = out@;
            out.push(c[i]);
            proof {
                assert(pre_out + (seq![c@[i as int]] + anonymize_from(c@, i + 1)) =~= out@ + anonymize_from(
                    c@,
                    i + 1,
                ));
            }
            i = i + 1;
        }
    }
    proof {
        assert(out@ + Seq::<char>::empty() =~= out@);
    }
    string_from_chars(&out)
}

} // verus!

verus! {

/// `PGR-1`, the prefix of crash codes.
pub open spec fn crash_prefix() -> Seq<char> {
    seq!['P', 'G', 'R', '-', '1']
}

/// `PGR-0`, the prefix of lifecycle codes.
pub open spec fn startup_prefix() -> Seq<char> {
    seq!['P', 'G', 'R', '-', '0']
}

/// Event type and priority tags derived from a report code.
pub enum EventClass {
    /// `("crash", "p1")`: codes starting with `PGR-1`.
    Crash,
    /// `("startup", "p3")`: codes starting with `PGR-0`.
    Startup,
    /// `("error", "p2")`: every other code.
    Error,
}

/// The class of a report code.
pub open spec fn spec_event_class(code: Seq<char>) -> EventClass {
    if crate::text::has_prefix(code, crash_prefix()) {
        EventClass::Crash
    } else if crate::text::has_prefix(code, startup_prefix()) {
        EventClass::Startup
    } else {
        EventClass::Error
    }
}

/// Classifies a report code by its prefix.
pub fn event_class(code: &str) -> (r: EventClass)
    ensures
        r == spec_event_class(code@),
{
    let c = crate::text::chars_of(code);
    let crash = vec!['P', 'G', 'R', '-', '1'];
    let startup = vec!['P', 'G', 'R', '-', '0'];
    proof {
        assert(crash@ =~= crash_prefix());
        assert(startup@ =~= startup_prefix());
        assert(c@.skip(0) =~= c@);
    }
    if crate::text::has_prefix_at(&c, 0, &crash) {
        EventClass::Crash
    } else if crate::text::has_prefix_at(&c, 0, &startup) {
        EventClass::Startup
    } else {
        EventClass::Error
    }
}

impl EventClass {
    /// The `event_type` tag.
    pub fn event_type(&self) -> (s: &'static str)
        ensures
            self is Crash ==> s@ == "crash"@,
            self is Startup ==> s@ == "startup"@,
            self is Error ==> s@ == "error"@,
    {
        match self {
            EventClass::Crash => "crash",
            EventClass::Startup => "startup",
            EventClass::Error => "error",
        }
    }

    /// The `priority` tag.
    pub fn priority(&self) -> (s: &'static str)
        ensures
            self is Crash ==> s@ == "p1"@,
            self is Startup ==> s@ == "p3"@,
            self is Error ==> s@ == "p2"@,
    {
        match self {
            EventClass::Crash => "p1",
            EventClass::Startup => "p3",
            EventClass::Error => "p2",
        }
    }
}

/// Whether `s` contains `needle` as a contiguous run.
pub open spec fn contains_run(s: Seq<char>, needle: Seq<char>) -> bool {
    exists|k: int| 0 <= k && k + needle.len() <= s.len() && #[trigger] s.subrange(k, k + needle.len()) == needle
}

/// Whether a pending record id is a plain file name: no `/`, no `\`, no `..`.
pub open spec fn spec_is_plain_record_id(id: Seq<char>) -> bool {
    !id.contains('/') && !id.contains('\\') && !contains_run(id, seq!['.', '.'])
}

/// Guards against path traversal before a pending record is deleted.
pub fn is_plain_record_id(id: &str) -> (b: bool)
    ensures
        b == spec_is_plain_record_id(id@),
{
    let c = crate::text::chars_of(id);
    let mut k: usize = 0;
    while k < c.len()
        invariant
            0 <= k <= c@.len(),
            c@ == id@,
            forall|m: int| 0 <= m < k ==> c@[m] != '/' && c@[m] != '\\',
            forall|m: int| 0 <= m && m + 1 < k ==> !(#[trigger] c@[m] == '.' && c@[m + 1] == '.'),
        decreases c@.len() - k,
    {
        if c[k] == '/' || c[k] == '\\' {
            proof {
                assert(id@.contains(c@[k as int]));
            }
            return false;
        }
        if k > 0 && c[k - 1] == '.' && c[k] == '.' {
            proof {
                assert(c@.subrange(k - 1, k - 1 + 2) =~= seq!['.', '.']);
                assert(contains_run(id@, seq!['.', '.']));
            }
            return false;
        }
        k = k + 1;
    }
    proof {
        assert(!id@.contains('/'));
        assert(!id@.contains('\\'));
        if contains_run(id@, seq!['.', '.']) {
            let m = choose|m: int| 0 <= m && m + 2 <= id@.len() && #[trigger] id@.subrange(m, m + 2) == seq!['.', '.'];
            assert(id@.subrange(m, m + 2)[0] == '.');
            assert(id@.subrange(m, m + 2)[1] == '.');
            assert(c@[m] == '.' && c@[m + 1] == '.');
        }
    }
    true
}

} // verus!

verus! {

/// A hexadecimal digit, in either case.
pub open spec fn is_hex_digit(c: char) -> bool {
    ('0' <= c && c <= '9') || ('a' <= c && c <= 'f') || ('A' <= c && c <= 'F')
}

/// ASCII lower-casing of one character.
pub open spec fn ascii_lower(c: char) -> char {
    if 'A' <= c && c <= 'Z' { ((c as u32) + 32) as char } else { c }
}

/// The hyphenated form: 36 characters, hyphens at 8, 13, 18 and 23, hex
/// digits elsewhere.
pub open spec fn uuid_hyphenated(s: Seq<char>) -> bool {
    &&& s.len() == 36
    &&& forall|i: int| 0 <= i < 36 ==> if i == 8 || i == 13 || i == 18 || i == 23 {
        #[trigger] s[i] == '-'
    } else {
        is_hex_digit(s[i])
    }
}

/// `urn:uuid:`.
pub open spec fn urn_prefix() -> Seq<char> {
    seq!['u', 'r', 'n', ':', 'u', 'u', 'i', 'd', ':']
}

/// The texts `uuid::Uuid::parse_str` accepts: 32 hex digits; the
/// hyphenated form; the hyphenated form in braces; or `urn:uuid:` (any
/// ASCII case) before the hyphenated form. Every accepted character is
/// ASCII, so counting characters is counting the bytes the parser counts.
pub open spec fn uuid_parses(s: Seq<char>) -> bool {
    ||| (s.len() == 32 && forall|i: int| 0 <= i < 32 ==> is_hex_digit(#[trigger] s[i]))
    ||| uuid_hyphenated(s)
    ||| (s.len() == 38 && s[0] == '{' && s[37] == '}' && uuid_hyphenated(s.subrange(1, 37)))
    ||| (s.len() == 45 && (forall|i: int| 0 <= i < 9 ==> #[trigger] ascii_lower(s[i]) == urn_prefix()[i])
        && uuid_hyphenated(s.skip(9)))
}

/// Calls `uuid::Uuid::parse_str` and reports whether it returned `Ok`:
/// exactly on the texts `uuid_parses` describes (its `try_parse` by length:
/// 32 for the simple form, 36 or 38 in braces for the hyphenated one, 45
/// after a case-insensitive `urn:uuid:`; `decode_hex32` for the digits).
#[verifier::external_body]
fn uuid_parse_ok(s: &str) -> (b: bool)
    ensures
        b == uuid_parses(s@),
{
    uuid::Uuid::parse_str(s).is_ok()
}

/// The install id stored in the `install_id` file, if the file's trimmed
/// content is a valid UUID; `None` means a new id must be generated.
pub fn install_id_from_file(content: &str) -> (r: Option<String>)
    ensures
        r is Some <==> uuid_parses(crate::text::trim(content@)),
        r is Some ==> r->0@ == crate::text::trim(content@),
{
    let c = crate::text::chars_of(content);
    let t = crate::text::trim_range(&c, 0, c.len());
    proof {
        assert(c@.subrange(0, c@.len() as int) =~= c@);
    }
    let s = string_from_chars(&t);
    if uuid_parse_ok(s.as_str()) {
        Some(s)
    } else {
        None
    }
}

/// Whether `s` has the shape of a hyphenated UUID: 36 characters, hyphens
/// at positions 8, 13, 18 and 23, lower-case hexadecimal digits elsewhere.
pub open spec fn is_hyphenated_uuid(s: Seq<char>) -> bool {
    &&& s.len() == 36
    &&& forall|i: int| 0 <= i < 36 ==> if i == 8 || i == 13 || i == 18 || i == 23 {
        #[trigger] s[i] == '-'
    } else {
        crate::pending::is_lower_hex(s[i])
    }
}

/// Calls `uuid::Uuid::new_v4()` and formats it with `to_string`: a random
/// UUID in hyphenated lower-case form.
#[verifier::external_body]
fn new_install_uuid() -> (s: String)
    ensures
        is_hyphenated_uuid(s@),
{
    uuid::Uuid::new_v4().to_string()
}

/// The install id to use, and whether it has to be written to the
/// `install_id` file.
#[derive(Debug)]
pub struct InstallId {
    pub id: String,
    pub persist: bool,
}

proof fn lemma_hyphenated_parses()
    ensures
        forall|s: Seq<char>| #[trigger] is_hyphenated_uuid(s) ==> uuid_hyphenated(s),
{
    assert forall|s: Seq<char>| #[trigger] is_hyphenated_uuid(s) implies uuid_hyphenated(s) by {
        assert forall|i: int| 0 <= i < 36 implies if i == 8 || i == 13 || i == 18 || i == 23 {
            #[trigger] s[i] == '-'
        } else {
            is_hex_digit(s[i])
        } by {
            assert(if i == 8 || i == 13 || i == 18 || i == 23 {
                s[i] == '-'
            } else {
                crate::pending::is_lower_hex(s[i])
            });
        }
    }
}

/// An install id read back: a text the parser accepts has no surrounding
/// whitespace, so the `install_id` file holding an id that was written
/// gives that same id again, with nothing to write back.
pub proof fn law_install_id_read_back(id: Seq<char>)
    requires
        uuid_parses(id),
    ensures
        crate::text::trim(id) == id,
{
    let c0 = id[0];
    let cl = id.last();
    if id.len() == 45 {
        assert(ascii_lower(id[0]) == urn_prefix()[0]);
        assert(uuid_hyphenated(id.skip(9)));
        assert(id.skip(9)[35] == id.last());
        assert(is_hex_digit(id.skip(9)[35]));
    } else if id.len() == 38 {
    } else if id.len() == 36 {
        assert(is_hex_digit(id[0]));
        assert(is_hex_digit(id[35]));
    } else {
        assert(is_hex_digit(id[0]));
        assert(is_hex_digit(id[31]));
    }
    assert(!crate::text::is_unicode_whitespace(c0));
    assert(!crate::text::is_unicode_whitespace(cl));
    assert(crate::text::trim_start(id) == id);
    assert(crate::text::trim_end(id) == id);
}

/// The install id from the `install_id` file's content (none when it could
/// not be read): its trimmed content when that is a valid UUID; otherwise a
/// fresh random UUID, to be written back.
pub fn get_install_id(file_content: Option<&str>) -> (r: InstallId)
    ensures
        uuid_parses(r.id@),
        match file_content {
            Some(c) if uuid_parses(crate::text::trim(c@)) => r.id@ == crate::text::trim(c@) && !r.persist,
            _ => r.persist && is_hyphenated_uuid(r.id@),
        },
{
    proof {
        lemma_hyphenated_parses();
    }
    match file_content {
        Some(c) => match install_id_from_file(c) {
            Some(id) => InstallId { id, persist: false },
            None => InstallId { id: new_install_uuid(), persist: true },
        },
        None => InstallId { id: new_install_uuid(), persist: true },
    }
}

/// A locally stored error record.
#[derive(Debug, Clone)]
pub struct PendingRecord {
    /// Unix milliseconds when the record was made.
    pub ts: u64,
    /// Application version.
    pub version: String,
    /// Anonymous install id.
    pub install_id: String,
    /// Report code.
    pub code: String,
    /// Anonymised message.
    pub message: String,
}

/// Telemetry runtime context: the data directory and the install id.
#[derive(Debug, Clone)]
pub struct TelemetryContext {
    /// Application data directory.
    pub app_data_dir: String,
    /// Anonymous install id.
    pub install_id: String,
}

/// `telemetry context not initialized`.
pub open spec fn context_missing_message() -> Seq<char> {
    "telemetry context not initialized"@
}

/// The record that storing a frontend error writes: the current context's
/// install id, the given code and the anonymised message; an error when no
/// context has been set up.
pub fn store_pending_report(
    ctx: &Option<TelemetryContext>,
    ts: u64,
    version: &str,
    code: &str,
    message: &str,
) -> (r: Result<PendingRecord, String>)
    ensures
        ctx is None <==> r is Err,
        r is Err ==> r->Err_0@ == context_missing_message(),
        r is Ok ==> ({
            let rec = r->Ok_0;
            &&& rec.ts == ts
            &&& rec.version@ == version@
            &&& rec.install_id@ == ctx->0.install_id@
            &&& rec.code@ == code@
            &&& rec.message@ == anonymize_from(message@, 0)
        }),
{
    match ctx {
        None => {
            let m = "telemetry context not initialized";
            proof {
                assert(m@ == context_missing_message());
            }
            Err(m.to_owned())
        },
        Some(c) => Ok(
            PendingRecord {
                ts,
                version: version.to_owned(),
                install_id: c.install_id.clone(),
                code: code.to_owned(),
                message: anonymize_text(message),
            },
        ),
    }
}

} // verus!

verus! {

/// What a guarded fallible call hands back: the result unchanged, and the
/// error text to report when it failed.
pub fn safe_try<T>(result: Result<T, String>, code: &str) -> (r: (Result<T, String>, Option<String>))
    ensures
        r.0 == result,
        r.1 is Some <==> result is Err,
        result is Err ==> r.1->0@ == result->Err_0@,
{
    let _ = code;
    match result {
        Ok(v) => (Ok(v), None),
        Err(e) => {
            let report = e.clone();
            (Err(e), Some(report))
        },
    }
}

/// `[<function> @ <location>] <message>`.
pub open spec fn safe_try_message(function: Seq<char>, location: Seq<char>, message: Seq<char>) -> Seq<char> {
    seq!['['] + function + " @ "@ + location + "] "@ + message
}

/// The pending record a failed guarded call writes when the SDK is inactive:
/// none without a context; otherwise the code and
/// `[<function> @ <location>] <anonymised message>`.
pub fn safe_try_record(
    ctx: &Option<TelemetryContext>,
    ts: u64,
    version: &str,
    code: &str,
    function: &str,
    location: &str,
    message: &str,
) -> (r: Option<PendingRecord>)
    ensures
        r is Some <==> ctx is Some,
        r is Some ==> ({
            let rec = r->0;
            &&& rec.ts == ts
            &&& rec.version@ == version@
            &&& rec.install_id@ == ctx->0.install_id@
            &&& rec.code@ == code@
            &&& rec.message@ == safe_try_message(
                function@,
                location@,
                anonymize_from(message@, 0),
            )
        }),
{
    let anon = anonymize_text(message);
    match ctx {
        None => None,
        Some(c) => {
            let mut v: Vec<char> = Vec::new();
            v.push('[');
            crate::text::push_chars(&mut v, function);
            crate::text::push_chars(&mut v, " @ ");
            crate::text::push_chars(&mut v, location);
            crate::text::push_chars(&mut v, "] ");
            crate::text::push_chars(&mut v, anon.as_str());
            proof {
                assert(v@ =~= safe_try_message(function@, location@, anon@));
            }
            Some(
                PendingRecord {
                    ts,
                    version: version.to_owned(),
                    install_id: c.install_id.clone(),
                    code: code.to_owned(),
                    message: string_from_chars(&v),
                },
            )
        },
    }
}

} // verus!
