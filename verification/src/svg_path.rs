//! SVG path `d` grammar, as accepted by the `parse_svg_path` host function.
//!
//! Supported: `M L Q C Z` (absolute) and `m l q c z` (relative), `H V h v`
//! (expanded to `L`), implicit repetition (`M 1 2 3 4` = `M 1 2 L 3 4`,
//! other commands repeat themselves), separators made of whitespace and
//! commas, and numbers with an optional sign, digits and at most one point.
//! `A`, `S` and `T` are rejected.
//!
//! Numbers are kept as the tokens written in the data, and every absolute
//! coordinate as the exact sum that produces it: a base (an absolute token,
//! or zero at the start of the path) followed by the relative offsets added
//! to it, in order. Evaluating a coordinate in `f32` adds the parsed tokens
//! left to right starting from the base, which is the computation a
//! float-based parser performs.

use vstd::prelude::*;
use crate::text::{is_unicode_whitespace, is_whitespace};

verus! {

// ===== models =====

/// Model of a coordinate: an optional absolute base token and the relative
/// offset tokens added to it, in order. No base means the sum starts at 0.
pub struct CoordModel {
    pub base: Option<Seq<char>>,
    pub offsets: Seq<Seq<char>>,
}

/// Model of a path segment.
pub enum SegModel {
    M { x: CoordModel, y: CoordModel },
    L { x: CoordModel, y: CoordModel },
    Q { x1: CoordModel, y1: CoordModel, x: CoordModel, y: CoordModel },
    C {
        x1: CoordModel,
        y1: CoordModel,
        x2: CoordModel,
        y2: CoordModel,
        x: CoordModel,
        y: CoordModel,
    },
    Z,
}

/// A parse error, with the character position where it was detected.
#[derive(Debug, Clone, Copy, PartialEq, Eq, Structural)]
pub enum PathError {
    /// A number was expected at `pos` and none was written.
    MissingNumber { pos: usize },
    /// The number starting at `pos` is malformed (for example `1.2.3` or `-`).
    InvalidNumber { pos: usize },
    /// `A`, `S` or `T` (upper-cased in `cmd`), unsupported.
    Unsupported { cmd: char, pos: usize },
    /// Any other command character (upper-cased in `cmd`).
    Unknown { cmd: char, pos: usize },
}

/// An absolute coordinate: a base token (or zero) plus relative offset tokens.
#[derive(Debug)]
pub struct Coord {
    /// The absolute token the sum starts from; `None` means zero.
    pub base: Option<Vec<char>>,
    /// Relative offset tokens, added left to right.
    pub offsets: Vec<Vec<char>>,
}

impl Coord {
    pub open spec fn model(&self) -> CoordModel {
        CoordModel {
            base: match self.base {
                Some(t) => Some(t@),
                None => None,
            },
            offsets: self.offsets@.map_values(|t: Vec<char>| t@),
        }
    }
}

/// A path segment with exact coordinates.
#[derive(Debug)]
pub enum PathSegment {
    M { x: Coord, y: Coord },
    L { x: Coord, y: Coord },
    Q { x1: Coord, y1: Coord, x: Coord, y: Coord },
    C { x1: Coord, y1: Coord, x2: Coord, y2: Coord, x: Coord, y: Coord },
    Z,
}

impl PathSegment {
    pub open spec fn model(&self) -> SegModel {
        match self {
            PathSegment::M { x, y } => SegModel::M { x: x.model(), y: y.model() },
            PathSegment::L { x, y } => SegModel::L { x: x.model(), y: y.model() },
            PathSegment::Q { x1, y1, x, y } => SegModel::Q {
                x1: x1.model(),
                y1: y1.model(),
                x: x.model(),
                y: y.model(),
            },
            PathSegment::C { x1, y1, x2, y2, x, y } => SegModel::C {
                x1: x1.model(),
                y1: y1.model(),
                x2: x2.model(),
                y2: y2.model(),
                x: x.model(),
                y: y.model(),
            },
            PathSegment::Z => SegModel::Z,
        }
    }
}

/// Models of a segment list.
pub open spec fn segs_model(v: Seq<PathSegment>) -> Seq<SegModel> {
    v.map_values(|s: PathSegment| s.model())
}

// ===== lexical grammar =====

/// Separator: Unicode whitespace or a comma.
pub open spec fn is_sep(c: char) -> bool {
    is_unicode_whitespace(c) || c == ','
}

pub open spec fn is_digit(c: char) -> bool {
    '0' <= c && c <= '9'
}

pub open spec fn is_alpha(c: char) -> bool {
    ('A' <= c && c <= 'Z') || ('a' <= c && c <= 'z')
}

pub open spec fn is_lower(c: char) -> bool {
    'a' <= c && c <= 'z'
}

/// ASCII upper-casing.
pub open spec fn upper(c: char) -> char {
    if is_lower(c) {
        ((c as u32) - 32) as char
    } else {
        c
    }
}

/// First index at or after `i` that is not a separator.
pub open spec fn skip_sep(d: Seq<char>, i: int) -> int
    decreases d.len() - i,
{
    if 0 <= i < d.len() && is_sep(d[i]) {
        skip_sep(d, i + 1)
    } else {
        i
    }
}

/// First index at or after `i` that is neither a digit nor a point.
pub open spec fn scan_digits(d: Seq<char>, i: int) -> int
    decreases d.len() - i,
{
    if 0 <= i < d.len() && (is_digit(d[i]) || d[i] == '.') {
        scan_digits(d, i + 1)
    } else {
        i
    }
}

/// A token without its leading sign, if any.
pub open spec fn unsigned_part(t: Seq<char>) -> Seq<char> {
    if t.len() > 0 && (t[0] == '-' || t[0] == '+') {
        t.drop_first()
    } else {
        t
    }
}

/// At least one digit and at most one point.
pub open spec fn number_body_ok(body: Seq<char>) -> bool {
    &&& exists|k: int| 0 <= k < body.len() && is_digit(#[trigger] body[k])
    &&& forall|k1: int, k2: int|
        0 <= k1 < k2 < body.len() ==> !(#[trigger] body[k1] == '.' && #[trigger] body[k2] == '.')
}

/// A well-formed number token: optional sign, then at least one digit and at
/// most one point (the only other characters a token can hold).
pub open spec fn valid_number(t: Seq<char>) -> bool {
    number_body_ok(unsigned_part(t))
}

/// Outcome of reading one number.
pub enum NumRead {
    Got { tok: Seq<char>, next: int },
    Bad { e: PathError },
}

/// Reads a number after optional separators at `i`.
pub open spec fn read_number(d: Seq<char>, i: int) -> NumRead {
    let s = skip_sep(d, i);
    let a = if 0 <= s < d.len() && (d[s] == '-' || d[s] == '+') { s + 1 } else { s };
    let e = scan_digits(d, a);
    if e == s {
        NumRead::Bad { e: PathError::MissingNumber { pos: s as usize } }
    } else if valid_number(d.subrange(s, e)) {
        NumRead::Got { tok: d.subrange(s, e), next: e }
    } else {
        NumRead::Bad { e: PathError::InvalidNumber { pos: s as usize } }
    }
}

/// Outcome of reading `k` numbers.
pub enum NumsRead {
    Got { toks: Seq<Seq<char>>, next: int },
    Bad { e: PathError },
}

pub proof fn lemma_skip_sep(d: Seq<char>, i: int)
    requires
        0 <= i <= d.len(),
    ensures
        i <= skip_sep(d, i) <= d.len(),
    decreases d.len() - i,
{
    if 0 <= i < d.len() && is_sep(d[i]) {
        lemma_skip_sep(d, i + 1);
    }
}

pub proof fn lemma_scan_digits(d: Seq<char>, i: int)
    requires
        0 <= i <= d.len(),
    ensures
        i <= scan_digits(d, i) <= d.len(),
    decreases d.len() - i,
{
    if 0 <= i < d.len() && (is_digit(d[i]) || d[i] == '.') {
        lemma_scan_digits(d, i + 1);
    }
}

pub proof fn lemma_read_number(d: Seq<char>, i: int)
    requires
        0 <= i <= d.len(),
    ensures
        read_number(d, i) is Got ==> i < read_number(d, i)->next <= d.len(),
{
    lemma_skip_sep(d, i);
    let s = skip_sep(d, i);
    let a = if 0 <= s < d.len() && (d[s] == '-' || d[s] == '+') { s + 1 } else { s };
    lemma_scan_digits(d, a);
}

/// Reads `k` numbers in sequence from `i`.
pub open spec fn read_numbers(d: Seq<char>, i: int, k: nat) -> NumsRead
    decreases k,
{
    if k == 0 {
        NumsRead::Got { toks: Seq::empty(), next: i }
    } else {
        match read_numbers(d, i, (k - 1) as nat) {
            NumsRead::Bad { e } => NumsRead::Bad { e },
            NumsRead::Got { toks, next } => match read_number(d, next) {
                NumRead::Bad { e } => NumsRead::Bad { e },
                NumRead::Got { tok, next: n2 } => NumsRead::Got { toks: toks.push(tok), next: n2 },
            },
        }
    }
}

pub proof fn lemma_read_numbers(d: Seq<char>, i: int, k: nat)
    requires
        0 <= i <= d.len(),
    ensures
        read_numbers(d, i, k) is Got ==> ({
            let r = read_numbers(d, i, k);
            &&& i <= r->next <= d.len()
            &&& (k > 0 ==> i < r->next)
            &&& r->toks.len() == k
        }),
    decreases k,
{
    if k > 0 {
        lemma_read_numbers(d, i, (k - 1) as nat);
        match read_numbers(d, i, (k - 1) as nat) {
            NumsRead::Got { toks, next } => {
                lemma_read_number(d, next);
            },
            NumsRead::Bad { .. } => {},
        }
    }
}

// ===== command semantics =====

/// Parser state: current point, current subpath start, and the command an
/// implicit repetition stands for.
pub struct ParseState {
    pub cx: CoordModel,
    pub cy: CoordModel,
    pub sx: CoordModel,
    pub sy: CoordModel,
    pub implicit: char,
}

/// Zero.
pub open spec fn zero_coord() -> CoordModel {
    CoordModel { base: None, offsets: Seq::empty() }
}

/// The state at the start of a path.
pub open spec fn initial_state() -> ParseState {
    ParseState { cx: zero_coord(), cy: zero_coord(), sx: zero_coord(), sy: zero_coord(), implicit: ' ' }
}

/// An absolute coordinate from token `t`: `cur + t` when relative, else `t`.
pub open spec fn abs_coord(rel: bool, cur: CoordModel, t: Seq<char>) -> CoordModel {
    if rel {
        CoordModel { base: cur.base, offsets: cur.offsets.push(t) }
    } else {
        CoordModel { base: Some(t), offsets: Seq::empty() }
    }
}

/// The command an explicit letter makes implicit: `M`/`m` repeat as `L`/`l`.
pub open spec fn implicit_of(c: char) -> char {
    if c == 'M' {
        'L'
    } else if c == 'm' {
        'l'
    } else {
        c
    }
}

/// Number of operands of an upper-cased command.
pub open spec fn arity(up: char) -> nat {
    if up == 'M' || up == 'L' {
        2
    } else if up == 'H' || up == 'V' {
        1
    } else if up == 'Q' {
        4
    } else if up == 'C' {
        6
    } else {
        0
    }
}

/// The segment a numeric command produces, and the new current point.
pub open spec fn apply(up: char, rel: bool, st: ParseState, t: Seq<Seq<char>>) -> (SegModel, ParseState) {
    if up == 'M' {
        let x = abs_coord(rel, st.cx, t[0]);
        let y = abs_coord(rel, st.cy, t[1]);
        (SegModel::M { x, y }, ParseState { cx: x, cy: y, sx: x, sy: y, ..st })
    } else if up == 'L' {
        let x = abs_coord(rel, st.cx, t[0]);
        let y = abs_coord(rel, st.cy, t[1]);
        (SegModel::L { x, y }, ParseState { cx: x, cy: y, ..st })
    } else if up == 'H' {
        let x = abs_coord(rel, st.cx, t[0]);
        (SegModel::L { x, y: st.cy }, ParseState { cx: x, ..st })
    } else if up == 'V' {
        let y = abs_coord(rel, st.cy, t[0]);
        (SegModel::L { x: st.cx, y }, ParseState { cy: y, ..st })
    } else if up == 'Q' {
        let x1 = abs_coord(rel, st.cx, t[0]);
        let y1 = abs_coord(rel, st.cy, t[1]);
        let x = abs_coord(rel, st.cx, t[2]);
        let y = abs_coord(rel, st.cy, t[3]);
        (SegModel::Q { x1, y1, x, y }, ParseState { cx: x, cy: y, ..st })
    } else {
        let x1 = abs_coord(rel, st.cx, t[0]);
        let y1 = abs_coord(rel, st.cy, t[1]);
        let x2 = abs_coord(rel, st.cx, t[2]);
        let y2 = abs_coord(rel, st.cy, t[3]);
        let x = abs_coord(rel, st.cx, t[4]);
        let y = abs_coord(rel, st.cy, t[5]);
        (SegModel::C { x1, y1, x2, y2, x, y }, ParseState { cx: x, cy: y, ..st })
    }
}

/// What parsing the whole input produces.
pub enum PathOutcome {
    /// The segments, in order.
    Done { segs: Seq<SegModel> },
    /// The first error met.
    Fail { e: PathError },
    /// A number follows `Z` without a command letter: `Z` repeats without
    /// consuming input, and parsing never finishes.
    Diverge,
}

/// Prepends a segment to an outcome.
pub open spec fn cons(s: SegModel, o: PathOutcome) -> PathOutcome {
    match o {
        PathOutcome::Done { segs } => PathOutcome::Done { segs: seq![s] + segs },
        other => other,
    }
}

/// Prepends segments to an outcome.
pub open spec fn prepend_all(p: Seq<SegModel>, o: PathOutcome) -> PathOutcome {
    match o {
        PathOutcome::Done { segs } => PathOutcome::Done { segs: p + segs },
        other => other,
    }
}

/// Parses `d[i..]` in state `st`.
pub open spec fn run(d: Seq<char>, i: int, st: ParseState) -> PathOutcome
    decreases d.len() - i,
{
    if i < 0 || i > d.len() {
        PathOutcome::Done { segs: Seq::empty() }
    } else {
        let j = skip_sep(d, i);
        proof {
            lemma_skip_sep(d, i);
        }
        if j >= d.len() {
            PathOutcome::Done { segs: Seq::empty() }
        } else {
            let c = d[j];
            let explicit = is_alpha(c);
            let cmd = if explicit { c } else { st.implicit };
            let i1 = if explicit { j + 1 } else { j };
            let st1 = if explicit { ParseState { implicit: implicit_of(c), ..st } } else { st };
            let rel = is_lower(cmd);
            let up = upper(cmd);
            if up == 'Z' {
                if explicit {
                    cons(SegModel::Z, run(d, i1, ParseState { cx: st1.sx, cy: st1.sy, ..st1 }))
                } else {
                    PathOutcome::Diverge
                }
            } else if up == 'M' || up == 'L' || up == 'H' || up == 'V' || up == 'Q' || up == 'C' {
                proof {
                    lemma_read_numbers(d, i1, arity(up));
                }
                match read_numbers(d, i1, arity(up)) {
                    NumsRead::Bad { e } => PathOutcome::Fail { e },
                    NumsRead::Got { toks, next } => {
                        let (seg, st2) = apply(up, rel, st1, toks);
                        cons(seg, run(d, next, st2))
                    },
                }
            } else if up == 'A' || up == 'S' || up == 'T' {
                PathOutcome::Fail { e: PathError::Unsupported { cmd: up, pos: i1 as usize } }
            } else {
                PathOutcome::Fail { e: PathError::Unknown { cmd: up, pos: i1 as usize } }
            }
        }
    }
}

/// The outcome of parsing `d`.
pub open spec fn parse_outcome(d: Seq<char>) -> PathOutcome {
    run(d, 0, initial_state())
}

} // verus!

verus! {

// ===== executable parser =====

fn is_sep_exec(c: char) -> (b: bool)
    ensures
        b == is_sep(c),
{
    is_whitespace(c) || c == ','
}

fn upper_exec(c: char) -> (u: char)
    ensures
        u == upper(c),
{
    if 'a' <= c && c <= 'z' {
        let b = (c as u8) - 32;
        let u = b as char;
        proof {
            assert(u == ((c as u32) - 32) as char);
        }
        u
    } else {
        c
    }
}

fn clone_chars(v: &Vec<char>) -> (r: Vec<char>)
    ensures
        r@ == v@,
{
    let mut r: Vec<char> = Vec::new();
    let mut k: usize = 0;
    while k < v.len()
        invariant
            0 <= k <= v@.len(),
            r@ == v@.take(k as int),
        decreases v@.len() - k,
    {
        r.push(v[k]);
        proof {
            assert(v@.take(k + 1) =~= v@.take(k as int).push(v@[k as int]));
        }
        k = k + 1;
    }
    proof {
        assert(v@.take(v@.len() as int) =~= v@);
    }
    r
}

fn clone_coord(c: &Coord) -> (r: Coord)
    ensures
        r.model() == c.model(),
{
    let base = match &c.base {
        Some(t) => Some(clone_chars(t)),
        None => None,
    };
    let mut offsets: Vec<Vec<char>> = Vec::new();
    let mut k: usize = 0;
    while k < c.offsets.len()
        invariant
            0 <= k <= c.offsets@.len(),
            offsets@.len() == k,
            forall|m: int| 0 <= m < k ==> #[trigger] offsets@[m]@ == c.offsets@[m]@,
        decreases c.offsets@.len() - k,
    {
        offsets.push(clone_chars(&c.offsets[k]));
        k = k + 1;
    }
    let r = Coord { base, offsets };
    proof {
        assert(r.model().offsets =~= c.model().offsets);
    }
    r
}

fn zero_coord_exec() -> (r: Coord)
    ensures
        r.model() == zero_coord(),
{
    let r = Coord { base: None, offsets: Vec::new() };
    proof {
        assert(r.model().offsets =~= Seq::<Seq<char>>::empty());
    }
    r
}

fn abs_coord_exec(rel: bool, cur: &Coord, t: &Vec<char>) -> (r: Coord)
    ensures
        r.model() == abs_coord(rel, cur.model(), t@),
{
    if rel {
        let mut r = clone_coord(cur);
        r.offsets.push(clone_chars(t));
        proof {
            assert(r.model().offsets =~= cur.model().offsets.push(t@));
        }
        r
    } else {
        let r = Coord { base: Some(clone_chars(t)), offsets: Vec::new() };
        proof {
            assert(r.model().offsets =~= Seq::<Seq<char>>::empty());
        }
        r
    }
}

fn skip_sep_exec(d: &Vec<char>, i: usize) -> (j: usize)
    requires
        i <= d@.len(),
    ensures
        j == skip_sep(d@, i as int),
        i <= j <= d@.len(),
{
    let mut j = i;
    while j < d.len() && is_sep_exec(d[j])
        invariant
            i <= j <= d@.len(),
            skip_sep(d@, j as int) == skip_sep(d@, i as int),
        decreases d@.len() - j,
    {
        j = j + 1;
    }
    j
}

fn read_number_exec(d: &Vec<char>, i: usize) -> (r: Result<(Vec<char>, usize), PathError>)
    requires
        i <= d@.len(),
    ensures
        match read_number(d@, i as int) {
            NumRead::Got { tok, next } => r is Ok && r->Ok_0.0@ == tok && r->Ok_0.1 == next,
            NumRead::Bad { e } => r is Err && r->Err_0 == e,
        },
{
    let s = skip_sep_exec(d, i);
    let a = if s < d.len() && (d[s] == '-' || d[s] == '+') {
        s + 1
    } else {
        s
    };
    let mut e = a;
    while e < d.len() && (('0' <= d[e] && d[e] <= '9') || d[e] == '.')
        invariant
            a <= e <= d@.len(),
            scan_digits(d@, e as int) == scan_digits(d@, a as int),
        decreases d@.len() - e,
    {
        e = e + 1;
    }
    if e == s {
        return Err(PathError::MissingNumber { pos: s });
    }
    let ghost tok = d@.subrange(s as int, e as int);
    let ghost body = if tok.len() > 0 && (tok[0] == '-' || tok[0] == '+') { tok.drop_first() } else { tok };
    proof {
        assert(body =~= d@.subrange(a as int, e as int));
    }
    let mut digits = false;
    let mut dots: usize = 0;
    let mut k = a;
    while k < e
        invariant
            a <= k <= e <= d@.len(),
            body == d@.subrange(a as int, e as int),
            digits == exists|m: int| a <= m < k && is_digit(#[trigger] d@[m]),
            dots <= 2,
            dots == 0 ==> forall|m: int| a <= m < k ==> d@[m] != '.',
            dots == 1 ==> exists|m: int| a <= m < k && d@[m] == '.' && forall|m2: int| a <= m2 < k && m2 != m ==> d@[m2] != '.',
            dots == 2 ==> exists|m1: int, m2: int| a <= m1 < m2 < k && d@[m1] == '.' && d@[m2] == '.',
        decreases e - k,
    {
        if d[k] == '.' {
            if dots < 2 {
                proof {
                    if dots == 1 {
                        let m = choose|m: int| a <= m < k && d@[m] == '.' && forall|m2: int| a <= m2 < k && m2 != m ==> d@[m2] != '.';
                        assert(a <= m < k && d@[m] == '.' && d@[k as int] == '.');
                    }
                }
                dots = dots + 1;
            }
        }
        proof {
            if '0' <= d@[k as int] && d@[k as int] <= '9' {
                assert(is_digit(d@[k as int]));
            }
        }
        if '0' <= d[k] && d[k] <= '9' {
            digits = true;
        }
        k = k + 1;
    }
    let ok = digits && dots <= 1;
    proof {
        if digits {
            let m = choose|m: int| a <= m < e && is_digit(#[trigger] d@[m]);
            assert(body[m - a] == d@[m]);
        } else {
            assert forall|m: int| 0 <= m < body.len() implies !is_digit(#[trigger] body[m]) by {
                assert(body[m] == d@[a + m]);
            }
        }
        if dots == 2 {
            let (m1, m2) = choose|m1: int, m2: int| a <= m1 < m2 < e && d@[m1] == '.' && d@[m2] == '.';
            assert(body[m1 - a] == '.' && body[m2 - a] == '.');
        } else {
            assert forall|k1: int, k2: int| 0 <= k1 < k2 < body.len() implies !(#[trigger] body[k1] == '.' && #[trigger] body[k2] == '.') by {
                assert(body[k1] == d@[a + k1]);
                assert(body[k2] == d@[a + k2]);
                if dots == 1 {
                    let m = choose|m: int| a <= m < e && d@[m] == '.' && forall|m2: int| a <= m2 < e && m2 != m ==> d@[m2] != '.';
                    if body[k1] == '.' && body[k2] == '.' {
                        assert(a + k1 == m);
                        assert(a + k2 == m);
                    }
                }
            }
        }
        assert(unsigned_part(tok) == body);
        let p1 = exists|k: int| 0 <= k < body.len() && is_digit(#[trigger] body[k]);
        let p2 = forall|k1: int, k2: int|
            0 <= k1 < k2 < body.len() ==> !(#[trigger] body[k1] == '.' && #[trigger] body[k2] == '.');
        assert(p1 == digits);
        assert(p2 == (dots <= 1));
        assert(number_body_ok(body) == (p1 && p2));
        assert(ok == valid_number(tok));
    }
    if !ok {
        return Err(PathError::InvalidNumber { pos: s });
    }
    let mut t: Vec<char> = Vec::new();
    let mut k = s;
    while k < e
        invariant
            s <= k <= e <= d@.len(),
            t@ == d@.subrange(s as int, k as int),
        decreases e - k,
    {
        t.push(d[k]);
        proof {
            assert(d@.subrange(s as int, k + 1) =~= d@.subrange(s as int, k as int).push(d@[k as int]));
        }
        k = k + 1;
    }
    Ok((t, e))
}

} // verus!

verus! {

/// The parser state held by the executable parser, as a model.
pub open spec fn state_of(cx: &Coord, cy: &Coord, sx: &Coord, sy: &Coord, implicit: char) -> ParseState {
    ParseState { cx: cx.model(), cy: cy.model(), sx: sx.model(), sy: sy.model(), implicit }
}

/// Models of a token list.
pub open spec fn toks_model(v: Seq<Vec<char>>) -> Seq<Seq<char>> {
    v.map_values(|t: Vec<char>| t@)
}

proof fn lemma_read_numbers_bad_sticks(d: Seq<char>, i: int, n: nat, m: nat)
    requires
        n <= m,
        read_numbers(d, i, n) is Bad,
    ensures
        read_numbers(d, i, m) == read_numbers(d, i, n),
    decreases m - n,
{
    if m > n {
        lemma_read_numbers_bad_sticks(d, i, n, (m - 1) as nat);
    }
}

proof fn lemma_prepend_cons(p: Seq<SegModel>, s: SegModel, o: PathOutcome)
    ensures
        prepend_all(p, cons(s, o)) == prepend_all(p.push(s), o),
{
    match o {
        PathOutcome::Done { segs } => {
            assert(p + (seq![s] + segs) =~= p.push(s) + segs);
        },
        _ => {},
    }
}

fn arity_exec(up: char) -> (n: usize)
    ensures
        n == arity(up),
{
    if up == 'M' || up == 'L' {
        2
    } else if up == 'H' || up == 'V' {
        1
    } else if up == 'Q' {
        4
    } else if up == 'C' {
        6
    } else {
        0
    }
}

fn apply_exec(
    up: char,
    rel: bool,
    cx: &Coord,
    cy: &Coord,
    sx: &Coord,
    sy: &Coord,
    implicit: char,
    toks: &Vec<Vec<char>>,
) -> (r: (PathSegment, Coord, Coord, Coord, Coord))
    requires
        up == 'M' || up == 'L' || up == 'H' || up == 'V' || up == 'Q' || up == 'C',
        toks@.len() == arity(up),
    ensures
        ({
            let (seg, st2) = apply(up, rel, state_of(cx, cy, sx, sy, implicit), toks_model(toks@));
            &&& r.0.model() == seg
            &&& state_of(&r.1, &r.2, &r.3, &r.4, implicit) == st2
        }),
{
    let ghost t = toks_model(toks@);
    proof {
        assert forall|k: int| 0 <= k < toks@.len() implies #[trigger] t[k] == toks@[k]@ by {}
    }
    if up == 'M' {
        let x = abs_coord_exec(rel, cx, &toks[0]);
        let y = abs_coord_exec(rel, cy, &toks[1]);
        let nx = clone_coord(&x);
        let ny = clone_coord(&y);
        let sx2 = clone_coord(&x);
        let sy2 = clone_coord(&y);
        (PathSegment::M { x, y }, nx, ny, sx2, sy2)
    } else if up == 'L' {
        let x = abs_coord_exec(rel, cx, &toks[0]);
        let y = abs_coord_exec(rel, cy, &toks[1]);
        let nx = clone_coord(&x);
        let ny = clone_coord(&y);
        (PathSegment::L { x, y }, nx, ny, clone_coord(sx), clone_coord(sy))
    } else if up == 'H' {
        let x = abs_coord_exec(rel, cx, &toks[0]);
        let y = clone_coord(cy);
        let nx = clone_coord(&x);
        (PathSegment::L { x, y }, nx, clone_coord(cy), clone_coord(sx), clone_coord(sy))
    } else if up == 'V' {
        let x = clone_coord(cx);
        let y = abs_coord_exec(rel, cy, &toks[0]);
        let ny = clone_coord(&y);
        (PathSegment::L { x, y }, clone_coord(cx), ny, clone_coord(sx), clone_coord(sy))
    } else if up == 'Q' {
        let x1 = abs_coord_exec(rel, cx, &toks[0]);
        let y1 = abs_coord_exec(rel, cy, &toks[1]);
        let x = abs_coord_exec(rel, cx, &toks[2]);
        let y = abs_coord_exec(rel, cy, &toks[3]);
        let nx = clone_coord(&x);
        let ny = clone_coord(&y);
        (PathSegment::Q { x1, y1, x, y }, nx, ny, clone_coord(sx), clone_coord(sy))
    } else {
        let x1 = abs_coord_exec(rel, cx, &toks[0]);
        let y1 = abs_coord_exec(rel, cy, &toks[1]);
        let x2 = abs_coord_exec(rel, cx, &toks[2]);
        let y2 = abs_coord_exec(rel, cy, &toks[3]);
        let x = abs_coord_exec(rel, cx, &toks[4]);
        let y = abs_coord_exec(rel, cy, &toks[5]);
        let nx = clone_coord(&x);
        let ny = clone_coord(&y);
        (PathSegment::C { x1, y1, x2, y2, x, y }, nx, ny, clone_coord(sx), clone_coord(sy))
    }
}

fn read_numbers_exec(dv: &Vec<char>, i1: usize, k: usize) -> (r: Result<(Vec<Vec<char>>, usize), PathError>)
    requires
        i1 <= dv@.len(),
    ensures
        match read_numbers(dv@, i1 as int, k as nat) {
            NumsRead::Got { toks, next } => r is Ok && toks_model(r->Ok_0.0@) == toks && r->Ok_0.1 == next
                && r->Ok_0.0@.len() == k,
            NumsRead::Bad { e } => r is Err && r->Err_0 == e,
        },
        r is Ok ==> i1 <= r->Ok_0.1 <= dv@.len() && (k > 0 ==> i1 < r->Ok_0.1),
{
    let mut toks: Vec<Vec<char>> = Vec::new();
    let mut pos = i1;
    let mut n: usize = 0;
    proof {
        assert(toks_model(toks@) =~= Seq::<Seq<char>>::empty());
    }
    while n < k
        invariant
            0 <= n <= k,
            i1 <= pos <= dv@.len(),
            n > 0 ==> i1 < pos,
            toks@.len() == n,
            read_numbers(dv@, i1 as int, n as nat) == (NumsRead::Got { toks: toks_model(toks@), next: pos as int }),
        decreases k - n,
    {
        match read_number_exec(dv, pos) {
            Err(e) => {
                proof {
                    assert(read_numbers(dv@, i1 as int, (n + 1) as nat) == (NumsRead::Bad { e }));
                    lemma_read_numbers_bad_sticks(dv@, i1 as int, (n + 1) as nat, k as nat);
                }
                return Err(e);
            },
            Ok((t, next)) => {
                proof {
                    lemma_read_number(dv@, pos as int);
                }
                let ghost prev = toks@;
                let ghost tm = t@;
                toks.push(t);
                proof {
                    assert(toks_model(toks@) =~= toks_model(prev).push(tm));
                }
                pos = next;
                n = n + 1;
            },
        }
    }
    Ok((toks, pos))
}

/// Parses SVG path data, or returns `None` for data on which parsing never
/// finishes (a number directly after `Z`: see [`PathOutcome::Diverge`]).
pub fn parse_svg_path_d_checked(d: &str) -> (r: Option<Result<Vec<PathSegment>, PathError>>)
    ensures
        match parse_outcome(d@) {
            PathOutcome::Diverge => r is None,
            PathOutcome::Fail { e } => r == Some(Err::<Vec<PathSegment>, PathError>(e)),
            PathOutcome::Done { segs } => r is Some && r->0 is Ok && segs_model(r->0->Ok_0@) == segs,
        },
{
    let dv = crate::text::chars_of(d);
    let mut out: Vec<PathSegment> = Vec::new();
    let mut cx = zero_coord_exec();
    let mut cy = zero_coord_exec();
    let mut sx = zero_coord_exec();
    let mut sy = zero_coord_exec();
    let mut implicit: char = ' ';
    let mut i: usize = 0;
    proof {
        assert(segs_model(out@) =~= Seq::<SegModel>::empty());
        assert(state_of(&cx, &cy, &sx, &sy, implicit) == initial_state());
        match run(dv@, 0, initial_state()) {
            PathOutcome::Done { segs } => {
                assert(Seq::<SegModel>::empty() + segs =~= segs);
            },
            _ => {},
        }
    }
    loop
        invariant
            0 <= i <= dv@.len(),
            dv@ == d@,
            parse_outcome(dv@) == prepend_all(
                segs_model(out@),
                run(dv@, i as int, state_of(&cx, &cy, &sx, &sy, implicit)),
            ),
        decreases dv@.len() - i,
    {
        let ghost st = state_of(&cx, &cy, &sx, &sy, implicit);
        let ghost pre = segs_model(out@);
        let j = skip_sep_exec(&dv, i);
        if j >= dv.len() {
            proof {
                assert(pre + Seq::<SegModel>::empty() =~= pre);
            }
            return Some(Ok(out));
        }
        let c = dv[j];
        let explicit = ('A' <= c && c <= 'Z') || ('a' <= c && c <= 'z');
        let cmd = if explicit {
            c
        } else {
            implicit
        };
        let i1 = if explicit {
            j + 1
        } else {
            j
        };
        if explicit {
            implicit = if c == 'M' {
                'L'
            } else if c == 'm' {
                'l'
            } else {
                c
            };
        }
        let ghost st1 = state_of(&cx, &cy, &sx, &sy, implicit);
        let rel = 'a' <= cmd && cmd <= 'z';
        let up = upper_exec(cmd);
        if up == 'Z' {
            if !explicit {
                return None;
            }
            out.push(PathSegment::Z);
            cx = clone_coord(&sx);
            cy = clone_coord(&sy);
            proof {
                assert(segs_model(out@) =~= pre.push(SegModel::Z));
                lemma_prepend_cons(pre, SegModel::Z, run(dv@, i1 as int, state_of(&cx, &cy, &sx, &sy, implicit)));
            }
            i = i1;
        } else if up == 'M' || up == 'L' || up == 'H' || up == 'V' || up == 'Q' || up == 'C' {
            let k = arity_exec(up);
            let (toks, pos) = match read_numbers_exec(&dv, i1, k) {
                Err(e) => {
                    return Some(Err(e));
                },
                Ok(p) => p,
            };
            let (seg, ncx, ncy, nsx, nsy) = apply_exec(up, rel, &cx, &cy, &sx, &sy, implicit, &toks);
            let ghost sm = seg.model();
            out.push(seg);
            cx = ncx;
            cy = ncy;
            sx = nsx;
            sy = nsy;
            proof {
                assert(segs_model(out@) =~= pre.push(sm));
                lemma_prepend_cons(pre, sm, run(dv@, pos as int, state_of(&cx, &cy, &sx, &sy, implicit)));
            }
            i = pos;
        } else if up == 'A' || up == 'S' || up == 'T' {
            return Some(Err(PathError::Unsupported { cmd: up, pos: i1 }));
        } else {
            return Some(Err(PathError::Unknown { cmd: up, pos: i1 }));
        }
    }
}

} // verus!

verus! {

/// Parses SVG path data into absolute segments.
///
/// Data on which parsing never finishes (a number directly after `Z`, with
/// no command letter) is excluded; [`parse_svg_path_d_checked`] reports it.
pub fn parse_svg_path_d(d: &str) -> (r: Result<Vec<PathSegment>, PathError>)
    requires
        !(parse_outcome(d@) is Diverge),
    ensures
        match parse_outcome(d@) {
            PathOutcome::Fail { e } => r == Err::<Vec<PathSegment>, PathError>(e),
            PathOutcome::Done { segs } => r is Ok && segs_model(r->Ok_0@) == segs,
            PathOutcome::Diverge => false,
        },
{
    match parse_svg_path_d_checked(d) {
        Some(r) => r,
        None => {
            proof {
                assert(false);
            }
            Ok(Vec::new())
        },
    }
}

} // verus!
