//! Elements: the drawing primitives a material script returns, and their
//! conversion from the script's values with its validation rules.
//!
//! A script value is held by what the conversion reads of it. Numbers carry
//! their conversions as the script runtime computes them: an integer its
//! `as f32` value, a float (binary64) its `as f32` and `as i64` values, and
//! both the text of their binary64 value.

use vstd::prelude::*;
use crate::float_bits::{F32, f32_of, f32_lt, f32_is_zero, f64_in_unit, f64_in_unit_exec, F32_0, F32_1};
use crate::pending::{decimal, push_decimal};
use crate::text::{push_chars, str_eq, string_from_chars};
use crate::material_error::MaterialError;

verus! {

/// A value returned by a material script.
#[derive(Debug)]
pub enum ScriptValue {
    /// `()`.
    Unit,
    /// A boolean.
    Bool(bool),
    /// An integer with its `as f32` bit pattern and the text of its value
    /// as binary64.
    Int { value: i64, as_f32: u32, text: String },
    /// A binary64 number (bit pattern) with its `as f32` bit pattern, its
    /// `as i64` value and its text.
    Float { bits: u64, as_f32: u32, as_i64: i64, text: String },
    /// A string.
    Str(String),
    /// An array.
    Array(Vec<ScriptValue>),
    /// A map with its entries.
    Object(Vec<(String, ScriptValue)>),
    /// A value of another type, by its type name.
    Other(String),
}

/// The script runtime's name of a value's type.
pub open spec fn value_type_name(v: ScriptValue) -> Seq<char> {
    match v {
        ScriptValue::Unit => "()"@,
        ScriptValue::Bool(_) => "bool"@,
        ScriptValue::Int { .. } => "i64"@,
        ScriptValue::Float { .. } => "f64"@,
        ScriptValue::Str(_) => "string"@,
        ScriptValue::Array(_) => "array"@,
        ScriptValue::Object(_) => "map"@,
        ScriptValue::Other(n) => n@,
    }
}

fn script_type_name(v: &ScriptValue) -> (s: String)
    ensures
        s@ == value_type_name(*v),
{
    match v {
        ScriptValue::Unit => "()".to_owned(),
        ScriptValue::Bool(_) => "bool".to_owned(),
        ScriptValue::Int { .. } => "i64".to_owned(),
        ScriptValue::Float { .. } => "f64".to_owned(),
        ScriptValue::Str(_) => "string".to_owned(),
        ScriptValue::Array(_) => "array".to_owned(),
        ScriptValue::Object(_) => "map".to_owned(),
        ScriptValue::Other(n) => n.clone(),
    }
}

/// The value of `key` in map entries (the first entry with that key).
pub open spec fn map_get(m: Seq<(String, ScriptValue)>, key: Seq<char>) -> Option<ScriptValue>
    decreases m.len(),
{
    if m.len() == 0 {
        None
    } else if m[0].0@ == key {
        Some(m[0].1)
    } else {
        map_get(m.drop_first(), key)
    }
}

proof fn lemma_map_get_skip(m: Seq<(String, ScriptValue)>, key: Seq<char>, i: int)
    requires
        0 <= i <= m.len(),
        forall|j: int| 0 <= j < i ==> #[trigger] m[j].0@ != key,
    ensures
        map_get(m, key) == map_get(m.skip(i), key),
    decreases i,
{
    if i == 0 {
        assert(m.skip(0) =~= m);
    } else {
        assert(m[0].0@ != key);
        assert forall|j: int| 0 <= j < i - 1 implies #[trigger] m.drop_first()[j].0@ != key by {
            assert(m.drop_first()[j] == m[j + 1]);
        }
        lemma_map_get_skip(m.drop_first(), key, i - 1);
        assert(m.drop_first().skip(i - 1) =~= m.skip(i));
    }
}

/// Looks up `key` in map entries.
fn get<'a>(m: &'a Vec<(String, ScriptValue)>, key: &str) -> (r: Option<&'a ScriptValue>)
    ensures
        r is Some <==> map_get(m@, key@) is Some,
        r is Some ==> *r->0 == map_get(m@, key@)->0,
{
    let mut i: usize = 0;
    while i < m.len()
        invariant
            0 <= i <= m@.len(),
            forall|j: int| 0 <= j < i ==> #[trigger] m@[j].0@ != key@,
        decreases m@.len() - i,
    {
        if str_eq(m[i].0.as_str(), key) {
            proof {
                lemma_map_get_skip(m@, key@, i as int);
                assert(m@.skip(i as int)[0] == m@[i as int]);
            }
            return Some(&m[i].1);
        }
        i = i + 1;
    }
    proof {
        lemma_map_get_skip(m@, key@, i as int);
        assert(m@.skip(i as int).len() == 0);
    }
    None
}

/// The `as f32` value of a number; none for other values.
pub open spec fn num_f32(v: ScriptValue) -> Option<u32> {
    match v {
        ScriptValue::Float { as_f32, .. } => Some(as_f32),
        ScriptValue::Int { as_f32, .. } => Some(as_f32),
        _ => None,
    }
}

fn number_f32(v: &ScriptValue) -> (r: Option<F32>)
    ensures
        match num_f32(*v) {
            Some(b) => r matches Some(f) && f.bits == b,
            None => r is None,
        },
{
    match v {
        ScriptValue::Float { as_f32, .. } => Some(f32_of(*as_f32)),
        ScriptValue::Int { as_f32, .. } => Some(f32_of(*as_f32)),
        _ => None,
    }
}

/// `a + key + b`.
pub open spec fn quoted(a: Seq<char>, key: Seq<char>, b: Seq<char>) -> Seq<char> {
    a + key + b
}

fn text3(a: &str, key: &str, b: &str) -> (s: String)
    ensures
        s@ == quoted(a@, key@, b@),
{
    let mut v: Vec<char> = Vec::new();
    push_chars(&mut v, a);
    push_chars(&mut v, key);
    push_chars(&mut v, b);
    string_from_chars(&v)
}

/// The number in field `key` of an element map, as binary32; the error
/// detail when it is missing or not a number. Path segments word the
/// errors differently (`segment`).
pub open spec fn field_f32(m: Seq<(String, ScriptValue)>, key: Seq<char>, segment: bool) -> Result<u32, Seq<char>> {
    match map_get(m, key) {
        None => Err(
            if segment {
                quoted("path segment missing field '"@, key, "'"@)
            } else {
                quoted("missing field '"@, key, "'"@)
            },
        ),
        Some(v) => match num_f32(v) {
            Some(b) => Ok(b),
            None => Err(
                if segment {
                    quoted("path segment field '"@, key, "' must be number"@)
                } else {
                    quoted("field '"@, key, "' must be number"@)
                },
            ),
        },
    }
}

/// Reads a number field.
fn get_f32(m: &Vec<(String, ScriptValue)>, key: &str, segment: bool) -> (r: Result<F32, String>)
    ensures
        match field_f32(m@, key@, segment) {
            Ok(b) => r matches Ok(f) && f.bits == b,
            Err(e) => r matches Err(s) && s@ == e,
        },
{
    match get(m, key) {
        None => Err(
            if segment {
                text3("path segment missing field '", key, "'")
            } else {
                text3("missing field '", key, "'")
            },
        ),
        Some(v) => match number_f32(v) {
            Some(f) => Ok(f),
            None => Err(
                if segment {
                    text3("path segment field '", key, "' must be number")
                } else {
                    text3("field '", key, "' must be number")
                },
            ),
        },
    }
}

/// The numbers in fields `keys`, in order; the first error otherwise.
pub open spec fn fields_f32(m: Seq<(String, ScriptValue)>, keys: Seq<Seq<char>>, segment: bool) -> Result<Seq<u32>, Seq<char>>
    decreases keys.len(),
{
    if keys.len() == 0 {
        Ok(Seq::empty())
    } else {
        match fields_f32(m, keys.drop_last(), segment) {
            Err(e) => Err(e),
            Ok(v) => match field_f32(m, keys.last(), segment) {
                Err(e) => Err(e),
                Ok(b) => Ok(v.push(b)),
            },
        }
    }
}

/// The bit patterns of binary32 values.
pub open spec fn bits_of(s: Seq<F32>) -> Seq<u32> {
    s.map_values(|f: F32| f.bits)
}

/// The views of key strings.
pub open spec fn key_views(keys: Seq<&str>) -> Seq<Seq<char>> {
    keys.map_values(|k: &str| k@)
}

/// Reads the number fields `keys` in order, stopping at the first error.
fn get_f32s(m: &Vec<(String, ScriptValue)>, keys: &[&str], segment: bool) -> (r: Result<Vec<F32>, String>)
    ensures
        match fields_f32(m@, key_views(keys@), segment) {
            Ok(v) => r matches Ok(w) && bits_of(w@) == v && w@.len() == keys@.len(),
            Err(e) => r matches Err(s) && s@ == e,
        },
{
    let ghost ks = key_views(keys@);
    let mut out: Vec<F32> = Vec::new();
    let mut i: usize = 0;
    proof {
        assert(ks.take(0) =~= Seq::<Seq<char>>::empty());
        assert(bits_of(out@) =~= Seq::<u32>::empty());
    }
    while i < keys.len()
        invariant
            0 <= i <= keys@.len(),
            ks == key_views(keys@),
            out@.len() == i,
            fields_f32(m@, ks.take(i as int), segment) == Ok::<Seq<u32>, Seq<char>>(bits_of(out@)),
        decreases keys@.len() - i,
    {
        proof {
            assert(ks.take(i + 1).drop_last() =~= ks.take(i as int));
            assert(ks.take(i + 1).last() == keys@[i as int]@);
        }
        match get_f32(m, keys[i], segment) {
            Ok(f) => {
                let ghost before = out@;
                out.push(f);
                proof {
                    assert(bits_of(out@) =~= bits_of(before).push(f.bits));
                }
            },
            Err(e) => {
                proof {
                    lemma_fields_prefix_err(m@, ks, i + 1, segment);
                }
                return Err(e);
            },
        }
        i = i + 1;
    }
    proof {
        assert(ks.take(i as int) =~= ks);
    }
    Ok(out)
}

/// An error on a prefix of the keys is the error on all of them.
proof fn lemma_fields_prefix_err(m: Seq<(String, ScriptValue)>, ks: Seq<Seq<char>>, k: int, segment: bool)
    requires
        0 <= k <= ks.len(),
        fields_f32(m, ks.take(k), segment) is Err,
    ensures
        fields_f32(m, ks, segment) == fields_f32(m, ks.take(k), segment),
    decreases ks.len() - k,
{
    if k < ks.len() {
        assert(ks.take(k + 1).drop_last() =~= ks.take(k));
        lemma_fields_prefix_err(m, ks, k + 1, segment);
    } else {
        assert(ks.take(k) =~= ks);
    }
}

/// The string in field `key`; the error detail when it is missing or not a
/// string.
pub open spec fn field_str(m: Seq<(String, ScriptValue)>, key: Seq<char>) -> Result<Seq<char>, Seq<char>> {
    match map_get(m, key) {
        None => Err(quoted("missing string field '"@, key, "'"@)),
        Some(ScriptValue::Str(s)) => Ok(s@),
        Some(_) => Err(quoted("field '"@, key, "' must be string"@)),
    }
}

/// Reads a string field.
fn get_str(m: &Vec<(String, ScriptValue)>, key: &str) -> (r: Result<String, String>)
    ensures
        match field_str(m@, key@) {
            Ok(t) => r matches Ok(s) && s@ == t,
            Err(e) => r matches Err(s) && s@ == e,
        },
{
    match get(m, key) {
        None => Err(text3("missing string field '", key, "'")),
        Some(ScriptValue::Str(s)) => Ok(s.clone()),
        Some(_) => Err(text3("field '", key, "' must be string")),
    }
}

/// The decimal text of a signed integer.
pub open spec fn int_text(w: i64) -> Seq<char> {
    if w < 0 {
        seq!['-'] + decimal((-(w as int)) as nat)
    } else {
        decimal(w as nat)
    }
}

fn push_int(v: &mut Vec<char>, w: i64)
    ensures
        final(v)@ == old(v)@ + int_text(w),
{
    if w < 0 {
        v.push('-');
        let mag: u64 = if w == i64::MIN { 0x8000_0000_0000_0000u64 } else { (-w) as u64 };
        push_decimal(v, mag);
        proof {
            assert(old(v)@ + int_text(w) =~= old(v)@.push('-') + decimal(mag as nat));
        }
    } else {
        push_decimal(v, w as u64);
    }
}

/// The integer a font weight reads as: an integer itself, a float by its
/// `as i64` value.
pub open spec fn weight_int(v: ScriptValue) -> Option<i64> {
    match v {
        ScriptValue::Float { as_i64, .. } => Some(as_i64),
        ScriptValue::Int { value, .. } => Some(value),
        _ => None,
    }
}

/// The optional font weight: none when absent or `()`; otherwise a
/// multiple of 100 in `100..=900`, an error detail for anything else.
pub open spec fn spec_font_weight(m: Seq<(String, ScriptValue)>) -> Result<Option<u16>, Seq<char>> {
    match map_get(m, "font_weight"@) {
        None => Ok(None),
        Some(ScriptValue::Unit) => Ok(None),
        Some(v) => match weight_int(v) {
            None => Err("field 'font_weight' must be number"@),
            Some(w) => if 100 <= w <= 900 && w % 100 == 0 {
                Ok(Some(w as u16))
            } else {
                Err("field 'font_weight' must be a multiple of 100 in 100..=900, got "@ + int_text(w))
            },
        },
    }
}

/// Reads the optional font weight.
fn get_font_weight(m: &Vec<(String, ScriptValue)>) -> (r: Result<Option<u16>, String>)
    ensures
        match spec_font_weight(m@) {
            Ok(o) => r == Ok::<Option<u16>, String>(o),
            Err(e) => r matches Err(s) && s@ == e,
        },
{
    let v = match get(m, "font_weight") {
        None => {
            return Ok(None);
        },
        Some(v) => v,
    };
    let w: i64 = match v {
        ScriptValue::Unit => {
            return Ok(None);
        },
        ScriptValue::Float { as_i64, .. } => *as_i64,
        ScriptValue::Int { value, .. } => *value,
        _ => {
            return Err("field 'font_weight' must be number".to_owned());
        },
    };
    if 100 <= w && w <= 900 && w % 100 == 0 {
        Ok(Some(w as u16))
    } else {
        let mut t: Vec<char> = Vec::new();
        push_chars(&mut t, "field 'font_weight' must be a multiple of 100 in 100..=900, got ");
        push_int(&mut t, w);
        Err(string_from_chars(&t))
    }
}

/// A coordinate of a polygon point given as a map entry: its `as f32`
/// value when it is a number.
pub open spec fn entry_coord(v: Option<ScriptValue>) -> Option<u32> {
    match v {
        Some(x) => num_f32(x),
        None => None,
    }
}

/// A polygon point: a map with `0`/`x` and `1`/`y` entries (the numbered
/// key taking precedence), or an array of at least two numbers.
pub open spec fn spec_point(p: ScriptValue) -> Result<(u32, u32), Seq<char>> {
    match p {
        ScriptValue::Object(e) => {
            let xv = match map_get(e@, "0"@) {
                Some(x) => Some(x),
                None => map_get(e@, "x"@),
            };
            let yv = match map_get(e@, "1"@) {
                Some(y) => Some(y),
                None => map_get(e@, "y"@),
            };
            match entry_coord(xv) {
                None => Err("polygon point missing x"@),
                Some(x) => match entry_coord(yv) {
                    None => Err("polygon point missing y"@),
                    Some(y) => Ok((x, y)),
                },
            }
        },
        ScriptValue::Array(a) => if a@.len() < 2 {
            Err("polygon point array must have 2 elements"@)
        } else {
            match num_f32(a@[0]) {
                None => Err("polygon point[0] invalid"@),
                Some(x) => match num_f32(a@[1]) {
                    None => Err("polygon point[1] invalid"@),
                    Some(y) => Ok((x, y)),
                },
            }
        },
        _ => Err("polygon point must be Map or Array"@),
    }
}

fn either<'a>(m: &'a Vec<(String, ScriptValue)>, first: &str, second: &str) -> (r: Option<&'a ScriptValue>)
    ensures
        match map_get(m@, first@) {
            Some(x) => r == Some(&x),
            None => match map_get(m@, second@) {
                Some(y) => r == Some(&y),
                None => r is None,
            },
        },
{
    match get(m, first) {
        Some(x) => Some(x),
        None => get(m, second),
    }
}

fn coord_of(v: Option<&ScriptValue>) -> (r: Option<F32>)
    ensures
        match v {
            Some(x) => match num_f32(*x) {
                Some(b) => r matches Some(f) && f.bits == b,
                None => r is None,
            },
            None => r is None,
        },
{
    match v {
        Some(x) => number_f32(x),
        None => None,
    }
}

/// Reads a polygon point.
fn point(p: &ScriptValue) -> (r: Result<[F32; 2], String>)
    ensures
        match spec_point(*p) {
            Ok((x, y)) => r matches Ok(a) && a[0].bits == x && a[1].bits == y,
            Err(e) => r matches Err(s) && s@ == e,
        },
{
    match p {
        ScriptValue::Object(e) => {
            let x = coord_of(either(e, "0", "x"));
            let y = coord_of(either(e, "1", "y"));
            match x {
                None => Err("polygon point missing x".to_owned()),
                Some(x) => match y {
                    None => Err("polygon point missing y".to_owned()),
                    Some(y) => Ok([x, y]),
                },
            }
        },
        ScriptValue::Array(a) => {
            if a.len() < 2 {
                return Err("polygon point array must have 2 elements".to_owned());
            }
            match number_f32(&a[0]) {
                None => Err("polygon point[0] invalid".to_owned()),
                Some(x) => match number_f32(&a[1]) {
                    None => Err("polygon point[1] invalid".to_owned()),
                    Some(y) => Ok([x, y]),
                },
            }
        },
        _ => Err("polygon point must be Map or Array".to_owned()),
    }
}

/// The polygon points, in order; the first error otherwise.
pub open spec fn spec_points(s: Seq<ScriptValue>) -> Result<Seq<(u32, u32)>, Seq<char>>
    decreases s.len(),
{
    if s.len() == 0 {
        Ok(Seq::empty())
    } else {
        match spec_points(s.drop_last()) {
            Err(e) => Err(e),
            Ok(ps) => match spec_point(s.last()) {
                Err(e) => Err(e),
                Ok(p) => Ok(ps.push(p)),
            },
        }
    }
}

proof fn lemma_points_prefix_err(s: Seq<ScriptValue>, k: int)
    requires
        0 <= k <= s.len(),
        spec_points(s.take(k)) is Err,
    ensures
        spec_points(s) == spec_points(s.take(k)),
    decreases s.len() - k,
{
    if k < s.len() {
        assert(s.take(k + 1).drop_last() =~= s.take(k));
        lemma_points_prefix_err(s, k + 1);
    } else {
        assert(s.take(k) =~= s);
    }
}

/// The model of polygon points.
pub open spec fn points_model(p: Seq<[F32; 2]>) -> Seq<(u32, u32)> {
    p.map_values(|a: [F32; 2]| (a[0].bits, a[1].bits))
}

/// Reads the polygon points.
fn points(a: &Vec<ScriptValue>) -> (r: Result<Vec<[F32; 2]>, String>)
    ensures
        match spec_points(a@) {
            Ok(ps) => r matches Ok(v) && points_model(v@) == ps,
            Err(e) => r matches Err(s) && s@ == e,
        },
{
    let mut out: Vec<[F32; 2]> = Vec::new();
    let mut i: usize = 0;
    proof {
        assert(a@.take(0) =~= Seq::<ScriptValue>::empty());
        assert(points_model(out@) =~= Seq::<(u32, u32)>::empty());
    }
    while i < a.len()
        invariant
            0 <= i <= a@.len(),
            spec_points(a@.take(i as int)) == Ok::<Seq<(u32, u32)>, Seq<char>>(points_model(out@)),
        decreases a@.len() - i,
    {
        proof {
            assert(a@.take(i + 1).drop_last() =~= a@.take(i as int));
            assert(a@.take(i + 1).last() == a@[i as int]);
        }
        match point(&a[i]) {
            Ok(p) => {
                let ghost before = out@;
                out.push(p);
                proof {
                    assert(points_model(out@) =~= points_model(before).push((p[0].bits, p[1].bits)));
                }
            },
            Err(e) => {
                proof {
                    lemma_points_prefix_err(a@, i + 1);
                }
                return Err(e);
            },
        }
        i = i + 1;
    }
    proof {
        assert(a@.take(i as int) =~= a@);
    }
    Ok(out)
}


/// A path segment with binary32 coordinates.
#[derive(Debug)]
pub enum Segment {
    M { x: F32, y: F32 },
    L { x: F32, y: F32 },
    Q { x1: F32, y1: F32, x: F32, y: F32 },
    C { x1: F32, y1: F32, x2: F32, y2: F32, x: F32, y: F32 },
    Z,
}

/// Model of a segment: its command letter and its coordinates in order.
pub struct SegmentModel {
    pub cmd: char,
    pub nums: Seq<u32>,
}

impl Segment {
    pub open spec fn model(&self) -> SegmentModel {
        match self {
            Segment::M { x, y } => SegmentModel { cmd: 'M', nums: seq![x.bits, y.bits] },
            Segment::L { x, y } => SegmentModel { cmd: 'L', nums: seq![x.bits, y.bits] },
            Segment::Q { x1, y1, x, y } => SegmentModel { cmd: 'Q', nums: seq![x1.bits, y1.bits, x.bits, y.bits] },
            Segment::C { x1, y1, x2, y2, x, y } => SegmentModel {
                cmd: 'C',
                nums: seq![x1.bits, y1.bits, x2.bits, y2.bits, x.bits, y.bits],
            },
            Segment::Z => SegmentModel { cmd: 'Z', nums: Seq::empty() },
        }
    }
}

/// `path segment <idx><rest>`.
pub open spec fn segment_message(idx: nat, rest: Seq<char>) -> Seq<char> {
    "path segment "@ + decimal(idx) + rest
}

/// The segment with coordinate fields `keys`, or the first field error.
pub open spec fn seg_with(s: Seq<(String, ScriptValue)>, keys: Seq<Seq<char>>, cmd: char) -> Result<SegmentModel, Seq<char>> {
    match fields_f32(s, keys, true) {
        Ok(v) => Ok(SegmentModel { cmd, nums: v }),
        Err(e) => Err(e),
    }
}

/// Segment `idx` of a path: a map with a string `cmd` among `M L Q C Z` and
/// the coordinates that command needs.
pub open spec fn spec_segment(idx: nat, v: ScriptValue) -> Result<SegmentModel, Seq<char>> {
    match v {
        ScriptValue::Object(e) => {
            let s = e@;
            match map_get(s, "cmd"@) {
                Some(ScriptValue::Str(c)) => {
                    let cmd = c@;
                    if cmd == "M"@ {
                        seg_with(s, seq!["x"@, "y"@], 'M')
                    } else if cmd == "L"@ {
                        seg_with(s, seq!["x"@, "y"@], 'L')
                    } else if cmd == "Q"@ {
                        seg_with(s, seq!["x1"@, "y1"@, "x"@, "y"@], 'Q')
                    } else if cmd == "C"@ {
                        seg_with(s, seq!["x1"@, "y1"@, "x2"@, "y2"@, "x"@, "y"@], 'C')
                    } else if cmd == "Z"@ {
                        Ok(SegmentModel { cmd: 'Z', nums: Seq::empty() })
                    } else {
                        Err(segment_message(idx, " has unknown cmd '"@ + cmd + "' (expected M/L/Q/C/Z)"@))
                    }
                },
                _ => Err(segment_message(idx, " missing 'cmd'"@)),
            }
        },
        _ => Err(segment_message(idx, " must be Map"@)),
    }
}

fn segment_text(idx: usize, rest: &str) -> (s: String)
    ensures
        s@ == segment_message(idx as nat, rest@),
{
    let mut v: Vec<char> = Vec::new();
    push_chars(&mut v, "path segment ");
    push_decimal(&mut v, idx as u64);
    push_chars(&mut v, rest);
    proof {
        assert(v@ =~= segment_message(idx as nat, rest@));
    }
    string_from_chars(&v)
}

/// Reads path segment `idx`.
fn segment(idx: usize, v: &ScriptValue) -> (r: Result<Segment, String>)
    ensures
        match spec_segment(idx as nat, *v) {
            Ok(sm) => r matches Ok(seg) && seg.model() == sm,
            Err(e) => r matches Err(t) && t@ == e,
        },
{
    let e = match v {
        ScriptValue::Object(e) => e,
        _ => {
            return Err(segment_text(idx, " must be Map"));
        },
    };
    let cmd = match get(e, "cmd") {
        Some(ScriptValue::Str(c)) => c,
        _ => {
            return Err(segment_text(idx, " missing 'cmd'"));
        },
    };
    if str_eq(cmd.as_str(), "M") || str_eq(cmd.as_str(), "L") {
        let is_m = str_eq(cmd.as_str(), "M");
        let keys: [&str; 2] = ["x", "y"];
        proof {
            assert(key_views(keys@) =~= seq!["x"@, "y"@]);
        }
        let v = get_f32s(e, &keys, true)?;
        proof {
            assert(bits_of(v@) =~= seq![v@[0].bits, v@[1].bits]);
        }
        if is_m {
            Ok(Segment::M { x: v[0], y: v[1] })
        } else {
            Ok(Segment::L { x: v[0], y: v[1] })
        }
    } else if str_eq(cmd.as_str(), "Q") {
        let keys: [&str; 4] = ["x1", "y1", "x", "y"];
        proof {
            assert(key_views(keys@) =~= seq!["x1"@, "y1"@, "x"@, "y"@]);
        }
        let v = get_f32s(e, &keys, true)?;
        proof {
            assert(bits_of(v@) =~= seq![v@[0].bits, v@[1].bits, v@[2].bits, v@[3].bits]);
        }
        Ok(Segment::Q { x1: v[0], y1: v[1], x: v[2], y: v[3] })
    } else if str_eq(cmd.as_str(), "C") {
        let keys: [&str; 6] = ["x1", "y1", "x2", "y2", "x", "y"];
        proof {
            assert(key_views(keys@) =~= seq!["x1"@, "y1"@, "x2"@, "y2"@, "x"@, "y"@]);
        }
        let v = get_f32s(e, &keys, true)?;
        proof {
            assert(bits_of(v@) =~= seq![v@[0].bits, v@[1].bits, v@[2].bits, v@[3].bits, v@[4].bits, v@[5].bits]);
        }
        Ok(Segment::C { x1: v[0], y1: v[1], x2: v[2], y2: v[3], x: v[4], y: v[5] })
    } else if str_eq(cmd.as_str(), "Z") {
        Ok(Segment::Z)
    } else {
        let mut t: Vec<char> = Vec::new();
        push_chars(&mut t, " has unknown cmd '");
        push_chars(&mut t, cmd.as_str());
        push_chars(&mut t, "' (expected M/L/Q/C/Z)");
        proof {
            assert(t@ =~= " has unknown cmd '"@ + cmd@ + "' (expected M/L/Q/C/Z)"@);
        }
        let rest = string_from_chars(&t);
        Err(segment_text(idx, rest.as_str()))
    }
}


/// The path segments, in order; the first error otherwise.
pub open spec fn spec_segments(s: Seq<ScriptValue>) -> Result<Seq<SegmentModel>, Seq<char>>
    decreases s.len(),
{
    if s.len() == 0 {
        Ok(Seq::empty())
    } else {
        match spec_segments(s.drop_last()) {
            Err(e) => Err(e),
            Ok(ps) => match spec_segment((s.len() - 1) as nat, s.last()) {
                Err(e) => Err(e),
                Ok(p) => Ok(ps.push(p)),
            },
        }
    }
}

proof fn lemma_segments_prefix_err(s: Seq<ScriptValue>, k: int)
    requires
        0 <= k <= s.len(),
        spec_segments(s.take(k)) is Err,
    ensures
        spec_segments(s) == spec_segments(s.take(k)),
    decreases s.len() - k,
{
    if k < s.len() {
        assert(s.take(k + 1).drop_last() =~= s.take(k));
        lemma_segments_prefix_err(s, k + 1);
    } else {
        assert(s.take(k) =~= s);
    }
}

/// The models of segments.
pub open spec fn segments_model(s: Seq<Segment>) -> Seq<SegmentModel> {
    s.map_values(|x: Segment| x.model())
}

/// Reads the path segments.
fn segments(a: &Vec<ScriptValue>) -> (r: Result<Vec<Segment>, String>)
    ensures
        match spec_segments(a@) {
            Ok(ps) => r matches Ok(v) && segments_model(v@) == ps && v@.len() == a@.len(),
            Err(e) => r matches Err(t) && t@ == e,
        },
{
    let mut out: Vec<Segment> = Vec::new();
    let mut i: usize = 0;
    proof {
        assert(a@.take(0) =~= Seq::<ScriptValue>::empty());
        assert(segments_model(out@) =~= Seq::<SegmentModel>::empty());
    }
    while i < a.len()
        invariant
            0 <= i <= a@.len(),
            out@.len() == i,
            spec_segments(a@.take(i as int)) == Ok::<Seq<SegmentModel>, Seq<char>>(segments_model(out@)),
        decreases a@.len() - i,
    {
        proof {
            assert(a@.take(i + 1).drop_last() =~= a@.take(i as int));
            assert(a@.take(i + 1).last() == a@[i as int]);
            assert(a@.take(i + 1).len() - 1 == i);
        }
        match segment(i, &a[i]) {
            Ok(p) => {
                let ghost before = out@;
                let ghost pm = p.model();
                out.push(p);
                proof {
                    assert(segments_model(out@) =~= segments_model(before).push(pm));
                }
            },
            Err(e) => {
                proof {
                    lemma_segments_prefix_err(a@, i + 1);
                }
                return Err(e);
            },
        }
        i = i + 1;
    }
    proof {
        assert(a@.take(i as int) =~= a@);
    }
    Ok(out)
}

/// `field '<key>' element <i><rest>`.
pub open spec fn channel_message(key: Seq<char>, i: nat, rest: Seq<char>) -> Seq<char> {
    "field '"@ + key + "' element "@ + decimal(i) + rest
}

/// Colour channel `i` of field `key`: a number in `0..=1` (compared as
/// binary64), as binary32.
pub open spec fn spec_channel(key: Seq<char>, i: nat, v: ScriptValue) -> Result<u32, Seq<char>> {
    match v {
        ScriptValue::Float { bits, as_f32, text, .. } => if f64_in_unit(bits) {
            Ok(as_f32)
        } else {
            Err(channel_message(key, i, " must be in 0..=1, got "@ + text@))
        },
        ScriptValue::Int { value, text, .. } => if value == 0 {
            Ok(F32_0)
        } else if value == 1 {
            Ok(F32_1)
        } else {
            Err(channel_message(key, i, " must be in 0..=1, got "@ + text@))
        },
        _ => Err(channel_message(key, i, " must be number"@)),
    }
}

/// The colour channels, in order; the first error otherwise.
pub open spec fn spec_channels(key: Seq<char>, s: Seq<ScriptValue>) -> Result<Seq<u32>, Seq<char>>
    decreases s.len(),
{
    if s.len() == 0 {
        Ok(Seq::empty())
    } else {
        match spec_channels(key, s.drop_last()) {
            Err(e) => Err(e),
            Ok(cs) => match spec_channel(key, (s.len() - 1) as nat, s.last()) {
                Err(e) => Err(e),
                Ok(c) => Ok(cs.push(c)),
            },
        }
    }
}

/// The optional colour in field `key`: none when absent or `()`; otherwise
/// an array of four channels.
pub open spec fn spec_color(m: Seq<(String, ScriptValue)>, key: Seq<char>) -> Result<Option<Seq<u32>>, Seq<char>> {
    match map_get(m, key) {
        None => Ok(None),
        Some(ScriptValue::Unit) => Ok(None),
        Some(ScriptValue::Array(a)) => if a@.len() != 4 {
            Err("field '"@ + key + "' must have 4 elements, got "@ + decimal(a@.len()))
        } else {
            match spec_channels(key, a@) {
                Ok(c) => Ok(Some(c)),
                Err(e) => Err(e),
            }
        },
        Some(_) => Err(quoted("field '"@, key, "' must be Array"@)),
    }
}

fn channel_text(key: &str, i: usize, rest: &str) -> (s: String)
    ensures
        s@ == channel_message(key@, i as nat, rest@),
{
    let mut v: Vec<char> = Vec::new();
    push_chars(&mut v, "field '");
    push_chars(&mut v, key);
    push_chars(&mut v, "' element ");
    push_decimal(&mut v, i as u64);
    push_chars(&mut v, rest);
    proof {
        assert(v@ =~= channel_message(key@, i as nat, rest@));
    }
    string_from_chars(&v)
}

fn range_text(key: &str, i: usize, value_text: &str) -> (s: String)
    ensures
        s@ == channel_message(key@, i as nat, " must be in 0..=1, got "@ + value_text@),
{
    let mut t: Vec<char> = Vec::new();
    push_chars(&mut t, " must be in 0..=1, got ");
    push_chars(&mut t, value_text);
    let rest = string_from_chars(&t);
    channel_text(key, i, rest.as_str())
}

/// Reads an optional colour.
fn get_color(m: &Vec<(String, ScriptValue)>, key: &str) -> (r: Result<Option<[F32; 4]>, String>)
    ensures
        match spec_color(m@, key@) {
            Ok(None) => r == Ok::<Option<[F32; 4]>, String>(None),
            Ok(Some(c)) => r matches Ok(Some(a)) && a@.map_values(|f: F32| f.bits) == c,
            Err(e) => r matches Err(t) && t@ == e,
        },
{
    let a = match get(m, key) {
        None => {
            return Ok(None);
        },
        Some(ScriptValue::Unit) => {
            return Ok(None);
        },
        Some(ScriptValue::Array(a)) => a,
        Some(_) => {
            return Err(text3("field '", key, "' must be Array"));
        },
    };
    if a.len() != 4 {
        let mut v: Vec<char> = Vec::new();
        push_chars(&mut v, "field '");
        push_chars(&mut v, key);
        push_chars(&mut v, "' must have 4 elements, got ");
        push_decimal(&mut v, a.len() as u64);
        return Err(string_from_chars(&v));
    }
    let mut out = [f32_of(F32_0), f32_of(F32_0), f32_of(F32_0), f32_of(F32_0)];
    let mut i: usize = 0;
    proof {
        assert(a@.take(0) =~= Seq::<ScriptValue>::empty());
        assert(out@.take(0).map_values(|f: F32| f.bits) =~= Seq::<u32>::empty());
    }
    while i < 4
        invariant
            0 <= i <= 4,
            a@.len() == 4,
            map_get(m@, key@) == Some(ScriptValue::Array(*a)),
            spec_channels(key@, a@.take(i as int)) == Ok::<Seq<u32>, Seq<char>>(
                out@.take(i as int).map_values(|f: F32| f.bits),
            ),
        decreases 4 - i,
    {
        proof {
            assert(a@.take(i + 1).drop_last() =~= a@.take(i as int));
            assert(a@.take(i + 1).last() == a@[i as int]);
        }
        let c = match &a[i] {
            ScriptValue::Float { bits, as_f32, text, .. } => {
                if f64_in_unit_exec(*bits) {
                    f32_of(*as_f32)
                } else {
                    proof {
                        lemma_channels_prefix_err(key@, a@, i + 1);
                    }
                    return Err(range_text(key, i, text.as_str()));
                }
            },
            ScriptValue::Int { value, text, .. } => {
                if *value == 0 {
                    f32_of(F32_0)
                } else if *value == 1 {
                    f32_of(F32_1)
                } else {
                    proof {
                        lemma_channels_prefix_err(key@, a@, i + 1);
                    }
                    return Err(range_text(key, i, text.as_str()));
                }
            },
            _ => {
                proof {
                    lemma_channels_prefix_err(key@, a@, i + 1);
                }
                return Err(channel_text(key, i, " must be number"));
            },
        };
        let ghost before = out@;
        out.set(i, c);
        proof {
            assert(out@.take(i + 1).map_values(|f: F32| f.bits) =~= before.take(i as int).map_values(
                |f: F32| f.bits,
            ).push(c.bits));
        }
        i = i + 1;
    }
    proof {
        assert(a@.take(4) =~= a@);
        assert(out@.take(4) =~= out@);
    }
    Ok(Some(out))
}

proof fn lemma_channels_prefix_err(key: Seq<char>, s: Seq<ScriptValue>, k: int)
    requires
        0 <= k <= s.len(),
        spec_channels(key, s.take(k)) is Err,
    ensures
        spec_channels(key, s) == spec_channels(key, s.take(k)),
    decreases s.len() - k,
{
    if k < s.len() {
        assert(s.take(k + 1).drop_last() =~= s.take(k));
        lemma_channels_prefix_err(key, s, k + 1);
    } else {
        assert(s.take(k) =~= s);
    }
}


/// A drawing primitive, in logical coordinates.
#[derive(Debug)]
pub enum Element {
    /// Filled rectangle, optionally with rounded corners.
    Rect { x: F32, y: F32, w: F32, h: F32, corner_radius: Option<F32> },
    /// Filled circle.
    Circle { cx: F32, cy: F32, radius: F32 },
    /// Circle outline.
    CircleStroke { cx: F32, cy: F32, radius: F32, thickness: F32 },
    /// Dashed circle outline.
    DashedCircle { cx: F32, cy: F32, radius: F32, thickness: F32, dash_len: F32, gap_len: F32 },
    /// Filled triangle.
    Triangle { x1: F32, y1: F32, x2: F32, y2: F32, x3: F32, y3: F32 },
    /// Filled polygon through its points in order.
    Polygon { points: Vec<[F32; 2]> },
    /// Thick line segment.
    Line { x1: F32, y1: F32, x2: F32, y2: F32, thickness: F32 },
    /// Text at a baseline point.
    Text { x: F32, y: F32, content: String, font_size: F32, font_weight: Option<u16> },
    /// Image file drawn in a rectangle.
    Image { path: String, x: F32, y: F32, w: F32, h: F32 },
    /// Vector path, stroked and/or filled.
    Path {
        segments: Vec<Segment>,
        fill: bool,
        thickness: F32,
        stroke_color: Option<[F32; 4]>,
        fill_color: Option<[F32; 4]>,
    },
}

/// The simple shapes, whose fields are all numbers.
pub enum ShapeKind {
    Circle,
    CircleStroke,
    DashedCircle,
    Triangle,
    Line,
}

/// Model of an element: numbers as bit patterns, in field order.
pub enum ElementModel {
    Rect { nums: Seq<u32>, corner_radius: Option<u32> },
    Shape { kind: ShapeKind, nums: Seq<u32> },
    Polygon { points: Seq<(u32, u32)> },
    Text { nums: Seq<u32>, content: Seq<char>, font_size: u32, font_weight: Option<u16> },
    Image { path: Seq<char>, nums: Seq<u32> },
    Path {
        segments: Seq<SegmentModel>,
        fill: bool,
        thickness: u32,
        stroke_color: Option<Seq<u32>>,
        fill_color: Option<Seq<u32>>,
    },
}

/// The channel bit patterns of an optional colour.
pub open spec fn color_model(c: Option<[F32; 4]>) -> Option<Seq<u32>> {
    match c {
        Some(a) => Some(a@.map_values(|f: F32| f.bits)),
        None => None,
    }
}

impl Element {
    pub open spec fn model(&self) -> ElementModel {
        match self {
            Element::Rect { x, y, w, h, corner_radius } => ElementModel::Rect {
                nums: seq![x.bits, y.bits, w.bits, h.bits],
                corner_radius: match corner_radius {
                    Some(c) => Some(c.bits),
                    None => None,
                },
            },
            Element::Circle { cx, cy, radius } => ElementModel::Shape {
                kind: ShapeKind::Circle,
                nums: seq![cx.bits, cy.bits, radius.bits],
            },
            Element::CircleStroke { cx, cy, radius, thickness } => ElementModel::Shape {
                kind: ShapeKind::CircleStroke,
                nums: seq![cx.bits, cy.bits, radius.bits, thickness.bits],
            },
            Element::DashedCircle { cx, cy, radius, thickness, dash_len, gap_len } => ElementModel::Shape {
                kind: ShapeKind::DashedCircle,
                nums: seq![cx.bits, cy.bits, radius.bits, thickness.bits, dash_len.bits, gap_len.bits],
            },
            Element::Triangle { x1, y1, x2, y2, x3, y3 } => ElementModel::Shape {
                kind: ShapeKind::Triangle,
                nums: seq![x1.bits, y1.bits, x2.bits, y2.bits, x3.bits, y3.bits],
            },
            Element::Polygon { points } => ElementModel::Polygon { points: points_model(points@) },
            Element::Line { x1, y1, x2, y2, thickness } => ElementModel::Shape {
                kind: ShapeKind::Line,
                nums: seq![x1.bits, y1.bits, x2.bits, y2.bits, thickness.bits],
            },
            Element::Text { x, y, content, font_size, font_weight } => ElementModel::Text {
                nums: seq![x.bits, y.bits],
                content: content@,
                font_size: font_size.bits,
                font_weight: *font_weight,
            },
            Element::Image { path, x, y, w, h } => ElementModel::Image {
                path: path@,
                nums: seq![x.bits, y.bits, w.bits, h.bits],
            },
            Element::Path { segments, fill, thickness, stroke_color, fill_color } => ElementModel::Path {
                segments: segments_model(segments@),
                fill: *fill,
                thickness: thickness.bits,
                stroke_color: color_model(*stroke_color),
                fill_color: color_model(*fill_color),
            },
        }
    }
}

/// The `fill` flag of a path: false when absent, an error when not a bool.
pub open spec fn spec_fill(m: Seq<(String, ScriptValue)>) -> Result<bool, Seq<char>> {
    match map_get(m, "fill"@) {
        None => Ok(false),
        Some(ScriptValue::Bool(b)) => Ok(b),
        Some(_) => Err("field 'fill' must be bool"@),
    }
}

/// A path element: its thickness, fill flag and segments read in that
/// order; then the structural rules (a first `M`, not invisible, a thickness
/// that is not negative); then the optional stroke and fill colours.
pub open spec fn spec_path(m: Seq<(String, ScriptValue)>) -> Result<ElementModel, Seq<char>> {
    match field_f32(m, "thickness"@, false) {
        Err(e) => Err(e),
        Ok(th) => match spec_fill(m) {
            Err(e) => Err(e),
            Ok(fill) => match map_get(m, "segments"@) {
                None => Err("missing 'segments' field"@),
                Some(ScriptValue::Array(a)) => if a@.len() == 0 {
                    Err("'segments' must not be empty"@)
                } else {
                    match spec_segments(a@) {
                        Err(e) => Err(e),
                        Ok(segs) => if segs[0].cmd != 'M' {
                            Err("path segments must start with an 'M' command"@)
                        } else if !fill && f32_is_zero(th) {
                            Err("path is invisible: fill=false and thickness=0"@)
                        } else if f32_lt(th, F32_0) {
                            Err("field 'thickness' must be >= 0"@)
                        } else {
                            match spec_color(m, "stroke_color"@) {
                                Err(e) => Err(e),
                                Ok(sc) => match spec_color(m, "fill_color"@) {
                                    Err(e) => Err(e),
                                    Ok(fc) => Ok(
                                        ElementModel::Path {
                                            segments: segs,
                                            fill,
                                            thickness: th,
                                            stroke_color: sc,
                                            fill_color: fc,
                                        },
                                    ),
                                },
                            }
                        },
                    }
                },
                Some(_) => Err("'segments' must be Array"@),
            },
        },
    }
}

/// Reads a path element from its map entries; the error is the field
/// detail.
pub fn parse_path_element(m: &Vec<(String, ScriptValue)>) -> (r: Result<Element, String>)
    ensures
        match spec_path(m@) {
            Ok(em) => r matches Ok(e) && e.model() == em,
            Err(d) => r matches Err(t) && t@ == d,
        },
{
    let thickness = get_f32(m, "thickness", false)?;
    let fill = match get(m, "fill") {
        None => false,
        Some(ScriptValue::Bool(b)) => *b,
        Some(_) => {
            return Err("field 'fill' must be bool".to_owned());
        },
    };
    let a = match get(m, "segments") {
        None => {
            return Err("missing 'segments' field".to_owned());
        },
        Some(ScriptValue::Array(a)) => a,
        Some(_) => {
            return Err("'segments' must be Array".to_owned());
        },
    };
    if a.len() == 0 {
        return Err("'segments' must not be empty".to_owned());
    }
    let segs = segments(a)?;
    proof {
        assert(segments_model(segs@)[0] == segs@[0].model());
    }
    let starts_with_m = match &segs[0] {
        Segment::M { .. } => true,
        _ => false,
    };
    if !starts_with_m {
        return Err("path segments must start with an 'M' command".to_owned());
    }
    let zero = thickness.bits == 0 || thickness.bits == 0x8000_0000;
    if !fill && zero {
        return Err("path is invisible: fill=false and thickness=0".to_owned());
    }
    if thickness.lt(f32_of(F32_0)) {
        return Err("field 'thickness' must be >= 0".to_owned());
    }
    let stroke_color = get_color(m, "stroke_color")?;
    let fill_color = get_color(m, "fill_color")?;
    Ok(Element::Path { segments: segs, fill, thickness, stroke_color, fill_color })
}


/// Why a script value is not an element.
pub enum ElementFailure {
    /// The value is not a map (detail).
    NotMap(Seq<char>),
    /// A field is missing or malformed (detail).
    Field(Seq<char>),
    /// The `type` names no element (the type).
    UnknownType(Seq<char>),
}

/// A shape whose fields `keys` are all numbers.
pub open spec fn shape_with(m: Seq<(String, ScriptValue)>, keys: Seq<Seq<char>>, kind: ShapeKind) -> Result<ElementModel, ElementFailure> {
    match fields_f32(m, keys, false) {
        Ok(v) => Ok(ElementModel::Shape { kind, nums: v }),
        Err(e) => Err(ElementFailure::Field(e)),
    }
}

/// The element an element map describes, by its `type`.
pub open spec fn spec_element_of(m: Seq<(String, ScriptValue)>) -> Result<ElementModel, ElementFailure> {
    match field_str(m, "type"@) {
        Err(e) => Err(ElementFailure::Field(e)),
        Ok(t) => if t == "rect"@ {
            match fields_f32(m, seq!["x"@, "y"@, "w"@, "h"@], false) {
                Err(e) => Err(ElementFailure::Field(e)),
                Ok(v) => Ok(
                    ElementModel::Rect {
                        nums: v,
                        corner_radius: match field_f32(m, "corner_radius"@, false) {
                            Ok(b) => Some(b),
                            Err(_) => None,
                        },
                    },
                ),
            }
        } else if t == "circle"@ {
            shape_with(m, seq!["cx"@, "cy"@, "radius"@], ShapeKind::Circle)
        } else if t == "circle_stroke"@ {
            shape_with(m, seq!["cx"@, "cy"@, "radius"@, "thickness"@], ShapeKind::CircleStroke)
        } else if t == "dashed_circle"@ {
            shape_with(
                m,
                seq!["cx"@, "cy"@, "radius"@, "thickness"@, "dash_len"@, "gap_len"@],
                ShapeKind::DashedCircle,
            )
        } else if t == "triangle"@ {
            shape_with(m, seq!["x1"@, "y1"@, "x2"@, "y2"@, "x3"@, "y3"@], ShapeKind::Triangle)
        } else if t == "polygon"@ {
            match map_get(m, "points"@) {
                None => Err(ElementFailure::Field("missing 'points' field"@)),
                Some(ScriptValue::Array(a)) => match spec_points(a@) {
                    Ok(ps) => Ok(ElementModel::Polygon { points: ps }),
                    Err(e) => Err(ElementFailure::Field(e)),
                },
                Some(_) => Err(ElementFailure::Field("'points' must be Array"@)),
            }
        } else if t == "line"@ {
            shape_with(m, seq!["x1"@, "y1"@, "x2"@, "y2"@, "thickness"@], ShapeKind::Line)
        } else if t == "text"@ {
            match fields_f32(m, seq!["x"@, "y"@], false) {
                Err(e) => Err(ElementFailure::Field(e)),
                Ok(v) => match field_str(m, "content"@) {
                    Err(e) => Err(ElementFailure::Field(e)),
                    Ok(c) => match field_f32(m, "font_size"@, false) {
                        Err(e) => Err(ElementFailure::Field(e)),
                        Ok(fs) => match spec_font_weight(m) {
                            Err(e) => Err(ElementFailure::Field(e)),
                            Ok(w) => Ok(ElementModel::Text { nums: v, content: c, font_size: fs, font_weight: w }),
                        },
                    },
                },
            }
        } else if t == "image"@ {
            match field_str(m, "path"@) {
                Err(e) => Err(ElementFailure::Field(e)),
                Ok(p) => match fields_f32(m, seq!["x"@, "y"@, "w"@, "h"@], false) {
                    Err(e) => Err(ElementFailure::Field(e)),
                    Ok(v) => Ok(ElementModel::Image { path: p, nums: v }),
                },
            }
        } else if t == "path"@ {
            match spec_path(m) {
                Ok(e) => Ok(e),
                Err(d) => Err(ElementFailure::Field(d)),
            }
        } else {
            Err(ElementFailure::UnknownType(t))
        },
    }
}

/// The element a script value describes: a map, read by its `type`.
pub open spec fn spec_element(d: ScriptValue) -> Result<ElementModel, ElementFailure> {
    match d {
        ScriptValue::Object(e) => spec_element_of(e@),
        _ => Err(ElementFailure::NotMap("element must be a Map, got "@ + value_type_name(d))),
    }
}

/// Why reading an element map failed.
enum Fault {
    Field(String),
    UnknownType(String),
}

fn field_fault<T>(r: Result<T, String>) -> (f: Result<T, Fault>)
    ensures
        match r {
            Ok(v) => f == Ok::<T, Fault>(v),
            Err(e) => f matches Err(Fault::Field(g)) && g == e,
        },
{
    match r {
        Ok(v) => Ok(v),
        Err(e) => Err(Fault::Field(e)),
    }
}

/// Whether a read result agrees with the element model.
spec fn read_agrees(r: Result<Element, Fault>, s: Result<ElementModel, ElementFailure>) -> bool {
    match s {
        Ok(em) => r matches Ok(e) && e.model() == em,
        Err(ElementFailure::Field(d)) => r matches Err(Fault::Field(t)) && t@ == d,
        Err(ElementFailure::UnknownType(d)) => r matches Err(Fault::UnknownType(t)) && t@ == d,
        Err(ElementFailure::NotMap(_)) => false,
    }
}

fn shape(m: &Vec<(String, ScriptValue)>, keys: &[&str], kind: ShapeKind) -> (r: Result<Vec<F32>, Fault>)
    ensures
        match fields_f32(m@, key_views(keys@), false) {
            Ok(v) => r matches Ok(w) && bits_of(w@) == v && w@.len() == keys@.len(),
            Err(e) => r matches Err(Fault::Field(t)) && t@ == e,
        },
{
    field_fault(get_f32s(m, keys, false))
}

/// Reads an element from its map entries.
fn element_of(m: &Vec<(String, ScriptValue)>) -> (r: Result<Element, Fault>)
    ensures
        read_agrees(r, spec_element_of(m@)),
{
    let t = field_fault(get_str(m, "type"))?;
    if str_eq(t.as_str(), "rect") {
        let keys: [&str; 4] = ["x", "y", "w", "h"];
        proof {
            assert(key_views(keys@) =~= seq!["x"@, "y"@, "w"@, "h"@]);
        }
        let v = field_fault(get_f32s(m, &keys, false))?;
        let corner_radius = match get_f32(m, "corner_radius", false) {
            Ok(c) => Some(c),
            Err(_) => None,
        };
        proof {
            assert(bits_of(v@) =~= seq![v@[0].bits, v@[1].bits, v@[2].bits, v@[3].bits]);
        }
        Ok(Element::Rect { x: v[0], y: v[1], w: v[2], h: v[3], corner_radius })
    } else if str_eq(t.as_str(), "circle") {
        let keys: [&str; 3] = ["cx", "cy", "radius"];
        proof {
            assert(key_views(keys@) =~= seq!["cx"@, "cy"@, "radius"@]);
        }
        let v = shape(m, &keys, ShapeKind::Circle)?;
        proof {
            assert(bits_of(v@) =~= seq![v@[0].bits, v@[1].bits, v@[2].bits]);
        }
        Ok(Element::Circle { cx: v[0], cy: v[1], radius: v[2] })
    } else if str_eq(t.as_str(), "circle_stroke") {
        let keys: [&str; 4] = ["cx", "cy", "radius", "thickness"];
        proof {
            assert(key_views(keys@) =~= seq!["cx"@, "cy"@, "radius"@, "thickness"@]);
        }
        let v = shape(m, &keys, ShapeKind::CircleStroke)?;
        proof {
            assert(bits_of(v@) =~= seq![v@[0].bits, v@[1].bits, v@[2].bits, v@[3].bits]);
        }
        Ok(Element::CircleStroke { cx: v[0], cy: v[1], radius: v[2], thickness: v[3] })
    } else if str_eq(t.as_str(), "dashed_circle") {
        let keys: [&str; 6] = ["cx", "cy", "radius", "thickness", "dash_len", "gap_len"];
        proof {
            assert(key_views(keys@) =~= seq!["cx"@, "cy"@, "radius"@, "thickness"@, "dash_len"@, "gap_len"@]);
        }
        let v = shape(m, &keys, ShapeKind::DashedCircle)?;
        proof {
            assert(bits_of(v@) =~= seq![v@[0].bits, v@[1].bits, v@[2].bits, v@[3].bits, v@[4].bits, v@[5].bits]);
        }
        Ok(Element::DashedCircle { cx: v[0], cy: v[1], radius: v[2], thickness: v[3], dash_len: v[4], gap_len: v[5] })
    } else if str_eq(t.as_str(), "triangle") {
        let keys: [&str; 6] = ["x1", "y1", "x2", "y2", "x3", "y3"];
        proof {
            assert(key_views(keys@) =~= seq!["x1"@, "y1"@, "x2"@, "y2"@, "x3"@, "y3"@]);
        }
        let v = shape(m, &keys, ShapeKind::Triangle)?;
        proof {
            assert(bits_of(v@) =~= seq![v@[0].bits, v@[1].bits, v@[2].bits, v@[3].bits, v@[4].bits, v@[5].bits]);
        }
        Ok(Element::Triangle { x1: v[0], y1: v[1], x2: v[2], y2: v[3], x3: v[4], y3: v[5] })
    } else if str_eq(t.as_str(), "polygon") {
        match get(m, "points") {
            None => Err(Fault::Field("missing 'points' field".to_owned())),
            Some(ScriptValue::Array(a)) => {
                let pts = field_fault(points(a))?;
                Ok(Element::Polygon { points: pts })
            },
            Some(_) => Err(Fault::Field("'points' must be Array".to_owned())),
        }
    } else if str_eq(t.as_str(), "line") {
        let keys: [&str; 5] = ["x1", "y1", "x2", "y2", "thickness"];
        proof {
            assert(key_views(keys@) =~= seq!["x1"@, "y1"@, "x2"@, "y2"@, "thickness"@]);
        }
        let v = shape(m, &keys, ShapeKind::Line)?;
        proof {
            assert(bits_of(v@) =~= seq![v@[0].bits, v@[1].bits, v@[2].bits, v@[3].bits, v@[4].bits]);
        }
        Ok(Element::Line { x1: v[0], y1: v[1], x2: v[2], y2: v[3], thickness: v[4] })
    } else if str_eq(t.as_str(), "text") {
        let keys: [&str; 2] = ["x", "y"];
        proof {
            assert(key_views(keys@) =~= seq!["x"@, "y"@]);
        }
        let v = field_fault(get_f32s(m, &keys, false))?;
        let content = field_fault(get_str(m, "content"))?;
        let font_size = field_fault(get_f32(m, "font_size", false))?;
        let font_weight = field_fault(get_font_weight(m))?;
        proof {
            assert(bits_of(v@) =~= seq![v@[0].bits, v@[1].bits]);
        }
        Ok(Element::Text { x: v[0], y: v[1], content, font_size, font_weight })
    } else if str_eq(t.as_str(), "image") {
        let path = field_fault(get_str(m, "path"))?;
        let keys: [&str; 4] = ["x", "y", "w", "h"];
        proof {
            assert(key_views(keys@) =~= seq!["x"@, "y"@, "w"@, "h"@]);
        }
        let v = field_fault(get_f32s(m, &keys, false))?;
        proof {
            assert(bits_of(v@) =~= seq![v@[0].bits, v@[1].bits, v@[2].bits, v@[3].bits]);
        }
        Ok(Element::Image { path, x: v[0], y: v[1], w: v[2], h: v[3] })
    } else if str_eq(t.as_str(), "path") {
        field_fault(parse_path_element(m))
    } else {
        Err(Fault::UnknownType(t))
    }
}

/// The element a material's script value describes, the errors naming the
/// material: `InvalidReturnType` when the value is not a map,
/// `UnknownElementType` for an unknown `type`, `ElementField` for a missing
/// or malformed field.
pub fn dynamic_to_element(material_id: &str, d: ScriptValue) -> (r: Result<Element, MaterialError>)
    ensures
        match spec_element(d) {
            Ok(em) => r matches Ok(e) && e.model() == em,
            Err(ElementFailure::NotMap(t)) => r matches Err(MaterialError::InvalidReturnType { id, detail }) && id@
                == material_id@ && detail@ == t,
            Err(ElementFailure::Field(t)) => r matches Err(MaterialError::ElementField { id, detail }) && id@
                == material_id@ && detail@ == t,
            Err(ElementFailure::UnknownType(t)) => r matches Err(
                MaterialError::UnknownElementType { id, element_type },
            ) && id@ == material_id@ && element_type@ == t,
        },
{
    match &d {
        ScriptValue::Object(e) => match element_of(e) {
            Ok(el) => Ok(el),
            Err(Fault::Field(detail)) => Err(MaterialError::ElementField { id: material_id.to_owned(), detail }),
            Err(Fault::UnknownType(t)) => Err(
                MaterialError::UnknownElementType { id: material_id.to_owned(), element_type: t },
            ),
        },
        _ => {
            let mut v: Vec<char> = Vec::new();
            push_chars(&mut v, "element must be a Map, got ");
            let name = script_type_name(&d);
            push_chars(&mut v, name.as_str());
            Err(MaterialError::InvalidReturnType { id: material_id.to_owned(), detail: string_from_chars(&v) })
        },
    }
}


/// Whether `e` is the error that reports failure `f` of material `id`.
pub open spec fn reports(e: MaterialError, id: Seq<char>, f: ElementFailure) -> bool {
    match f {
        ElementFailure::NotMap(t) => e matches MaterialError::InvalidReturnType { id: i, detail } && i@ == id
            && detail@ == t,
        ElementFailure::Field(t) => e matches MaterialError::ElementField { id: i, detail } && i@ == id && detail@
            == t,
        ElementFailure::UnknownType(t) => e matches MaterialError::UnknownElementType { id: i, element_type }
            && i@ == id && element_type@ == t,
    }
}

/// The elements of a script's array, in order; the first failure otherwise.
pub open spec fn spec_elements(s: Seq<ScriptValue>) -> Result<Seq<ElementModel>, ElementFailure>
    decreases s.len(),
{
    if s.len() == 0 {
        Ok(Seq::empty())
    } else {
        match spec_elements(s.drop_last()) {
            Err(f) => Err(f),
            Ok(es) => match spec_element(s.last()) {
                Err(f) => Err(f),
                Ok(e) => Ok(es.push(e)),
            },
        }
    }
}

proof fn lemma_elements_prefix_err(s: Seq<ScriptValue>, k: int)
    requires
        0 <= k <= s.len(),
        spec_elements(s.take(k)) is Err,
    ensures
        spec_elements(s) == spec_elements(s.take(k)),
    decreases s.len() - k,
{
    if k < s.len() {
        assert(s.take(k + 1).drop_last() =~= s.take(k));
        lemma_elements_prefix_err(s, k + 1);
    } else {
        assert(s.take(k) =~= s);
    }
}

/// The models of elements.
pub open spec fn elements_model(s: Seq<Element>) -> Seq<ElementModel> {
    s.map_values(|e: Element| e.model())
}

/// The elements a material's `build` returned: an array of elements, read
/// in order and stopping at the first failure; `InvalidReturnType` when it
/// returned something other than an array.
pub fn elements_from_result(material_id: &str, result: ScriptValue) -> (r: Result<Vec<Element>, MaterialError>)
    ensures
        match result {
            ScriptValue::Array(a) => match spec_elements(a@) {
                Ok(ms) => r matches Ok(v) && elements_model(v@) == ms,
                Err(f) => r matches Err(e) && reports(e, material_id@, f),
            },
            _ => r matches Err(MaterialError::InvalidReturnType { id, detail }) && id@ == material_id@ && detail@
                == "expected Array, got "@ + value_type_name(result),
        },
{
    let ghost res = result;
    let a = match result {
        ScriptValue::Array(a) => a,
        other => {
            let mut v: Vec<char> = Vec::new();
            push_chars(&mut v, "expected Array, got ");
            let name = script_type_name(&other);
            push_chars(&mut v, name.as_str());
            return Err(MaterialError::InvalidReturnType { id: material_id.to_owned(), detail: string_from_chars(&v) });
        },
    };
    let ghost all = a@;
    let mut rest = a;
    let mut out: Vec<Element> = Vec::new();
    let ghost mut k: int = 0;
    proof {
        assert(all.take(0) =~= Seq::<ScriptValue>::empty());
        assert(elements_model(out@) =~= Seq::<ElementModel>::empty());
        assert(rest@ =~= all.subrange(0, all.len() as int));
    }
    while rest.len() > 0
        invariant
            res == result,
            res matches ScriptValue::Array(a0) && a0@ == all,
            0 <= k <= all.len(),
            rest@ == all.subrange(k, all.len() as int),
            spec_elements(all.take(k)) == Ok::<Seq<ElementModel>, ElementFailure>(elements_model(out@)),
        decreases rest@.len(),
    {
        let d = rest.remove(0);
        proof {
            assert(all[k] == d);
            assert(all.take(k + 1).drop_last() =~= all.take(k));
            assert(all.take(k + 1).last() == all[k]);
        }
        match dynamic_to_element(material_id, d) {
            Ok(e) => {
                let ghost before = out@;
                let ghost em = e.model();
                out.push(e);
                proof {
                    assert(elements_model(out@) =~= elements_model(before).push(em));
                }
            },
            Err(err) => {
                proof {
                    assert(spec_elements(all.take(k + 1)) == Err::<Seq<ElementModel>, ElementFailure>(
                        spec_element(d)->Err_0,
                    ));
                    lemma_elements_prefix_err(all, k + 1);
                }
                return Err(err);
            },
        }
        proof {
            k = k + 1;
            assert(rest@ =~= all.subrange(k, all.len() as int));
        }
    }
    proof {
        assert(all.take(k) =~= all);
    }
    Ok(out)
}


/// Whether a text holds a character outside ASCII, which in UTF-8 is
/// exactly a byte above `0x7F`.
pub open spec fn has_non_ascii(s: Seq<char>) -> bool {
    exists|i: int| 0 <= i < s.len() && (#[trigger] s[i]) as u32 > 0x7F
}

/// Whether an SVG document needs the CJK font fallback: it holds a
/// character outside ASCII.
pub fn svg_needs_cjk(svg: &str) -> (b: bool)
    ensures
        b == has_non_ascii(svg@),
{
    let cs = crate::text::chars_of(svg);
    let mut i: usize = 0;
    while i < cs.len()
        invariant
            cs@ == svg@,
            0 <= i <= cs@.len(),
            forall|j: int| 0 <= j < i ==> (#[trigger] cs@[j]) as u32 <= 0x7F,
        decreases cs@.len() - i,
    {
        if cs[i] as u32 > 0x7F {
            return true;
        }
        i = i + 1;
    }
    false
}

/// Reading several numeric fields reads each from its own key.
proof fn lemma_fields_f32_each(m: Seq<(String, ScriptValue)>, keys: Seq<Seq<char>>, segment: bool)
    requires
        fields_f32(m, keys, segment) is Ok,
    ensures
        fields_f32(m, keys, segment)->Ok_0.len() == keys.len(),
        forall|i: int| 0 <= i < keys.len() ==> field_f32(m, #[trigger] keys[i], segment) == Ok::<u32, Seq<char>>(
            fields_f32(m, keys, segment)->Ok_0[i],
        ),
    decreases keys.len(),
{
    if keys.len() > 0 {
        let k = keys.drop_last();
        lemma_fields_f32_each(m, k, segment);
        assert forall|i: int| 0 <= i < keys.len() implies field_f32(m, #[trigger] keys[i], segment) == Ok::<
            u32,
            Seq<char>,
        >(fields_f32(m, keys, segment)->Ok_0[i]) by {
            if i < k.len() {
                assert(keys[i] == k[i]);
            }
        }
    }
}

/// Each field of an element read from a script's map comes from the map
/// key of its own name, and its variant from the `type` key: whatever
/// element a map is read as, each coordinate, size, length, text and flag
/// is the value stored under the key that names it.
pub proof fn law_element_fields_by_name(m: Seq<(String, ScriptValue)>, e: Element)
    requires
        spec_element_of(m) == Ok::<ElementModel, ElementFailure>(e.model()),
    ensures
        match e {
            Element::Rect { x, y, w, h, corner_radius } => {
                &&& field_str(m, "type"@) == Ok::<Seq<char>, Seq<char>>("rect"@)
                &&& field_f32(m, "x"@, false) == Ok::<u32, Seq<char>>(x.bits)
                &&& field_f32(m, "y"@, false) == Ok::<u32, Seq<char>>(y.bits)
                &&& field_f32(m, "w"@, false) == Ok::<u32, Seq<char>>(w.bits)
                &&& field_f32(m, "h"@, false) == Ok::<u32, Seq<char>>(h.bits)
                &&& match corner_radius {
                    Some(c) => field_f32(m, "corner_radius"@, false) == Ok::<u32, Seq<char>>(c.bits),
                    None => field_f32(m, "corner_radius"@, false) is Err,
                }
            },
            Element::Circle { cx, cy, radius } => {
                &&& field_str(m, "type"@) == Ok::<Seq<char>, Seq<char>>("circle"@)
                &&& field_f32(m, "cx"@, false) == Ok::<u32, Seq<char>>(cx.bits)
                &&& field_f32(m, "cy"@, false) == Ok::<u32, Seq<char>>(cy.bits)
                &&& field_f32(m, "radius"@, false) == Ok::<u32, Seq<char>>(radius.bits)
            },
            Element::CircleStroke { cx, cy, radius, thickness } => {
                &&& field_str(m, "type"@) == Ok::<Seq<char>, Seq<char>>("circle_stroke"@)
                &&& field_f32(m, "cx"@, false) == Ok::<u32, Seq<char>>(cx.bits)
                &&& field_f32(m, "cy"@, false) == Ok::<u32, Seq<char>>(cy.bits)
                &&& field_f32(m, "radius"@, false) == Ok::<u32, Seq<char>>(radius.bits)
                &&& field_f32(m, "thickness"@, false) == Ok::<u32, Seq<char>>(thickness.bits)
            },
            Element::DashedCircle { cx, cy, radius, thickness, dash_len, gap_len } => {
                &&& field_str(m, "type"@) == Ok::<Seq<char>, Seq<char>>("dashed_circle"@)
                &&& field_f32(m, "cx"@, false) == Ok::<u32, Seq<char>>(cx.bits)
                &&& field_f32(m, "cy"@, false) == Ok::<u32, Seq<char>>(cy.bits)
                &&& field_f32(m, "radius"@, false) == Ok::<u32, Seq<char>>(radius.bits)
                &&& field_f32(m, "thickness"@, false) == Ok::<u32, Seq<char>>(thickness.bits)
                &&& field_f32(m, "dash_len"@, false) == Ok::<u32, Seq<char>>(dash_len.bits)
                &&& field_f32(m, "gap_len"@, false) == Ok::<u32, Seq<char>>(gap_len.bits)
            },
            Element::Triangle { x1, y1, x2, y2, x3, y3 } => {
                &&& field_str(m, "type"@) == Ok::<Seq<char>, Seq<char>>("triangle"@)
                &&& field_f32(m, "x1"@, false) == Ok::<u32, Seq<char>>(x1.bits)
                &&& field_f32(m, "y1"@, false) == Ok::<u32, Seq<char>>(y1.bits)
                &&& field_f32(m, "x2"@, false) == Ok::<u32, Seq<char>>(x2.bits)
                &&& field_f32(m, "y2"@, false) == Ok::<u32, Seq<char>>(y2.bits)
                &&& field_f32(m, "x3"@, false) == Ok::<u32, Seq<char>>(x3.bits)
                &&& field_f32(m, "y3"@, false) == Ok::<u32, Seq<char>>(y3.bits)
            },
            Element::Polygon { .. } => field_str(m, "type"@) == Ok::<Seq<char>, Seq<char>>("polygon"@),
            Element::Line { x1, y1, x2, y2, thickness } => {
                &&& field_str(m, "type"@) == Ok::<Seq<char>, Seq<char>>("line"@)
                &&& field_f32(m, "x1"@, false) == Ok::<u32, Seq<char>>(x1.bits)
                &&& field_f32(m, "y1"@, false) == Ok::<u32, Seq<char>>(y1.bits)
                &&& field_f32(m, "x2"@, false) == Ok::<u32, Seq<char>>(x2.bits)
                &&& field_f32(m, "y2"@, false) == Ok::<u32, Seq<char>>(y2.bits)
                &&& field_f32(m, "thickness"@, false) == Ok::<u32, Seq<char>>(thickness.bits)
            },
            Element::Text { x, y, content, font_size, font_weight } => {
                &&& field_str(m, "type"@) == Ok::<Seq<char>, Seq<char>>("text"@)
                &&& field_f32(m, "x"@, false) == Ok::<u32, Seq<char>>(x.bits)
                &&& field_f32(m, "y"@, false) == Ok::<u32, Seq<char>>(y.bits)
                &&& field_str(m, "content"@) == Ok::<Seq<char>, Seq<char>>(content@)
                &&& field_f32(m, "font_size"@, false) == Ok::<u32, Seq<char>>(font_size.bits)
                &&& spec_font_weight(m) == Ok::<Option<u16>, Seq<char>>(font_weight)
            },
            Element::Image { path, x, y, w, h } => {
                &&& field_str(m, "type"@) == Ok::<Seq<char>, Seq<char>>("image"@)
                &&& field_str(m, "path"@) == Ok::<Seq<char>, Seq<char>>(path@)
                &&& field_f32(m, "x"@, false) == Ok::<u32, Seq<char>>(x.bits)
                &&& field_f32(m, "y"@, false) == Ok::<u32, Seq<char>>(y.bits)
                &&& field_f32(m, "w"@, false) == Ok::<u32, Seq<char>>(w.bits)
                &&& field_f32(m, "h"@, false) == Ok::<u32, Seq<char>>(h.bits)
            },
            Element::Path { fill, thickness, .. } => {
                &&& field_str(m, "type"@) == Ok::<Seq<char>, Seq<char>>("path"@)
                &&& field_f32(m, "thickness"@, false) == Ok::<u32, Seq<char>>(thickness.bits)
                &&& spec_fill(m) == Ok::<bool, Seq<char>>(fill)
            },
        },
{
    let keys_rect = seq!["x"@, "y"@, "w"@, "h"@];
    let keys_circle = seq!["cx"@, "cy"@, "radius"@];
    let keys_stroke = seq!["cx"@, "cy"@, "radius"@, "thickness"@];
    let keys_dashed = seq!["cx"@, "cy"@, "radius"@, "thickness"@, "dash_len"@, "gap_len"@];
    let keys_tri = seq!["x1"@, "y1"@, "x2"@, "y2"@, "x3"@, "y3"@];
    let keys_line = seq!["x1"@, "y1"@, "x2"@, "y2"@, "thickness"@];
    let keys_xy = seq!["x"@, "y"@];
    match e {
        Element::Rect { .. } => {
            lemma_fields_f32_each(m, keys_rect, false);
            assert(keys_rect[0] == "x"@ && keys_rect[1] == "y"@ && keys_rect[2] == "w"@ && keys_rect[3] == "h"@);
        },
        Element::Circle { .. } => {
            lemma_fields_f32_each(m, keys_circle, false);
            assert(keys_circle[0] == "cx"@ && keys_circle[1] == "cy"@ && keys_circle[2] == "radius"@);
        },
        Element::CircleStroke { .. } => {
            lemma_fields_f32_each(m, keys_stroke, false);
            assert(keys_stroke[0] == "cx"@ && keys_stroke[1] == "cy"@ && keys_stroke[2] == "radius"@ && keys_stroke[3]
                == "thickness"@);
        },
        Element::DashedCircle { .. } => {
            lemma_fields_f32_each(m, keys_dashed, false);
            assert(keys_dashed[0] == "cx"@ && keys_dashed[1] == "cy"@ && keys_dashed[2] == "radius"@ && keys_dashed[3]
                == "thickness"@ && keys_dashed[4] == "dash_len"@ && keys_dashed[5] == "gap_len"@);
        },
        Element::Triangle { .. } => {
            lemma_fields_f32_each(m, keys_tri, false);
            assert(keys_tri[0] == "x1"@ && keys_tri[1] == "y1"@ && keys_tri[2] == "x2"@ && keys_tri[3] == "y2"@
                && keys_tri[4] == "x3"@ && keys_tri[5] == "y3"@);
        },
        Element::Line { .. } => {
            lemma_fields_f32_each(m, keys_line, false);
            assert(keys_line[0] == "x1"@ && keys_line[1] == "y1"@ && keys_line[2] == "x2"@ && keys_line[3] == "y2"@
                && keys_line[4] == "thickness"@);
        },
        Element::Text { .. } => {
            lemma_fields_f32_each(m, keys_xy, false);
            assert(keys_xy[0] == "x"@ && keys_xy[1] == "y"@);
        },
        Element::Image { .. } => {
            lemma_fields_f32_each(m, keys_rect, false);
            assert(keys_rect[0] == "x"@ && keys_rect[1] == "y"@ && keys_rect[2] == "w"@ && keys_rect[3] == "h"@);
        },
        _ => {},
    }
}

} // verus!
