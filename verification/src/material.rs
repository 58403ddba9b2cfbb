//! Material metadata, parameter merging and the dynamic-input context.

use vstd::prelude::*;
use crate::text::{chars_of, has_prefix, has_prefix_at, string_from_chars, trim, trim_range};
use crate::layer::ParamValue;
use crate::key_state::KeyState;
use crate::float_bits::{F32, f32_of, F32_0};

verus! {

/// The first line of `s`: everything before the first `'\n'`.
pub open spec fn first_line(s: Seq<char>) -> Seq<char>
    decreases s.len(),
{
    if s.len() == 0 || s[0] == '\n' {
        Seq::empty()
    } else {
        seq![s[0]] + first_line(s.drop_first())
    }
}

/// The display name declared by a script's first line `// Name: xxx`.
pub open spec fn spec_display_name(source: Seq<char>) -> Option<Seq<char>> {
    if source.len() == 0 {
        None
    } else {
        let line = trim(first_line(source));
        if !has_prefix(line, seq!['/', '/']) {
            None
        } else {
            let rest = trim(line.skip(2));
            if !has_prefix(rest, seq!['N', 'a', 'm', 'e', ':']) {
                None
            } else {
                let name = trim(rest.skip(5));
                if name.len() == 0 {
                    None
                } else {
                    Some(name)
                }
            }
        }
    }
}

proof fn lemma_first_line(s: Seq<char>, e: int)
    requires
        0 <= e <= s.len(),
        e == s.len() || s[e] == '\n',
        forall|k: int| 0 <= k < e ==> s[k] != '\n',
    ensures
        first_line(s) == s.take(e),
    decreases e,
{
    if e == 0 {
        assert(s.take(0) =~= Seq::<char>::empty());
    } else {
        lemma_first_line(s.drop_first(), e - 1);
        assert(s.take(e) =~= seq![s[0]] + s.drop_first().take(e - 1));
    }
}

/// Parses the display name from a script's first line, `// Name: xxx`.
///
/// Returns `None` when the script is empty, the first line is not a comment
/// of that form, or the name is blank.
pub fn parse_display_name(source: &str) -> (r: Option<String>)
    ensures
        r is Some <==> spec_display_name(source@) is Some,
        r is Some ==> r->0@ == spec_display_name(source@)->0,
{
    let s = chars_of(source);
    if s.len() == 0 {
        return None;
    }
    let mut e: usize = 0;
    while e < s.len() && s[e] != '\n'
        invariant
            0 <= e <= s@.len(),
            forall|k: int| 0 <= k < e ==> s@[k] != '\n',
        decreases s@.len() - e,
    {
        e = e + 1;
    }
    proof {
        lemma_first_line(s@, e as int);
        assert(s@.subrange(0, e as int) == s@.take(e as int));
    }
    let line = trim_range(&s, 0, e);
    let slashes = vec!['/', '/'];
    proof {
        assert(line@.skip(0) =~= line@);
        assert(slashes@ =~= seq!['/', '/']);
    }
    if !has_prefix_at(&line, 0, &slashes) {
        return None;
    }
    let rest = trim_range(&line, 2, line.len());
    proof {
        assert(line@.subrange(2, line@.len() as int) =~= line@.skip(2));
        assert(rest@.skip(0) =~= rest@);
    }
    let label = vec!['N', 'a', 'm', 'e', ':'];
    proof {
        assert(label@ =~= seq!['N', 'a', 'm', 'e', ':']);
    }
    if !has_prefix_at(&rest, 0, &label) {
        return None;
    }
    let name = trim_range(&rest, 5, rest.len());
    proof {
        assert(rest@.subrange(5, rest@.len() as int) =~= rest@.skip(5));
    }
    if name.len() == 0 {
        None
    } else {
        Some(string_from_chars(&name))
    }
}


/// Metadata of a material, for the UI and the caching policy.
#[derive(Debug, Clone)]
pub struct MaterialMetadata {
    /// Material id, such as `builtin.cross`.
    pub id: String,
    /// Readable name.
    pub display_name: String,
    /// Whether the material reads dynamic inputs (time, mouse, keys,
    /// randomness); a static material's output can be cached for good.
    pub is_dynamic: bool,
    /// Shortest refresh interval of a dynamic material, in milliseconds
    /// (zero: every frame).
    pub refresh_interval_ms: u32,
}

/// The part of an id after its last `.`; the whole id when it has none.
pub open spec fn last_segment(id: Seq<char>) -> Seq<char>
    decreases id.len(),
{
    if id.len() == 0 {
        id
    } else if id.last() == '.' {
        Seq::empty()
    } else {
        last_segment(id.drop_last()).push(id.last())
    }
}

/// The last segment of an id.
fn id_tail(id: &str) -> (s: String)
    ensures
        s@ == last_segment(id@),
{
    let c = chars_of(id);
    let mut start: usize = c.len();
    while start > 0 && c[start - 1] != '.'
        invariant
            0 <= start <= c@.len(),
            forall|k: int| start <= k < c@.len() ==> c@[k] != '.',
        decreases start,
    {
        start = start - 1;
    }
    let mut v: Vec<char> = Vec::new();
    let mut k: usize = start;
    while k < c.len()
        invariant
            start <= k <= c@.len(),
            v@ == c@.subrange(start as int, k as int),
        decreases c@.len() - k,
    {
        v.push(c[k]);
        proof {
            assert(c@.subrange(start as int, k + 1) =~= c@.subrange(start as int, k as int).push(c@[k as int]));
        }
        k = k + 1;
    }
    proof {
        lemma_last_segment(c@, start as int);
    }
    string_from_chars(&v)
}

proof fn lemma_last_segment(s: Seq<char>, start: int)
    requires
        0 <= start <= s.len(),
        start == 0 || s[start - 1] == '.',
        forall|k: int| start <= k < s.len() ==> s[k] != '.',
    ensures
        last_segment(s) == s.subrange(start, s.len() as int),
    decreases s.len(),
{
    if s.len() == 0 {
        assert(s.subrange(start, 0) =~= s);
    } else if s.len() == start {
        assert(s.last() == '.');
        assert(s.subrange(start, s.len() as int) =~= Seq::<char>::empty());
    } else {
        lemma_last_segment(s.drop_last(), start);
        assert(s.subrange(start, s.len() as int) =~= s.drop_last().subrange(start, s.len() - 1).push(s.last()));
    }
}

/// The metadata of a loaded material from its id, its source and what its
/// optional `is_dynamic()` and `refresh_interval_ms()` functions returned
/// (none when missing or failing): the name declared in the source, else
/// the id's last segment; not dynamic unless declared; a refresh interval
/// that fits in `u32`, else zero.
pub fn material_metadata(id: String, source: &str, is_dynamic: Option<bool>, refresh_interval_ms: Option<i64>) -> (m: MaterialMetadata)
    ensures
        m.id@ == id@,
        m.display_name@ == match spec_display_name(source@) {
            Some(n) => n,
            None => last_segment(id@),
        },
        m.is_dynamic == (is_dynamic == Some(true)),
        m.refresh_interval_ms == match refresh_interval_ms {
            Some(ms) => if 0 <= ms <= u32::MAX { ms as u32 } else { 0u32 },
            None => 0u32,
        },
{
    let display_name = match parse_display_name(source) {
        Some(n) => n,
        None => id_tail(id.as_str()),
    };
    let refresh = match refresh_interval_ms {
        Some(ms) => if 0 <= ms && ms <= 0xffff_ffff { ms as u32 } else { 0 },
        None => 0,
    };
    MaterialMetadata {
        id,
        display_name,
        is_dynamic: match is_dynamic {
            Some(b) => b,
            None => false,
        },
        refresh_interval_ms: refresh,
    }
}

/// Whether `i` is the first entry of `m` with key `k`.
pub open spec fn is_first_key(m: Seq<(String, ParamValue)>, k: Seq<char>, i: int) -> bool {
    &&& 0 <= i < m.len()
    &&& m[i].0@ == k
    &&& forall|j: int| 0 <= j < i ==> #[trigger] m[j].0@ != k
}

/// `m` with `(k, v)` set: the first entry with key `k` gets the value `v`
/// (keeping its key), or the entry is appended when there is none.
pub open spec fn insert_entry(m: Seq<(String, ParamValue)>, k: String, v: ParamValue) -> Seq<(String, ParamValue)> {
    if exists|i: int| is_first_key(m, k@, i) {
        let i = choose|i: int| is_first_key(m, k@, i);
        m.update(i, (m[i].0, v))
    } else {
        m.push((k, v))
    }
}

/// The entries of `d` with those of `o` set on top, in the order of `o`.
pub open spec fn merge_entries(d: Seq<(String, ParamValue)>, o: Seq<(String, ParamValue)>) -> Seq<(String, ParamValue)>
    decreases o.len(),
{
    if o.len() == 0 {
        d
    } else {
        insert_entry(merge_entries(d, o.drop_last()), o.last().0, o.last().1)
    }
}

/// Sets `(k, v)` in the object entries `m`.
fn set_entry(m: &mut Vec<(String, ParamValue)>, k: String, v: ParamValue)
    ensures
        final(m)@ == insert_entry(old(m)@, k, v),
{
    let mut i: usize = 0;
    while i < m.len()
        invariant
            0 <= i <= m@.len(),
            m@ == old(m)@,
            forall|j: int| 0 <= j < i ==> #[trigger] m@[j].0@ != k@,
        decreases m@.len() - i,
    {
        if m[i].0 == k {
            proof {
                assert(is_first_key(m@, k@, i as int));
                let c = choose|c: int| is_first_key(m@, k@, c);
                if c < i {
                    assert(m@[c].0@ != k@);
                } else if i < c {
                    assert(m@[i as int].0@ != k@);
                }
            }
            let (key, _) = m.remove(i);
            m.insert(i, (key, v));
            proof {
                assert(m@ =~= old(m)@.update(i as int, (old(m)@[i as int].0, v)));
            }
            return;
        }
        i = i + 1;
    }
    proof {
        assert forall|c: int| !is_first_key(m@, k@, c) by {
            if is_first_key(m@, k@, c) {
                assert(m@[c].0@ != k@);
            }
        }
    }
    m.push((k, v));
}

/// The value of the first entry with key `k`.
pub open spec fn lookup(m: Seq<(String, ParamValue)>, k: Seq<char>) -> Option<ParamValue> {
    if exists|i: int| is_first_key(m, k, i) {
        Some(m[choose|i: int| is_first_key(m, k, i)].1)
    } else {
        None
    }
}

/// The value of the last entry with key `k`.
pub open spec fn last_value(o: Seq<(String, ParamValue)>, k: Seq<char>) -> Option<ParamValue>
    decreases o.len(),
{
    if o.len() == 0 {
        None
    } else if o.last().0@ == k {
        Some(o.last().1)
    } else {
        last_value(o.drop_last(), k)
    }
}

proof fn lemma_first_key_unique(m: Seq<(String, ParamValue)>, k: Seq<char>, i: int, j: int)
    requires
        is_first_key(m, k, i),
        is_first_key(m, k, j),
    ensures
        i == j,
{
    if i < j {
        assert(m[i].0@ != k);
    } else if j < i {
        assert(m[j].0@ != k);
    }
}

/// Setting an entry changes the lookup of its key only.
proof fn lemma_lookup_insert(m: Seq<(String, ParamValue)>, key: String, v: ParamValue, k: Seq<char>)
    ensures
        lookup(insert_entry(m, key, v), k) == if k == key@ {
            Some(v)
        } else {
            lookup(m, k)
        },
{
    let r = insert_entry(m, key, v);
    if exists|i: int| is_first_key(m, key@, i) {
        let i = choose|i: int| is_first_key(m, key@, i);
        assert(r == m.update(i, (m[i].0, v)));
        assert forall|j: int| 0 <= j < r.len() implies #[trigger] r[j].0@ == m[j].0@ by {}
        if k == key@ {
            assert(is_first_key(r, k, i));
            let c = choose|c: int| is_first_key(r, k, c);
            lemma_first_key_unique(r, k, i, c);
        } else {
            assert forall|c: int| is_first_key(r, k, c) <==> is_first_key(m, k, c) by {
                if is_first_key(r, k, c) {
                    assert forall|j: int| 0 <= j < c implies #[trigger] m[j].0@ != k by {
                        assert(r[j].0@ != k);
                        assert(r[j].0@ == m[j].0@);
                    }
                    assert(r[c].0@ == m[c].0@);
                }
                if is_first_key(m, k, c) {
                    assert forall|j: int| 0 <= j < c implies #[trigger] r[j].0@ != k by {
                        assert(m[j].0@ != k);
                        assert(r[j].0@ == m[j].0@);
                    }
                    assert(r[c].0@ == m[c].0@);
                }
            }
            if exists|c: int| is_first_key(m, k, c) {
                let c1 = choose|c: int| is_first_key(m, k, c);
                let c2 = choose|c: int| is_first_key(r, k, c);
                assert(is_first_key(r, k, c1));
                lemma_first_key_unique(r, k, c1, c2);
                assert(c1 != i);
            }
        }
    } else {
        assert(r == m.push((key, v)));
        if k == key@ {
            let n = m.len() as int;
            assert forall|j: int| 0 <= j < n implies #[trigger] r[j].0@ != k by {
                assert(r[j] == m[j]);
                if m[j].0@ == k {
                    lemma_some_first_key(m, key@, j);
                }
            }
            assert(is_first_key(r, k, n));
            let c = choose|c: int| is_first_key(r, k, c);
            lemma_first_key_unique(r, k, n, c);
        } else {
            assert forall|c: int| is_first_key(r, k, c) <==> is_first_key(m, k, c) by {
                if is_first_key(r, k, c) {
                    if c == m.len() {
                        assert(r[c].0@ == key@);
                    }
                    assert forall|j: int| 0 <= j < c implies #[trigger] m[j].0@ != k by {
                        assert(r[j].0@ != k);
                        assert(r[j] == m[j]);
                    }
                    assert(r[c] == m[c]);
                }
                if is_first_key(m, k, c) {
                    assert forall|j: int| 0 <= j < c implies #[trigger] r[j].0@ != k by {
                        assert(m[j].0@ != k);
                        assert(r[j] == m[j]);
                    }
                    assert(r[c] == m[c]);
                }
            }
            if exists|c: int| is_first_key(m, k, c) {
                let c1 = choose|c: int| is_first_key(m, k, c);
                let c2 = choose|c: int| is_first_key(r, k, c);
                assert(is_first_key(r, k, c1));
                lemma_first_key_unique(r, k, c1, c2);
            }
        }
    }
}

/// A key that occurs has a first occurrence.
proof fn lemma_some_first_key(m: Seq<(String, ParamValue)>, k: Seq<char>, j: int)
    requires
        0 <= j < m.len(),
        m[j].0@ == k,
    ensures
        exists|i: int| is_first_key(m, k, i),
    decreases j,
{
    if exists|g: int| 0 <= g < j && m[g].0@ == k {
        let g = choose|g: int| 0 <= g < j && m[g].0@ == k;
        lemma_some_first_key(m, k, g);
    } else {
        assert(is_first_key(m, k, j));
    }
}

/// The given parameters win: after merging, a key reads as its last value
/// among the given entries, and as its default when it is not given.
pub proof fn law_given_params_win(d: Seq<(String, ParamValue)>, o: Seq<(String, ParamValue)>, k: Seq<char>)
    ensures
        lookup(merge_entries(d, o), k) == match last_value(o, k) {
            Some(v) => Some(v),
            None => lookup(d, k),
        },
    decreases o.len(),
{
    if o.len() > 0 {
        law_given_params_win(d, o.drop_last(), k);
        lemma_lookup_insert(merge_entries(d, o.drop_last()), o.last().0, o.last().1, k);
    }
}

/// Merges default parameters with the given ones, the given ones winning:
/// two objects merge entry by entry; otherwise an object wins over a value
/// that is not one, and the given value wins between two non-objects.
pub fn merge_params(defaults: ParamValue, overrides: ParamValue) -> (r: ParamValue)
    ensures
        match (defaults, overrides) {
            (ParamValue::Object(d), ParamValue::Object(o)) => r matches ParamValue::Object(e) && e@
                == merge_entries(d@, o@),
            (_, ParamValue::Object(_)) => r == overrides,
            (ParamValue::Object(_), _) => r == defaults,
            _ => r == overrides,
        },
{
    match (defaults, overrides) {
        (ParamValue::Object(d), ParamValue::Object(o)) => {
            let ghost od = d@;
            let ghost oo = o@;
            let mut merged_entries = d;
            let mut rest = o;
            let ghost mut k: int = 0;
            while rest.len() > 0
                invariant
                    0 <= k <= oo.len(),
                    rest@ == oo.subrange(k, oo.len() as int),
                    merged_entries@ == merge_entries(od, oo.take(k)),
                decreases rest@.len(),
            {
                let (key, value) = rest.remove(0);
                proof {
                    assert(oo[k] == (key, value));
                    assert(oo.take(k + 1).drop_last() =~= oo.take(k));
                    assert(oo.take(k + 1).last() == oo[k]);
                }
                set_entry(&mut merged_entries, key, value);
                proof {
                    k = k + 1;
                    assert(rest@ =~= oo.subrange(k, oo.len() as int));
                }
            }
            proof {
                assert(oo.take(k) =~= oo);
            }
            ParamValue::Object(merged_entries)
        },
        (d, o) => {
            match o {
                ParamValue::Object(_) => o,
                _ => match d {
                    ParamValue::Object(_) => d,
                    _ => o,
                },
            }
        },
    }
}

/// The dynamic inputs a material evaluation may read.
#[derive(Debug)]
pub struct DynamicContext {
    /// Milliseconds since the process started, monotonic.
    pub time_ms: u64,
    /// Mouse position in logical screen coordinates.
    pub mouse_pos: (F32, F32),
    /// Pressed keys.
    pub key_state: KeyState,
    /// Random seed.
    pub rng_seed: u64,
    /// Version for cache invalidation: always zero for static materials.
    pub version: u64,
}

impl DynamicContext {
    /// Time zero, the mouse at the origin, no key pressed, seed 1,
    /// version 0.
    pub fn default_context() -> (c: Self)
        ensures
            c.time_ms == 0,
            c.mouse_pos.0.bits == F32_0 && c.mouse_pos.1.bits == F32_0,
            c.key_state.view().is_empty(),
            c.rng_seed == 1,
            c.version == 0,
    {
        DynamicContext {
            time_ms: 0,
            mouse_pos: (f32_of(F32_0), f32_of(F32_0)),
            key_state: KeyState::new(),
            rng_seed: 1,
            version: 0,
        }
    }

    /// The context of a static material evaluation: the defaults, with
    /// version zero so that the output is cached for good.
    pub fn static_context() -> (c: Self)
        ensures
            c.time_ms == 0,
            c.mouse_pos.0.bits == F32_0 && c.mouse_pos.1.bits == F32_0,
            c.key_state.view().is_empty(),
            c.rng_seed == 1,
            c.version == 0,
    {
        Self::default_context()
    }
}

impl Clone for DynamicContext {
    fn clone(&self) -> (c: Self)
        ensures
            c.time_ms == self.time_ms,
            c.mouse_pos == self.mouse_pos,
            c.key_state.view() == self.key_state.view(),
            c.rng_seed == self.rng_seed,
            c.version == self.version,
    {
        DynamicContext {
            time_ms: self.time_ms,
            mouse_pos: (f32_of(self.mouse_pos.0.bits), f32_of(self.mouse_pos.1.bits)),
            key_state: self.key_state.clone(),
            rng_seed: self.rng_seed,
            version: self.version,
        }
    }
}

impl Default for DynamicContext {
    fn default() -> (c: Self)
        ensures
            c.time_ms == 0,
            c.rng_seed == 1,
            c.version == 0,
    {
        Self::default_context()
    }
}

} // verus!
