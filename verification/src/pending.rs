//! The local store of pending error records: record file names, which files
//! a listing keeps, which ids may be deleted, and the capacity sweep that
//! deletes the oldest records once the store exceeds its cap.

use vstd::prelude::*;
use vstd::multiset::Multiset;
use crate::order::{bytes_le, bytes_le_exec, lemma_bytes_le_total, lemma_bytes_le_trans, utf8_of};
use crate::telemetry::{PendingRecord, is_plain_record_id, spec_is_plain_record_id};
use crate::text::{chars_of, push_chars, string_from_chars};

verus! {

/// The capacity of the pending store, 5 MiB; above it the oldest records
/// are deleted.
pub const PENDING_MAX_BYTES: u64 = 5u64 * 1024 * 1024;

/// The decimal digit for `d < 10`.
pub open spec fn digit_char(d: nat) -> char {
    if d == 0 { '0' } else if d == 1 { '1' } else if d == 2 { '2' } else if d == 3 { '3' } else if d == 4 { '4' }
    else if d == 5 { '5' } else if d == 6 { '6' } else if d == 7 { '7' } else if d == 8 { '8' } else { '9' }
}

/// The decimal notation of `n`, without leading zeros.
pub open spec fn decimal(n: nat) -> Seq<char>
    decreases n,
{
    if n < 10 {
        seq![digit_char(n)]
    } else {
        decimal(n / 10).push(digit_char(n % 10))
    }
}

fn digit_of(d: u64) -> (c: char)
    requires
        d < 10,
    ensures
        c == digit_char(d as nat),
{
    if d == 0 { '0' } else if d == 1 { '1' } else if d == 2 { '2' } else if d == 3 { '3' } else if d == 4 { '4' }
    else if d == 5 { '5' } else if d == 6 { '6' } else if d == 7 { '7' } else if d == 8 { '8' } else { '9' }
}

/// Appends the decimal notation of `n`.
pub(crate) fn push_decimal(v: &mut Vec<char>, n: u64)
    ensures
        final(v)@ == old(v)@ + decimal(n as nat),
    decreases n,
{
    if n >= 10 {
        push_decimal(v, n / 10);
    }
    v.push(digit_of(n % 10));
    proof {
        if n >= 10 {
            assert(old(v)@ + decimal(n as nat) =~= old(v)@ + decimal((n / 10) as nat) + seq![digit_char((n % 10) as nat)]);
        } else {
            assert(old(v)@ + decimal(n as nat) =~= old(v)@ + seq![digit_char((n % 10) as nat)]);
        }
    }
}

/// The file name of a record made at `ts`: `<ts>-<suffix>.json`.
pub open spec fn record_file_name(ts: u64, suffix: Seq<char>) -> Seq<char> {
    decimal(ts as nat) + seq!['-'] + suffix + ".json"@
}

/// Whether `c` is a decimal digit.
pub open spec fn is_dec_digit(c: char) -> bool {
    '0' <= c && c <= '9'
}

/// The run of decimal digits that `s` begins with.
pub open spec fn digit_run(s: Seq<char>) -> Seq<char>
    decreases s.len(),
{
    if s.len() > 0 && is_dec_digit(s[0]) {
        seq![s[0]] + digit_run(s.drop_first())
    } else {
        Seq::empty()
    }
}

/// The number a sequence of decimal digits denotes.
pub open spec fn digits_value(d: Seq<char>) -> nat
    decreases d.len(),
{
    if d.len() == 0 {
        0
    } else {
        digits_value(d.drop_last()) * 10 + ((d.last() as int) - ('0' as int)) as nat
    }
}

/// `n`, or `u64::MAX` when it is larger.
pub open spec fn capped(n: nat) -> u64 {
    if n > u64::MAX { u64::MAX } else { n as u64 }
}

/// The time a pending file name begins with: the number its leading digits
/// denote (0 when there are none, `u64::MAX` when larger).
pub open spec fn name_time(name: Seq<char>) -> u64 {
    capped(digits_value(digit_run(name)))
}

/// Oldest first: by the time the names begin with, then by name (byte-wise,
/// as `String`'s `Ord`) between equal times.
pub open spec fn time_le(a: Seq<char>, b: Seq<char>) -> bool {
    ||| name_time(a) < name_time(b)
    ||| (name_time(a) == name_time(b) && bytes_le(utf8_of(a), utf8_of(b)))
}

/// Whether the names of `s` are in oldest-first order.
pub open spec fn sorted_by_time<T>(s: Seq<(String, T)>) -> bool {
    forall|i: int, j: int| 0 <= i < j < s.len() ==> time_le(#[trigger] s[i].0@, #[trigger] s[j].0@)
}

proof fn lemma_time_le_total(a: Seq<char>, b: Seq<char>)
    ensures
        time_le(a, b) || time_le(b, a),
{
    lemma_bytes_le_total(utf8_of(a), utf8_of(b));
}

proof fn lemma_time_le_trans(a: Seq<char>, b: Seq<char>, c: Seq<char>)
    requires
        time_le(a, b),
        time_le(b, c),
    ensures
        time_le(a, c),
{
    if name_time(a) == name_time(b) && name_time(b) == name_time(c) {
        lemma_bytes_le_trans(utf8_of(a), utf8_of(b), utf8_of(c));
    }
}

/// A run of `k` digits ended by the end or by a non-digit is the leading
/// digit run.
proof fn lemma_digit_run(s: Seq<char>, k: int)
    requires
        0 <= k <= s.len(),
        forall|j: int| 0 <= j < k ==> is_dec_digit(#[trigger] s[j]),
        k == s.len() || !is_dec_digit(s[k]),
    ensures
        digit_run(s) == s.take(k),
    decreases k,
{
    if k > 0 {
        let t = s.drop_first();
        assert forall|j: int| 0 <= j < k - 1 implies is_dec_digit(#[trigger] t[j]) by {
            assert(t[j] == s[j + 1]);
        }
        if k < s.len() {
            assert(t[k - 1] == s[k]);
        }
        lemma_digit_run(t, k - 1);
        assert(seq![s[0]] + t.take(k - 1) =~= s.take(k));
    } else {
        assert(s.take(0) =~= Seq::<char>::empty());
    }
}

proof fn lemma_digit_char(d: nat)
    requires
        d < 10,
    ensures
        is_dec_digit(digit_char(d)),
        (digit_char(d) as int) - ('0' as int) == d,
{
}

/// The decimal notation of `n` is made of digits and denotes `n`.
proof fn lemma_decimal(n: nat)
    ensures
        forall|j: int| 0 <= j < decimal(n).len() ==> is_dec_digit(#[trigger] decimal(n)[j]),
        digits_value(decimal(n)) == n,
        decimal(n).len() > 0,
    decreases n,
{
    lemma_digit_char(n % 10);
    if n >= 10 {
        lemma_decimal(n / 10);
        let d = decimal(n);
        assert(d.drop_last() =~= decimal(n / 10));
        assert(d.last() == digit_char(n % 10));
        assert((n / 10) * 10 + n % 10 == n);
        assert(digits_value(d) == digits_value(decimal(n / 10)) * 10 + n % 10);
    } else {
        assert(decimal(n).drop_last() =~= Seq::<char>::empty());
        assert(decimal(n).last() == digit_char(n));
        assert(digits_value(Seq::<char>::empty()) == 0);
        assert(n % 10 == n);
        assert(digits_value(decimal(n)) == n);
    }
}

/// A record file name begins with its timestamp: `name_time` of the name
/// of a record made at `ts` is `ts`, so oldest first means smallest
/// timestamp first.
pub proof fn lemma_record_name_time(ts: u64, suffix: Seq<char>)
    ensures
        name_time(record_file_name(ts, suffix)) == ts,
{
    reveal_strlit(".json");
    let d = decimal(ts as nat);
    let s = record_file_name(ts, suffix);
    lemma_decimal(ts as nat);
    assert forall|j: int| 0 <= j < d.len() implies is_dec_digit(#[trigger] s[j]) by {
        assert(s[j] == d[j]);
    }
    assert(s[d.len() as int] == '-');
    lemma_digit_run(s, d.len() as int);
    assert(s.take(d.len() as int) =~= d);
}

/// The time a name begins with.
fn name_time_exec(name: &str) -> (t: u64)
    ensures
        t == name_time(name@),
{
    let c = chars_of(name);
    let mut k: usize = 0;
    let mut v: u64 = 0;
    proof {
        assert(c@.take(0) =~= Seq::<char>::empty());
    }
    while k < c.len() && '0' <= c[k] && c[k] <= '9'
        invariant
            0 <= k <= c@.len(),
            c@ == name@,
            forall|j: int| 0 <= j < k ==> is_dec_digit(#[trigger] c@[j]),
            v == capped(digits_value(c@.take(k as int))),
        decreases c@.len() - k,
    {
        let d = (c[k] as u32 - '0' as u32) as u64;
        let ghost prev = digits_value(c@.take(k as int));
        proof {
            assert(c@.take(k + 1).drop_last() =~= c@.take(k as int));
            assert(c@.take(k + 1).last() == c@[k as int]);
        }
        v = match v.checked_mul(10) {
            Some(m) => match m.checked_add(d) {
                Some(s) => s,
                None => u64::MAX,
            },
            None => u64::MAX,
        };
        k = k + 1;
    }
    proof {
        lemma_digit_run(c@, k as int);
    }
    v
}

/// `a` comes no later than `b`, oldest first.
fn time_le_exec(a: &str, b: &str) -> (r: bool)
    ensures
        r == time_le(a@, b@),
{
    let ta = name_time_exec(a);
    let tb = name_time_exec(b);
    ta < tb || (ta == tb && bytes_le_exec(a.as_bytes(), b.as_bytes()))
}

/// Sorts named items oldest first (see `time_le`).
pub fn sort_by_time<T>(items: Vec<(String, T)>) -> (r: Vec<(String, T)>)
    ensures
        r@.to_multiset() == items@.to_multiset(),
        sorted_by_time(r@),
{
    broadcast use {vstd::seq_lib::group_to_multiset_ensures, vstd::multiset::group_multiset_axioms};

    let ghost all = items@;
    let mut input = items;
    let mut out: Vec<(String, T)> = Vec::new();
    proof {
        assert(out@.to_multiset() =~= Multiset::empty());
        assert(all.to_multiset() =~= out@.to_multiset().add(input@.to_multiset()));
    }
    while input.len() > 0
        invariant
            all.to_multiset() == out@.to_multiset().add(input@.to_multiset()),
            sorted_by_time(out@),
        decreases input@.len(),
    {
        let ghost old_input = input@;
        let ghost old_out = out@;
        let x = input.remove(0);
        proof {
            vstd::seq_lib::to_multiset_remove(old_input, 0);
        }
        let mut p: usize = 0;
        while p < out.len() && time_le_exec(out[p].0.as_str(), x.0.as_str())
            invariant
                0 <= p <= out@.len(),
                out@ == old_out,
                forall|m: int| 0 <= m < p ==> time_le(#[trigger] out@[m].0@, x.0@),
            decreases out@.len() - p,
        {
            p = p + 1;
        }
        let ghost xk = x.0@;
        proof {
            if p < out@.len() {
                lemma_time_le_total(out@[p as int].0@, xk);
            }
        }
        out.insert(p, x);
        proof {
            vstd::seq_lib::to_multiset_insert(old_out, p as int, x);
            assert(old_input[0] == x);
            assert(old_input.contains(x));
            vstd::seq_lib::to_multiset_contains(old_input, x);
            assert(old_input.to_multiset().count(x) > 0);
            assert(input@ == old_input.remove(0));
            assert(all.to_multiset() =~= out@.to_multiset().add(input@.to_multiset()));
            assert forall|i: int, j: int| 0 <= i < j < out@.len() implies time_le(
                #[trigger] out@[i].0@,
                #[trigger] out@[j].0@,
            ) by {
                if j < p {
                    assert(out@[i] == old_out[i] && out@[j] == old_out[j]);
                } else if j == p {
                    assert(out@[i] == old_out[i]);
                } else if i == p {
                    assert(out@[j] == old_out[j - 1]);
                    lemma_time_le_total(old_out[p as int].0@, xk);
                    if j - 1 > p {
                        assert(time_le(old_out[p as int].0@, old_out[j - 1].0@));
                        lemma_time_le_trans(xk, old_out[p as int].0@, old_out[j - 1].0@);
                    }
                } else if i < p {
                    assert(out@[i] == old_out[i] && out@[j] == old_out[j - 1]);
                } else {
                    assert(out@[i] == old_out[i - 1] && out@[j] == old_out[j - 1]);
                }
            }
        }
    }
    proof {
        assert(input@.to_multiset() =~= Multiset::empty());
        assert(out@.to_multiset().add(Multiset::empty()) =~= out@.to_multiset());
    }
    out
}

/// The file name of a record made at `ts` with the unique suffix `suffix`.
pub fn pending_file_name(ts: u64, suffix: &str) -> (s: String)
    ensures
        s@ == record_file_name(ts, suffix@),
{
    let mut v: Vec<char> = Vec::new();
    push_decimal(&mut v, ts);
    v.push('-');
    push_chars(&mut v, suffix);
    push_chars(&mut v, ".json");
    proof {
        reveal_strlit(".json");
        assert(v@ =~= record_file_name(ts, suffix@));
    }
    string_from_chars(&v)
}

/// Whether `c` is a lower-case hexadecimal digit.
pub open spec fn is_lower_hex(c: char) -> bool {
    ('0' <= c && c <= '9') || ('a' <= c && c <= 'f')
}

/// Calls `uuid::Uuid::new_v4().simple()` and formats it: 32 lower-case
/// hexadecimal digits, random.
#[verifier::external_body]
fn new_simple_uuid() -> (s: String)
    ensures
        s@.len() == 32,
        forall|i: int| 0 <= i < 32 ==> is_lower_hex(#[trigger] s@[i]),
{
    uuid::Uuid::new_v4().simple().to_string()
}

/// A fresh file name for a record made at `ts`: the timestamp, a hyphen,
/// 32 random lower-case hexadecimal digits and `.json`.
pub fn new_pending_file_name(ts: u64) -> (s: String)
    ensures
        exists|suffix: Seq<char>| {
            &&& suffix.len() == 32
            &&& forall|i: int| 0 <= i < 32 ==> is_lower_hex(#[trigger] suffix[i])
            &&& s@ == record_file_name(ts, suffix)
        },
{
    let suffix = new_simple_uuid();
    pending_file_name(ts, suffix.as_str())
}

/// Whether a file name has the extension `json`: it ends with `.json` and
/// the dot is not its first character.
pub open spec fn has_json_extension(name: Seq<char>) -> bool {
    name.len() > 5 && name.subrange(name.len() - 5, name.len() as int) == ".json"@
}

/// Whether `name` has the extension `json`.
pub fn is_json_file(name: &str) -> (b: bool)
    ensures
        b == has_json_extension(name@),
{
    let c = chars_of(name);
    let n = c.len();
    if n <= 5 {
        return false;
    }
    let r = c[n - 5] == '.' && c[n - 4] == 'j' && c[n - 3] == 's' && c[n - 2] == 'o' && c[n - 1] == 'n';
    proof {
        reveal_strlit(".json");
        let t = name@.subrange(n - 5, n as int);
        if r {
            assert(t =~= ".json"@);
        } else {
            if t == ".json"@ {
                assert(t[0] == '.' && t[1] == 'j' && t[2] == 's' && t[3] == 'o' && t[4] == 'n');
            }
        }
    }
    r
}

/// The entries a listing keeps, in directory order: those with the `json`
/// extension whose content parsed as a record.
pub open spec fn listed(entries: Seq<(String, Option<PendingRecord>)>) -> Seq<(String, PendingRecord)>
    decreases entries.len(),
{
    if entries.len() == 0 {
        Seq::empty()
    } else {
        let last = entries.last();
        let rest = listed(entries.drop_last());
        if has_json_extension(last.0@) && last.1 is Some {
            rest.push((last.0, last.1->0))
        } else {
            rest
        }
    }
}

/// The pending records from the directory's entries (file name and the
/// record its content parsed as, if any), oldest first: the `json` files
/// that parsed, sorted by the timestamp their names begin with (see
/// `time_le` and `lemma_record_name_time`).
pub fn list_pending(entries: Vec<(String, Option<PendingRecord>)>) -> (r: Vec<(String, PendingRecord)>)
    ensures
        r@.to_multiset() == listed(entries@).to_multiset(),
        sorted_by_time(r@),
{
    let ghost all = entries@;
    let mut rest = entries;
    let mut kept: Vec<(String, PendingRecord)> = Vec::new();
    let ghost mut k: int = 0;
    while rest.len() > 0
        invariant
            0 <= k <= all.len(),
            rest@ == all.subrange(k, all.len() as int),
            kept@ == listed(all.take(k)),
        decreases rest@.len(),
    {
        let (name, rec) = rest.remove(0);
        proof {
            assert(all[k] == (name, rec));
            assert(all.take(k + 1).drop_last() =~= all.take(k));
            assert(all.take(k + 1).last() == all[k]);
        }
        match rec {
            Some(r) => {
                if is_json_file(name.as_str()) {
                    kept.push((name, r));
                }
            },
            None => {},
        }
        proof {
            k = k + 1;
            assert(rest@ =~= all.subrange(k, all.len() as int));
        }
    }
    proof {
        assert(all.take(k) =~= all);
    }
    sort_by_time(kept)
}

/// The number of pending records among the directory's entries.
pub fn pending_count(entries: Vec<(String, Option<PendingRecord>)>) -> (n: usize)
    ensures
        n == listed(entries@).len(),
{
    let r = list_pending(entries);
    proof {
        vstd::seq_lib::to_multiset_len(r@);
        vstd::seq_lib::to_multiset_len(listed(entries@));
    }
    r.len()
}

/// The ids among `ids` that are plain file names, in order.
pub open spec fn plain_ids(ids: Seq<String>) -> Seq<String>
    decreases ids.len(),
{
    if ids.len() == 0 {
        Seq::empty()
    } else if spec_is_plain_record_id(ids.last()@) {
        plain_ids(ids.drop_last()).push(ids.last())
    } else {
        plain_ids(ids.drop_last())
    }
}

/// The uploaded records that may be deleted: only ids that are plain file
/// names, so that no path outside the store is touched.
pub fn clear_uploaded(ids: &Vec<String>) -> (r: Vec<String>)
    ensures
        r@ == plain_ids(ids@),
{
    let mut r: Vec<String> = Vec::new();
    let mut i: usize = 0;
    while i < ids.len()
        invariant
            0 <= i <= ids@.len(),
            r@ == plain_ids(ids@.take(i as int)),
        decreases ids@.len() - i,
    {
        proof {
            assert(ids@.take(i + 1).drop_last() =~= ids@.take(i as int));
        }
        if is_plain_record_id(ids[i].as_str()) {
            r.push(ids[i].clone());
        }
        i = i + 1;
    }
    proof {
        assert(ids@.take(ids@.len() as int) =~= ids@);
    }
    r
}

/// The total size of a list of files.
pub open spec fn total_size(files: Seq<(String, u64)>) -> nat
    decreases files.len(),
{
    if files.len() == 0 {
        0
    } else {
        total_size(files.drop_last()) + files.last().1 as nat
    }
}

/// A capacity sweep over the pending files: the files sorted oldest first
/// (by the timestamp their names begin with, see `time_le`), the position
/// of the next file to try and the size still stored.
#[derive(Debug)]
pub struct CapSweep {
    order: Vec<(String, u64)>,
    next: usize,
    total: u64,
}

impl CapSweep {
    #[verifier::type_invariant]
    spec fn wf(self) -> bool {
        &&& self.next <= self.order@.len()
        &&& sorted_by_time(self.order@)
    }

    /// The files, oldest first.
    pub closed spec fn order(self) -> Seq<(String, u64)> {
        self.order@
    }

    /// How many files have been tried.
    pub closed spec fn tried(self) -> nat {
        self.next as nat
    }

    /// The size still stored.
    pub closed spec fn total(self) -> u64 {
        self.total
    }

    /// Whether the sweep goes on: the store is over the cap and a file is
    /// left to try.
    pub open spec fn spec_active(self) -> bool {
        self.total() > PENDING_MAX_BYTES && self.tried() < self.order().len()
    }

    /// Starts a sweep over the files with their sizes.
    pub fn start(files: Vec<(String, u64)>) -> (s: Self)
        requires
            total_size(files@) <= u64::MAX,
        ensures
            s.order().to_multiset() == files@.to_multiset(),
            sorted_by_time(s.order()),
            s.tried() == 0,
            s.total() == total_size(files@),
    {
        let mut total: u64 = 0;
        let mut i: usize = 0;
        while i < files.len()
            invariant
                0 <= i <= files@.len(),
                total_size(files@) <= u64::MAX,
                total == total_size(files@.take(i as int)),
            decreases files@.len() - i,
        {
            proof {
                assert(files@.take(i + 1).drop_last() =~= files@.take(i as int));
                lemma_total_size_prefix(files@, i + 1);
            }
            total = total + files[i].1;
            i = i + 1;
        }
        proof {
            assert(files@.take(files@.len() as int) =~= files@);
        }
        let order = sort_by_time(files);
        CapSweep { order, next: 0, total }
    }

    /// The file to delete next, if the sweep goes on: the oldest one not
    /// tried yet.
    pub fn current(&self) -> (r: Option<String>)
        ensures
            r is Some <==> self.spec_active(),
            r is Some ==> r->0@ == self.order()[self.tried() as int].0@,
    {
        proof {
            use_type_invariant(self);
        }
        if self.total > PENDING_MAX_BYTES && self.next < self.order.len() {
            Some(self.order[self.next].0.clone())
        } else {
            None
        }
    }

    /// Records the outcome of deleting the current file: its size leaves
    /// the total when the deletion succeeded.
    pub fn record(&mut self, removed: bool)
        requires
            old(self).spec_active(),
        ensures
            final(self).order() == old(self).order(),
            final(self).tried() == old(self).tried() + 1,
            final(self).total() == if removed {
                if old(self).total() >= old(self).order()[old(self).tried() as int].1 {
                    (old(self).total() - old(self).order()[old(self).tried() as int].1) as u64
                } else {
                    0u64
                }
            } else {
                old(self).total()
            },
    {
        proof {
            use_type_invariant(&*self);
        }
        let n = self.next;
        let count = self.order.len();
        assert(n < count);
        let len = self.order[n].1;
        let total = if removed { self.total.saturating_sub(len) } else { self.total };
        self.next = n + 1;
        self.total = total;
    }
}

/// The total of a prefix never exceeds the total.
pub proof fn lemma_total_size_prefix(files: Seq<(String, u64)>, k: int)
    requires
        0 <= k <= files.len(),
    ensures
        total_size(files.take(k)) <= total_size(files),
    decreases files.len() - k,
{
    if k < files.len() {
        lemma_total_size_prefix(files, k + 1);
        assert(files.take(k + 1).drop_last() =~= files.take(k));
    } else {
        assert(files.take(k) =~= files);
    }
}

/// A store within its cap is never swept: no file is deleted.
pub proof fn law_no_sweep_under_cap(s: CapSweep)
    requires
        s.total() <= PENDING_MAX_BYTES,
    ensures
        !s.spec_active(),
{
}

} // verus!
