//! The material registry: materials by id, builtin ones under `builtin.`
//! and user ones under `user.`, with user materials replaced as a whole
//! when their directory is scanned again.

use vstd::prelude::*;
use crate::text::{has_prefix, push_chars, starts_with, str_eq, string_from_chars};

verus! {

/// `builtin.`, the id prefix of builtin materials.
pub open spec fn builtin_prefix() -> Seq<char> {
    "builtin."@
}

/// `user.`, the id prefix of user materials.
pub open spec fn user_prefix() -> Seq<char> {
    "user."@
}

/// The map an entry list describes; later entries win.
pub open spec fn entries_map<T>(s: Seq<(String, T)>) -> Map<Seq<char>, T>
    decreases s.len(),
{
    if s.len() == 0 {
        Map::empty()
    } else {
        entries_map(s.drop_last()).insert(s.last().0@, s.last().1)
    }
}

/// Whether no two entries share an id.
pub open spec fn unique_ids<T>(s: Seq<(String, T)>) -> bool {
    forall|i: int, j: int| 0 <= i < j < s.len() ==> #[trigger] s[i].0@ != #[trigger] s[j].0@
}

proof fn lemma_map_dom<T>(s: Seq<(String, T)>, k: Seq<char>)
    ensures
        entries_map(s).dom().contains(k) <==> exists|i: int| 0 <= i < s.len() && #[trigger] s[i].0@ == k,
    decreases s.len(),
{
    if s.len() > 0 {
        lemma_map_dom(s.drop_last(), k);
        if exists|i: int| 0 <= i < s.len() && #[trigger] s[i].0@ == k {
            let i = choose|i: int| 0 <= i < s.len() && #[trigger] s[i].0@ == k;
            if i < s.len() - 1 {
                assert(s.drop_last()[i].0@ == k);
            }
        }
        if exists|i: int| 0 <= i < s.drop_last().len() && #[trigger] s.drop_last()[i].0@ == k {
            let i = choose|i: int| 0 <= i < s.drop_last().len() && #[trigger] s.drop_last()[i].0@ == k;
            assert(s[i].0@ == k);
        }
    }
}

proof fn lemma_map_value<T>(s: Seq<(String, T)>, i: int)
    requires
        unique_ids(s),
        0 <= i < s.len(),
    ensures
        entries_map(s).dom().contains(s[i].0@),
        entries_map(s)[s[i].0@] == s[i].1,
    decreases s.len(),
{
    if i == s.len() - 1 {
    } else {
        assert(unique_ids(s.drop_last()));
        lemma_map_value(s.drop_last(), i);
        assert(s[i].0@ != s.last().0@);
    }
}

proof fn lemma_map_len<T>(s: Seq<(String, T)>)
    requires
        unique_ids(s),
    ensures
        entries_map(s).dom().finite(),
        entries_map(s).dom().len() == s.len(),
    decreases s.len(),
{
    if s.len() > 0 {
        assert(unique_ids(s.drop_last()));
        lemma_map_len(s.drop_last());
        lemma_map_dom(s.drop_last(), s.last().0@);
        if entries_map(s.drop_last()).dom().contains(s.last().0@) {
            let i = choose|i: int| 0 <= i < s.drop_last().len() && #[trigger] s.drop_last()[i].0@ == s.last().0@;
            assert(s[i].0@ == s[s.len() - 1].0@);
        }
    }
}

proof fn lemma_map_update<T>(s: Seq<(String, T)>, i: int, x: (String, T))
    requires
        unique_ids(s),
        0 <= i < s.len(),
        x.0@ == s[i].0@,
    ensures
        unique_ids(s.update(i, x)),
        entries_map(s.update(i, x)) == entries_map(s).insert(x.0@, x.1),
    decreases s.len(),
{
    let u = s.update(i, x);
    assert(unique_ids(u)) by {
        assert forall|a: int, b: int| 0 <= a < b < u.len() implies #[trigger] u[a].0@ != #[trigger] u[b].0@ by {
            assert(u[a].0@ == s[a].0@);
            assert(u[b].0@ == s[b].0@);
        }
    }
    if i == s.len() - 1 {
        assert(u.drop_last() =~= s.drop_last());
        assert(entries_map(u) =~= entries_map(s).insert(x.0@, x.1));
    } else {
        assert(unique_ids(s.drop_last()));
        lemma_map_update(s.drop_last(), i, x);
        assert(u.drop_last() =~= s.drop_last().update(i, x));
        assert(s.last().0@ != x.0@);
        assert(entries_map(u) =~= entries_map(s).insert(x.0@, x.1));
    }
}

/// The entries of `s` whose ids do not start with `user.`, in order.
pub open spec fn without_user<T>(s: Seq<(String, T)>) -> Seq<(String, T)>
    decreases s.len(),
{
    if s.len() == 0 {
        Seq::empty()
    } else if has_prefix(s.last().0@, user_prefix()) {
        without_user(s.drop_last())
    } else {
        without_user(s.drop_last()).push(s.last())
    }
}

proof fn lemma_without_user<T>(s: Seq<(String, T)>)
    ensures
        entries_map(without_user(s)) == entries_map(s).restrict(
            entries_map(s).dom().filter(|k: Seq<char>| !has_prefix(k, user_prefix())),
        ),
        forall|k: int| 0 <= k < without_user(s).len() ==> exists|i: int| 0 <= i < s.len() && s[i]
            == #[trigger] without_user(s)[k],
    decreases s.len(),
{
    if s.len() > 0 {
        lemma_without_user(s.drop_last());
        let m = entries_map(s.drop_last());
        let keep = |k: Seq<char>| !has_prefix(k, user_prefix());
        let k0 = s.last().0@;
        let v0 = s.last().1;
        assert(entries_map(s) == m.insert(k0, v0));
        if has_prefix(k0, user_prefix()) {
            assert(without_user(s) == without_user(s.drop_last()));
            assert(m.insert(k0, v0).restrict(m.insert(k0, v0).dom().filter(keep)) =~= m.restrict(
                m.dom().filter(keep),
            ));
        } else {
            let w = without_user(s.drop_last());
            assert(without_user(s) == w.push(s.last()));
            assert(w.push(s.last()).drop_last() =~= w);
            assert(entries_map(without_user(s)) == entries_map(w).insert(k0, v0));
            assert(m.insert(k0, v0).restrict(m.insert(k0, v0).dom().filter(keep)) =~= m.restrict(
                m.dom().filter(keep),
            ).insert(k0, v0));
        }
        let w = without_user(s);
        assert forall|k: int| 0 <= k < w.len() implies exists|i: int| 0 <= i < s.len() && s[i] == #[trigger] w[k] by {
            if k < without_user(s.drop_last()).len() {
                let i = choose|i: int| 0 <= i < s.drop_last().len() && #[trigger] s.drop_last()[i] == without_user(
                    s.drop_last(),
                )[k];
                assert(s[i] == w[k]);
            } else {
                assert(s[s.len() - 1] == w[k]);
            }
        }
    }
}

proof fn lemma_without_user_unique<T>(s: Seq<(String, T)>)
    requires
        unique_ids(s),
    ensures
        unique_ids(without_user(s)),
    decreases s.len(),
{
    if s.len() > 0 {
        assert(unique_ids(s.drop_last()));
        lemma_without_user_unique(s.drop_last());
        lemma_without_user(s.drop_last());
        let w = without_user(s.drop_last());
        if !has_prefix(s.last().0@, user_prefix()) {
            assert forall|a: int, b: int| 0 <= a < b < w.len() + 1 implies #[trigger] w.push(s.last())[a].0@
                != #[trigger] w.push(s.last())[b].0@ by {
                if b == w.len() {
                    let i = choose|i: int| 0 <= i < s.drop_last().len() && #[trigger] s.drop_last()[i] == w[a];
                    assert(s[i].0@ != s[s.len() - 1].0@);
                }
            }
        }
    }
}

/// Materials by id.
pub struct MaterialRegistry<T> {
    entries: Vec<(String, T)>,
}

impl<T> MaterialRegistry<T> {
    #[verifier::type_invariant]
    spec fn wf(self) -> bool {
        unique_ids(self.entries@)
    }

    /// The registered materials by id.
    pub closed spec fn view(&self) -> Map<Seq<char>, T> {
        entries_map(self.entries@)
    }

    /// An empty registry.
    pub fn new() -> (r: Self)
        ensures
            r.view() == Map::<Seq<char>, T>::empty(),
    {
        MaterialRegistry { entries: Vec::new() }
    }

    fn position(&self, id: &str) -> (r: Option<usize>)
        ensures
            match r {
                Some(i) => i < self.entries@.len() && self.entries@[i as int].0@ == id@,
                None => forall|i: int| 0 <= i < self.entries@.len() ==> #[trigger] self.entries@[i].0@ != id@,
            },
    {
        let mut i: usize = 0;
        while i < self.entries.len()
            invariant
                0 <= i <= self.entries@.len(),
                forall|j: int| 0 <= j < i ==> #[trigger] self.entries@[j].0@ != id@,
            decreases self.entries@.len() - i,
        {
            if str_eq(self.entries[i].0.as_str(), id) {
                return Some(i);
            }
            i = i + 1;
        }
        None
    }

    /// Registers `material` under `id`, replacing any material with that id.
    pub fn insert(&mut self, id: String, material: T)
        ensures
            final(self).view() == old(self).view().insert(id@, material),
    {
        proof {
            use_type_invariant(&*self);
        }
        match self.position(id.as_str()) {
            Some(i) => {
                proof {
                    lemma_map_update(self.entries@, i as int, (id, material));
                }
                let mut entries: Vec<(String, T)> = Vec::new();
                std::mem::swap(&mut entries, &mut self.entries);
                entries.set(i, (id, material));
                self.entries = entries;
            },
            None => {
                let ghost old_entries = self.entries@;
                let mut entries: Vec<(String, T)> = Vec::new();
                std::mem::swap(&mut entries, &mut self.entries);
                entries.push((id, material));
                proof {
                    assert(entries@.drop_last() =~= old_entries);
                    assert(unique_ids(entries@)) by {
                        assert forall|a: int, b: int| 0 <= a < b < entries@.len() implies #[trigger] entries@[a].0@
                            != #[trigger] entries@[b].0@ by {
                            if b == entries@.len() - 1 {
                                assert(old_entries[a].0@ != id@);
                            }
                        }
                    }
                }
                self.entries = entries;
            },
        }
    }

    /// The material registered under `id`.
    pub fn get(&self, id: &str) -> (r: Option<&T>)
        ensures
            self.view().dom().contains(id@) <==> r is Some,
            r is Some ==> *r->0 == self.view()[id@],
    {
        proof {
            use_type_invariant(self);
        }
        match self.position(id) {
            Some(i) => {
                proof {
                    lemma_map_value(self.entries@, i as int);
                }
                Some(&self.entries[i].1)
            },
            None => {
                proof {
                    lemma_map_dom(self.entries@, id@);
                }
                None
            },
        }
    }

    /// The number of registered materials.
    pub fn len(&self) -> (n: usize)
        ensures
            n == self.view().dom().len(),
    {
        proof {
            use_type_invariant(self);
            lemma_map_len(self.entries@);
        }
        self.entries.len()
    }

    /// The ids of the registered materials, each once.
    pub fn ids(&self) -> (r: Vec<String>)
        ensures
            r@.len() == self.view().dom().len(),
            forall|i: int| 0 <= i < r@.len() ==> self.view().dom().contains(#[trigger] r@[i]@),
            forall|k: Seq<char>| #[trigger] self.view().dom().contains(k) ==> exists|i: int| 0 <= i < r@.len() && r@[i]@ == k,
            forall|i: int, j: int| 0 <= i < j < r@.len() ==> #[trigger] r@[i]@ != #[trigger] r@[j]@,
    {
        proof {
            use_type_invariant(self);
            lemma_map_len(self.entries@);
        }
        let mut r: Vec<String> = Vec::new();
        let mut i: usize = 0;
        while i < self.entries.len()
            invariant
                0 <= i <= self.entries@.len(),
                unique_ids(self.entries@),
                r@.len() == i,
                forall|j: int| 0 <= j < i ==> #[trigger] r@[j]@ == self.entries@[j].0@,
            decreases self.entries@.len() - i,
        {
            r.push(self.entries[i].0.clone());
            i = i + 1;
        }
        proof {
            assert forall|j: int| 0 <= j < r@.len() implies self.view().dom().contains(#[trigger] r@[j]@) by {
                lemma_map_dom(self.entries@, r@[j]@);
            }
            assert forall|k: Seq<char>| #[trigger] self.view().dom().contains(k) implies exists|j: int|
                0 <= j < r@.len() && r@[j]@ == k by {
                lemma_map_dom(self.entries@, k);
                let j = choose|j: int| 0 <= j < self.entries@.len() && #[trigger] self.entries@[j].0@ == k;
                assert(r@[j]@ == k);
            }
            assert forall|a: int, b: int| 0 <= a < b < r@.len() implies #[trigger] r@[a]@ != #[trigger] r@[b]@ by {
                assert(self.entries@[a].0@ != self.entries@[b].0@);
            }
        }
        r
    }

    /// Whether no material is registered.
    pub fn is_empty(&self) -> (b: bool)
        ensures
            b == (self.view().dom().len() == 0),
    {
        self.len() == 0
    }

    /// Replaces all user materials: every id starting with `user.` is
    /// dropped, then the given materials are registered in order.
    pub fn replace_user_materials(&mut self, materials: Vec<(String, T)>)
        ensures
            final(self).view() == old(self).view().restrict(
                old(self).view().dom().filter(|k: Seq<char>| !has_prefix(k, user_prefix())),
            ).union_prefer_right(entries_map(materials@)),
    {
        proof {
            use_type_invariant(&*self);
        }
        let ghost old_view = self.view();
        let ghost old_entries = self.entries@;
        let user = "user.";
        proof {
            reveal_strlit("user.");
        }
        let mut old_list: Vec<(String, T)> = Vec::new();
        std::mem::swap(&mut old_list, &mut self.entries);
        let mut kept: Vec<(String, T)> = Vec::new();
        let ghost mut k: int = 0;
        proof {
            assert(old_entries.take(0) =~= Seq::<(String, T)>::empty());
            assert(old_list@ =~= old_entries.subrange(0, old_entries.len() as int));
        }
        while old_list.len() > 0
            invariant
                user@ == user_prefix(),
                0 <= k <= old_entries.len(),
                old_list@ == old_entries.subrange(k, old_entries.len() as int),
                kept@ == without_user(old_entries.take(k)),
            decreases old_list@.len(),
        {
            let (id, m) = old_list.remove(0);
            proof {
                assert(old_entries[k] == (id, m));
                assert(old_entries.take(k + 1).drop_last() =~= old_entries.take(k));
                assert(old_entries.take(k + 1).last() == old_entries[k]);
            }
            let ghost before = kept@;
            let ghost entry = old_entries[k];
            let is_user = starts_with(id.as_str(), user);
            if !is_user {
                kept.push((id, m));
            }
            proof {
                assert(old_entries.take(k + 1).drop_last() =~= old_entries.take(k));
                assert(old_entries.take(k + 1).last() == entry);
                assert(is_user == has_prefix(entry.0@, user_prefix()));
                assert(without_user(old_entries.take(k + 1)) == if has_prefix(entry.0@, user_prefix()) {
                    without_user(old_entries.take(k))
                } else {
                    without_user(old_entries.take(k)).push(entry)
                });
                if is_user {
                    assert(kept@ == before);
                } else {
                    assert(kept@ == before.push(entry));
                }
                assert(kept@ == without_user(old_entries.take(k + 1)));
                k = k + 1;
                assert(old_list@ =~= old_entries.subrange(k, old_entries.len() as int));
            }
        }
        proof {
            assert(old_entries.take(k) =~= old_entries);
            lemma_without_user(old_entries);
            lemma_without_user_unique(old_entries);
        }
        self.entries = kept;
        let ghost base = self.view();
        let mut rest = materials;
        let ghost all = rest@;
        let ghost mut n: int = 0;
        proof {
            assert(all.take(0) =~= Seq::<(String, T)>::empty());
            assert(base.union_prefer_right(entries_map(all.take(0))) =~= base);
            assert(rest@ =~= all.subrange(0, all.len() as int));
        }
        while rest.len() > 0
            invariant
                0 <= n <= all.len(),
                rest@ == all.subrange(n, all.len() as int),
                self.view() == base.union_prefer_right(entries_map(all.take(n))),
            decreases rest@.len(),
        {
            let (id, m) = rest.remove(0);
            proof {
                assert(all[n] == (id, m));
                assert(all.take(n + 1).drop_last() =~= all.take(n));
                assert(all.take(n + 1).last() == all[n]);
                assert(base.union_prefer_right(entries_map(all.take(n + 1))) =~= base.union_prefer_right(
                    entries_map(all.take(n)),
                ).insert(id@, m));
            }
            self.insert(id, m);
            proof {
                n = n + 1;
                assert(rest@ =~= all.subrange(n, all.len() as int));
            }
        }
        proof {
            assert(all.take(n) =~= all);
        }
    }
}

/// The id of a builtin material: `builtin.<name>`.
pub fn builtin_id(name: &str) -> (s: String)
    ensures
        s@ == builtin_prefix() + name@,
{
    let mut v: Vec<char> = Vec::new();
    push_chars(&mut v, "builtin.");
    push_chars(&mut v, name);
    string_from_chars(&v)
}

/// Whether `id` names a builtin material: it starts with `builtin.`.
pub fn is_builtin_id(id: &str) -> (b: bool)
    ensures
        b == has_prefix(id@, builtin_prefix()),
{
    proof {
        reveal_strlit("builtin.");
    }
    crate::text::starts_with(id, "builtin.")
}

/// The id of the user material in a file of the material directory:
/// `user.<stem>` for a file with the `rhai` extension (a name ending in
/// `.rhai` whose dot is not its first character); none for other files.
pub open spec fn spec_user_material_id(file_name: Seq<char>) -> Option<Seq<char>> {
    if file_name.len() > 5 && file_name.subrange(file_name.len() - 5, file_name.len() as int) == ".rhai"@ {
        Some(user_prefix() + file_name.subrange(0, file_name.len() - 5))
    } else {
        None
    }
}

/// The id of the user material in a file of the material directory.
pub fn user_material_id(file_name: &str) -> (r: Option<String>)
    ensures
        match spec_user_material_id(file_name@) {
            Some(id) => r matches Some(s) && s@ == id,
            None => r is None,
        },
{
    proof {
        reveal_strlit(".rhai");
    }
    let c = crate::text::chars_of(file_name);
    let n = c.len();
    if n <= 5 {
        return None;
    }
    let ext = c[n - 5] == '.' && c[n - 4] == 'r' && c[n - 3] == 'h' && c[n - 2] == 'a' && c[n - 1] == 'i';
    proof {
        let t = file_name@.subrange(n - 5, n as int);
        if ext {
            assert(t =~= ".rhai"@);
        } else if t == ".rhai"@ {
            assert(t[0] == '.' && t[1] == 'r' && t[2] == 'h' && t[3] == 'a' && t[4] == 'i');
        }
    }
    if !ext {
        return None;
    }
    let mut v: Vec<char> = Vec::new();
    push_chars(&mut v, "user.");
    let mut k: usize = 0;
    while k < n - 5
        invariant
            n == c@.len(),
            n > 5,
            0 <= k <= n - 5,
            v@ == "user."@ + c@.subrange(0, k as int),
        decreases n - 5 - k,
    {
        v.push(c[k]);
        proof {
            assert(c@.subrange(0, k + 1) =~= c@.subrange(0, k as int).push(c@[k as int]));
        }
        k = k + 1;
    }
    Some(string_from_chars(&v))
}

} // verus!
