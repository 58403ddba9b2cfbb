//! Keyboard state seen by dynamic materials.
//!
//! Key codes are compared case-insensitively: every code is lower-cased with
//! `str::to_lowercase` before it is stored or looked up.

use vstd::prelude::*;

verus! {

/// The result of `str::to_lowercase` on the characters `s`.
pub uninterp spec fn lowercase(s: Seq<char>) -> Seq<char>;

/// Calls `str::to_lowercase`: the Unicode lower-case mapping of the whole
/// string. Its result is a function of the characters of `s` alone; the
/// mapping itself is not spelled out here.
#[verifier::external_body]
pub(crate) fn to_lowercase(s: &str) -> (r: String)
    ensures
        r@ == lowercase(s@),
{
    s.to_lowercase()
}

/// The set of currently pressed keys, stored lower-cased.
#[derive(Debug)]
pub struct KeyState {
    pressed: Vec<String>,
}

impl KeyState {
    /// The stored key codes, as character sequences.
    pub closed spec fn keys(&self) -> Seq<Seq<char>> {
        self.pressed@.map_values(|s: String| s@)
    }

    /// The pressed keys: a set of lower-cased key codes.
    pub closed spec fn view(&self) -> Set<Seq<char>> {
        self.keys().to_set()
    }

    /// The pressed keys are finitely many.
    pub proof fn lemma_view_finite(&self)
        ensures
            self.view().finite(),
    {
        vstd::seq_lib::seq_to_set_is_finite(self.keys());
    }

    #[verifier::type_invariant]
    closed spec fn inv(&self) -> bool {
        self.keys().no_duplicates()
    }

    /// An empty key table.
    pub fn new() -> (k: Self)
        ensures
            k.view() == Set::<Seq<char>>::empty(),
    {
        let k = KeyState { pressed: Vec::new() };
        proof {
            assert(k.keys() =~= Seq::<Seq<char>>::empty());
            assert(k.view() =~= Set::<Seq<char>>::empty());
        }
        k
    }

    /// Index of the stored code equal to `code`, if any.
    fn find(&self, code: &String) -> (r: Option<usize>)
        ensures
            r is Some ==> r->0 < self.keys().len() && self.keys()[r->0 as int] == code@,
            r is None ==> !self.keys().contains(code@),
    {
        let mut i: usize = 0;
        while i < self.pressed.len()
            invariant
                0 <= i <= self.pressed@.len(),
                self.keys().len() == self.pressed@.len(),
                forall|k: int| 0 <= k < i ==> self.keys()[k] != code@,
            decreases self.pressed@.len() - i,
        {
            if self.pressed[i] == *code {
                return Some(i);
            }
            i = i + 1;
        }
        proof {
            if self.keys().contains(code@) {
                let k = choose|k: int| 0 <= k < self.keys().len() && self.keys()[k] == code@;
                assert(self.keys()[k] == code@);
            }
        }
        None
    }

    /// Whether `code` (any case) is pressed.
    pub fn is_down(&self, code: &str) -> (b: bool)
        ensures
            b == self.view().contains(lowercase(code@)),
    {
        let lowered = to_lowercase(code);
        let r = self.find(&lowered);
        proof {
            if r is Some {
                assert(self.keys().contains(lowered@));
            }
        }
        r.is_some()
    }

    /// Marks `code` as pressed.
    pub fn press(&mut self, code: &str)
        ensures
            final(self).view() == old(self).view().insert(lowercase(code@)),
    {
        proof {
            use_type_invariant(&*self);
        }
        let lowered = to_lowercase(code);
        let found = self.find(&lowered);
        match found {
            Some(_) => {
                proof {
                    assert(self.keys().contains(lowered@));
                    assert(self.view().insert(lowered@) =~= self.view());
                }
            },
            None => {
                let ghost old_keys = self.keys();
                let mut tmp: Vec<String> = Vec::new();
                proof {
                    assert(KeyState { pressed: tmp }.keys() =~= Seq::<Seq<char>>::empty());
                }
                std::mem::swap(&mut tmp, &mut self.pressed);
                tmp.push(lowered);
                proof {
                    let nk = tmp@.map_values(|s: String| s@);
                    assert(nk =~= old_keys.push(lowered@));
                    assert(nk.no_duplicates());
                    old_keys.lemma_push_to_set_commute(lowered@);
                }
                self.pressed = tmp;
            },
        }
    }

    /// Marks `code` as released.
    pub fn release(&mut self, code: &str)
        ensures
            final(self).view() == old(self).view().remove(lowercase(code@)),
    {
        proof {
            use_type_invariant(&*self);
        }
        let lowered = to_lowercase(code);
        let found = self.find(&lowered);
        match found {
            None => {
                proof {
                    assert(!self.view().contains(lowered@));
                    assert(self.view().remove(lowered@) =~= self.view());
                }
            },
            Some(i) => {
                let ghost old_keys = self.keys();
                let mut tmp: Vec<String> = Vec::new();
                proof {
                    assert(KeyState { pressed: tmp }.keys() =~= Seq::<Seq<char>>::empty());
                }
                std::mem::swap(&mut tmp, &mut self.pressed);
                tmp.remove(i);
                proof {
                    let nk = tmp@.map_values(|s: String| s@);
                    assert(nk =~= old_keys.remove(i as int));
                    assert(nk.no_duplicates());
                    assert forall|x: Seq<char>| nk.to_set().contains(x) <==> old_keys.to_set().remove(lowered@).contains(x) by {
                        if nk.to_set().contains(x) {
                            let k = choose|k: int| 0 <= k < nk.len() && nk[k] == x;
                            if k < i {
                                assert(old_keys[k] == x);
                            } else {
                                assert(old_keys[k + 1] == x);
                            }
                        }
                        if old_keys.to_set().remove(lowered@).contains(x) {
                            let k = choose|k: int| 0 <= k < old_keys.len() && old_keys[k] == x;
                            assert(k != i);
                            if k < i {
                                assert(nk[k] == x);
                            } else {
                                assert(nk[k - 1] == x);
                            }
                        }
                    }
                    assert(nk.to_set() =~= old_keys.to_set().remove(lowered@));
                }
                self.pressed = tmp;
            },
        }
    }

    /// Releases every key.
    pub fn clear(&mut self)
        ensures
            final(self).view() == Set::<Seq<char>>::empty(),
    {
        let tmp: Vec<String> = Vec::new();
        proof {
            assert(KeyState { pressed: tmp }.keys() =~= Seq::<Seq<char>>::empty());
            assert(KeyState { pressed: tmp }.view() =~= Set::<Seq<char>>::empty());
        }
        self.pressed = tmp;
    }

    /// Number of pressed keys.
    pub fn pressed_count(&self) -> (n: usize)
        ensures
            n == self.view().len(),
    {
        proof {
            use_type_invariant(self);
            self.keys().unique_seq_to_set();
        }
        self.pressed.len()
    }
}

impl Clone for KeyState {
    fn clone(&self) -> (k: Self)
        ensures
            k.view() == self.view(),
    {
        proof {
            use_type_invariant(self);
        }
        let pressed = self.pressed.clone();
        proof {
            let a = self.pressed@.map_values(|s: String| s@);
            let b = pressed@.map_values(|s: String| s@);
            assert forall|i: int| 0 <= i < a.len() implies a[i] == b[i] by {
                assert(cloned::<String>(self.pressed@[i], pressed@[i]));
            }
            assert(a =~= b);
        }
        KeyState { pressed }
    }
}

impl Default for KeyState {
    fn default() -> (k: Self)
        ensures
            k.view() == Set::<Seq<char>>::empty(),
    {
        KeyState::new()
    }
}

/// Pressing a key makes it (and every spelling with the same lower-case form)
/// reported as down.
pub proof fn law_press_then_down(keys: Set<Seq<char>>, code: Seq<char>, query: Seq<char>)
    requires
        lowercase(query) == lowercase(code),
    ensures
        keys.insert(lowercase(code)).contains(lowercase(query)),
{
}

/// Releasing a key makes it (and every spelling with the same lower-case form)
/// reported as up, and leaves other keys as they were.
pub proof fn law_release_then_up(keys: Set<Seq<char>>, code: Seq<char>, query: Seq<char>)
    ensures
        lowercase(query) == lowercase(code) ==> !keys.remove(lowercase(code)).contains(
            lowercase(query),
        ),
        lowercase(query) != lowercase(code) ==> (keys.remove(lowercase(code)).contains(
            lowercase(query),
        ) == keys.contains(lowercase(query))),
{
}

/// Pressing a key counts it once: the count grows by one unless the key
/// (in any spelling with the same lower-case form) was already down, and
/// every key with another lower-case form stays as it was.
pub proof fn law_press_counts_once(keys: Set<Seq<char>>, code: Seq<char>, query: Seq<char>)
    requires
        keys.finite(),
    ensures
        keys.insert(lowercase(code)).len() == keys.len() + (if keys.contains(lowercase(code)) { 0int } else { 1int }),
        lowercase(query) != lowercase(code) ==> (keys.insert(lowercase(code)).contains(lowercase(query))
            == keys.contains(lowercase(query))),
{
}

} // verus!
