//! The configuration root: profiles, application settings and the whole
//! configuration with its validation.

use vstd::prelude::*;
use crate::crosshair::{Crosshair, crosshair_violation, is_style_default};
use crate::error::{ConfigError, validation_display};
use crate::layer::Layer;
use crate::schema::{CrosshairStyle, TriggerRule};

verus! {

/// One profile: the legacy anchor (kept for editing), its layers, the
/// trigger rule and hotkeys.
#[derive(Debug)]
pub struct Profile {
    /// The legacy anchor configuration, when the profile has one.
    pub crosshair: Option<Crosshair>,
    /// The layers, drawn in order.
    pub layers: Vec<Layer>,
    /// When the overlay is shown.
    pub trigger: TriggerRule,
    /// Hotkey that opens the settings (stored only).
    pub settings_hotkey: String,
    /// The window to follow (empty: none).
    pub target_window: String,
}

/// The first rule a profile breaks: those of its anchor, when it has one.
pub open spec fn profile_violation(p: Profile) -> Option<Seq<char>> {
    match p.crosshair {
        Some(c) => crosshair_violation(c),
        None => None,
    }
}

impl Profile {
    /// The default profile: the default anchor, no layers, an unrestricted
    /// trigger, `F10` for the settings and no followed window.
    pub fn default_profile() -> (p: Self)
        ensures
            p.crosshair matches Some(c) && is_style_default(c, CrosshairStyle::EdgeRect),
            p.layers@.len() == 0,
            p.trigger.enabled,
            p.trigger.process_names@.len() == 0,
            p.settings_hotkey@ == "F10"@,
            p.target_window@.len() == 0,
            profile_violation(p) is None,
    {
        let hotkey = "F10";
        proof {
            reveal_strlit("F10");
        }
        let c = Crosshair::default_crosshair();
        proof {
            crate::crosshair::law_style_defaults_validate(c, CrosshairStyle::EdgeRect);
        }
        Profile {
            crosshair: Some(c),
            layers: Vec::new(),
            trigger: TriggerRule::default_rule(),
            settings_hotkey: hotkey.to_owned(),
            target_window: String::new(),
        }
    }

    /// Checks the profile's anchor against the validation rules.
    pub fn validate(&self) -> (r: Result<(), ConfigError>)
        ensures
            r is Ok <==> profile_violation(*self) is None,
            r is Err ==> r->Err_0 is Validation && r->Err_0->Validation_0@ == profile_violation(
                *self,
            )->0,
    {
        match &self.crosshair {
            Some(c) => c.validate(),
            None => Ok(()),
        }
    }
}

/// Whether `i` is the first position of a profile named `name`.
pub open spec fn is_first_named(ps: Seq<(String, Profile)>, name: Seq<char>, i: int) -> bool {
    &&& 0 <= i < ps.len()
    &&& ps[i].0@ == name
    &&& forall|j: int| 0 <= j < i ==> #[trigger] ps[j].0@ != name
}

/// The position of the first profile named `name`, if any.
pub open spec fn profile_index(ps: Seq<(String, Profile)>, name: Seq<char>) -> Option<int> {
    if exists|i: int| is_first_named(ps, name, i) {
        Some(choose|i: int| is_first_named(ps, name, i))
    } else {
        None
    }
}

/// Whether `i` is the position of the first profile that breaks a rule.
pub open spec fn is_first_invalid(ps: Seq<(String, Profile)>, i: int) -> bool {
    &&& 0 <= i < ps.len()
    &&& profile_violation(ps[i].1) is Some
    &&& forall|j: int| 0 <= j < i ==> #[trigger] profile_violation(ps[j].1) is None
}

/// The position of the first profile that breaks a rule, if any.
pub open spec fn first_invalid(ps: Seq<(String, Profile)>) -> Option<int> {
    if exists|i: int| is_first_invalid(ps, i) {
        Some(choose|i: int| is_first_invalid(ps, i))
    } else {
        None
    }
}

/// At most one position is the first of a name.
pub proof fn lemma_first_named_unique(ps: Seq<(String, Profile)>, name: Seq<char>, i: int, k: int)
    requires
        is_first_named(ps, name, i),
        is_first_named(ps, name, k),
    ensures
        i == k,
{
    if i < k {
        assert(ps[i].0@ != name);
    } else if k < i {
        assert(ps[k].0@ != name);
    }
}

/// At most one position is the first invalid one.
pub proof fn lemma_first_invalid_unique(ps: Seq<(String, Profile)>, i: int, k: int)
    requires
        is_first_invalid(ps, i),
        is_first_invalid(ps, k),
    ensures
        i == k,
{
    if i < k {
        assert(profile_violation(ps[i].1) is None);
    } else if k < i {
        assert(profile_violation(ps[k].1) is None);
    }
}

/// `at least one profile is required`.
pub open spec fn no_profile_message() -> Seq<char> {
    "at least one profile is required"@
}

/// `active profile '<name>' does not exist`.
pub open spec fn missing_active_message(name: Seq<char>) -> Seq<char> {
    "active profile '"@ + name + "' does not exist"@
}

/// `profile '<name>': validation error: <message>`.
pub open spec fn invalid_profile_message(name: Seq<char>, message: Seq<char>) -> Seq<char> {
    "profile '"@ + name + "': "@ + validation_display(message)
}

/// `profile names must be unique`.
pub open spec fn duplicate_names_message() -> Seq<char> {
    "profile names must be unique"@
}

/// Whether two profiles share a name (profiles are looked up by name, so
/// names must be unique).
pub open spec fn has_duplicate_names(ps: Seq<(String, Profile)>) -> bool {
    exists|i: int, j: int| #![trigger ps[i], ps[j]] 0 <= i < j < ps.len() && ps[i].0@ == ps[j].0@
}

/// Whether two profiles share a name.
fn duplicate_names(ps: &Vec<(String, Profile)>) -> (b: bool)
    ensures
        b == has_duplicate_names(ps@),
{
    let mut j: usize = 0;
    while j < ps.len()
        invariant
            0 <= j <= ps@.len(),
            forall|a: int, b: int| #![trigger ps@[a], ps@[b]] 0 <= a < b < j ==> ps@[a].0@ != ps@[b].0@,
        decreases ps@.len() - j,
    {
        let mut i: usize = 0;
        while i < j
            invariant
                0 <= i <= j < ps@.len(),
                forall|a: int| 0 <= a < i ==> #[trigger] ps@[a].0@ != ps@[j as int].0@,
            decreases j - i,
        {
            if crate::text::str_eq(ps[i].0.as_str(), ps[j].0.as_str()) {
                proof {
                    assert(ps@[i as int].0@ == ps@[j as int].0@);
                }
                return true;
            }
            i = i + 1;
        }
        proof {
            assert forall|a: int, b: int| #![trigger ps@[a], ps@[b]] 0 <= a < b < j + 1 implies ps@[a].0@
                != ps@[b].0@ by {
                if b == j {
                    assert(ps@[a].0@ != ps@[j as int].0@);
                }
            }
        }
        j = j + 1;
    }
    false
}

/// The first rule the whole configuration breaks: no profile, two profiles
/// with one name, an active profile that does not exist, or the first
/// profile that breaks its own rules.
pub open spec fn config_violation(c: AppConfig) -> Option<Seq<char>> {
    let ps = c.profiles@;
    if ps.len() == 0 {
        Some(no_profile_message())
    } else if has_duplicate_names(ps) {
        Some(duplicate_names_message())
    } else if profile_index(ps, c.active_profile@) is None {
        Some(missing_active_message(c.active_profile@))
    } else {
        match first_invalid(ps) {
            Some(i) => Some(invalid_profile_message(ps[i].0@, profile_violation(ps[i].1)->0)),
            None => None,
        }
    }
}

/// The root of the configuration.
#[derive(Debug)]
pub struct AppConfig {
    /// Name of the active profile.
    pub active_profile: String,
    /// The profiles with their names.
    pub profiles: Vec<(String, Profile)>,
    /// Application-wide settings.
    pub settings: crate::settings::AppSettings,
}

/// The error for the profile `name` that failed with `e`.
fn invalid_profile_error(name: &str, e: &ConfigError) -> (r: ConfigError)
    requires
        e is Validation,
    ensures
        r is Validation,
        r->Validation_0@ == invalid_profile_message(name@, e->Validation_0@),
{
    let inner = e.to_text();
    let mut v: Vec<char> = Vec::new();
    crate::text::push_chars(&mut v, "profile '");
    crate::text::push_chars(&mut v, name);
    crate::text::push_chars(&mut v, "': ");
    crate::text::push_chars(&mut v, inner.as_str());
    proof {
        assert(v@ =~= invalid_profile_message(name@, e->Validation_0@));
    }
    ConfigError::Validation(crate::text::string_from_chars(&v))
}

impl AppConfig {
    /// The default configuration: one profile named `default`, which is
    /// active, and the default settings.
    pub fn default_config() -> (c: Self)
        ensures
            c.active_profile@ == "default"@,
            c.profiles@.len() == 1,
            c.profiles@[0].0@ == "default"@,
            c.profiles@[0].1.crosshair matches Some(ch) && is_style_default(ch, CrosshairStyle::EdgeRect),
            c.profiles@[0].1.layers@.len() == 0,
            crate::settings::is_default_settings(c.settings),
            config_violation(c) is None,
    {
        let name = "default";
        proof {
            reveal_strlit("default");
        }
        let mut profiles: Vec<(String, Profile)> = Vec::new();
        profiles.push((name.to_owned(), Profile::default_profile()));
        let c = AppConfig {
            active_profile: name.to_owned(),
            profiles,
            settings: crate::settings::AppSettings::default_settings(),
        };
        proof {
            let ps = c.profiles@;
            crate::crosshair::law_style_defaults_validate(
                ps[0].1.crosshair->0,
                CrosshairStyle::EdgeRect,
            );
            assert(is_first_named(ps, c.active_profile@, 0));
            assert(!is_first_invalid(ps, 0));
        }
        c
    }

    /// The position of the active profile.
    fn active_index(&self) -> (r: Option<usize>)
        ensures
            match r {
                Some(i) => is_first_named(self.profiles@, self.active_profile@, i as int)
                    && profile_index(self.profiles@, self.active_profile@) == Some(i as int),
                None => profile_index(self.profiles@, self.active_profile@) is None,
            },
    {
        let ghost ps = self.profiles@;
        let ghost name = self.active_profile@;
        let mut i: usize = 0;
        while i < self.profiles.len()
            invariant
                ps == self.profiles@,
                name == self.active_profile@,
                0 <= i <= ps.len(),
                forall|j: int| 0 <= j < i ==> #[trigger] ps[j].0@ != name,
            decreases ps.len() - i,
        {
            if self.profiles[i].0 == self.active_profile {
                proof {
                    assert(is_first_named(ps, name, i as int));
                    let k = choose|k: int| is_first_named(ps, name, k);
                    lemma_first_named_unique(ps, name, i as int, k);
                }
                return Some(i);
            }
            i = i + 1;
        }
        proof {
            assert forall|k: int| !is_first_named(ps, name, k) by {
                if is_first_named(ps, name, k) {
                    assert(ps[k].0@ != name);
                }
            }
        }
        None
    }

    /// The active profile for editing, if it exists.
    pub fn active_profile_mut(&mut self) -> (r: Option<&mut Profile>)
        ensures
            final(self).active_profile == old(self).active_profile,
            final(self).settings == old(self).settings,
            match profile_index(old(self).profiles@, old(self).active_profile@) {
                Some(i) => r is Some && *r->0 == old(self).profiles@[i].1 && final(self).profiles@
                    == old(self).profiles@.update(i, (old(self).profiles@[i].0, *final(r->0))),
                None => r is None && final(self).profiles@ == old(self).profiles@,
            },
    {
        match self.active_index() {
            Some(i) => Some(&mut self.profiles[i].1),
            None => None,
        }
    }

    /// The active profile, if it exists.
    pub fn active_profile(&self) -> (r: Option<&Profile>)
        ensures
            match profile_index(self.profiles@, self.active_profile@) {
                Some(i) => r == Some(&self.profiles@[i].1),
                None => r is None,
            },
    {
        match self.active_index() {
            Some(i) => Some(&self.profiles[i].1),
            None => None,
        }
    }

    /// Checks the whole configuration: at least one profile, an existing
    /// active profile, and every profile valid.
    pub fn validate(&self) -> (r: Result<(), ConfigError>)
        ensures
            r is Ok <==> config_violation(*self) is None,
            r is Err ==> r->Err_0 is Validation && r->Err_0->Validation_0@ == config_violation(
                *self,
            )->0,
    {
        if self.profiles.len() == 0 {
            let m = "at least one profile is required";
            proof {
                reveal_strlit("at least one profile is required");
            }
            return Err(ConfigError::Validation(m.to_owned()));
        }
        if duplicate_names(&self.profiles) {
            let m = "profile names must be unique";
            proof {
                reveal_strlit("profile names must be unique");
            }
            return Err(ConfigError::Validation(m.to_owned()));
        }
        let active = self.active_index();
        if active.is_none() {
            let mut v: Vec<char> = Vec::new();
            crate::text::push_chars(&mut v, "active profile '");
            crate::text::push_chars(&mut v, self.active_profile.as_str());
            crate::text::push_chars(&mut v, "' does not exist");
            proof {
                assert(v@ =~= missing_active_message(self.active_profile@));
            }
            return Err(ConfigError::Validation(crate::text::string_from_chars(&v)));
        }
        let ghost ps = self.profiles@;
        let mut i: usize = 0;
        while i < self.profiles.len()
            invariant
                ps == self.profiles@,
                ps.len() > 0,
                !has_duplicate_names(ps),
                profile_index(ps, self.active_profile@) is Some,
                0 <= i <= ps.len(),
                forall|j: int| 0 <= j < i ==> #[trigger] profile_violation(ps[j].1) is None,
            decreases ps.len() - i,
        {
            match self.profiles[i].1.validate() {
                Ok(()) => {},
                Err(e) => {
                    proof {
                        assert(is_first_invalid(ps, i as int));
                        let k = choose|k: int| is_first_invalid(ps, k);
                        lemma_first_invalid_unique(ps, i as int, k);
                    }
                    return Err(invalid_profile_error(self.profiles[i].0.as_str(), &e));
                },
            }
            i = i + 1;
        }
        proof {
            assert forall|k: int| !is_first_invalid(ps, k) by {
                if is_first_invalid(ps, k) {
                    assert(profile_violation(ps[k].1) is None);
                }
            }
        }
        Ok(())
    }
}

} // verus!
