//! Where the configuration file lives, and the legacy-format migration that
//! loading performs.

use vstd::prelude::*;
use crate::config::{AppConfig, Profile, config_violation, profile_violation};
use crate::config::{is_first_named, is_first_invalid, profile_index, first_invalid};
use crate::error::ConfigError;
use crate::migration::{is_migration_of, migrate_profile};

verus! {

/// What `std::path::Path::join` makes of the path `dir` and the relative
/// name `name`, as text: `name` appended to `dir` by the platform's path
/// rules (its separator is a backslash on Windows and `/` elsewhere).
pub uninterp spec fn joined_path(dir: Seq<char>, name: Seq<char>) -> Seq<char>;

/// `config dir not found`.
pub open spec fn no_config_dir_message() -> Seq<char> {
    "config dir not found"@
}

/// Reads and writes the configuration file at one path.
#[derive(Debug, Clone)]
pub struct ConfigStorage {
    config_path: String,
}

/// Calls `std::path::Path::join` on `dir` and `name` and gives the joined
/// path back as text. The platform's joining rules are not spelled out; the
/// result depends on the two texts alone (for one build of the program).
/// Both arguments are text, so the joined path is valid text and
/// `to_string_lossy` changes nothing.
#[verifier::external_body]
fn join(dir: &str, name: &str) -> (s: String)
    ensures
        s@ == joined_path(dir@, name@),
{
    std::path::Path::new(dir).join(name).to_string_lossy().into_owned()
}

impl ConfigStorage {
    /// The path of the configuration file.
    pub closed spec fn spec_path(&self) -> Seq<char> {
        self.config_path@
    }

    /// Storage for the file at `path` (the caller resolves the parent
    /// directory to its canonical form where it exists).
    pub fn new(path: String) -> (s: Self)
        ensures
            s.spec_path() == path@,
    {
        ConfigStorage { config_path: path }
    }

    /// `Peregrine/config.json` under the platform configuration directory,
    /// joined by the platform's path rules; an error when there is none.
    pub fn default_path(config_dir: Option<String>) -> (r: Result<String, ConfigError>)
        ensures
            config_dir is None <==> r is Err,
            r is Err ==> r->Err_0 is Validation && r->Err_0->Validation_0@ == no_config_dir_message(),
            r is Ok ==> r->Ok_0@ == joined_path(
                joined_path(config_dir->0@, "Peregrine"@),
                "config.json"@,
            ),
    {
        match config_dir {
            None => {
                let m = "config dir not found";
                proof {
                    reveal_strlit("config dir not found");
                }
                Err(ConfigError::Validation(m.to_owned()))
            },
            Some(dir) => {
                let app = "Peregrine";
                let file = "config.json";
                proof {
                    reveal_strlit("Peregrine");
                    reveal_strlit("config.json");
                }
                let app_dir = join(dir.as_str(), app);
                Ok(join(app_dir.as_str(), file))
            },
        }
    }

    /// Storage at the default path.
    pub fn with_default_path(config_dir: Option<String>) -> (r: Result<Self, ConfigError>)
        ensures
            config_dir is None <==> r is Err,
            r is Err ==> r->Err_0 is Validation && r->Err_0->Validation_0@ == no_config_dir_message(),
            r is Ok ==> r->Ok_0.spec_path() == joined_path(
                joined_path(config_dir->0@, "Peregrine"@),
                "config.json"@,
            ),
    {
        match Self::default_path(config_dir) {
            Ok(p) => Ok(Self::new(p)),
            Err(e) => Err(e),
        }
    }

    /// The path of the configuration file.
    pub fn path(&self) -> (p: &str)
        ensures
            p@ == self.spec_path(),
    {
        self.config_path.as_str()
    }
}

/// Whether a profile is in the legacy format: an anchor and no layers.
pub open spec fn profile_needs_migration(p: Profile) -> bool {
    p.crosshair is Some && p.layers@.len() == 0
}

/// Whether some profile of `c` is in the legacy format.
pub open spec fn spec_needs_migration(c: AppConfig) -> bool {
    exists|i: int| 0 <= i < c.profiles@.len() && #[trigger] profile_needs_migration(c.profiles@[i].1)
}

/// Whether loading `config` has to migrate it.
pub fn needs_migration(config: &AppConfig) -> (b: bool)
    ensures
        b == spec_needs_migration(*config),
{
    let mut i: usize = 0;
    while i < config.profiles.len()
        invariant
            0 <= i <= config.profiles@.len(),
            forall|j: int| 0 <= j < i ==> !#[trigger] profile_needs_migration(config.profiles@[j].1),
        decreases config.profiles@.len() - i,
    {
        let p = &config.profiles[i].1;
        if p.crosshair.is_some() && p.layers.len() == 0 {
            assert(profile_needs_migration(config.profiles@[i as int].1));
            return true;
        }
        i = i + 1;
    }
    false
}

/// Whether `r` is `c` with each legacy profile migrated and every other
/// profile, the names, the active profile and the settings unchanged.
pub open spec fn is_config_migration_of(r: AppConfig, c: AppConfig) -> bool {
    &&& r.active_profile == c.active_profile
    &&& r.settings == c.settings
    &&& r.profiles@.len() == c.profiles@.len()
    &&& forall|i: int| 0 <= i < c.profiles@.len() ==> {
        &&& #[trigger] r.profiles@[i].0 == c.profiles@[i].0
        &&& if profile_needs_migration(c.profiles@[i].1) {
            is_migration_of(r.profiles@[i].1, c.profiles@[i].1)
        } else {
            r.profiles@[i].1 == c.profiles@[i].1
        }
    }
}

/// Migrates every legacy profile of `config` to layers.
pub fn migrate_config(config: AppConfig) -> (r: AppConfig)
    ensures
        is_config_migration_of(r, config),
{
    let ghost orig = config;
    let AppConfig { active_profile, profiles, settings } = config;
    let mut rest = profiles;
    let mut out: Vec<(String, Profile)> = Vec::new();
    let ghost n = rest@.len();
    while rest.len() > 0
        invariant
            n == orig.profiles@.len(),
            out@.len() + rest@.len() == n,
            rest@ == orig.profiles@.subrange(out@.len() as int, n as int),
            forall|i: int| 0 <= i < out@.len() ==> {
                &&& #[trigger] out@[i].0 == orig.profiles@[i].0
                &&& if profile_needs_migration(orig.profiles@[i].1) {
                    is_migration_of(out@[i].1, orig.profiles@[i].1)
                } else {
                    out@[i].1 == orig.profiles@[i].1
                }
            },
        decreases rest@.len(),
    {
        let ghost k = out@.len() as int;
        let (name, p) = rest.remove(0);
        assert(orig.profiles@[k] == (name, p));
        if p.crosshair.is_some() && p.layers.len() == 0 {
            out.push((name, migrate_profile(p)));
        } else {
            out.push((name, p));
        }
        assert(rest@ =~= orig.profiles@.subrange(out@.len() as int, n as int));
    }
    AppConfig { active_profile, profiles: out, settings }
}

/// Migration is needed at most once: a migrated configuration has no
/// legacy profile left.
pub proof fn law_migration_once(c: AppConfig, r: AppConfig)
    requires
        is_config_migration_of(r, c),
    ensures
        !spec_needs_migration(r),
{
    assert forall|i: int| 0 <= i < r.profiles@.len() implies !#[trigger] profile_needs_migration(
        r.profiles@[i].1,
    ) by {
        assert(r.profiles@[i].0 == c.profiles@[i].0);
    }
}

/// A profile that breaks a rule makes some profile the first that does.
proof fn lemma_first_invalid_exists(ps: Seq<(String, Profile)>, k: int)
    requires
        0 <= k < ps.len(),
        profile_violation(ps[k].1) is Some,
    ensures
        first_invalid(ps) is Some,
    decreases k,
{
    if forall|j: int| 0 <= j < k ==> #[trigger] profile_violation(ps[j].1) is None {
        assert(is_first_invalid(ps, k));
    } else {
        let j = choose|j: int| 0 <= j < k && !(#[trigger] profile_violation(ps[j].1) is None);
        lemma_first_invalid_exists(ps, j);
    }
}

/// Migration keeps a valid configuration valid: the migrated profiles
/// carry no anchor left to break a rule, the others are unchanged, and no
/// name changes.
pub proof fn law_migration_keeps_validity(c: AppConfig, r: AppConfig)
    requires
        is_config_migration_of(r, c),
        config_violation(c) is None,
    ensures
        config_violation(r) is None,
{
    let ps = c.profiles@;
    let qs = r.profiles@;
    let name = c.active_profile@;
    assert forall|i: int| 0 <= i < ps.len() implies qs[i].0@ == ps[i].0@ by {
        assert(qs[i].0 == ps[i].0);
    }
    assert forall|i: int| is_first_named(ps, name, i) <==> is_first_named(qs, name, i) by {
        if 0 <= i < ps.len() {
            assert(qs[i].0@ == ps[i].0@);
            assert forall|j: int| 0 <= j < i implies qs[j].0@ == ps[j].0@ by {
                assert(qs[j].0 == ps[j].0);
            }
        }
    }
    let a = choose|i: int| is_first_named(ps, name, i);
    assert(is_first_named(qs, name, a));
    if first_invalid(qs) is Some {
        let b = choose|i: int| is_first_invalid(qs, i);
        assert(is_first_invalid(qs, b));
        assert(qs[b].0 == ps[b].0);
        lemma_first_invalid_exists(ps, b);
    }
}

} // verus!
