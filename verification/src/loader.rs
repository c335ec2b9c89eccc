//! Configuration loading and merging: the loader's builder surface, the
//! mapping from environment keys to option paths, and the application of
//! override pairs.  Reading files and the process environment is the host
//! layer's job; it hands the loader plain key/value pairs.

use vstd::prelude::*;
use vstd::string::StringExecFns;
use crate::config::{Config, ConfigError, spec_set_ok, spec_set_effect};
use crate::util::{str_eq, str_starts_with, str_to_lowercase, starts_with, lower_of};

verus! {

/// The effect of replacing each double underscore with a dot.
pub open spec fn spec_replace_dunder(s: Seq<char>) -> Seq<char>
    decreases s.len(),
{
    if s.len() == 0 {
        Seq::empty()
    } else if s.len() >= 2 && s[0] == '_' && s[1] == '_' {
        "."@ + spec_replace_dunder(s.skip(2))
    } else {
        seq![s[0]] + spec_replace_dunder(s.skip(1))
    }
}

/// Replace each double underscore with a dot, scanning left to right.
pub fn replace_dunder(s: &str) -> (r: String)
    ensures
        r@ == spec_replace_dunder(s@),
{
    let n = s.unicode_len();
    let mut res = String::new();
    let mut i: usize = 0;
    proof {
        assert(s@.skip(0) =~= s@);
    }
    while i < n
        invariant
            i <= n,
            n == s@.len(),
            spec_replace_dunder(s@) == res@ + spec_replace_dunder(s@.skip(i as int)),
        decreases n - i,
    {
        let c = s.get_char(i);
        let is_dunder = c == '_' && i + 1 < n && s.get_char(i + 1) == '_';
        if is_dunder {
            res.append(".");
            proof {
                let t = s@.skip(i as int);
                assert(t[0] == s@[i as int]);
                assert(t[1] == s@[i + 1 as int]);
                assert(t.skip(2) =~= s@.skip(i + 2 as int));
            }
            i = i + 2;
        } else {
            let piece = s.substring_char(i, i + 1);
            res.append(piece);
            proof {
                let t = s@.skip(i as int);
                assert(t[0] == s@[i as int]);
                if t.len() >= 2 {
                    assert(t[1] == s@[i + 1 as int]);
                }
                assert(piece@ =~= seq![s@[i as int]]);
                assert(t.skip(1) =~= s@.skip(i + 1 as int));
            }
            i = i + 1;
        }
    }
    proof {
        assert(s@.skip(n as int).len() == 0);
        assert(res@ + spec_replace_dunder(s@.skip(n as int)) =~= res@);
    }
    res
}

/// The option path an environment key maps to: strip the prefix, lowercase,
/// and turn double underscores into dots.
pub open spec fn spec_env_path(prefix: Seq<char>, key: Seq<char>) -> Option<Seq<char>> {
    if starts_with(key, prefix) {
        Some(spec_replace_dunder(lower_of(key.skip(prefix.len() as int))))
    } else {
        None
    }
}

/// Map an environment key to its option path, if it carries the prefix.
pub fn env_key_to_path(prefix: &str, key: &str) -> (r: Option<String>)
    ensures
        r is Some ==> spec_env_path(prefix@, key@) == Some(r->Some_0@),
        r is None ==> spec_env_path(prefix@, key@) is None,
{
    if str_starts_with(key, prefix) {
        let plen = prefix.unicode_len();
        let klen = key.unicode_len();
        let rest = key.substring_char(plen, klen);
        proof {
            assert(rest@ =~= key@.skip(prefix@.len() as int));
        }
        let lowered = str_to_lowercase(rest);
        Some(replace_dunder(lowered.as_str()))
    } else {
        None
    }
}

/// View of an override list: its key/value pairs as character sequences.
pub open spec fn ov_view(s: Seq<(String, String)>) -> Seq<(Seq<char>, Seq<char>)> {
    s.map_values(|p: (String, String)| (p.0@, p.1@))
}

pub open spec fn scan_ov_key(s: Seq<(Seq<char>, Seq<char>)>, k: Seq<char>, j: int) -> Option<int>
    decreases s.len() - j,
{
    if j < 0 || j >= s.len() {
        None
    } else if s[j].0 == k {
        Some(j)
    } else {
        scan_ov_key(s, k, j + 1)
    }
}

/// Insert or replace the value under a key, keeping one entry per key.
pub open spec fn spec_upsert(s: Seq<(Seq<char>, Seq<char>)>, k: Seq<char>, v: Seq<char>) -> Seq<
    (Seq<char>, Seq<char>),
> {
    match scan_ov_key(s, k, 0) {
        Some(j) => s.update(j, (k, v)),
        None => s.push((k, v)),
    }
}

/// The configuration `c1` is what applying the override pairs in order to
/// `c0` yields: each pair sets its path's field and keeps the rest.
pub open spec fn applies_pairs(pairs: Seq<(Seq<char>, Seq<char>)>, c0: Config, c1: Config) -> bool
    decreases pairs.len(),
{
    if pairs.len() == 0 {
        c1 == c0
    } else {
        exists|mid: Config|
            applies_pairs(pairs.drop_last(), c0, mid) && #[trigger] spec_set_effect(
                mid,
                pairs.last().0,
                pairs.last().1,
                c1,
            )
    }
}

/// The effect of one environment pair on the configuration: a key carrying
/// the prefix sets its mapped path's field, any other key changes nothing.
pub open spec fn env_step_effect(
    prefix: Seq<char>,
    key: Seq<char>,
    value: Seq<char>,
    mid: Config,
    c1: Config,
) -> bool {
    match spec_env_path(prefix, key) {
        Some(p) => spec_set_effect(mid, p, value, c1),
        None => c1 == mid,
    }
}

/// The configuration `c1` is what applying the environment pairs in order
/// to `c0` yields.
pub open spec fn applies_env(
    prefix: Seq<char>,
    vars: Seq<(Seq<char>, Seq<char>)>,
    c0: Config,
    c1: Config,
) -> bool
    decreases vars.len(),
{
    if vars.len() == 0 {
        c1 == c0
    } else {
        exists|mid: Config|
            applies_env(prefix, vars.drop_last(), c0, mid) && #[trigger] env_step_effect(
                prefix,
                vars.last().0,
                vars.last().1,
                mid,
                c1,
            )
    }
}

#[verifier::rlimit(50)]
proof fn lemma_applies_pairs_step(
    pairs: Seq<(Seq<char>, Seq<char>)>,
    c0: Config,
    mid: Config,
    c1: Config,
)
    requires
        pairs.len() > 0,
        applies_pairs(pairs.drop_last(), c0, mid),
        spec_set_effect(mid, pairs.last().0, pairs.last().1, c1),
    ensures
        applies_pairs(pairs, c0, c1),
{
    assert(spec_set_effect(mid, pairs.last().0, pairs.last().1, c1));
    assert(applies_pairs(pairs, c0, c1));
}

#[verifier::rlimit(50)]
proof fn lemma_applies_env_step(
    prefix: Seq<char>,
    vars: Seq<(Seq<char>, Seq<char>)>,
    c0: Config,
    mid: Config,
    c1: Config,
)
    requires
        vars.len() > 0,
        applies_env(prefix, vars.drop_last(), c0, mid),
        env_step_effect(prefix, vars.last().0, vars.last().1, mid, c1),
    ensures
        applies_env(prefix, vars, c0, c1),
{
    assert(env_step_effect(prefix, vars.last().0, vars.last().1, mid, c1));
    assert(applies_env(prefix, vars, c0, c1));
}

/// Loads and merges configuration from multiple sources.
pub struct ConfigLoader {
    /// An explicit configuration file path, if one was given.
    pub config_path: Option<String>,
    /// The prefix of the environment variables that override options.
    pub env_prefix: String,
    /// Manual overrides, one value per option path.
    pub overrides: Vec<(String, String)>,
}

impl Default for ConfigLoader {
    fn default() -> (r: ConfigLoader)
        ensures
            r.config_path is None,
            r.env_prefix@ == "NEOPILOT_"@,
            r.overrides@.len() == 0,
    {
        ConfigLoader::new()
    }
}

impl ConfigLoader {
    /// Create a new loader with default settings.
    pub fn new() -> (r: ConfigLoader)
        ensures
            r.config_path is None,
            r.env_prefix@ == "NEOPILOT_"@,
            r.overrides@.len() == 0,
    {
        ConfigLoader {
            config_path: None,
            env_prefix: "NEOPILOT_".to_owned(),
            overrides: Vec::new(),
        }
    }

    /// Set a custom path to the configuration file.
    pub fn with_config_path(self, path: &str) -> (r: ConfigLoader)
        ensures
            r.config_path is Some && r.config_path->Some_0@ == path@,
            r.env_prefix == self.env_prefix,
            r.overrides == self.overrides,
    {
        ConfigLoader { config_path: Some(path.to_owned()), ..self }
    }

    /// Set a custom environment variable prefix.
    pub fn with_env_prefix(self, prefix: &str) -> (r: ConfigLoader)
        ensures
            r.env_prefix@ == prefix@,
            r.config_path == self.config_path,
            r.overrides == self.overrides,
    {
        ConfigLoader { env_prefix: prefix.to_owned(), ..self }
    }

    /// Add a manual configuration override; a second value under the same
    /// key replaces the first.
    pub fn with_override(self, key: &str, value: &str) -> (r: ConfigLoader)
        ensures
            ov_view(r.overrides@) == spec_upsert(ov_view(self.overrides@), key@, value@),
            r.config_path == self.config_path,
            r.env_prefix == self.env_prefix,
    {
        let mut overrides = self.overrides;
        let ghost orig = ov_view(overrides@);
        let n = overrides.len();
        let mut j: usize = 0;
        while j < n
            invariant
                j <= n,
                n == overrides@.len(),
                orig == ov_view(overrides@),
                orig == ov_view(self.overrides@),
                scan_ov_key(orig, key@, 0) == scan_ov_key(orig, key@, j as int),
            decreases n - j,
        {
            if str_eq(overrides[j].0.as_str(), key) {
                let _ = overrides.remove(j);
                overrides.insert(j, (key.to_owned(), value.to_owned()));
                proof {
                    assert(ov_view(overrides@) =~~= spec_upsert(orig, key@, value@));
                }
                return ConfigLoader {
                    config_path: self.config_path,
                    env_prefix: self.env_prefix,
                    overrides,
                };
            }
            j = j + 1;
        }
        overrides.push((key.to_owned(), value.to_owned()));
        proof {
            assert(ov_view(overrides@) =~~= spec_upsert(orig, key@, value@));
        }
        ConfigLoader { config_path: self.config_path, env_prefix: self.env_prefix, overrides }
    }

    /// Apply the manual overrides in order; the first invalid pair stops
    /// the application and is reported.
    pub fn apply_manual_overrides(&self, config: &mut Config) -> (r: Result<(), ConfigError>)
        ensures
            r is Ok <==> (forall|k: int|
                0 <= k < self.overrides@.len() ==> spec_set_ok(
                    (#[trigger] self.overrides@[k]).0@,
                    self.overrides@[k].1@,
                )),
            r is Ok ==> applies_pairs(ov_view(self.overrides@), *old(config), *final(config)),
    {
        let n = self.overrides.len();
        let mut j: usize = 0;
        proof {
            assert(ov_view(self.overrides@).take(0) =~= Seq::<(Seq<char>, Seq<char>)>::empty());
        }
        while j < n
            invariant
                j <= n,
                n == self.overrides@.len(),
                forall|k: int|
                    0 <= k < j ==> spec_set_ok(
                        (#[trigger] self.overrides@[k]).0@,
                        self.overrides@[k].1@,
                    ),
                applies_pairs(ov_view(self.overrides@).take(j as int), *old(config), *config),
            decreases n - j,
        {
            let pair = &self.overrides[j];
            let ghost prev = *config;
            match config.set_from_str(pair.0.as_str(), pair.1.as_str()) {
                Ok(_) => {},
                Err(e) => {
                    return Err(e);
                },
            }
            proof {
                let ov = ov_view(self.overrides@);
                assert(ov.take(j + 1 as int).drop_last() =~= ov.take(j as int));
                assert(ov.take(j + 1 as int).last() == ov[j as int]);
                assert(ov[j as int] == (self.overrides@[j as int].0@, self.overrides@[
                    j as int
                ].1@));
                assert(spec_set_effect(prev, ov[j as int].0, ov[j as int].1, *config));
                lemma_applies_pairs_step(
                    ov.take(j + 1 as int),
                    *old(config),
                    prev,
                    *config,
                );
            }
            j = j + 1;
        }
        proof {
            assert(ov_view(self.overrides@).take(n as int) =~= ov_view(self.overrides@));
        }
        Ok(())
    }

    /// Apply environment overrides from the given variable pairs: every key
    /// carrying the loader's prefix is mapped to an option path and set.
    /// The first invalid pair stops the application and is reported.
    pub fn apply_env_overrides(&self, config: &mut Config, vars: &Vec<(String, String)>) -> (r:
        Result<(), ConfigError>)
        ensures
            r is Ok <==> (forall|k: int|
                0 <= k < vars@.len() ==> (spec_env_path(
                    self.env_prefix@,
                    (#[trigger] vars@[k]).0@,
                ) matches Some(p) ==> spec_set_ok(p, vars@[k].1@))),
            r is Ok ==> applies_env(
                self.env_prefix@,
                ov_view(vars@),
                *old(config),
                *final(config),
            ),
    {
        let n = vars.len();
        let mut j: usize = 0;
        proof {
            assert(ov_view(vars@).take(0) =~= Seq::<(Seq<char>, Seq<char>)>::empty());
        }
        while j < n
            invariant
                j <= n,
                n == vars@.len(),
                forall|k: int|
                    0 <= k < j ==> (spec_env_path(
                        self.env_prefix@,
                        (#[trigger] vars@[k]).0@,
                    ) matches Some(p) ==> spec_set_ok(p, vars@[k].1@)),
                applies_env(
                    self.env_prefix@,
                    ov_view(vars@).take(j as int),
                    *old(config),
                    *config,
                ),
            decreases n - j,
        {
            let pair = &vars[j];
            let ghost prev = *config;
            match env_key_to_path(self.env_prefix.as_str(), pair.0.as_str()) {
                Some(path) => {
                    match config.set_from_str(path.as_str(), pair.1.as_str()) {
                        Ok(_) => {},
                        Err(e) => {
                            return Err(e);
                        },
                    }
                },
                None => {},
            }
            proof {
                let vv = ov_view(vars@);
                assert(vv.take(j + 1 as int).drop_last() =~= vv.take(j as int));
                assert(vv.take(j + 1 as int).last() == vv[j as int]);
                assert(vv[j as int] == (vars@[j as int].0@, vars@[j as int].1@));
                lemma_applies_env_step(
                    self.env_prefix@,
                    vv.take(j + 1 as int),
                    *old(config),
                    prev,
                    *config,
                );
            }
            j = j + 1;
        }
        proof {
            assert(ov_view(vars@).take(n as int) =~= ov_view(vars@));
        }
        Ok(())
    }
}

} // verus!
