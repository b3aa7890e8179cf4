//! Shared configuration, logging switches and errors.
use vstd::prelude::*;
use vstd::string::*;
use crate::text::cat;

verus! {

/// Default buffer size.
pub const BUFFER_SIZE: usize = 8192;

/// Maximum retry attempts.
pub const MAX_RETRIES: u32 = 3;

/// Version string.
pub const VERSION: &'static str = "0.1.0";

/// Errors of the sample packages.
#[derive(Debug, Clone)]
pub enum Error {
    InvalidInput(String),
    NotFound(String),
    Internal(String),
}

impl Error {
    /// The error in words.
    pub fn message(&self) -> (r: String)
        ensures
            r@ == match self {
                Error::InvalidInput(m) => "Invalid input: "@ + m@,
                Error::NotFound(m) => "Not found: "@ + m@,
                Error::Internal(m) => "Internal error: "@ + m@,
            },
    {
        match self {
            Error::InvalidInput(m) => cat("Invalid input: ", m.as_str()),
            Error::NotFound(m) => cat("Not found: ", m.as_str()),
            Error::Internal(m) => cat("Internal error: ", m.as_str()),
        }
    }
}

/// The first setting stored under `key`.
pub open spec fn setting_of(settings: Seq<(String, String)>, key: Seq<char>) -> Option<String>
    decreases settings.len(),
{
    if settings.len() == 0 {
        None
    } else if settings[0].0@ == key {
        Some(settings[0].1)
    } else {
        setting_of(settings.drop_first(), key)
    }
}

/// Settings with at most one entry per key.
pub open spec fn keys_unique(settings: Seq<(String, String)>) -> bool {
    forall|i: int, j: int|
        0 <= i < j < settings.len() ==> (#[trigger] settings[i]).0@ != (#[trigger] settings[j]).0@
}

/// Global configuration.
#[derive(Debug, Clone)]
pub struct Config {
    pub debug: bool,
    pub max_connections: usize,
    pub timeout_ms: u64,
    pub settings: Vec<(String, String)>,
}

impl Default for Config {
    fn default() -> (r: Config)
        ensures
            !r.debug,
            r.max_connections == 100,
            r.timeout_ms == 5000,
            r.settings@.len() == 0,
    {
        Config { debug: false, max_connections: 100, timeout_ms: 5000, settings: Vec::new() }
    }
}

impl Config {
    /// Keys of the settings are unique.
    pub open spec fn wf(&self) -> bool {
        keys_unique(self.settings@)
    }

    /// A default configuration with the given debug switch.
    pub fn new(debug: bool) -> (r: Config)
        ensures
            r.debug == debug,
            r.max_connections == 100,
            r.timeout_ms == 5000,
            r.settings@.len() == 0,
            r.wf(),
    {
        Config { debug, max_connections: 100, timeout_ms: 5000, settings: Vec::new() }
    }

    /// The value of a setting.
    pub fn get_setting(&self, key: &str) -> (r: Option<&String>)
        ensures
            match r {
                Some(v) => setting_of(self.settings@, key@) == Some(*v),
                None => setting_of(self.settings@, key@) is None,
            },
    {
        let mut i: usize = 0;
        assert(self.settings@.subrange(0, self.settings@.len() as int) =~= self.settings@);
        while i < self.settings.len()
            invariant
                i <= self.settings@.len(),
                setting_of(self.settings@, key@) == setting_of(self.settings@.subrange(i as int, self.settings@.len() as int), key@),
            decreases self.settings@.len() - i,
        {
            proof {
                let rest = self.settings@.subrange(i as int, self.settings@.len() as int);
                assert(rest.drop_first() =~= self.settings@.subrange(i + 1, self.settings@.len() as int));
            }
            if crate::text::str_eq(self.settings[i].0.as_str(), key) {
                return Some(&self.settings[i].1);
            }
            i = i + 1;
        }
        None
    }

    /// Sets a setting, replacing an earlier value.
    pub fn set_setting(&mut self, key: String, value: String)
        requires
            old(self).wf(),
        ensures
            final(self).wf(),
            setting_of(final(self).settings@, key@) == Some(value),
            forall|k: Seq<char>| k != key@ ==> setting_of(final(self).settings@, k) == setting_of(old(self).settings@, k),
            final(self).debug == old(self).debug,
            final(self).max_connections == old(self).max_connections,
            final(self).timeout_ms == old(self).timeout_ms,
    {
        let n = self.settings.len();
        let found = find_key(&self.settings, &key);
        let i: usize = match found {
            Some(k) => k,
            None => n,
        };
        let ghost old_s = self.settings@;
        proof {
            lemma_setting_prefix(old_s, key@, i as int);
        }
        if i < n {
            self.settings.set(i, (key, value));
        } else {
            self.settings.push((key, value));
        }
        proof {
            let new_s = self.settings@;
            assert forall|a: int, b: int| 0 <= a < b < new_s.len() implies (#[trigger] new_s[a]).0@ != (#[trigger] new_s[b]).0@ by {
                if a != i && b != i {
                    assert(new_s[a] == old_s[a] && new_s[b] == old_s[b]);
                } else if a == i {
                    assert(new_s[b] == old_s[b]);
                } else {
                    assert(new_s[a] == old_s[a]);
                }
            }
            lemma_setting_prefix(new_s, key@, i as int);
            assert forall|k: Seq<char>| k != key@ implies setting_of(new_s, k) == setting_of(old_s, k) by {
                lemma_setting_same(old_s, new_s, k, i as int);
            }
        }
    }

    /// Refuses a configuration without connections or without a timeout.
    pub fn validate(&self) -> (r: Result<(), Error>)
        ensures
            r is Ok <==> (self.max_connections > 0 && self.timeout_ms > 0),
            self.max_connections == 0 ==> (r matches Err(Error::InvalidInput(m)) && m@
                == "max_connections must be greater than 0"@),
            self.max_connections > 0 && self.timeout_ms == 0 ==> (r matches Err(
                Error::InvalidInput(m),
            ) && m@ == "timeout_ms must be greater than 0"@),
    {
        if self.max_connections == 0 {
            return Err(Error::InvalidInput("max_connections must be greater than 0".to_owned()));
        }
        if self.timeout_ms == 0 {
            return Err(Error::InvalidInput("timeout_ms must be greater than 0".to_owned()));
        }
        Ok(())
    }
}

/// The position of `key` among the settings.
fn find_key(settings: &Vec<(String, String)>, key: &String) -> (r: Option<usize>)
    ensures
        match r {
            Some(i) => i < settings@.len() && settings@[i as int].0@ == key@ && forall|j: int|
                0 <= j < i ==> (#[trigger] settings@[j]).0@ != key@,
            None => forall|j: int| 0 <= j < settings@.len() ==> (#[trigger] settings@[j]).0@ != key@,
        },
{
    let mut i: usize = 0;
    while i < settings.len()
        invariant
            i <= settings@.len(),
            forall|j: int| 0 <= j < i ==> (#[trigger] settings@[j]).0@ != key@,
        decreases settings@.len() - i,
    {
        if settings[i].0 == *key {
            return Some(i);
        }
        i = i + 1;
    }
    None
}

/// Where the first `i` entries lack `key`, the lookup starts at `i`.
proof fn lemma_setting_prefix(s: Seq<(String, String)>, key: Seq<char>, i: int)
    requires
        0 <= i <= s.len(),
        forall|j: int| 0 <= j < i ==> (#[trigger] s[j]).0@ != key,
    ensures
        setting_of(s, key) == setting_of(s.subrange(i, s.len() as int), key),
    decreases i,
{
    if i > 0 {
        assert(s.drop_first().subrange(i - 1, s.drop_first().len() as int) =~= s.subrange(i, s.len() as int));
        assert forall|j: int| 0 <= j < i - 1 implies (#[trigger] s.drop_first()[j]).0@ != key by {
            assert(s.drop_first()[j] == s[j + 1]);
        }
        lemma_setting_prefix(s.drop_first(), key, i - 1);
    } else {
        assert(s.subrange(0, s.len() as int) =~= s);
    }
}

/// Changing entry `i` (or adding one at the end) leaves lookups of keys that
/// are neither its old key nor its new key as they were.
proof fn lemma_setting_same(old_s: Seq<(String, String)>, new_s: Seq<(String, String)>, k: Seq<char>, i: int)
    requires
        0 <= i <= old_s.len(),
        i < old_s.len() ==> new_s == old_s.update(i, new_s[i]) && old_s[i].0@ == new_s[i].0@,
        i == old_s.len() ==> new_s == old_s.push(new_s[i]),
        new_s[i].0@ != k,
    ensures
        setting_of(new_s, k) == setting_of(old_s, k),
    decreases old_s.len(),
{
    if old_s.len() == 0 {
        assert(new_s.drop_first() =~= Seq::<(String, String)>::empty());
    } else if i == 0 {
        assert(new_s.drop_first() =~= old_s.drop_first());
    } else {
        let o2 = old_s.drop_first();
        let n2 = new_s.drop_first();
        if i < old_s.len() {
            assert(n2 =~= o2.update(i - 1, n2[i - 1]));
        } else {
            assert(n2 =~= o2.push(n2[i - 1]));
        }
        lemma_setting_same(o2, n2, k, i - 1);
    }
}

/// A logger with a prefix and a switch.
#[derive(Debug, Clone)]
pub struct Logger {
    pub prefix: String,
    pub enabled: bool,
}

impl Logger {
    /// An enabled logger with a prefix.
    pub fn new(prefix: &str) -> (r: Logger)
        ensures
            r.prefix@ == prefix@,
            r.enabled,
    {
        Logger { prefix: prefix.to_owned(), enabled: true }
    }

    /// Turns the logger on or off.
    pub fn set_enabled(&mut self, enabled: bool)
        ensures
            final(self).enabled == enabled,
            final(self).prefix == old(self).prefix,
    {
        self.enabled = enabled;
    }
}

} // verus!
