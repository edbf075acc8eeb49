//! Runtime configuration: the Supabase project URL and publishable key, and
//! the endpoint URLs derived from them.

use vstd::prelude::*;

use crate::text::{
    chars_of, string_from_chars, trim, trim_end_char, trimmed, trimmed_end_char,
};

verus! {

/// The project URL as stored: surrounding whitespace removed, then every
/// trailing `/`.
pub open spec fn normalize_base_url(url: Seq<char>) -> Seq<char> {
    trim_end_char(trim(url), '/')
}

/// Whether `s` ends with `/`.
pub open spec fn ends_with_slash(s: Seq<char>) -> bool {
    s.len() > 0 && s.last() == '/'
}

/// A normalized project URL never ends with `/`, so the endpoint paths
/// appended to it never produce `//`.
pub proof fn lemma_normalized_url_has_no_trailing_slash(url: Seq<char>)
    ensures
        !ends_with_slash(normalize_base_url(url)),
{
    lemma_trim_end_char_no_trailing(trim(url), '/');
}

proof fn lemma_trim_end_char_no_trailing(s: Seq<char>, c: char)
    ensures
        !(trim_end_char(s, c).len() > 0 && trim_end_char(s, c).last() == c),
    decreases s.len(),
{
    if s.len() > 0 && s.last() == c {
        lemma_trim_end_char_no_trailing(s.drop_last(), c);
    }
}

/// Supabase settings of one worker deployment.
#[derive(Debug, PartialEq, Eq)]
pub struct RuntimeConfig {
    supabase_url: String,
    supabase_publishable_key: String,
}

/// Why the environment does not yield a configuration.
#[derive(Debug, Clone, Copy, PartialEq, Eq)]
pub enum ConfigError {
    MissingVar(&'static str),
    InvalidVar(&'static str),
}

impl RuntimeConfig {
    #[verifier::type_invariant]
    spec fn well_formed(self) -> bool {
        !ends_with_slash(self.supabase_url@)
    }

    /// The normalized project URL.
    pub closed spec fn base_url(self) -> Seq<char> {
        self.supabase_url@
    }

    /// The publishable API key.
    pub closed spec fn publishable_key(self) -> Seq<char> {
        self.supabase_publishable_key@
    }

    /// Configuration for the project at `supabase_url` (normalized) with the
    /// given key.
    pub fn new(supabase_url: &str, supabase_publishable_key: &str) -> (res: Self)
        ensures
            res.base_url() == normalize_base_url(supabase_url@),
            res.publishable_key() == supabase_publishable_key@,
    {
        let chars = chars_of(supabase_url);
        let outer = trimmed(chars.as_slice());
        let inner = trimmed_end_char(outer.as_slice(), '/');
        proof {
            lemma_normalized_url_has_no_trailing_slash(supabase_url@);
        }
        RuntimeConfig {
            supabase_url: string_from_chars(inner.as_slice()),
            supabase_publishable_key: String::from_str(supabase_publishable_key),
        }
    }

    /// Configuration from the values of `SUPABASE_URL` and
    /// `SUPABASE_PUBLISHABLE_KEY`, `None` where a variable is unset.
    pub fn from_env_values(supabase_url: Option<&str>, supabase_publishable_key: Option<&str>) -> (res:
        Result<Self, ConfigError>)
        ensures
            match (supabase_url, supabase_publishable_key) {
                (None, _) => res == Err::<Self, ConfigError>(ConfigError::MissingVar("SUPABASE_URL")),
                (Some(_), None) => res == Err::<Self, ConfigError>(
                    ConfigError::MissingVar("SUPABASE_PUBLISHABLE_KEY"),
                ),
                (Some(url), Some(key)) => if trim(url@).len() == 0 {
                    res == Err::<Self, ConfigError>(ConfigError::InvalidVar("SUPABASE_URL"))
                } else if trim(key@).len() == 0 {
                    res == Err::<Self, ConfigError>(
                        ConfigError::InvalidVar("SUPABASE_PUBLISHABLE_KEY"),
                    )
                } else {
                    res matches Ok(config) && config.base_url() == normalize_base_url(url@)
                        && config.publishable_key() == key@
                },
            },
    {
        let url = match supabase_url {
            Some(url) => url,
            None => return Err(ConfigError::MissingVar("SUPABASE_URL")),
        };
        let key = match supabase_publishable_key {
            Some(key) => key,
            None => return Err(ConfigError::MissingVar("SUPABASE_PUBLISHABLE_KEY")),
        };
        let url_chars = chars_of(url);
        if trimmed(url_chars.as_slice()).len() == 0 {
            return Err(ConfigError::InvalidVar("SUPABASE_URL"));
        }
        let key_chars = chars_of(key);
        if trimmed(key_chars.as_slice()).len() == 0 {
            return Err(ConfigError::InvalidVar("SUPABASE_PUBLISHABLE_KEY"));
        }
        Ok(Self::new(url, key))
    }

    /// The publishable API key.
    pub fn supabase_publishable_key(&self) -> (res: &str)
        ensures
            res@ == self.publishable_key(),
    {
        self.supabase_publishable_key.as_str()
    }

    /// PostgREST endpoint of the `flights` table.
    pub fn flights_rest_url(&self) -> (res: String)
        ensures
            res@ == self.base_url() + "/rest/v1/flights"@,
            !ends_with_slash(self.base_url()),
    {
        proof {
            use_type_invariant(self);
        }
        let mut res = self.supabase_url.clone();
        res.append("/rest/v1/flights");
        res
    }

    /// Issuer that Supabase Auth writes into its tokens.
    pub fn jwt_issuer(&self) -> (res: String)
        ensures
            res@ == self.base_url() + "/auth/v1"@,
            !ends_with_slash(self.base_url()),
    {
        proof {
            use_type_invariant(self);
        }
        let mut res = self.supabase_url.clone();
        res.append("/auth/v1");
        res
    }

    /// Where the project publishes its token signing keys.
    pub fn jwks_url(&self) -> (res: String)
        ensures
            res@ == self.base_url() + "/auth/v1/.well-known/jwks.json"@,
            !ends_with_slash(self.base_url()),
    {
        proof {
            use_type_invariant(self);
        }
        let mut res = self.supabase_url.clone();
        res.append("/auth/v1/.well-known/jwks.json");
        res
    }
}

impl Clone for RuntimeConfig {
    fn clone(&self) -> (res: Self)
        ensures
            res.base_url() == self.base_url(),
            res.publishable_key() == self.publishable_key(),
    {
        proof {
            use_type_invariant(self);
        }
        RuntimeConfig {
            supabase_url: self.supabase_url.clone(),
            supabase_publishable_key: self.supabase_publishable_key.clone(),
        }
    }
}

/// The text shown for a configuration error.
pub open spec fn config_error_text(error: ConfigError) -> Seq<char> {
    match error {
        ConfigError::MissingVar(name) => "Missing required variable "@ + name@,
        ConfigError::InvalidVar(name) => "Invalid required variable "@ + name@,
    }
}

impl ConfigError {
    /// The text shown for this error.
    pub fn message(&self) -> (res: String)
        ensures
            res@ == config_error_text(*self),
    {
        match self {
            ConfigError::MissingVar(name) => {
                let mut out = String::from_str("Missing required variable ");
                out.append(name);
                out
            },
            ConfigError::InvalidVar(name) => {
                let mut out = String::from_str("Invalid required variable ");
                out.append(name);
                out
            },
        }
    }
}

} // verus!
