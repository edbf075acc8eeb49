//! Choosing the key that verifies a token, caching the key set, and preparing
//! what Web Crypto needs to check an RS256 or ES256 signature.

use vstd::prelude::*;

use crate::auth::{outcome_is, AuthError, AuthFailure, DecodedJwt};
use crate::config::RuntimeConfig;
use crate::der::{es256_der_encoding, jose_es256_signature_to_der};
use crate::text::{decimal, push_decimal, str_equal};

verus! {

/// A JSON Web Key set as the project publishes it.
#[derive(Debug, Clone)]
pub struct Jwks {
    pub keys: Vec<Jwk>,
}

/// One JSON Web Key; `use_` stands for the `use` member.
#[derive(Debug, Clone)]
pub struct Jwk {
    pub alg: Option<String>,
    pub crv: Option<String>,
    pub e: Option<String>,
    pub key_ops: Option<Vec<String>>,
    pub kid: Option<String>,
    pub kty: String,
    pub n: Option<String>,
    pub use_: Option<String>,
    pub x: Option<String>,
    pub y: Option<String>,
}

/// An optional text as an optional character sequence.
pub open spec fn opt_text(o: Option<String>) -> Option<Seq<char>> {
    match o {
        Some(s) => Some(s@),
        None => None,
    }
}

/// Whether `keys[i]` is the key that a token with key id `kid` designates:
/// the first key with that id, or the only key when the token names none.
pub open spec fn selects_key(kid: Option<Seq<char>>, keys: Seq<Jwk>, i: int) -> bool {
    match kid {
        Some(k) => 0 <= i < keys.len() && opt_text(keys[i].kid) == Some(k) && forall|j: int|
            0 <= j < i ==> opt_text(#[trigger] keys[j].kid) != Some(k),
        None => keys.len() == 1 && i == 0,
    }
}

/// At most one key is designated.
pub proof fn lemma_selected_key_unique(kid: Option<Seq<char>>, keys: Seq<Jwk>, i: int, j: int)
    requires
        selects_key(kid, keys, i),
        selects_key(kid, keys, j),
    ensures
        i == j,
{
    if let Some(k) = kid {
        if i < j {
            assert(opt_text(keys[i].kid) != Some(k));
        } else if j < i {
            assert(opt_text(keys[j].kid) != Some(k));
        }
    }
}

/// The designated key, if any.
pub open spec fn selected_key(kid: Option<Seq<char>>, keys: Seq<Jwk>) -> Option<Jwk> {
    if exists|i: int| selects_key(kid, keys, i) {
        Some(keys[choose|i: int| selects_key(kid, keys, i)])
    } else {
        None
    }
}

/// Whether `key` may verify a signature made with `alg`.
pub open spec fn key_verdict(key: Jwk, alg: Seq<char>) -> Result<(), AuthFailure> {
    if key.alg matches Some(a) && a@ != alg {
        Err(AuthFailure::InvalidToken("signing key algorithm mismatch"@))
    } else if key.use_ matches Some(u) && u@ != "sig"@ {
        Err(AuthFailure::InvalidToken("signing key cannot verify signatures"@))
    } else if key.key_ops matches Some(ops) && !(exists|i: int|
        0 <= i < ops@.len() && (#[trigger] ops@[i])@ == "verify"@) {
        Err(AuthFailure::InvalidToken("signing key missing verify operation"@))
    } else {
        Ok(())
    }
}

/// When a key may verify a token signed with `alg`, for any algorithm: its
/// declared `alg`, if any, is `alg`; its `use`, if any, is `sig`; and its
/// `key_ops`, if any, include `verify`. The algorithm failure comes exactly
/// when the key declares another algorithm.
pub proof fn lemma_key_verdict_conditions(key: Jwk, alg: Seq<char>)
    ensures
        key_verdict(key, alg) is Ok <==> {
            &&& key.alg matches Some(a) ==> a@ == alg
            &&& key.use_ matches Some(u) ==> u@ == "sig"@
            &&& key.key_ops matches Some(ops) ==> exists|i: int|
                0 <= i < ops@.len() && (#[trigger] ops@[i])@ == "verify"@
        },
        (key.alg matches Some(a) && a@ != alg) <==> key_verdict(key, alg) == Err::<(), AuthFailure>(
            AuthFailure::InvalidToken("signing key algorithm mismatch"@),
        ),
{
    reveal_strlit("signing key algorithm mismatch");
    reveal_strlit("signing key cannot verify signatures");
    reveal_strlit("signing key missing verify operation");
    assert("signing key algorithm mismatch"@ != "signing key cannot verify signatures"@) by {
        assert("signing key algorithm mismatch"@[13] != "signing key cannot verify signatures"@[13]);
    }
    assert("signing key algorithm mismatch"@ != "signing key missing verify operation"@) by {
        assert("signing key algorithm mismatch"@[12] != "signing key missing verify operation"@[12]);
    }
}

/// The key that verifies a token with key id `kid` signed with `alg`.
pub open spec fn signing_key(kid: Option<Seq<char>>, keys: Seq<Jwk>, alg: Seq<char>) -> Result<
    Jwk,
    AuthFailure,
> {
    match selected_key(kid, keys) {
        None => Err(AuthFailure::MissingSigningKey),
        Some(key) => match key_verdict(key, alg) {
            Ok(()) => Ok(key),
            Err(failure) => Err(failure),
        },
    }
}

fn first_key_with_kid(keys: &Vec<Jwk>, kid: &String) -> (res: Option<usize>)
    ensures
        match res {
            Some(i) => selects_key(Some(kid@), keys@, i as int),
            None => forall|i: int| 0 <= i < keys@.len() ==> opt_text(#[trigger] keys@[i].kid) != Some(
                kid@,
            ),
        },
{
    let n = keys.len();
    for i in 0..n
        invariant
            n == keys@.len(),
            forall|j: int| 0 <= j < i ==> opt_text(#[trigger] keys@[j].kid) != Some(kid@),
    {
        match &keys[i].kid {
            Some(k) => {
                if str_equal(k.as_str(), kid.as_str()) {
                    return Some(i);
                }
            },
            None => {},
        }
    }
    None
}

fn check_key(key: &Jwk, alg: &String) -> (res: Result<(), AuthError>)
    ensures
        outcome_is(res, key_verdict(*key, alg@)),
{
    if let Some(a) = &key.alg {
        if !str_equal(a.as_str(), alg.as_str()) {
            return Err(AuthError::invalid_token("signing key algorithm mismatch"));
        }
    }
    if let Some(u) = &key.use_ {
        if !str_equal(u.as_str(), "sig") {
            return Err(AuthError::invalid_token("signing key cannot verify signatures"));
        }
    }
    if let Some(ops) = &key.key_ops {
        let n = ops.len();
        let mut found = false;
        for i in 0..n
            invariant
                n == ops@.len(),
                found <==> exists|j: int| 0 <= j < i && (#[trigger] ops@[j])@ == "verify"@,
        {
            if str_equal(ops[i].as_str(), "verify") {
                found = true;
            }
        }
        if !found {
            return Err(AuthError::invalid_token("signing key missing verify operation"));
        }
    }
    Ok(())
}

/// The key of `jwks` that verifies `decoded`.
pub fn find_signing_key<'a>(decoded: &DecodedJwt, jwks: &'a Jwks) -> (res: Result<&'a Jwk, AuthError>)
    ensures
        match signing_key(opt_text(decoded.header.kid), jwks.keys@, decoded.header.alg@) {
            Ok(key) => res matches Ok(k) && *k == key,
            Err(failure) => res matches Err(e) && e@ == failure,
        },
{
    let ghost kid = opt_text(decoded.header.kid);
    let index = match &decoded.header.kid {
        Some(k) => first_key_with_kid(&jwks.keys, k),
        None => if jwks.keys.len() == 1 {
            Some(0)
        } else {
            None
        },
    };
    match index {
        Some(i) => {
            assert(selects_key(kid, jwks.keys@, i as int));
            proof {
                let c = choose|c: int| selects_key(kid, jwks.keys@, c);
                lemma_selected_key_unique(kid, jwks.keys@, i as int, c);
            }
            let key = &jwks.keys[i];
            match check_key(key, &decoded.header.alg) {
                Ok(()) => Ok(key),
                Err(e) => Err(e),
            }
        },
        None => {
            assert(!exists|i: int| selects_key(kid, jwks.keys@, i));
            Err(AuthError::MissingSigningKey)
        },
    }
}

/// Seconds for which a fetched key set is served from the cache.
pub const JWKS_CACHE_TTL_SECONDS: u64 = 300;

/// Whether a key set fetched at `fetched_at` is still served at `now`.
pub open spec fn is_fresh(fetched_at: u64, now: u64) -> bool {
    now.saturating_sub(fetched_at) < JWKS_CACHE_TTL_SECONDS
}

/// A cached key set lives for the time-to-live from its fetch: it is fresh
/// exactly while `now` is less than the fetch time plus the time-to-live
/// (a clock that went back counts as no time passed).
pub proof fn lemma_fresh_exactly_within_ttl(fetched_at: u64, now: u64)
    ensures
        is_fresh(fetched_at, now) <==> (now as int) < fetched_at + JWKS_CACHE_TTL_SECONDS,
{
}

/// A key set with the time it was fetched.
#[derive(Debug, Clone)]
pub struct CachedJwks {
    pub fetched_at: u64,
    pub jwks: Jwks,
}

/// The per-isolate key-set cache.
#[derive(Debug)]
pub struct JwksCache {
    entry: Option<CachedJwks>,
}

impl JwksCache {
    /// What the cache holds.
    pub closed spec fn entry(self) -> Option<CachedJwks> {
        self.entry
    }

    /// An empty cache.
    pub fn new() -> (res: JwksCache)
        ensures
            res.entry() is None,
    {
        JwksCache { entry: None }
    }

    /// The cached key set if it is still fresh at `now_unix_timestamp`.
    pub fn cached_jwks(&self, now_unix_timestamp: u64) -> (res: Option<&Jwks>)
        ensures
            match cache_lookup(self.entry(), now_unix_timestamp) {
                Some(jwks) => res matches Some(j) && *j == jwks,
                None => res is None,
            },
    {
        match &self.entry {
            Some(cached) => {
                if now_unix_timestamp.saturating_sub(cached.fetched_at) < JWKS_CACHE_TTL_SECONDS {
                    Some(&cached.jwks)
                } else {
                    None
                }
            },
            None => None,
        }
    }

    /// Remembers `jwks` as fetched at `now_unix_timestamp`, replacing what was
    /// cached.
    pub fn store(&mut self, now_unix_timestamp: u64, jwks: Jwks)
        ensures
            final(self).entry() == Some(CachedJwks { fetched_at: now_unix_timestamp, jwks }),
    {
        self.entry = Some(CachedJwks { fetched_at: now_unix_timestamp, jwks });
    }
}

/// What a cache holding `entry` serves at `now`.
pub open spec fn cache_lookup(entry: Option<CachedJwks>, now: u64) -> Option<Jwks> {
    match entry {
        Some(cached) => if is_fresh(cached.fetched_at, now) {
            Some(cached.jwks)
        } else {
            None
        },
        None => None,
    }
}

/// What `store` leaves in the cache is served back unchanged until the
/// time-to-live has passed, and not after.
pub proof fn lemma_cache_reads_back_store(fetched_at: u64, jwks: Jwks, now: u64)
    ensures
        cache_lookup(Some(CachedJwks { fetched_at, jwks }), now) == if (now as int) < fetched_at
            + JWKS_CACHE_TTL_SECONDS {
            Some(jwks)
        } else {
            None
        },
{
}

#[verifier::external_type_specification]
#[verifier::external_body]
pub struct ExUrl(url::Url);

/// Whether the `url` crate refuses to parse `input`: `None` when it parses,
/// otherwise the text of its `ParseError`.
pub uninterp spec fn url_parse_failure(input: Seq<char>) -> Option<Seq<char>>;

/// `Url::parse`, with a failure given as the error's text.
#[verifier::external_body]
fn parse_url(input: &str) -> (res: Result<url::Url, String>)
    ensures
        match res {
            Ok(_) => url_parse_failure(input@) is None,
            Err(text) => url_parse_failure(input@) == Some(text@),
        },
{
    match url::Url::parse(input) {
        Ok(url) => Ok(url),
        Err(error) => Err(error.to_string()),
    }
}

/// The key-set endpoint of `config` as a parsed URL, ready to fetch.
pub fn jwks_request_url(config: &RuntimeConfig) -> (res: Result<url::Url, AuthError>)
    ensures
        match url_parse_failure(config.base_url() + "/auth/v1/.well-known/jwks.json"@) {
            None => res is Ok,
            Some(text) => res matches Err(e) && e@ == AuthFailure::JwksFetchFailed(
                "invalid JWKS URL: "@ + text,
            ),
        },
{
    let text = config.jwks_url();
    match parse_url(text.as_str()) {
        Ok(url) => Ok(url),
        Err(detail) => {
            let mut message = String::from_str("invalid JWKS URL: ");
            message.append(detail.as_str());
            Err(AuthError::JwksFetchFailed(message))
        },
    }
}

/// The failure for an HTTP error status from the key-set endpoint.
pub fn check_jwks_status(status: u16) -> (res: Result<(), AuthError>)
    ensures
        if status >= 400 {
            res matches Err(e) && e@ == AuthFailure::JwksFetchFailed(
                "received HTTP "@ + decimal(status as nat),
            )
        } else {
            res is Ok
        },
{
    if status >= 400 {
        let mut message = String::from_str("received HTTP ");
        push_decimal(&mut message, status as u64);
        return Err(AuthError::JwksFetchFailed(message));
    }
    Ok(())
}

/// A fetched key set, refused when it holds no keys.
pub fn require_signing_keys(jwks: Jwks) -> (res: Result<Jwks, AuthError>)
    ensures
        if jwks.keys@.len() == 0 {
            res matches Err(e) && e@ == AuthFailure::JwksFetchFailed(
                "JWKS returned no signing keys"@,
            )
        } else {
            res == Ok::<Jwks, AuthError>(jwks)
        },
{
    if jwks.keys.len() == 0 {
        return Err(AuthError::JwksFetchFailed(String::from_str("JWKS returned no signing keys")));
    }
    Ok(jwks)
}

/// What Web Crypto is to check: the key, and for ES256 the signature in DER.
#[derive(Debug)]
pub enum SignatureCheck<'a> {
    Rs256(&'a Jwk),
    Es256(&'a Jwk, Vec<u8>),
}

/// Whether `key` can check an RS256 signature.
pub open spec fn rs256_key_verdict(key: Jwk) -> Result<(), AuthFailure> {
    if key.kty@ != "RSA"@ {
        Err(AuthFailure::InvalidToken("expected RSA signing key"@))
    } else {
        Ok(())
    }
}

/// Whether `key` can check the ES256 `signature`, and the signature in DER.
pub open spec fn es256_verdict(key: Jwk, signature: Seq<u8>) -> Result<Seq<u8>, AuthFailure> {
    if key.kty@ != "EC"@ {
        Err(AuthFailure::InvalidToken("expected EC signing key"@))
    } else if opt_text(key.crv) != Some("P-256"@) {
        Err(AuthFailure::InvalidToken("expected P-256 signing key"@))
    } else if signature.len() != 64 {
        Err(AuthFailure::InvalidToken("invalid ES256 signature length"@))
    } else {
        Ok(es256_der_encoding(signature))
    }
}

/// The RS256 key checks.
pub fn verify_rs256_key(jwk: &Jwk) -> (res: Result<(), AuthError>)
    ensures
        outcome_is(res, rs256_key_verdict(*jwk)),
{
    if !str_equal(jwk.kty.as_str(), "RSA") {
        return Err(AuthError::invalid_token("expected RSA signing key"));
    }
    Ok(())
}

/// The ES256 key checks, and the signature converted to DER.
pub fn verify_es256_key(decoded: &DecodedJwt, jwk: &Jwk) -> (res: Result<Vec<u8>, AuthError>)
    ensures
        match es256_verdict(*jwk, decoded.signature@) {
            Ok(der) => res matches Ok(d) && d@ == der,
            Err(failure) => res matches Err(e) && e@ == failure,
        },
{
    if !str_equal(jwk.kty.as_str(), "EC") {
        return Err(AuthError::invalid_token("expected EC signing key"));
    }
    let p256 = match &jwk.crv {
        Some(crv) => str_equal(crv.as_str(), "P-256"),
        None => false,
    };
    if !p256 {
        return Err(AuthError::invalid_token("expected P-256 signing key"));
    }
    jose_es256_signature_to_der(decoded.signature.as_slice())
}

/// What checking the signature of `decoded` against `keys` takes, by the
/// token's algorithm.
pub open spec fn signature_plan_ok(decoded: DecodedJwt, keys: Seq<Jwk>, check: SignatureCheck) -> bool {
    let alg = decoded.header.alg@;
    match signing_key(opt_text(decoded.header.kid), keys, alg) {
        Ok(key) => if alg == "RS256"@ {
            rs256_key_verdict(key) is Ok && check == SignatureCheck::Rs256(&key)
        } else {
            &&& alg == "ES256"@
            &&& es256_verdict(key, decoded.signature@) matches Ok(der)
            &&& check matches SignatureCheck::Es256(k, d)
            &&& *k == key
            &&& d@ == der
        },
        Err(_) => false,
    }
}

/// Dispatches on the token's algorithm, picks the key and runs the
/// algorithm's key checks.
pub fn plan_signature_check<'a>(decoded: &DecodedJwt, jwks: &'a Jwks) -> (res: Result<
    SignatureCheck<'a>,
    AuthError,
>)
    ensures
        ({
            let alg = decoded.header.alg@;
            let key = signing_key(opt_text(decoded.header.kid), jwks.keys@, alg);
            if alg != "RS256"@ && alg != "ES256"@ {
                res matches Err(e) && e@ == AuthFailure::UnsupportedAlgorithm(alg)
            } else {
                match key {
                    Err(failure) => res matches Err(e) && e@ == failure,
                    Ok(k) => if alg == "RS256"@ {
                        match rs256_key_verdict(k) {
                            Ok(()) => res matches Ok(check) && signature_plan_ok(
                                *decoded,
                                jwks.keys@,
                                check,
                            ),
                            Err(failure) => res matches Err(e) && e@ == failure,
                        }
                    } else {
                        match es256_verdict(k, decoded.signature@) {
                            Ok(_) => res matches Ok(check) && signature_plan_ok(
                                *decoded,
                                jwks.keys@,
                                check,
                            ),
                            Err(failure) => res matches Err(e) && e@ == failure,
                        }
                    },
                }
            }
        }),
{
    if str_equal(decoded.header.alg.as_str(), "RS256") {
        let key = find_signing_key(decoded, jwks)?;
        verify_rs256_key(key)?;
        Ok(SignatureCheck::Rs256(key))
    } else if str_equal(decoded.header.alg.as_str(), "ES256") {
        let key = find_signing_key(decoded, jwks)?;
        let der = verify_es256_key(decoded, key)?;
        Ok(SignatureCheck::Es256(key, der))
    } else {
        Err(AuthError::UnsupportedAlgorithm(decoded.header.alg.clone()))
    }
}

/// The outcome of a Web Crypto `verify` call, given what the promise resolved
/// to as a boolean (`None` when it was not one).
pub fn signature_verdict(verified: Option<bool>) -> (res: Result<(), AuthError>)
    ensures
        if verified == Some(true) {
            res is Ok
        } else {
            res matches Err(e) && e@ == AuthFailure::InvalidToken("signature verification failed"@)
        },
{
    if verified == Some(true) {
        Ok(())
    } else {
        Err(AuthError::invalid_token("signature verification failed"))
    }
}

} // verus!
