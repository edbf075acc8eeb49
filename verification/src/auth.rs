//! Bearer-token authentication: reading the `Authorization` header, splitting
//! and decoding the JWT, and checking its claims against the configuration.

use vstd::prelude::*;

use base64::engine::general_purpose::URL_SAFE_NO_PAD;
use base64::Engine;

use crate::config::RuntimeConfig;
use crate::text::{
    ascii_lower, chars_between, chars_eq_ignore_ascii_case, chars_equal, chars_of,
    eq_ignore_ascii_case, find_char, index_of, lemma_index_of, lemma_index_of_after_prefix,
    str_equal, string_from_chars, trim, trim_end_char, trimmed, trimmed_end_char,
};

verus! {

/// Who made an authenticated request, and the token to forward upstream.
#[derive(Debug, Clone, PartialEq, Eq)]
pub struct AuthContext {
    pub access_token: String,
    pub user_id: String,
}

impl AuthContext {
    /// The context of a request whose token `access_token` carried `claims`
    /// and passed every check: the user is the token's subject.
    pub fn for_subject(access_token: String, claims: &JwtClaims) -> (res: AuthContext)
        ensures
            res.access_token == access_token,
            res.user_id == claims.sub,
    {
        AuthContext { access_token, user_id: claims.sub.clone() }
    }
}

/// Why a request could not be authenticated.
#[derive(Debug, Clone, PartialEq, Eq)]
pub enum AuthError {
    MissingAuthorization,
    MalformedAuthorization,
    InvalidToken(String),
    MissingSigningKey,
    UnsupportedAlgorithm(String),
    JwksFetchFailed(String),
}

/// `AuthError` with its texts as character sequences.
pub enum AuthFailure {
    MissingAuthorization,
    MalformedAuthorization,
    InvalidToken(Seq<char>),
    MissingSigningKey,
    UnsupportedAlgorithm(Seq<char>),
    JwksFetchFailed(Seq<char>),
}

impl View for AuthError {
    type V = AuthFailure;

    open spec fn view(&self) -> AuthFailure {
        match self {
            AuthError::MissingAuthorization => AuthFailure::MissingAuthorization,
            AuthError::MalformedAuthorization => AuthFailure::MalformedAuthorization,
            AuthError::InvalidToken(m) => AuthFailure::InvalidToken(m@),
            AuthError::MissingSigningKey => AuthFailure::MissingSigningKey,
            AuthError::UnsupportedAlgorithm(a) => AuthFailure::UnsupportedAlgorithm(a@),
            AuthError::JwksFetchFailed(m) => AuthFailure::JwksFetchFailed(m@),
        }
    }
}

/// The human-readable text of an authentication failure.
pub open spec fn auth_failure_text(failure: AuthFailure) -> Seq<char> {
    match failure {
        AuthFailure::MissingAuthorization => "Missing Authorization header"@,
        AuthFailure::MalformedAuthorization => "Malformed Authorization header"@,
        AuthFailure::InvalidToken(m) => "Invalid token: "@ + m,
        AuthFailure::MissingSigningKey => "Missing signing key"@,
        AuthFailure::UnsupportedAlgorithm(a) => "Unsupported JWT signing algorithm: "@ + a,
        AuthFailure::JwksFetchFailed(m) => "JWKS fetch failed: "@ + m,
    }
}

impl AuthError {
    /// `InvalidToken` carrying `message`.
    pub fn invalid_token(message: &str) -> (res: AuthError)
        ensures
            res@ == AuthFailure::InvalidToken(message@),
    {
        AuthError::InvalidToken(String::from_str(message))
    }

    /// `InvalidToken` for a token segment that is not valid JSON of the
    /// expected shape; `detail` is the parser's explanation.
    pub fn invalid_json(detail: &str) -> (res: AuthError)
        ensures
            res@ == AuthFailure::InvalidToken("invalid JWT JSON: "@ + detail@),
    {
        let mut message = String::from_str("invalid JWT JSON: ");
        message.append(detail);
        AuthError::InvalidToken(message)
    }

    /// The text shown for this failure.
    pub fn message(&self) -> (res: String)
        ensures
            res@ == auth_failure_text(self@),
    {
        match self {
            AuthError::MissingAuthorization => String::from_str("Missing Authorization header"),
            AuthError::MalformedAuthorization => String::from_str("Malformed Authorization header"),
            AuthError::InvalidToken(m) => {
                let mut out = String::from_str("Invalid token: ");
                out.append(m.as_str());
                out
            },
            AuthError::MissingSigningKey => String::from_str("Missing signing key"),
            AuthError::UnsupportedAlgorithm(a) => {
                let mut out = String::from_str("Unsupported JWT signing algorithm: ");
                out.append(a.as_str());
                out
            },
            AuthError::JwksFetchFailed(m) => {
                let mut out = String::from_str("JWKS fetch failed: ");
                out.append(m.as_str());
                out
            },
        }
    }
}

/// The registered claims that the worker reads. `aud` lists the token's
/// audiences: one entry for a single audience, none when the claim is absent.
#[derive(Debug, Clone, PartialEq, Eq)]
pub struct JwtClaims {
    pub sub: String,
    pub iss: String,
    pub exp: u64,
    pub aud: Vec<String>,
}

/// The JOSE header fields that select the verification key.
#[derive(Debug, Clone)]
pub struct JwtHeader {
    pub alg: String,
    pub kid: Option<String>,
}

/// A token split into its parts, with the signature bytes decoded.
#[derive(Debug, Clone)]
pub struct DecodedJwt {
    pub header: JwtHeader,
    pub claims: JwtClaims,
    pub signing_input: String,
    pub signature: Vec<u8>,
}


#[verifier::external_type_specification]
#[verifier::external_body]
#[verifier::reject_recursive_types(T)]
pub struct ExHeaderMap<T>(http::HeaderMap<T>);

#[verifier::external_type_specification]
#[verifier::external_body]
pub struct ExHeaderValue(http::HeaderValue);

/// What a header map holds: for each (lower-case) header name, its values in
/// the order they were added.
pub uninterp spec fn header_entries(headers: http::HeaderMap) -> Map<Seq<char>, Seq<Seq<u8>>>;

/// The header name `authorization`.
pub open spec fn authorization_name() -> Seq<char> {
    seq!['a', 'u', 't', 'h', 'o', 'r', 'i', 'z', 'a', 't', 'i', 'o', 'n']
}

/// The first `Authorization` value of `headers`, if there is one.
pub open spec fn authorization_value(headers: http::HeaderMap) -> Option<Seq<u8>> {
    let entries = header_entries(headers);
    if entries.contains_key(authorization_name()) && entries[authorization_name()].len() > 0 {
        Some(entries[authorization_name()][0])
    } else {
        None
    }
}

/// `HeaderMap::get` with the `AUTHORIZATION` name: the first value stored
/// under `authorization`, as bytes.
#[verifier::external_body]
fn authorization_header(headers: &http::HeaderMap) -> (res: Option<Vec<u8>>)
    ensures
        match res {
            Some(bytes) => header_entries(*headers).contains_key(authorization_name())
                && header_entries(*headers)[authorization_name()].len() > 0 && bytes@
                == header_entries(*headers)[authorization_name()][0],
            None => !(header_entries(*headers).contains_key(authorization_name())
                && header_entries(*headers)[authorization_name()].len() > 0),
        },
{
    match headers.get(http::header::AUTHORIZATION) {
        Some(value) => Some(value.as_bytes().to_vec()),
        None => None,
    }
}

/// The bytes that `HeaderValue::to_str` accepts: visible ASCII and tab.
pub open spec fn is_visible_ascii(b: u8) -> bool {
    (32 <= b && b < 127) || b == 9
}

/// ASCII bytes read as characters.
pub open spec fn ascii_chars(bytes: Seq<u8>) -> Seq<char> {
    Seq::new(bytes.len(), |i: int| bytes[i] as char)
}

/// `HeaderValue::to_str`: the value as text when every byte is visible ASCII.
pub fn header_value_text(bytes: &[u8]) -> (res: Option<Vec<char>>)
    ensures
        match res {
            Some(text) => (forall|i: int| 0 <= i < bytes@.len() ==> is_visible_ascii(#[trigger] bytes@[i]))
                && text@ == ascii_chars(bytes@),
            None => exists|i: int| 0 <= i < bytes@.len() && !is_visible_ascii(#[trigger] bytes@[i]),
        },
{
    let n = bytes.len();
    let mut text: Vec<char> = Vec::new();
    for i in 0..n
        invariant
            n == bytes@.len(),
            forall|j: int| 0 <= j < i ==> is_visible_ascii(#[trigger] bytes@[j]),
            text@ == ascii_chars(bytes@.take(i as int)),
    {
        let b = bytes[i];
        if !((32 <= b && b < 127) || b == 9) {
            return None;
        }
        text.push(b as char);
        assert(ascii_chars(bytes@.take(i + 1)) =~= ascii_chars(bytes@.take(i as int)).push(
            b as char,
        ));
    }
    assert(bytes@.take(n as int) == bytes@);
    Some(text)
}

/// The authentication scheme name `bearer`.
pub open spec fn bearer_word() -> Seq<char> {
    seq!['b', 'e', 'a', 'r', 'e', 'r']
}

/// The token carried by an `Authorization` value: the scheme before the first
/// space must be `Bearer` in any ASCII case, and the trimmed rest must not be
/// empty.
pub open spec fn bearer_token(value: Option<Seq<u8>>) -> Result<Seq<char>, AuthFailure> {
    match value {
        None => Err(AuthFailure::MissingAuthorization),
        Some(bytes) => if exists|i: int| 0 <= i < bytes.len() && !is_visible_ascii(#[trigger] bytes[i]) {
            Err(AuthFailure::MalformedAuthorization)
        } else {
            let text = ascii_chars(bytes);
            match index_of(text, ' ') {
                None => Err(AuthFailure::MalformedAuthorization),
                Some(i) => {
                    let scheme = text.take(i);
                    let token = trim(text.skip(i + 1));
                    if !eq_ignore_ascii_case(scheme, bearer_word()) || token.len() == 0 {
                        Err(AuthFailure::MalformedAuthorization)
                    } else {
                        Ok(token)
                    }
                },
            }
        },
    }
}

/// The bearer token of the request's `Authorization` header.
pub fn extract_bearer_token(headers: &http::HeaderMap) -> (res: Result<String, AuthError>)
    ensures
        match bearer_token(authorization_value(*headers)) {
            Ok(token) => res matches Ok(s) && s@ == token,
            Err(failure) => res matches Err(e) && e@ == failure,
        },
{
    let value = match authorization_header(headers) {
        Some(value) => value,
        None => return Err(AuthError::MissingAuthorization),
    };
    let text = match header_value_text(value.as_slice()) {
        Some(text) => text,
        None => return Err(AuthError::MalformedAuthorization),
    };
    let space = match find_char(text.as_slice(), ' ') {
        Some(i) => i,
        None => return Err(AuthError::MalformedAuthorization),
    };
    let scheme = chars_between(text.as_slice(), 0, space);
    let rest = chars_between(text.as_slice(), space + 1, text.len());
    let token = trimmed(rest.as_slice());
    let bearer = vec!['b', 'e', 'a', 'r', 'e', 'r'];
    assert(bearer@ == bearer_word());
    assert(scheme@ == text@.take(space as int));
    assert(rest@ == text@.skip(space + 1));
    if !chars_eq_ignore_ascii_case(scheme.as_slice(), bearer.as_slice()) || token.len() == 0 {
        return Err(AuthError::MalformedAuthorization);
    }
    Ok(string_from_chars(token.as_slice()))
}

/// A token's three dot-separated segments, still base64url-encoded.
#[derive(Debug, Clone)]
pub struct JwtSegments {
    pub header: String,
    pub claims: String,
    pub signature: String,
}

/// The segments of `token` when it has exactly three; otherwise the failure
/// that names what is wrong.
pub open spec fn jwt_segments(token: Seq<char>) -> Result<(Seq<char>, Seq<char>, Seq<char>), AuthFailure> {
    match index_of(token, '.') {
        None => Err(AuthFailure::InvalidToken("missing claims"@)),
        Some(i) => {
            let rest = token.skip(i + 1);
            match index_of(rest, '.') {
                None => Err(AuthFailure::InvalidToken("missing signature"@)),
                Some(j) => {
                    let last = rest.skip(j + 1);
                    if index_of(last, '.') is Some {
                        Err(AuthFailure::InvalidToken("expected exactly three JWT segments"@))
                    } else {
                        Ok((token.take(i), rest.take(j), last))
                    }
                },
            }
        },
    }
}

/// Splits `token` at its dots into header, claims and signature.
pub fn split_jwt(token: &str) -> (res: Result<JwtSegments, AuthError>)
    ensures
        match jwt_segments(token@) {
            Ok((h, c, s)) => res matches Ok(seg) && seg.header@ == h && seg.claims@ == c
                && seg.signature@ == s,
            Err(failure) => res matches Err(e) && e@ == failure,
        },
{
    let chars = chars_of(token);
    let n = chars.len();
    let first = match find_char(chars.as_slice(), '.') {
        Some(i) => i,
        None => return Err(AuthError::invalid_token("missing claims")),
    };
    let rest = chars_between(chars.as_slice(), first + 1, n);
    assert(rest@ == chars@.skip(first + 1));
    let second = match find_char(rest.as_slice(), '.') {
        Some(j) => j,
        None => return Err(AuthError::invalid_token("missing signature")),
    };
    let last = chars_between(rest.as_slice(), second + 1, rest.len());
    assert(last@ == rest@.skip(second + 1));
    if find_char(last.as_slice(), '.').is_some() {
        return Err(AuthError::invalid_token("expected exactly three JWT segments"));
    }
    let header = chars_between(chars.as_slice(), 0, first);
    let claims = chars_between(rest.as_slice(), 0, second);
    assert(header@ == chars@.take(first as int));
    assert(claims@ == rest@.take(second as int));
    Ok(
        JwtSegments {
            header: string_from_chars(header.as_slice()),
            claims: string_from_chars(claims.as_slice()),
            signature: string_from_chars(last.as_slice()),
        },
    )
}

/// What the `base64` crate's URL-safe, unpadded engine makes of `input`: the
/// decoded bytes, or the text of its `DecodeError`.
pub uninterp spec fn base64url_decoding(input: Seq<char>) -> Result<Seq<u8>, Seq<char>>;

/// `URL_SAFE_NO_PAD.decode`, with a failure given as the error's text.
#[verifier::external_body]
fn decode_base64url(input: &str) -> (res: Result<Vec<u8>, String>)
    ensures
        match res {
            Ok(bytes) => base64url_decoding(input@) == Ok::<Seq<u8>, Seq<char>>(bytes@),
            Err(text) => base64url_decoding(input@) == Err::<Seq<u8>, Seq<char>>(text@),
        },
{
    match URL_SAFE_NO_PAD.decode(input) {
        Ok(bytes) => Ok(bytes),
        Err(error) => Err(error.to_string()),
    }
}

/// Decodes `segment` from base64url; a failure is `InvalidToken` with
/// `prefix` in front of the decoder's text.
fn decode_with_prefix(segment: &str, prefix: &str) -> (res: Result<Vec<u8>, AuthError>)
    ensures
        match base64url_decoding(segment@) {
            Ok(bytes) => res matches Ok(v) && v@ == bytes,
            Err(text) => res matches Err(e) && e@ == AuthFailure::InvalidToken(prefix@ + text),
        },
{
    match decode_base64url(segment) {
        Ok(bytes) => Ok(bytes),
        Err(text) => {
            let mut message = String::from_str(prefix);
            message.append(text.as_str());
            Err(AuthError::InvalidToken(message))
        },
    }
}

/// The bytes of a base64url header or claims segment (which then hold JSON).
pub fn decode_segment_bytes(segment: &str) -> (res: Result<Vec<u8>, AuthError>)
    ensures
        match base64url_decoding(segment@) {
            Ok(bytes) => res matches Ok(v) && v@ == bytes,
            Err(text) => res matches Err(e) && e@ == AuthFailure::InvalidToken(
                "invalid base64url segment: "@ + text,
            ),
        },
{
    decode_with_prefix(segment, "invalid base64url segment: ")
}

/// The bytes of the base64url signature segment.
pub fn decode_signature_bytes(segment: &str) -> (res: Result<Vec<u8>, AuthError>)
    ensures
        match base64url_decoding(segment@) {
            Ok(bytes) => res matches Ok(v) && v@ == bytes,
            Err(text) => res matches Err(e) && e@ == AuthFailure::InvalidToken(
                "invalid signature encoding: "@ + text,
            ),
        },
{
    decode_with_prefix(segment, "invalid signature encoding: ")
}

impl DecodedJwt {
    /// The decoded token whose signed part is `header.claims` of `segments`.
    pub fn from_parts(segments: &JwtSegments, header: JwtHeader, claims: JwtClaims, signature: Vec<
        u8,
    >) -> (res: DecodedJwt)
        ensures
            res.header == header,
            res.claims == claims,
            res.signature == signature,
            res.signing_input@ == segments.header@ + "."@ + segments.claims@,
    {
        let mut signing_input = segments.header.clone();
        signing_input.append(".");
        signing_input.append(segments.claims.as_str());
        DecodedJwt { header, claims, signing_input, signature }
    }
}

/// An issuer compared without its trailing slashes.
pub open spec fn normalize_issuer(issuer: Seq<char>) -> Seq<char> {
    trim_end_char(issuer, '/')
}

/// The audience Supabase Auth writes into the access tokens of signed-in
/// users. Tokens must name it: a token without an `aud` claim, or whose
/// audiences do not include it, is refused ("missing audience" or "audience
/// mismatch"), whatever its other claims.
pub open spec fn expected_audience() -> Seq<char> {
    "authenticated"@
}

/// Whether the audiences `aud` name the expected audience.
pub open spec fn names_expected_audience(aud: Seq<String>) -> bool {
    exists|i: int| 0 <= i < aud.len() && (#[trigger] aud[i])@ == expected_audience()
}

/// What the claim checks decide for `claims` at time `now` against the
/// issuer the configuration expects: subject, expiry, issuer, then audience.
pub open spec fn claims_verdict(claims: JwtClaims, expected_issuer: Seq<char>, now: u64) -> Result<
    (),
    AuthFailure,
> {
    if trim(claims.sub@).len() == 0 {
        Err(AuthFailure::InvalidToken("missing subject"@))
    } else if claims.exp <= now {
        Err(AuthFailure::InvalidToken("token expired"@))
    } else if normalize_issuer(claims.iss@) != normalize_issuer(expected_issuer) {
        Err(AuthFailure::InvalidToken("issuer mismatch"@))
    } else if claims.aud@.len() == 0 {
        Err(AuthFailure::InvalidToken("missing audience"@))
    } else if !names_expected_audience(claims.aud@) {
        Err(AuthFailure::InvalidToken("audience mismatch"@))
    } else {
        Ok(())
    }
}

/// The issuer that tokens for `config` must carry.
pub open spec fn expected_issuer(config: RuntimeConfig) -> Seq<char> {
    config.base_url() + "/auth/v1"@
}

/// Whether `res` is the outcome `verdict`.
pub open spec fn outcome_is(res: Result<(), AuthError>, verdict: Result<(), AuthFailure>) -> bool {
    match verdict {
        Ok(()) => res is Ok,
        Err(failure) => res matches Err(e) && e@ == failure,
    }
}

/// Checks subject, expiry (at `now_unix_timestamp`), issuer and audience.
/// The audience must include `authenticated`; a token that carries no `aud`
/// claim at all is refused with "missing audience".
pub fn validate_claims(claims: &JwtClaims, config: &RuntimeConfig, now_unix_timestamp: u64) -> (res:
    Result<(), AuthError>)
    ensures
        outcome_is(res, claims_verdict(*claims, expected_issuer(*config), now_unix_timestamp)),
{
    let sub = chars_of(claims.sub.as_str());
    if trimmed(sub.as_slice()).len() == 0 {
        return Err(AuthError::invalid_token("missing subject"));
    }
    if claims.exp <= now_unix_timestamp {
        return Err(AuthError::invalid_token("token expired"));
    }
    let issuer = chars_of(claims.iss.as_str());
    let expected_text = config.jwt_issuer();
    let expected = chars_of(expected_text.as_str());
    let left = trimmed_end_char(issuer.as_slice(), '/');
    let right = trimmed_end_char(expected.as_slice(), '/');
    if !chars_equal(left.as_slice(), right.as_slice()) {
        return Err(AuthError::invalid_token("issuer mismatch"));
    }
    let n = claims.aud.len();
    if n == 0 {
        return Err(AuthError::invalid_token("missing audience"));
    }
    let mut found = false;
    for i in 0..n
        invariant
            n == claims.aud@.len(),
            found <==> exists|j: int| 0 <= j < i && (#[trigger] claims.aud@[j])@
                == expected_audience(),
    {
        if str_equal(claims.aud[i].as_str(), "authenticated") {
            found = true;
        }
    }
    if !found {
        return Err(AuthError::invalid_token("audience mismatch"));
    }
    Ok(())
}

/// Whether `s` holds no `.`.
pub open spec fn has_no_dot(s: Seq<char>) -> bool {
    forall|i: int| 0 <= i < s.len() ==> s[i] != '.'
}

/// Splitting a token joined from three dot-free segments gives the segments
/// back.
pub proof fn lemma_split_jwt_reads_back(header: Seq<char>, claims: Seq<char>, signature: Seq<char>)
    requires
        has_no_dot(header),
        has_no_dot(claims),
        has_no_dot(signature),
    ensures
        jwt_segments(header + seq!['.'] + claims + seq!['.'] + signature) == Ok::<
            (Seq<char>, Seq<char>, Seq<char>),
            AuthFailure,
        >((header, claims, signature)),
{
    let dot = seq!['.'];
    let tail = dot + claims + dot + signature;
    let token = header + dot + claims + dot + signature;
    assert(token == header + tail);
    lemma_index_of_after_prefix(header, tail, '.');
    assert(index_of(tail, '.') == Some(0int));
    let rest = token.skip(header.len() + 1int);
    assert(rest == claims + (dot + signature));
    lemma_index_of_after_prefix(claims, dot + signature, '.');
    assert(index_of(dot + signature, '.') == Some(0int));
    let last = rest.skip(claims.len() + 1int);
    assert(last == signature);
    lemma_index_of(signature, '.');
    assert(token.take(header.len() as int) == header);
    assert(rest.take(claims.len() as int) == claims);
}

/// The characters `Bearer ` that open an `Authorization` value.
pub open spec fn bearer_prefix() -> Seq<char> {
    seq!['B', 'e', 'a', 'r', 'e', 'r', ' ']
}

/// An `Authorization` value `<scheme> <token>` in visible ASCII, with the
/// scheme `Bearer` in any ASCII case, yields the token, for any token that is
/// non-empty and has no surrounding whitespace.
pub proof fn lemma_bearer_header_reads_back(value: Seq<u8>, scheme: Seq<char>, token: Seq<char>)
    requires
        forall|i: int| 0 <= i < value.len() ==> is_visible_ascii(#[trigger] value[i]),
        ascii_chars(value) == scheme + seq![' '] + token,
        eq_ignore_ascii_case(scheme, bearer_word()),
        token.len() > 0,
        trim(token) == token,
    ensures
        bearer_token(Some(value)) == Ok::<Seq<char>, AuthFailure>(token),
{
    let text = ascii_chars(value);
    assert forall|i: int| 0 <= i < scheme.len() implies scheme[i] != ' ' by {
        if scheme[i] == ' ' {
            assert(ascii_lower(scheme[i]) == ascii_lower(bearer_word()[i]));
        }
    }
    assert(text == scheme + (seq![' '] + token));
    lemma_index_of_after_prefix(scheme, seq![' '] + token, ' ');
    assert(index_of(seq![' '] + token, ' ') == Some(0int));
    assert(index_of(text, ' ') == Some(scheme.len() as int));
    assert(text.take(scheme.len() as int) == scheme);
    assert(text.skip(scheme.len() + 1int) == token);
}

/// An issuer is accepted whatever number of trailing slashes it carries.
pub proof fn lemma_issuer_ignores_trailing_slashes(issuer: Seq<char>, extra: nat)
    ensures
        normalize_issuer(issuer + Seq::new(extra, |i: int| '/')) == normalize_issuer(issuer),
    decreases extra,
{
    if extra > 0 {
        let longer = issuer + Seq::new(extra, |i: int| '/');
        let shorter = issuer + Seq::new((extra - 1) as nat, |i: int| '/');
        assert(longer.drop_last() == shorter);
        assert(longer.last() == '/');
        lemma_issuer_ignores_trailing_slashes(issuer, (extra - 1) as nat);
    } else {
        assert(issuer + Seq::new(0, |i: int| '/') == issuer);
    }
}

/// Claims accepted at some time are accepted at every earlier time, and
/// claims with a subject are refused as expired from their expiry time on.
pub proof fn lemma_claims_accepted_earlier(claims: JwtClaims, expected: Seq<char>, now: u64, earlier: u64)
    requires
        earlier <= now,
    ensures
        claims_verdict(claims, expected, now) is Ok ==> claims_verdict(claims, expected, earlier) is Ok,
        trim(claims.sub@).len() > 0 && claims.exp <= now ==> claims_verdict(claims, expected, now)
            == Err::<(), AuthFailure>(AuthFailure::InvalidToken("token expired"@)),
{
}

/// A token is accepted only when it names the expected audience, and a token
/// with a subject, a future expiry, `config`'s own issuer and that audience
/// is accepted.
pub proof fn lemma_audience_decides(claims: JwtClaims, config: RuntimeConfig, now: u64)
    ensures
        claims_verdict(claims, expected_issuer(config), now) is Ok ==> names_expected_audience(
            claims.aud@,
        ),
        trim(claims.sub@).len() > 0 && now < claims.exp && claims.iss@ == expected_issuer(config)
            && names_expected_audience(claims.aud@) ==> claims_verdict(
            claims,
            expected_issuer(config),
            now,
        ) is Ok,
{
}

} // verus!
