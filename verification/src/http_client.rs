//! Requests to the project's PostgREST `flights` endpoint: URLs, headers and
//! bodies of each request, and what each response means for the caller.

use vstd::prelude::*;

use crate::auth::{
    ascii_chars, bearer_prefix, bearer_token, bearer_word, is_visible_ascii,
    lemma_bearer_header_reads_back, AuthContext, AuthFailure,
};
use crate::config::RuntimeConfig;
use crate::models::{
    create_payload, flight_from_row, CreateFlightInput, CreateFlightPayload, Flight, FlightRow,
};
use crate::text::{decimal, eq_ignore_ascii_case, push_decimal, push_signed_decimal, signed_decimal, trim};

verus! {

/// A failed call to the origin.
#[derive(Debug, PartialEq, Eq)]
pub enum OriginError {
    Status(u16),
    Other(String),
}

/// `OriginError` with its text as a character sequence.
pub enum OriginFailure {
    Status(u16),
    Other(Seq<char>),
}

impl View for OriginError {
    type V = OriginFailure;

    open spec fn view(&self) -> OriginFailure {
        match self {
            OriginError::Status(code) => OriginFailure::Status(*code),
            OriginError::Other(m) => OriginFailure::Other(m@),
        }
    }
}

/// The text shown for an origin failure.
pub open spec fn origin_failure_text(failure: OriginFailure) -> Seq<char> {
    match failure {
        OriginFailure::Status(code) => "Origin returned status "@ + decimal(code as nat),
        OriginFailure::Other(m) => m,
    }
}

impl OriginError {
    /// Whether the origin answered 404.
    pub fn is_not_found(&self) -> (res: bool)
        ensures
            res == (self@ == OriginFailure::Status(404)),
    {
        match self {
            OriginError::Status(code) => *code == 404,
            OriginError::Other(_) => false,
        }
    }

    /// The text shown for this failure.
    pub fn message(&self) -> (res: String)
        ensures
            res@ == origin_failure_text(self@),
    {
        match self {
            OriginError::Status(code) => {
                let mut out = String::from_str("Origin returned status ");
                push_decimal(&mut out, *code as u64);
                out
            },
            OriginError::Other(m) => m.clone(),
        }
    }

    /// `Other` with `prefix` in front of `detail`.
    pub fn other_with(prefix: &str, detail: &str) -> (res: OriginError)
        ensures
            res@ == OriginFailure::Other(prefix@ + detail@),
    {
        let mut message = String::from_str(prefix);
        message.append(detail);
        OriginError::Other(message)
    }
}

/// The HTTP methods the client uses.
#[derive(Debug, Clone, Copy, PartialEq, Eq, Structural)]
pub enum HttpMethod {
    Get,
    Post,
    Patch,
    Delete,
}

/// Which rows of `flights` a request addresses, and how many.
#[derive(Debug, Clone)]
pub struct FlightsQuery {
    pub id: Option<String>,
    pub limit: Option<i32>,
    pub offset: Option<i32>,
}

impl FlightsQuery {
    /// All rows, without paging.
    pub fn select_all() -> (res: Self)
        ensures
            res.id is None,
            res.limit is None,
            res.offset is None,
    {
        Self { id: None, limit: None, offset: None }
    }

    /// The row with `id`.
    pub fn single(id: String) -> (res: Self)
        ensures
            res.id == Some(id),
            res.limit == Some(1i32),
            res.offset == Some(0i32),
    {
        Self { id: Some(id), limit: Some(1), offset: Some(0) }
    }

    /// A page of rows.
    pub fn list(limit: i32, offset: i32) -> (res: Self)
        ensures
            res.id is None,
            res.limit == Some(limit),
            res.offset == Some(offset),
    {
        Self { id: None, limit: Some(limit), offset: Some(offset) }
    }
}

/// A request ready to be sent.
#[derive(Debug, Clone)]
pub struct PreparedRequest {
    pub method: HttpMethod,
    pub url: String,
    pub headers: Vec<(String, String)>,
    pub body: Option<String>,
}

/// Name/value pairs as character sequences.
pub open spec fn pair_views(pairs: Seq<(String, String)>) -> Seq<(Seq<char>, Seq<char>)> {
    pairs.map_values(|p: (String, String)| (p.0@, p.1@))
}

/// The query parameters PostgREST receives for `query`, in order.
pub open spec fn query_pairs(query: FlightsQuery) -> Seq<(Seq<char>, Seq<char>)> {
    let select = seq![("select"@, "*"@)];
    let with_id = match query.id {
        Some(id) => select.push(("id"@, "eq."@ + id@)),
        None => select,
    };
    let with_limit = match query.limit {
        Some(limit) => with_id.push(("limit"@, signed_decimal(limit as int))),
        None => with_id,
    };
    match query.offset {
        Some(offset) => with_limit.push(("offset"@, signed_decimal(offset as int))),
        None => with_limit,
    }
}

/// What the `url` crate makes of parsing `base` and then appending `pairs` to
/// its query as `application/x-www-form-urlencoded`: the serialized URL, or
/// the text of the parse error.
pub uninterp spec fn url_with_query(base: Seq<char>, pairs: Seq<(Seq<char>, Seq<char>)>) -> Result<
    Seq<char>,
    Seq<char>,
>;

/// `Url::parse(base)`, then `query_pairs_mut().extend_pairs(pairs)`, then the
/// URL's serialization; a parse failure is given as the error's text.
#[verifier::external_body]
fn serialize_url_with_query(base: &str, pairs: &Vec<(String, String)>) -> (res: Result<String, String>)
    ensures
        match res {
            Ok(url) => url_with_query(base@, pair_views(pairs@)) == Ok::<Seq<char>, Seq<char>>(url@),
            Err(text) => url_with_query(base@, pair_views(pairs@)) == Err::<Seq<char>, Seq<char>>(
                text@,
            ),
        },
{
    match url::Url::parse(base) {
        Ok(mut url) => {
            url.query_pairs_mut().extend_pairs(pairs.iter());
            Ok(url.to_string())
        },
        Err(error) => Err(error.to_string()),
    }
}

/// The `flights` URL for `query` under `config`.
pub fn build_flights_url(config: &RuntimeConfig, query: &FlightsQuery) -> (res: Result<String, OriginError>)
    ensures
        match url_with_query(config.base_url() + "/rest/v1/flights"@, query_pairs(*query)) {
            Ok(url) => res matches Ok(u) && u@ == url,
            Err(text) => res matches Err(e) && e@ == OriginFailure::Other("Invalid Supabase URL: "@ + text),
        },
{
    let base = config.flights_rest_url();
    let mut pairs: Vec<(String, String)> = Vec::new();
    pairs.push((String::from_str("select"), String::from_str("*")));
    assert(pair_views(pairs@) =~= seq![("select"@, "*"@)]);
    let ghost after_select = pair_views(pairs@);
    if let Some(id) = &query.id {
        let mut value = String::from_str("eq.");
        value.append(id.as_str());
        pairs.push((String::from_str("id"), value));
        assert(pair_views(pairs@) =~= after_select.push(("id"@, "eq."@ + id@)));
    }
    let ghost after_id = pair_views(pairs@);
    if let Some(limit) = query.limit {
        let mut value = String::new();
        push_signed_decimal(&mut value, limit);
        pairs.push((String::from_str("limit"), value));
        assert(pair_views(pairs@) =~= after_id.push(("limit"@, signed_decimal(limit as int))));
    }
    let ghost after_limit = pair_views(pairs@);
    if let Some(offset) = query.offset {
        let mut value = String::new();
        push_signed_decimal(&mut value, offset);
        pairs.push((String::from_str("offset"), value));
        assert(pair_views(pairs@) =~= after_limit.push(("offset"@, signed_decimal(offset as int))));
    }
    assert(pair_views(pairs@) == query_pairs(*query));
    match serialize_url_with_query(base.as_str(), &pairs) {
        Ok(url) => Ok(url),
        Err(text) => Err(OriginError::other_with("Invalid Supabase URL: ", text.as_str())),
    }
}

/// The headers of every request: the API key and the caller's bearer token,
/// then a JSON content type when there is a body, then `prefer` when given.
pub open spec fn request_headers(
    publishable_key: Seq<char>,
    access_token: Seq<char>,
    has_body: bool,
    prefer: Option<Seq<char>>,
) -> Seq<(Seq<char>, Seq<char>)> {
    let base = seq![("apikey"@, publishable_key), ("authorization"@, "Bearer "@ + access_token)];
    let with_type = if has_body {
        base.push(("content-type"@, "application/json"@))
    } else {
        base
    };
    match prefer {
        Some(p) => with_type.push(("prefer"@, p)),
        None => with_type,
    }
}

/// An optional `&str` as an optional character sequence.
pub open spec fn opt_str_view(o: Option<&str>) -> Option<Seq<char>> {
    match o {
        Some(s) => Some(s@),
        None => None,
    }
}

/// The headers for a request on behalf of `auth`.
pub fn common_headers(
    config: &RuntimeConfig,
    auth: &AuthContext,
    has_body: bool,
    prefer: Option<&str>,
) -> (res: Vec<(String, String)>)
    ensures
        pair_views(res@) == request_headers(
            config.publishable_key(),
            auth.access_token@,
            has_body,
            opt_str_view(prefer),
        ),
{
    let mut headers: Vec<(String, String)> = Vec::new();
    headers.push((String::from_str("apikey"), String::from_str(config.supabase_publishable_key())));
    let mut bearer = String::from_str("Bearer ");
    bearer.append(auth.access_token.as_str());
    headers.push((String::from_str("authorization"), bearer));
    let ghost base = pair_views(headers@);
    assert(base =~= seq![
        ("apikey"@, config.publishable_key()),
        ("authorization"@, "Bearer "@ + auth.access_token@),
    ]);
    if has_body {
        headers.push((String::from_str("content-type"), String::from_str("application/json")));
        assert(pair_views(headers@) =~= base.push(("content-type"@, "application/json"@)));
    }
    let ghost with_type = pair_views(headers@);
    if let Some(p) = prefer {
        headers.push((String::from_str("prefer"), String::from_str(p)));
        assert(pair_views(headers@) =~= with_type.push(("prefer"@, p@)));
    }
    headers
}

/// The caller's token reaches Supabase unchanged: for an incoming
/// `Authorization: Bearer <token>` value, the bearer token read from it is
/// `token`, and the `authorization` header sent upstream on the caller's
/// behalf is exactly the incoming value.
pub proof fn lemma_bearer_token_forwarded(
    value: Seq<u8>,
    token: Seq<char>,
    publishable_key: Seq<char>,
    has_body: bool,
    prefer: Option<Seq<char>>,
)
    requires
        forall|i: int| 0 <= i < value.len() ==> is_visible_ascii(#[trigger] value[i]),
        ascii_chars(value) == bearer_prefix() + token,
        token.len() > 0,
        trim(token) == token,
    ensures
        bearer_token(Some(value)) == Ok::<Seq<char>, AuthFailure>(token),
        request_headers(publishable_key, token, has_body, prefer)[1] == ("authorization"@,
            ascii_chars(value)),
{
    let scheme = seq!['B', 'e', 'a', 'r', 'e', 'r'];
    assert(bearer_prefix() + token == scheme + seq![' '] + token);
    assert(eq_ignore_ascii_case(scheme, bearer_word()));
    lemma_bearer_header_reads_back(value, scheme, token);
    reveal_strlit("Bearer ");
    assert("Bearer "@ == bearer_prefix());
}

/// What the request headers hold, whatever the arguments: the API key and the
/// bearer token always; `content-type: application/json` exactly when the
/// request has a body (whatever `prefer` is); a `prefer` header exactly when
/// one is given, with its value; and nothing else.
pub proof fn lemma_request_headers_contents(
    publishable_key: Seq<char>,
    access_token: Seq<char>,
    has_body: bool,
    prefer: Option<Seq<char>>,
)
    ensures
        ({
            let headers = request_headers(publishable_key, access_token, has_body, prefer);
            &&& headers.contains(("apikey"@, publishable_key))
            &&& headers.contains(("authorization"@, "Bearer "@ + access_token))
            &&& headers.contains(("content-type"@, "application/json"@)) <==> has_body
            &&& (exists|v: Seq<char>| headers.contains(("prefer"@, v))) <==> prefer is Some
            &&& prefer matches Some(p) ==> headers.contains(("prefer"@, p))
            &&& headers.len() == 2 + (if has_body {
                1int
            } else {
                0int
            }) + (if prefer is Some {
                1int
            } else {
                0int
            })
        }),
{
    reveal_strlit("apikey");
    reveal_strlit("authorization");
    reveal_strlit("content-type");
    reveal_strlit("prefer");
    let headers = request_headers(publishable_key, access_token, has_body, prefer);
    let base = seq![("apikey"@, publishable_key), ("authorization"@, "Bearer "@ + access_token)];
    let with_type = if has_body {
        base.push(("content-type"@, "application/json"@))
    } else {
        base
    };
    assert("apikey"@ != "content-type"@) by {
        assert("apikey"@.len() != "content-type"@.len());
    }
    assert("apikey"@ != "prefer"@) by {
        assert("apikey"@[0] != "prefer"@[0]);
    }
    assert("authorization"@ != "content-type"@) by {
        assert("authorization"@.len() != "content-type"@.len());
    }
    assert("authorization"@ != "prefer"@) by {
        assert("authorization"@.len() != "prefer"@.len());
    }
    assert("content-type"@ != "prefer"@) by {
        assert("content-type"@.len() != "prefer"@.len());
    }
    assert(headers[0] == ("apikey"@, publishable_key));
    assert(headers[1] == ("authorization"@, "Bearer "@ + access_token));
    assert(headers.contains(("apikey"@, publishable_key)));
    assert(headers.contains(("authorization"@, "Bearer "@ + access_token)));
    if has_body {
        assert(headers[2] == ("content-type"@, "application/json"@));
        assert(headers.contains(("content-type"@, "application/json"@)));
    }
    if let Some(p) = prefer {
        assert(headers[headers.len() - 1] == ("prefer"@, p));
        assert(headers.contains(("prefer"@, p)));
    }
    assert forall|i: int| 0 <= i < headers.len() && (#[trigger] headers[i]).0 == "content-type"@
        implies has_body && i == 2 by {
        if i >= with_type.len() {
            assert(headers[i].0 == "prefer"@);
        }
    }
    assert forall|i: int| 0 <= i < headers.len() && (#[trigger] headers[i]).0 == "prefer"@
        implies prefer is Some && i == with_type.len() by {
        if i < with_type.len() {
            assert(headers[i] == with_type[i]);
        }
    }
    if headers.contains(("content-type"@, "application/json"@)) {
        let i = choose|i: int| 0 <= i < headers.len() && headers[i] == ("content-type"@, "application/json"@);
        assert(headers[i].0 == "content-type"@);
    }
    if exists|v: Seq<char>| headers.contains(("prefer"@, v)) {
        let v = choose|v: Seq<char>| headers.contains(("prefer"@, v));
        let i = choose|i: int| 0 <= i < headers.len() && headers[i] == ("prefer"@, v);
        assert(headers[i].0 == "prefer"@);
    }
}

/// The `prefer` value that asks PostgREST to return the written rows.
pub open spec fn return_representation_text() -> Seq<char> {
    "return=representation"@
}

/// A client acting for one authenticated user.
pub struct SupabaseClient {
    config: RuntimeConfig,
    auth: AuthContext,
}

impl SupabaseClient {
    /// The configuration the client uses.
    pub closed spec fn config_view(self) -> RuntimeConfig {
        self.config
    }

    /// The user the client acts for.
    pub closed spec fn auth_view(self) -> AuthContext {
        self.auth
    }

    /// A client for `auth` under `config`.
    pub fn new(config: RuntimeConfig, auth: AuthContext) -> (res: Self)
        ensures
            res.config_view() == config,
            res.auth_view() == auth,
    {
        Self { config, auth }
    }

    /// The configuration the client uses.
    pub fn config(&self) -> (res: &RuntimeConfig)
        ensures
            *res == self.config_view(),
    {
        &self.config
    }

    /// The user the client acts for.
    pub fn auth(&self) -> (res: &AuthContext)
        ensures
            *res == self.auth_view(),
    {
        &self.auth
    }

    /// A read of `query`.
    pub fn prepare_get(&self, query: FlightsQuery) -> (res: Result<PreparedRequest, OriginError>)
        ensures
            match url_with_query(
                self.config_view().base_url() + "/rest/v1/flights"@,
                query_pairs(query),
            ) {
                Ok(url) => res matches Ok(r) && r.method == HttpMethod::Get && r.url@ == url
                    && pair_views(r.headers@) == request_headers(
                    self.config_view().publishable_key(),
                    self.auth_view().access_token@,
                    false,
                    None,
                ) && r.body is None,
                Err(text) => res matches Err(e) && e@ == OriginFailure::Other(
                    "Invalid Supabase URL: "@ + text,
                ),
            },
    {
        let url = match build_flights_url(&self.config, &query) {
            Ok(url) => url,
            Err(e) => return Err(e),
        };
        Ok(
            PreparedRequest {
                method: HttpMethod::Get,
                url,
                headers: common_headers(&self.config, &self.auth, false, None),
                body: None,
            },
        )
    }

    /// A write of `query` with `method`. `body` is the request body already
    /// serialized to JSON, or the serializer's error text; with
    /// `return_representation` the written rows are asked back.
    pub fn prepare_write(
        &self,
        method: HttpMethod,
        query: FlightsQuery,
        body: Option<Result<String, String>>,
        return_representation: bool,
    ) -> (res: Result<PreparedRequest, OriginError>)
        ensures
            match url_with_query(
                self.config_view().base_url() + "/rest/v1/flights"@,
                query_pairs(query),
            ) {
                Err(text) => res matches Err(e) && e@ == OriginFailure::Other(
                    "Invalid Supabase URL: "@ + text,
                ),
                Ok(url) => match body {
                    Some(Err(text)) => res matches Err(e) && e@ == OriginFailure::Other(
                        "Failed to serialize request body: "@ + text@,
                    ),
                    _ => res matches Ok(r) && r.method == method && r.url@ == url && pair_views(
                        r.headers@,
                    ) == request_headers(
                        self.config_view().publishable_key(),
                        self.auth_view().access_token@,
                        body is Some,
                        if return_representation {
                            Some(return_representation_text())
                        } else {
                            None
                        },
                    ) && r.body == match body {
                        Some(Ok(text)) => Some(text),
                        _ => None::<String>,
                    },
                },
            },
    {
        let url = match build_flights_url(&self.config, &query) {
            Ok(url) => url,
            Err(e) => return Err(e),
        };
        let prefer = if return_representation {
            Some("return=representation")
        } else {
            None
        };
        let body = match body {
            None => None,
            Some(Ok(text)) => Some(text),
            Some(Err(text)) => {
                return Err(
                    OriginError::other_with("Failed to serialize request body: ", text.as_str()),
                );
            },
        };
        let has_body = body.is_some();
        Ok(
            PreparedRequest {
                method,
                url,
                headers: common_headers(&self.config, &self.auth, has_body, prefer),
                body,
            },
        )
    }

    /// The insert body for `input`, owned by the client's user.
    pub fn create_payload(&self, input: CreateFlightInput) -> (res: CreateFlightPayload)
        ensures
            res == create_payload(input, self.auth_view().user_id),
    {
        CreateFlightPayload::new(input, self.auth.user_id.clone())
    }
}

/// An HTTP error status from the origin becomes `Status`.
pub fn check_origin_status(status: u16) -> (res: Result<(), OriginError>)
    ensures
        if status >= 400 {
            res == Err::<(), OriginError>(OriginError::Status(status))
        } else {
            res is Ok
        },
{
    if status >= 400 {
        Err(OriginError::Status(status))
    } else {
        Ok(())
    }
}

/// The flight an insert returned: the first row, which must be there.
pub fn first_created_flight(rows: Vec<FlightRow>) -> (res: Result<Flight, OriginError>)
    ensures
        if rows@.len() > 0 {
            res == Ok::<Flight, OriginError>(flight_from_row(rows@[0]))
        } else {
            res matches Err(e) && e@ == OriginFailure::Other("Supabase create returned no rows"@)
        },
{
    let mut rows = rows;
    if rows.len() == 0 {
        return Err(OriginError::Other(String::from_str("Supabase create returned no rows")));
    }
    let row = rows.remove(0);
    Ok(Flight::from(row))
}

/// The flight an update returned: the first row, or 404 when no row matched.
pub fn first_updated_flight(rows: Vec<FlightRow>) -> (res: Result<Flight, OriginError>)
    ensures
        if rows@.len() > 0 {
            res == Ok::<Flight, OriginError>(flight_from_row(rows@[0]))
        } else {
            res == Err::<Flight, OriginError>(OriginError::Status(404))
        },
{
    let mut rows = rows;
    if rows.len() == 0 {
        return Err(OriginError::Status(404));
    }
    let row = rows.remove(0);
    Ok(Flight::from(row))
}

/// A delete succeeded when it returned a row; otherwise 404.
pub fn confirm_deleted(rows: &Vec<FlightRow>) -> (res: Result<(), OriginError>)
    ensures
        if rows@.len() > 0 {
            res is Ok
        } else {
            res == Err::<(), OriginError>(OriginError::Status(404))
        },
{
    if rows.len() == 0 {
        Err(OriginError::Status(404))
    } else {
        Ok(())
    }
}

/// The flight a single-row read returned: the last row, or 404.
pub fn last_fetched_flight(rows: Vec<FlightRow>) -> (res: Result<Flight, OriginError>)
    ensures
        if rows@.len() > 0 {
            res == Ok::<Flight, OriginError>(flight_from_row(rows@.last()))
        } else {
            res == Err::<Flight, OriginError>(OriginError::Status(404))
        },
{
    let mut rows = rows;
    match rows.pop() {
        Some(row) => Ok(Flight::from(row)),
        None => Err(OriginError::Status(404)),
    }
}

/// The flights of a page of rows, in order.
pub fn flights_from_rows(rows: Vec<FlightRow>) -> (res: Vec<Flight>)
    ensures
        res@ == rows@.map_values(|row: FlightRow| flight_from_row(row)),
{
    let ghost all = rows@;
    let mut rest = rows;
    let mut flights: Vec<Flight> = Vec::new();
    while rest.len() > 0
        invariant
            flights@.len() + rest@.len() == all.len(),
            rest@ == all.skip(flights@.len() as int),
            flights@ == all.take(flights@.len() as int).map_values(
                |row: FlightRow| flight_from_row(row),
            ),
        decreases rest@.len(),
    {
        let ghost k = flights@.len() as int;
        let row = rest.remove(0);
        flights.push(Flight::from(row));
        assert(all.take(k + 1) == all.take(k).push(all[k]));
        assert(rest@ =~= all.skip(k + 1));
        assert(flights@ =~= all.take(k + 1).map_values(|row: FlightRow| flight_from_row(row)));
    }
    assert(all.take(all.len() as int) == all);
    flights
}

} // verus!
