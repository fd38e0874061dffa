//! The ISM (issue management) client: its data model, its errors, and the
//! parts of the client that decide rather than transfer: configuration
//! checks, endpoint addresses, request fields, response classification and
//! the cached login token.
use vstd::prelude::*;
use crate::external::{
    new_token_cache, token_cache_contents,
    token_cache_get, token_cache_insert, token_cache_capacity, TokenCache, TokenRecords, url_parse_failure, url_parse_error_text, system_clock_since_epoch, moment_from_timestamp,
};

verus! {

/// An ISM issue, as the client presents it.
#[derive(Debug, Clone)]
pub struct Issue {
    pub id: String,
    pub title: String,
    pub description: Option<String>,
    pub status: String,
    pub priority: Option<String>,
    pub created_at: String,
    pub updated_at: String,
    pub assignee: Option<String>,
    pub labels: Vec<String>,
}

/// A comment on an ISM issue.
#[derive(Debug, Clone)]
pub struct Comment {
    pub id: String,
    pub body: String,
    pub author: String,
    pub created_at: String,
    pub updated_at: Option<String>,
}

/// A file attached to an ISM issue.
#[derive(Debug, Clone)]
pub struct Attachment {
    pub filename: String,
    pub url: String,
    pub content_type: String,
}

/// Errors returned by ISM client operations.
#[derive(Debug)]
pub enum IsmError {
    /// HTTP request failed; holds the transfer error's description
    Http(String),
    /// JSON serialization or deserialization failed; holds the decoding
    /// error's description
    Json(String),
    /// ISM API returned an error response
    ApiError(String),
    /// Authentication failed
    AuthFailed(String),
    /// Issue not found
    NotFound { id: String },
    /// Configuration error
    Config(String),
    /// Internal error
    Internal(String),
}

/// What an ISM error says: its kind and its text.
pub enum IsmErrorView {
    Http(Seq<char>),
    Json(Seq<char>),
    ApiError(Seq<char>),
    AuthFailed(Seq<char>),
    NotFound(Seq<char>),
    Config(Seq<char>),
    Internal(Seq<char>),
}

impl View for IsmError {
    type V = IsmErrorView;

    open spec fn view(&self) -> IsmErrorView {
        match self {
            IsmError::Http(m) => IsmErrorView::Http(m@),
            IsmError::Json(m) => IsmErrorView::Json(m@),
            IsmError::ApiError(m) => IsmErrorView::ApiError(m@),
            IsmError::AuthFailed(m) => IsmErrorView::AuthFailed(m@),
            IsmError::NotFound { id } => IsmErrorView::NotFound(id@),
            IsmError::Config(m) => IsmErrorView::Config(m@),
            IsmError::Internal(m) => IsmErrorView::Internal(m@),
        }
    }
}

/// The human-readable message of an error: a fixed prefix per kind followed
/// by the error's text (an internal error is its text alone).
pub open spec fn ism_error_message(e: IsmErrorView) -> Seq<char> {
    match e {
        IsmErrorView::Http(m) => "HTTP request failed: "@ + m,
        IsmErrorView::Json(m) => "JSON error: "@ + m,
        IsmErrorView::ApiError(m) => "ISM API error: "@ + m,
        IsmErrorView::AuthFailed(m) => "Authentication failed: "@ + m,
        IsmErrorView::NotFound(id) => "Issue not found: "@ + id,
        IsmErrorView::Config(m) => "Configuration error: "@ + m,
        IsmErrorView::Internal(m) => m,
    }
}

fn prefixed(prefix: &str, text: &str) -> (r: String)
    ensures
        r@ == prefix@ + text@,
{
    let mut m = String::from_str(prefix);
    m.append(text);
    m
}

impl IsmError {
    /// The human-readable message of the error.
    pub fn message(&self) -> (r: String)
        ensures
            r@ == ism_error_message(self@),
    {
        match self {
            IsmError::Http(s) => prefixed("HTTP request failed: ", s.as_str()),
            IsmError::Json(s) => prefixed("JSON error: ", s.as_str()),
            IsmError::ApiError(s) => prefixed("ISM API error: ", s.as_str()),
            IsmError::AuthFailed(s) => prefixed("Authentication failed: ", s.as_str()),
            IsmError::NotFound { id } => prefixed("Issue not found: ", id.as_str()),
            IsmError::Config(s) => prefixed("Configuration error: ", s.as_str()),
            IsmError::Internal(s) => s.clone(),
        }
    }
}

/// A moment in UTC: whole seconds since the Unix epoch and the nanoseconds
/// within that second.
#[derive(Debug, Clone, Copy, PartialEq, Eq, Structural)]
pub struct Timestamp {
    pub secs: i64,
    pub nanos: u32,
}

/// `a` lies strictly after `b`.
pub open spec fn later_than(a: Timestamp, b: Timestamp) -> bool {
    a.secs > b.secs || (a.secs == b.secs && a.nanos > b.nanos)
}

/// How long a fetched login token is trusted, in seconds.
pub open spec fn token_lifetime_secs() -> int {
    3600
}

/// The moment a token fetched at `now` stops being used.
pub open spec fn expiry_of(now: Timestamp) -> Timestamp {
    Timestamp { secs: (now.secs + token_lifetime_secs()) as i64, nanos: now.nanos }
}

/// A cached login token and the moment it stops being used.
#[derive(Debug, Clone)]
pub struct CachedToken {
    pub token: String,
    pub expires_at: Timestamp,
}

/// What a cached token records, as plain values.
pub open spec fn cached_view(t: CachedToken) -> (Seq<char>, i64, u32) {
    (t.token@, t.expires_at.secs, t.expires_at.nanos)
}

/// The key under which the login token is cached.
pub open spec fn token_cache_key() -> Seq<char> {
    "ism_token"@
}

/// The token a cache lookup yields at `now`: the cached token while it has
/// not expired, nothing otherwise.
pub open spec fn usable_token_of(entry: Option<CachedToken>, now: Timestamp) -> Option<Seq<char>> {
    match entry {
        Some(t) => if later_than(t.expires_at, now) {
            Some(t.token@)
        } else {
            None
        },
        None => None,
    }
}

/// The token a cache lookup yields at `now`: the cached token if its expiry
/// lies strictly after `now`.
pub fn usable_token(entry: Option<CachedToken>, now: Timestamp) -> (r: Option<String>)
    ensures
        crate::text::opt_view(r) == usable_token_of(entry, now),
{
    match entry {
        Some(t) => {
            if t.expires_at.secs > now.secs || (t.expires_at.secs == now.secs
                && t.expires_at.nanos > now.nanos) {
                Some(t.token)
            } else {
                None
            }
        },
        None => None,
    }
}

/// The expiry of a token fetched at `now`: one hour later.
pub fn token_expiry(now: Timestamp) -> (r: Timestamp)
    requires
        now.secs + token_lifetime_secs() <= i64::MAX,
    ensures
        r == expiry_of(now),
{
    Timestamp { secs: now.secs + 3600, nanos: now.nanos }
}

/// A token remembered at `fetched` is served at `now` exactly while `now` is
/// before its expiry, one hour after `fetched`.
pub proof fn lemma_remembered_token_served_until_expiry(
    token: String,
    fetched: Timestamp,
    now: Timestamp,
)
    requires
        fetched.secs + token_lifetime_secs() <= i64::MAX,
    ensures
        usable_token_of(Some(CachedToken { token, expires_at: expiry_of(fetched) }), now) == (
        if later_than(expiry_of(fetched), now) {
            Some(token@)
        } else {
            None
        }),
        now.secs < fetched.secs + token_lifetime_secs() ==> usable_token_of(
            Some(CachedToken { token, expires_at: expiry_of(fetched) }),
            now,
        ) == Some(token@),
        now.secs > fetched.secs + token_lifetime_secs() ==> usable_token_of(
            Some(CachedToken { token, expires_at: expiry_of(fetched) }),
            now,
        ) is None,
{
}

/// ISM HTTP client state: where the service is, whom to log in as, and the
/// cached login token. The transfers themselves are made by the caller with
/// the addresses, fields and checks this type provides.
pub struct IsmClient {
    base_url: String,
    service_email: String,
    service_password: String,
    token_cache: TokenCache,
}

/// `base` followed by `path`.
pub open spec fn endpoint(base: Seq<char>, path: Seq<char>) -> Seq<char> {
    base + path
}

/// A status code that reports success (`200..300`).
pub open spec fn is_success_status(code: u16) -> bool {
    200 <= code && code < 300
}

/// The text of an unsuccessful response: `status <status>: <body>`.
pub open spec fn status_report(status_text: Seq<char>, body: Seq<char>) -> Seq<char> {
    "status "@ + status_text + ": "@ + body
}

/// The view of a result whose success carries nothing.
pub open spec fn unit_result_view(r: Result<(), IsmError>) -> Result<(), IsmErrorView> {
    match r {
        Ok(_) => Ok(()),
        Err(e) => Err(e@),
    }
}

/// The views of request fields.
pub open spec fn fields_view(v: Seq<(String, String)>) -> Seq<(Seq<char>, Seq<char>)> {
    Seq::new(v.len(), |i: int| (v[i].0@, v[i].1@))
}

fn field(name: &str, value: &str) -> (r: (String, String))
    ensures
        r.0@ == name@,
        r.1@ == value@,
{
    (String::from_str(name), String::from_str(value))
}

fn join2(base: &str, a: &str) -> (r: String)
    ensures
        r@ == base@ + a@,
{
    let mut s = String::from_str(base);
    s.append(a);
    s
}

fn join4(base: &str, a: &str, b: &str, c: &str) -> (r: String)
    ensures
        r@ == base@ + a@ + b@ + c@,
{
    let mut s = String::from_str(base);
    s.append(a);
    s.append(b);
    s.append(c);
    s
}

impl IsmClient {
    /// The base address the client was made with.
    pub closed spec fn base_url_view(&self) -> Seq<char> {
        self.base_url@
    }

    /// The service account email.
    pub closed spec fn email_view(&self) -> Seq<char> {
        self.service_email@
    }

    /// The service account password.
    pub closed spec fn password_view(&self) -> Seq<char> {
        self.service_password@
    }

    /// What the token cache holds.
    pub closed spec fn cache_view(&self) -> TokenRecords {
        token_cache_contents(self.token_cache)
    }

    /// The number of entries the token cache was made to hold.
    pub closed spec fn cache_capacity(&self) -> u64 {
        token_cache_capacity(self.token_cache)
    }

    /// Create a new ISM client.
    ///
    /// Returns a configuration error if the base URL does not parse as an
    /// absolute URL; otherwise a client with an empty token cache.
    pub fn new(base_url: String, service_email: String, service_password: String) -> (r: Result<
        IsmClient,
        IsmError,
    >)
        ensures
            r is Ok <==> url_parse_error_text(base_url@) is None,
            r matches Ok(c) ==> {
                &&& c.base_url_view() == base_url@
                &&& c.email_view() == service_email@
                &&& c.password_view() == service_password@
                &&& c.cache_view() == TokenRecords::empty()
                &&& c.cache_capacity() == 1000
            },
            r matches Err(e) ==> e@ == IsmErrorView::Config(
                "invalid base_url: "@ + url_parse_error_text(base_url@)->0,
            ),
    {
        match url_parse_failure(base_url.as_str()) {
            Some(reason) => {
                let mut m = String::from_str("invalid base_url: ");
                m.append(reason.as_str());
                Err(IsmError::Config(m))
            },
            None => Ok(
                IsmClient {
                    base_url,
                    service_email,
                    service_password,
                    token_cache: new_token_cache(1000),
                },
            ),
        }
    }

    /// The service account email, sent when logging in.
    pub fn service_email(&self) -> (r: &str)
        ensures
            r@ == self.email_view(),
    {
        self.service_email.as_str()
    }

    /// The service account password, sent when logging in.
    pub fn service_password(&self) -> (r: &str)
        ensures
            r@ == self.password_view(),
    {
        self.service_password.as_str()
    }

    /// The login endpoint: `<base>/api/v1/auth/login`.
    pub fn login_url(&self) -> (r: String)
        ensures
            r@ == endpoint(self.base_url_view(), "/api/v1/auth/login"@),
    {
        join2(self.base_url.as_str(), "/api/v1/auth/login")
    }

    /// The endpoint of one issue: `<base>/api/v1/issues/<id>`.
    pub fn issue_url(&self, id: &str) -> (r: String)
        ensures
            r@ == endpoint(self.base_url_view(), "/api/v1/issues/"@ + id@),
    {
        let r = join2(self.base_url.as_str(), "/api/v1/issues/");
        let mut r = r;
        r.append(id);
        assert(r@ == self.base_url@ + ("/api/v1/issues/"@ + id@));
        r
    }

    /// The comments endpoint of an issue: `<base>/api/v1/issues/<id>/comments`.
    pub fn comments_url(&self, issue_id: &str) -> (r: String)
        ensures
            r@ == endpoint(self.base_url_view(), "/api/v1/issues/"@ + issue_id@ + "/comments"@),
    {
        let r = join4(self.base_url.as_str(), "/api/v1/issues/", issue_id, "/comments");
        assert(r@ == self.base_url@ + ("/api/v1/issues/"@ + issue_id@ + "/comments"@));
        r
    }

    /// The attachments endpoint of an issue:
    /// `<base>/api/v1/issues/<id>/attachments`.
    pub fn attachments_url(&self, issue_id: &str) -> (r: String)
        ensures
            r@ == endpoint(
                self.base_url_view(),
                "/api/v1/issues/"@ + issue_id@ + "/attachments"@,
            ),
    {
        let r = join4(self.base_url.as_str(), "/api/v1/issues/", issue_id, "/attachments");
        assert(r@ == self.base_url@ + ("/api/v1/issues/"@ + issue_id@ + "/attachments"@));
        r
    }

    /// The issue collection endpoint, where issues are created:
    /// `<base>/api/v1/issues`.
    pub fn issues_url(&self) -> (r: String)
        ensures
            r@ == endpoint(self.base_url_view(), "/api/v1/issues"@),
    {
        join2(self.base_url.as_str(), "/api/v1/issues")
    }

    /// The fields of the login request: the service account's email and
    /// password.
    pub fn login_fields(&self) -> (r: Vec<(String, String)>)
        ensures
            fields_view(r@) == seq![
                ("email"@, self.email_view()),
                ("password"@, self.password_view()),
            ],
    {
        let mut v: Vec<(String, String)> = Vec::new();
        v.push(field("email", self.service_email.as_str()));
        v.push(field("password", self.service_password.as_str()));
        assert(fields_view(v@) =~= seq![
            ("email"@, self.email_view()),
            ("password"@, self.password_view()),
        ]);
        v
    }

    /// The cached login token if there is one and it has not expired by
    /// `now`. A cache may drop entries, so a missing token says nothing.
    pub fn cached_token(&self, now: Timestamp) -> (r: Option<String>)
        ensures
            r matches Some(t) ==> {
                &&& self.cache_view().contains_key(token_cache_key())
                &&& self.cache_view()[token_cache_key()].0 == t@
                &&& later_than(
                    Timestamp {
                        secs: self.cache_view()[token_cache_key()].1,
                        nanos: self.cache_view()[token_cache_key()].2,
                    },
                    now,
                )
            },
    {
        let entry = token_cache_get(&self.token_cache, "ism_token");
        usable_token(entry, now)
    }

    /// Caches a freshly fetched login token, to be used for one hour from
    /// the current time, and returns the moment it was cached. When the
    /// clock cannot be read (it is before the Unix epoch or outside the
    /// supported range), nothing is cached and the failure is reported.
    pub fn remember_token(&mut self, token: String) -> (r: Result<Timestamp, IsmError>)
        ensures
            final(self).base_url_view() == old(self).base_url_view(),
            final(self).email_view() == old(self).email_view(),
            final(self).password_view() == old(self).password_view(),
            final(self).cache_capacity() == old(self).cache_capacity(),
            match r {
                Ok(fetched) => {
                    &&& can_expire(Some(fetched))
                    &&& 0 <= fetched.secs < 9_000_000_000_000 && fetched.nanos < 1_000_000_000
                    &&& final(self).cache_view() == old(self).cache_view().insert(
                        token_cache_key(),
                        (token@, expiry_of(fetched).secs, expiry_of(fetched).nanos),
                    )
                },
                Err(e) => final(self).cache_view() == old(self).cache_view() && e@
                    == IsmErrorView::Internal(clock_failure_text()),
            },
    {
        let now = current_time();
        self.remember_token_at(token, now)
    }

    /// Caches `token`, fetched at the clock reading `now`, to be used for one
    /// hour from then, and returns that moment. Without a reading (or with
    /// one so late that an hour later cannot be represented) nothing is
    /// cached and the clock failure is reported.
    pub fn remember_token_at(&mut self, token: String, now: Option<Timestamp>) -> (r: Result<
        Timestamp,
        IsmError,
    >)
        ensures
            final(self).base_url_view() == old(self).base_url_view(),
            final(self).email_view() == old(self).email_view(),
            final(self).password_view() == old(self).password_view(),
            final(self).cache_capacity() == old(self).cache_capacity(),
            can_expire(now) ==> {
                &&& r == Ok::<Timestamp, IsmError>(now->0)
                &&& final(self).cache_view() == old(self).cache_view().insert(
                    token_cache_key(),
                    (token@, expiry_of(now->0).secs, expiry_of(now->0).nanos),
                )
            },
            !can_expire(now) ==> {
                &&& final(self).cache_view() == old(self).cache_view()
                &&& r matches Err(e) && e@ == IsmErrorView::Internal(clock_failure_text())
            },
    {
        match now {
            Some(n) => {
                if n.secs <= i64::MAX - 3600 {
                    let expires_at = token_expiry(n);
                    let key = String::from_str("ism_token");
                    token_cache_insert(
                        &mut self.token_cache,
                        key,
                        CachedToken { token, expires_at },
                    );
                    Ok(n)
                } else {
                    Err(clock_failure())
                }
            },
            None => Err(clock_failure()),
        }
    }

    /// The first step of obtaining a login token at `now`: reuse the cached
    /// token while it has not expired, otherwise log in. Without a clock
    /// reading there is no usable token.
    pub fn token_step(&self, now: Option<Timestamp>) -> (r: TokenStep)
        ensures
            now is None ==> r is Login,
            r matches TokenStep::Reuse(t) ==> (now matches Some(n) && {
                &&& self.cache_view().contains_key(token_cache_key())
                &&& self.cache_view()[token_cache_key()].0 == t@
                &&& later_than(
                    Timestamp {
                        secs: self.cache_view()[token_cache_key()].1,
                        nanos: self.cache_view()[token_cache_key()].2,
                    },
                    n,
                )
            }),
    {
        match now {
            Some(n) => match self.cached_token(n) {
                Some(t) => TokenStep::Reuse(t),
                None => TokenStep::Login,
            },
            None => TokenStep::Login,
        }
    }
}

/// What to do to obtain a login token.
pub enum TokenStep {
    /// Use this cached, unexpired token; no login is sent.
    Reuse(String),
    /// Log in to fetch a new token.
    Login,
}

/// The text of the error reported when the clock cannot be read.
pub open spec fn clock_failure_text() -> Seq<char> {
    "system clock is before the Unix epoch or out of range"@
}

/// Whether a response status reports success (`200..300`): a successful
/// response is decoded, any other is reported with its text.
pub fn status_succeeded(code: u16) -> (r: bool)
    ensures
        r == is_success_status(code),
{
    200 <= code && code < 300
}

/// The current moment, from the system clock; `None` when the clock reads
/// earlier than the Unix epoch or beyond the range of dates handled.
pub fn current_time() -> (t: Option<Timestamp>)
    ensures
        t matches Some(x) ==> 0 <= x.secs < 9_000_000_000_000 && x.nanos < 1_000_000_000,
{
    moment_of_reading(system_clock_since_epoch())
}

/// The moment that a clock reading of whole seconds and nanoseconds since
/// the Unix epoch stands for, as the date library builds it. `None` without a
/// reading, for readings from 9e12 seconds on, and wherever the date library
/// refuses the moment; every reading below 8e12 seconds with nanoseconds
/// below one second is accepted unchanged.
pub fn moment_of_reading(reading: Option<(u64, u32)>) -> (r: Option<Timestamp>)
    ensures
        reading is None ==> r is None,
        reading matches Some((s, n)) ==> (s >= 9_000_000_000_000 ==> r is None),
        reading matches Some((s, n)) ==> (s < 8_000_000_000_000 && n < 1_000_000_000 ==> r
            == Some((Timestamp { secs: s as i64, nanos: n }))),
        r matches Some(x) ==> 0 <= x.secs < 9_000_000_000_000 && reading == Some(
            (x.secs as u64, x.nanos),
        ),
{
    match reading {
        Some((secs, nanos)) => {
            if secs < 9_000_000_000_000 {
                let s: i64 = secs as i64;
                moment_from_timestamp(s, nanos)
            } else {
                None
            }
        },
        None => None,
    }
}

/// A clock reading at which a token can be remembered: present, and one
/// hour later still representable.
pub open spec fn can_expire(now: Option<Timestamp>) -> bool {
    now matches Some(n) && n.secs + token_lifetime_secs() <= i64::MAX
}

fn clock_failure() -> (e: IsmError)
    ensures
        e@ == IsmErrorView::Internal(clock_failure_text()),
{
    IsmError::Internal(String::from_str("system clock is before the Unix epoch or out of range"))
}

/// Within an hour of fetching a token, a token request reuses it and sends
/// no login. A token remembered at `fetched` (every moment that
/// `remember_token_at` accepts leaves an hour's room below `i64::MAX`) is
/// what a lookup that still finds it in the cache (the entry was not
/// evicted) yields at any moment less than an hour after `fetched`.
pub proof fn lemma_token_reused_within_hour(
    before: TokenRecords,
    after: TokenRecords,
    token: Seq<char>,
    fetched: Timestamp,
    hit: CachedToken,
    now: Timestamp,
)
    requires
        can_expire(Some(fetched)),
        after == before.insert(
            token_cache_key(),
            (token, expiry_of(fetched).secs, expiry_of(fetched).nanos),
        ),
        after.contains_key(token_cache_key()) && after[token_cache_key()] == cached_view(hit),
        now.secs < fetched.secs + token_lifetime_secs() || (now.secs == fetched.secs
            + token_lifetime_secs() && now.nanos < fetched.nanos),
    ensures
        usable_token_of(Some(hit), now) == Some(token),
{
}

/// After a token is remembered, the cache's record under the token key is
/// that token with its expiry, so any token the cache then serves is the one
/// last remembered.
pub proof fn lemma_cache_serves_last_remembered(
    before: TokenRecords,
    after: TokenRecords,
    token: Seq<char>,
    fetched: Timestamp,
)
    requires
        after == before.insert(
            token_cache_key(),
            (token, expiry_of(fetched).secs, expiry_of(fetched).nanos),
        ),
    ensures
        after.contains_key(token_cache_key()),
        after[token_cache_key()] == (token, expiry_of(fetched).secs, expiry_of(fetched).nanos),
        forall|k: Seq<char>| k != token_cache_key() ==> after.contains_key(k) == before.contains_key(
            k,
        ),
{
}

/// Classifies a response by its status: success passes; anything else is
/// an API error reporting the status and the response text.
pub fn check_status(code: u16, status_text: &str, body: &str) -> (r: Result<(), IsmError>)
    ensures
        unit_result_view(r) == (if is_success_status(code) {
            Ok(())
        } else {
            Err(IsmErrorView::ApiError(status_report(status_text@, body@)))
        }),
{
    if 200 <= code && code < 300 {
        Ok(())
    } else {
        Err(IsmError::ApiError(report(status_text, body)))
    }
}

fn report(status_text: &str, body: &str) -> (r: String)
    ensures
        r@ == status_report(status_text@, body@),
{
    let mut m = String::from_str("status ");
    m.append(status_text);
    m.append(": ");
    m.append(body);
    m
}

/// Classifies the response to an issue fetch: 404 means the issue does not
/// exist; other failures are API errors.
pub fn check_issue_status(code: u16, status_text: &str, body: &str, id: &str) -> (r: Result<
    (),
    IsmError,
>)
    ensures
        unit_result_view(r) == (if code == 404 {
            Err(IsmErrorView::NotFound(id@))
        } else if is_success_status(code) {
            Ok(())
        } else {
            Err(IsmErrorView::ApiError(status_report(status_text@, body@)))
        }),
{
    if code == 404 {
        return Err(IsmError::NotFound { id: String::from_str(id) });
    }
    check_status(code, status_text, body)
}

/// Classifies the response to a login: any failure is an authentication
/// failure reporting the status and the response text.
pub fn check_login_status(code: u16, status_text: &str, body: &str) -> (r: Result<(), IsmError>)
    ensures
        unit_result_view(r) == (if is_success_status(code) {
            Ok(())
        } else {
            Err(IsmErrorView::AuthFailed(status_report(status_text@, body@)))
        }),
{
    if 200 <= code && code < 300 {
        Ok(())
    } else {
        Err(IsmError::AuthFailed(report(status_text, body)))
    }
}

/// The fields of a new comment: its body.
pub fn comment_fields(body: &str) -> (r: Vec<(String, String)>)
    ensures
        fields_view(r@) == seq![("body"@, body@)],
{
    let mut v: Vec<(String, String)> = Vec::new();
    v.push(field("body", body));
    assert(fields_view(v@) =~= seq![("body"@, body@)]);
    v
}

/// The fields of a new issue: its title, and its description when one is
/// given.
pub fn create_issue_fields(title: &str, description: Option<&str>) -> (r: Vec<(String, String)>)
    ensures
        fields_view(r@) == (match description {
            Some(d) => seq![("title"@, title@), ("description"@, d@)],
            None => seq![("title"@, title@)],
        }),
{
    let mut v: Vec<(String, String)> = Vec::new();
    v.push(field("title", title));
    match description {
        Some(d) => {
            v.push(field("description", d));
            assert(fields_view(v@) =~= seq![("title"@, title@), ("description"@, d@)]);
        },
        None => {
            assert(fields_view(v@) =~= seq![("title"@, title@)]);
        },
    }
    v
}

} // verus!
