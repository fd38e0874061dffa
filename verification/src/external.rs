//! The library's trusted boundary: declarations of outside types, names for
//! results of outside functions, and the wrappers that make the outside
//! calls. Nothing here is proved; each contract states what the outside
//! source shows.
use vstd::prelude::*;
use crate::text::{opt_view, string_views};
use crate::ism::{cached_view, CachedToken, Timestamp};

verus! {

/// The file stem that `std::path::Path::file_stem` finds in `path`, as text.
pub uninterp spec fn path_file_stem(path: Seq<char>) -> Option<Seq<char>>;

/// Calls `std::path::Path::file_stem` on `path` and converts the stem to a
/// `String`. Claimed: the result is the named value `path_file_stem(path)`,
/// which depends on the path text alone. A stem taken from a `&str` is valid
/// UTF-8, so the conversion loses nothing.
#[verifier::external_body]
pub(crate) fn file_stem_text(path: &str) -> (r: Option<String>)
    ensures
        opt_view(r) == path_file_stem(path@),
{
    match std::path::Path::new(path).file_stem() {
        Some(stem) => match stem.to_str() {
            Some(s) => Some(s.to_string()),
            None => None,
        },
        None => None,
    }
}

/// Declares `nostr::event::Tag`, an event tag: a non-empty list of strings.
#[verifier::external_type_specification]
#[verifier::external_body]
pub struct ExTag(nostr::event::Tag);

/// The strings that a `nostr::event::Tag` holds, in order.
pub uninterp spec fn tag_values(tag: nostr::event::Tag) -> Seq<Seq<char>>;

/// Calls `nostr::event::Tag::parse` on `fields`. Claimed, as its source shows: it
/// fails exactly when `fields` is empty, and otherwise builds a tag holding
/// exactly `fields`, in order (it does no NIP-specific validation).
#[verifier::external_body]
pub(crate) fn parse_tag(fields: Vec<String>) -> (r: Option<nostr::event::Tag>)
    ensures
        r is Some <==> fields@.len() > 0,
        r matches Some(t) ==> tag_values(t) == string_views(fields@),
{
    nostr::event::Tag::parse(fields).ok()
}

/// The text of the error `reqwest::Url::parse` (the `url` crate's parser)
/// reports for `s`, or `None` when `s` parses as an absolute URL.
pub uninterp spec fn url_parse_error_text(s: Seq<char>) -> Option<Seq<char>>;

/// Calls `reqwest::Url::parse` on `s` and keeps only whether it failed and,
/// if so, the `Display` text of the `url::ParseError` (a fixed description
/// per error kind, such as "relative URL without a base"). Claimed: the
/// result is the named value `url_parse_error_text(s)`, which depends on
/// the text alone.
#[verifier::external_body]
pub(crate) fn url_parse_failure(s: &str) -> (r: Option<String>)
    ensures
        opt_view(r) == url_parse_error_text(s@),
{
    match reqwest::Url::parse(s) {
        Ok(_) => None,
        Err(e) => Some(e.to_string()),
    }
}

/// Reads the system clock (`std::time::SystemTime::now`) as a duration
/// since the Unix epoch (`duration_since(UNIX_EPOCH)`), split into whole
/// seconds and the nanoseconds within the second. `None` when the clock
/// reads earlier than the epoch (the error of `duration_since`). Claimed, as
/// `Duration::subsec_nanos` documents: the nanoseconds are below one second.
/// Which moment it is depends on the clock and is not stated.
#[verifier::external_body]
pub(crate) fn system_clock_since_epoch() -> (r: Option<(u64, u32)>)
    ensures
        r matches Some(d) ==> d.1 < 1_000_000_000,
{
    match std::time::SystemTime::now().duration_since(std::time::UNIX_EPOCH) {
        Ok(d) => Some((d.as_secs(), d.subsec_nanos())),
        Err(_) => None,
    }
}

/// Calls `chrono::DateTime::from_timestamp(secs, nanos)` and splits the
/// moment it builds back into `timestamp()` and `timestamp_subsec_nanos()`.
/// Claimed, as its source shows: it builds the moment exactly at `secs`
/// seconds and `nanos` nanoseconds after the epoch, so the parts come back
/// unchanged; it returns `None` only for seconds outside chrono's range
/// (years -262143 to 262142, within 8.4e12 seconds of the epoch) or an invalid nanosecond count, so every non-negative count
/// below 8e12 seconds with nanoseconds below one second is accepted.
#[verifier::external_body]
pub(crate) fn moment_from_timestamp(secs: i64, nanos: u32) -> (r: Option<Timestamp>)
    ensures
        r matches Some(t) ==> t.secs == secs && t.nanos == nanos && -9_000_000_000_000 < secs
            < 9_000_000_000_000,
        0 <= secs < 8_000_000_000_000 && nanos < 1_000_000_000 ==> r is Some,
{
    match chrono::DateTime::from_timestamp(secs, nanos) {
        Some(dt) => Some(Timestamp { secs: dt.timestamp(), nanos: dt.timestamp_subsec_nanos() }),
        None => None,
    }
}

/// Declares `moka::sync::Cache`, a concurrent in-memory cache.
#[verifier::external_type_specification]
#[verifier::external_body]
#[verifier::reject_recursive_types(K)]
#[verifier::reject_recursive_types(V)]
#[verifier::reject_recursive_types(S)]
pub struct ExCache<K, V, S>(moka::sync::Cache<K, V, S>);

/// Token records by cache key: the token text and its expiry (seconds,
/// nanoseconds).
pub type TokenRecords = Map<Seq<char>, (Seq<char>, i64, u32)>;

/// The cache that holds login tokens by name.
pub type TokenCache = moka::sync::Cache<String, CachedToken>;

/// For each key, the token record last inserted under it into a token cache.
/// The cache may drop entries (eviction), so a lookup may miss a key listed
/// here; it never yields another value.
pub uninterp spec fn token_cache_contents(
    cache: TokenCache,
) -> TokenRecords;

/// The maximum number of entries a token cache was made with (what
/// `policy().max_capacity()` reports).
pub uninterp spec fn token_cache_capacity(cache: TokenCache) -> u64;

/// Calls `moka::sync::Cache::new` with `capacity` entries. Claimed: the new
/// cache holds nothing and is limited to `capacity` entries.
#[verifier::external_body]
pub(crate) fn new_token_cache(capacity: u64) -> (r: TokenCache)
    ensures
        token_cache_contents(r) == TokenRecords::empty(),
        token_cache_capacity(r) == capacity,
{
    moka::sync::Cache::new(capacity)
}

/// Calls `moka::sync::Cache::get` for `key`. Claimed: a value returned is a
/// clone of the one last inserted under that key. Nothing is claimed when
/// it returns `None`: the entry may never have been inserted or may have
/// been evicted.
#[verifier::external_body]
pub(crate) fn token_cache_get(
    cache: &TokenCache,
    key: &str,
) -> (r: Option<CachedToken>)
    ensures
        r matches Some(t) ==> token_cache_contents(*cache).contains_key(key@)
            && token_cache_contents(*cache)[key@] == cached_view(t),
{
    cache.get(key)
}

/// Calls `moka::sync::Cache::insert` (which takes `&self`; the exclusive
/// borrow here records the change). Claimed: afterwards `value` is the last
/// value inserted under `key`, the other keys are unchanged, and the
/// capacity the cache was made with stays as it was.
#[verifier::external_body]
pub(crate) fn token_cache_insert(
    cache: &mut TokenCache,
    key: String,
    value: CachedToken,
)
    ensures
        token_cache_contents(*final(cache)) == token_cache_contents(*old(cache)).insert(
            key@,
            cached_view(value),
        ),
        token_cache_capacity(*final(cache)) == token_cache_capacity(*old(cache)),
{
    cache.insert(key, value)
}

/// The value of the UUID that `uuid::Uuid::parse_str` reads from `s` (any
/// of its accepted formats: simple, hyphenated, braced, URN), as its
/// big-endian 128-bit number; `None` when it rejects `s`.
pub uninterp spec fn uuid_parse_bits(s: Seq<char>) -> Option<u128>;

/// Calls `uuid::Uuid::parse_str` on `s` and converts a parsed UUID to its
/// 128-bit value (`Uuid::as_u128`, a one-for-one conversion). Claimed: the
/// result is the named value `uuid_parse_bits(s)`, which depends on the text
/// alone.
#[verifier::external_body]
pub(crate) fn parse_uuid_bits(s: &str) -> (r: Option<u128>)
    ensures
        r == uuid_parse_bits(s@),
{
    match uuid::Uuid::parse_str(s) {
        Ok(u) => Some(u.as_u128()),
        Err(_) => None,
    }
}

/// Renders the UUID with value `bits` with its `Display` implementation
/// (`Uuid::from_u128`, then `to_string`). Claimed, as the source shows
/// (`Display` delegates to `LowerHex`, the hyphenated lower-case form): the
/// text is the 32 lower-case hex digits of `bits`, most significant first,
/// grouped 8-4-4-4-12 by hyphens.
#[verifier::external_body]
pub(crate) fn uuid_text(bits: u128) -> (r: String)
    ensures
        r@ == crate::commands::uuid_hyphenated(bits),
{
    uuid::Uuid::from_u128(bits).to_string()
}

} // verus!
