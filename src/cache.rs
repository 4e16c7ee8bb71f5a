//! The balance cache: its client, key scheme and time to live.
use vstd::prelude::*;
use vstd::string::StringExecFns;

verus! {

#[verifier::external_type_specification]
#[verifier::external_body]
pub struct ExRedisClient(redis::Client);

#[verifier::external_type_specification]
#[verifier::external_body]
pub struct ExRedisError(redis::RedisError);

/// How long a cached balance stays valid: 24 hours.
pub const BALANCE_EXPIRATION_SECONDS: u64 = 24 * 60 * 60;

/// Whether `redis::Client::open` accepts a connection URL.
pub uninterp spec fn redis_url_accepted(url: Seq<char>) -> bool;

/// Relies on `redis::Client::open`: it parses the URL and connects to
/// nothing; whether it accepts depends on the text alone.
#[verifier::external_body]
fn open_client(url: &str) -> (r: Result<redis::Client, redis::RedisError>)
    ensures
        r is Ok <==> redis_url_accepted(url@),
{
    redis::Client::open(url)
}

/// The lower-case hexadecimal digit of `n`, for `n` below 16.
pub open spec fn hex_digit(n: u128) -> char {
    seq!['0', '1', '2', '3', '4', '5', '6', '7', '8', '9', 'a', 'b', 'c', 'd', 'e', 'f'][n as int]
}

/// The 32 hexadecimal digits of an id, most significant first.
pub open spec fn hex_digits(id: u128) -> Seq<char> {
    Seq::new(32, |i: int| hex_digit((id >> ((124 - 4 * i) as u128)) & 15))
}

/// The hyphenated form of an id: its hexadecimal digits in groups of 8, 4,
/// 4, 4 and 12, joined by hyphens.
pub open spec fn uuid_text(id: u128) -> Seq<char> {
    let h = hex_digits(id);
    h.subrange(0, 8) + seq!['-'] + h.subrange(8, 12) + seq!['-'] + h.subrange(12, 16) + seq!['-']
        + h.subrange(16, 20) + seq!['-'] + h.subrange(20, 32)
}

/// Relies on the `Display` of `uuid::Uuid`, which writes the hyphenated
/// lower-case form of the id.
#[verifier::external_body]
fn hyphenated(id: u128) -> (r: String)
    ensures
        r@ == uuid_text(id),
{
    uuid::Uuid::from_u128(id).to_string()
}

/// Why the balance cache could not be set up.
#[derive(Debug)]
pub enum CacheError {
    /// The cache URL was refused.
    InvalidUrl(redis::RedisError),
}

/// The balance cache: a key-value store holding the last computed balance
/// of each account, with a fixed time to live.
pub struct CacheRepository {
    client: redis::Client,
}

impl CacheRepository {
    /// Sets up a cache client for `redis_url`; no connection is opened yet.
    pub fn new(redis_url: &str) -> (r: Result<CacheRepository, CacheError>)
        ensures
            r is Ok <==> redis_url_accepted(redis_url@),
    {
        match open_client(redis_url) {
            Ok(client) => Ok(CacheRepository { client }),
            Err(e) => Err(CacheError::InvalidUrl(e)),
        }
    }

    /// The client through which balances are written.
    pub fn client(&self) -> &redis::Client {
        &self.client
    }
}

/// The cache key under which the balance of an account is stored.
pub fn balance_key(account_id: u128) -> (r: String)
    ensures
        r@ == "balance:"@ + uuid_text(account_id),
{
    let text = hyphenated(account_id);
    String::from_str("balance:").concat(text.as_str())
}

} // verus!
