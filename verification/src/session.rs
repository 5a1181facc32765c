//! The configured account and the store behind one-shot download tickets.

use vstd::prelude::*;

use crate::error::AppError;
use crate::secret::{secret_text, Secret};
use crate::text::joined;

verus! {

/// How long a staged attachment can be fetched before it expires, in seconds.
pub const DOWNLOAD_TICKET_TTL: u64 = 15 * 60;

/// Hard cap on the size of a staged attachment, in bytes.
pub const DOWNLOAD_TICKET_MAX_SIZE: usize = 25 * 1024 * 1024;

/// The single, operator-configured IMAP account. The password is held in
/// memory only.
pub struct StaticAccount {
    pub account_id: String,
    pub label: String,
    pub imap_email: String,
    pub imap_host: String,
    pub imap_port: u16,
    pub password: Secret,
}

impl Clone for StaticAccount {
    fn clone(&self) -> (copy: StaticAccount)
        ensures
            copy.account_id@ == self.account_id@,
            copy.label@ == self.label@,
            copy.imap_email@ == self.imap_email@,
            copy.imap_host@ == self.imap_host@,
            copy.imap_port == self.imap_port,
            secret_text(copy.password) == secret_text(self.password),
    {
        StaticAccount {
            account_id: self.account_id.clone(),
            label: self.label.clone(),
            imap_email: self.imap_email.clone(),
            imap_host: self.imap_host.clone(),
            imap_port: self.imap_port,
            password: self.password.clone(),
        }
    }
}

/// Password-free projection of a [`StaticAccount`].
#[derive(Debug)]
pub struct AccountSummary {
    pub account_id: String,
    pub label: String,
    pub imap_email: String,
    pub imap_host: String,
    pub last_used_at: Option<i64>,
    pub disabled: bool,
    pub is_default: bool,
}

/// The content of an [`AccountSummary`].
#[verifier::ext_equal]
pub struct AccountSummaryView {
    pub account_id: Seq<char>,
    pub label: Seq<char>,
    pub imap_email: Seq<char>,
    pub imap_host: Seq<char>,
    pub last_used_at: Option<i64>,
    pub disabled: bool,
    pub is_default: bool,
}

impl View for AccountSummary {
    type V = AccountSummaryView;

    open spec fn view(&self) -> AccountSummaryView {
        AccountSummaryView {
            account_id: self.account_id@,
            label: self.label@,
            imap_email: self.imap_email@,
            imap_host: self.imap_host@,
            last_used_at: self.last_used_at,
            disabled: self.disabled,
            is_default: self.is_default,
        }
    }
}

/// What is told of an account: its names and host, that it is the default one,
/// enabled and never yet used.
pub open spec fn account_summary(account: StaticAccount) -> AccountSummaryView {
    AccountSummaryView {
        account_id: account.account_id@,
        label: account.label@,
        imap_email: account.imap_email@,
        imap_host: account.imap_host@,
        last_used_at: None,
        disabled: false,
        is_default: true,
    }
}

impl AccountSummary {
    /// The summary of the configured account.
    pub fn from_static(a: &StaticAccount) -> (summary: AccountSummary)
        ensures
            summary@ == account_summary(*a),
    {
        AccountSummary {
            account_id: a.account_id.clone(),
            label: a.label.clone(),
            imap_email: a.imap_email.clone(),
            imap_host: a.imap_host.clone(),
            last_used_at: None,
            disabled: false,
            is_default: true,
        }
    }
}

/// Result of listing the accounts.
#[derive(Debug)]
pub struct ListAccountsResult {
    pub accounts: Vec<AccountSummary>,
}

/// Metadata of a staged attachment. The bytes are stored apart from it, under
/// the same token.
#[derive(Debug)]
pub struct DownloadTicket {
    pub filename: String,
    pub mime_type: String,
    pub size: usize,
    /// The account that staged the file.
    pub account_id: String,
}

/// A client of the `redis` crate: where to connect to, not a connection.
#[verifier::external_type_specification]
#[verifier::external_body]
pub struct ExRedisClient(redis::Client);

/// What `redis::Client::open` makes of a URL.
pub uninterp spec fn redis_client_for(url: Seq<char>) -> Result<redis::Client, redis::RedisError>;

/// `redis::Client::open`: reads the URL and keeps what it says. Nothing is
/// connected to, so the outcome depends on the URL alone.
#[verifier::external_body]
fn open_client(url: &str) -> (outcome: Result<redis::Client, redis::RedisError>)
    ensures
        outcome == redis_client_for(url@),
{
    redis::Client::open(url)
}

/// `Clone` of `redis::Client`: the copy holds the same connection settings.
pub assume_specification[ <redis::Client as Clone>::clone ](client: &redis::Client) -> (copy:
    redis::Client)
    ensures
        copy == *client,
;

/// The one piece of shared state that the server keeps in Redis: the one-shot
/// download tickets. Every key lives under the configured prefix.
pub struct SessionStore {
    redis: redis::Client,
    key_prefix: String,
}

impl SessionStore {
    /// The Redis client of the store.
    pub closed spec fn spec_client(&self) -> redis::Client {
        self.redis
    }

    /// The prefix of every key of the store.
    pub closed spec fn prefix(&self) -> Seq<char> {
        self.key_prefix@
    }

    /// A store on the Redis at `redis_url`, with its keys under `key_prefix`.
    /// No connection is opened.
    pub fn new(redis_url: &str, key_prefix: &str) -> (store: Result<SessionStore, AppError>)
        ensures
            match redis_client_for(redis_url@) {
                Ok(client) => store matches Ok(s) && s.spec_client() == client && s.prefix()
                    == key_prefix@,
                Err(error) => store == Err::<SessionStore, AppError>(AppError::Redis(error)),
            },
    {
        SessionStore::from_opened(open_client(redis_url), key_prefix)
    }

    /// A store on the outcome of opening a Redis client.
    pub fn from_opened(
        opened: Result<redis::Client, redis::RedisError>,
        key_prefix: &str,
    ) -> (store: Result<SessionStore, AppError>)
        ensures
            match opened {
                Ok(client) => store matches Ok(s) && s.spec_client() == client && s.prefix()
                    == key_prefix@,
                Err(error) => store == Err::<SessionStore, AppError>(AppError::Redis(error)),
            },
    {
        match opened {
            Ok(redis) => Ok(SessionStore { redis, key_prefix: key_prefix.to_owned() }),
            Err(error) => Err(AppError::Redis(error)),
        }
    }

    /// The Redis client of the store.
    pub fn client(&self) -> (client: &redis::Client)
        ensures
            *client == self.spec_client(),
    {
        &self.redis
    }

    /// The prefix of every key of the store.
    pub fn key_prefix(&self) -> (prefix: &str)
        ensures
            prefix@ == self.prefix(),
    {
        self.key_prefix.as_str()
    }

    /// A Redis key under the configured prefix.
    pub fn key(&self, suffix: &str) -> (key: String)
        ensures
            key@ == self.prefix() + suffix@,
    {
        joined(self.key_prefix.as_str(), suffix)
    }
}

impl Clone for SessionStore {
    fn clone(&self) -> (copy: SessionStore)
        ensures
            copy.spec_client() == self.spec_client(),
            copy.prefix() == self.prefix(),
    {
        SessionStore { redis: self.redis.clone(), key_prefix: self.key_prefix.clone() }
    }
}

/// A summary never depends on the password: accounts that differ in nothing
/// else (or in the port) have the same summary.
pub proof fn summary_does_not_depend_on_password(a: StaticAccount, b: StaticAccount)
    requires
        a.account_id@ == b.account_id@,
        a.label@ == b.label@,
        a.imap_email@ == b.imap_email@,
        a.imap_host@ == b.imap_host@,
    ensures
        account_summary(a) == account_summary(b),
{
}

/// The summary of an account names it field by field.
pub proof fn summary_names_the_account(account: &StaticAccount, summary: AccountSummary)
    requires
        call_ensures(AccountSummary::from_static, (account,), summary),
    ensures
        summary.account_id@ == account.account_id@,
        summary.label@ == account.label@,
        summary.imap_email@ == account.imap_email@,
        summary.imap_host@ == account.imap_host@,
        summary.last_used_at is None && !summary.disabled && summary.is_default,
{
}

/// A store puts every key under the prefix it was opened with, all of it, and
/// talks to the Redis of its URL.
pub proof fn store_keeps_its_prefix(
    redis_url: &str,
    key_prefix: &str,
    store: SessionStore,
    suffix: &str,
    key: String,
)
    requires
        call_ensures(SessionStore::new, (redis_url, key_prefix), Ok::<SessionStore, AppError>(store)),
        call_ensures(SessionStore::key, (&store, suffix), key),
    ensures
        key@ == key_prefix@ + suffix@,
        store.prefix() == key_prefix@,
        redis_client_for(redis_url@) == Ok::<redis::Client, redis::RedisError>(store.spec_client()),
{
}

} // verus!
