//! The state that a polling cycle reads and leaves behind.

use vstd::prelude::*;
use crate::clock::current_time;
use crate::product::{Product, ProviderKey};
use crate::text::same_text;

verus! {

/// Seconds that must lie between two notification batches.
pub const COOLDOWN_SECONDS: i64 = 1800;

/// Seconds for which a provider is left alone after it signalled a rate limit.
pub const BACKOFF_SECONDS: i64 = 300;

/// For each provider that signalled a rate limit, the moment before which it
/// is not polled again. All times are seconds since the Unix epoch.
#[derive(Debug, Clone, Copy, PartialEq, Eq, Structural)]
pub struct RateLimitTable {
    pub evga: Option<i64>,
    pub newegg: Option<i64>,
    pub bestbuy: Option<i64>,
    pub nvidia: Option<i64>,
    pub bnh: Option<i64>,
    pub amazon: Option<i64>,
}

impl View for RateLimitTable {
    type V = Map<ProviderKey, int>;

    open spec fn view(&self) -> Map<ProviderKey, int> {
        Map::new(
            |key: ProviderKey| self.entry(key) is Some,
            |key: ProviderKey| self.entry(key)->Some_0 as int,
        )
    }
}

impl RateLimitTable {
    /// The entry stored for a provider.
    pub open spec fn entry(&self, key: ProviderKey) -> Option<i64> {
        match key {
            ProviderKey::Evga => self.evga,
            ProviderKey::NewEgg => self.newegg,
            ProviderKey::BestBuy => self.bestbuy,
            ProviderKey::Nvidia => self.nvidia,
            ProviderKey::BnH => self.bnh,
            ProviderKey::Amazon => self.amazon,
        }
    }

    /// A table without entries.
    pub fn new() -> (table: Self)
        ensures
            table@ == Map::<ProviderKey, int>::empty(),
    {
        let table = RateLimitTable {
            evga: None,
            newegg: None,
            bestbuy: None,
            nvidia: None,
            bnh: None,
            amazon: None,
        };
        assert(table@ =~= Map::<ProviderKey, int>::empty());
        table
    }

    /// The retry time stored for a provider, if there is one.
    pub fn get(&self, key: ProviderKey) -> (until: Option<i64>)
        ensures
            until == self.entry(key),
            until is Some <==> self@.contains_key(key),
            until is Some ==> self@[key] == until->Some_0,
    {
        match key {
            ProviderKey::Evga => self.evga,
            ProviderKey::NewEgg => self.newegg,
            ProviderKey::BestBuy => self.bestbuy,
            ProviderKey::Nvidia => self.nvidia,
            ProviderKey::BnH => self.bnh,
            ProviderKey::Amazon => self.amazon,
        }
    }

    /// Stores a retry time for a provider, in place of an earlier one.
    pub fn set(&mut self, key: ProviderKey, until: i64)
        ensures
            final(self)@ == old(self)@.insert(key, until as int),
    {
        match key {
            ProviderKey::Evga => self.evga = Some(until),
            ProviderKey::NewEgg => self.newegg = Some(until),
            ProviderKey::BestBuy => self.bestbuy = Some(until),
            ProviderKey::Nvidia => self.nvidia = Some(until),
            ProviderKey::BnH => self.bnh = Some(until),
            ProviderKey::Amazon => self.amazon = Some(until),
        }
        assert(self@ =~= old(self)@.insert(key, until as int));
    }

    /// Whether a provider is to be left alone at `now`.
    pub fn is_rate_limited(&self, key: ProviderKey, now: i64) -> (limited: bool)
        ensures
            limited == rate_limited(self@, key, now as int),
    {
        match self.get(key) {
            Some(until) => until >= now,
            None => false,
        }
    }
}

/// A provider is rate-limited while the table holds a retry time for it that
/// has not passed. An entry whose time has passed counts as absent.
pub open spec fn rate_limited(limits: Map<ProviderKey, int>, key: ProviderKey, now: int) -> bool {
    limits.contains_key(key) && limits[key] >= now
}

/// Whether a provider may be polled at `now`: scraping as a whole is not
/// paused, and the provider is not rate-limited.
pub open spec fn scrape_allowed(
    pause: Option<i64>,
    limits: Map<ProviderKey, int>,
    key: ProviderKey,
    now: int,
) -> bool {
    &&& pause is Some ==> pause->Some_0 < now
    &&& !rate_limited(limits, key, now)
}

/// The cadence gate: a batch may go out once `cooldown` seconds have passed
/// since the last one.
pub open spec fn cadence_open(last_sent: int, now: int, cooldown: int) -> bool {
    now - last_sent >= cooldown
}

/// The retry time that a rate limit seen at `now` sets.
pub open spec fn retry_time(now: int) -> int {
    if now + BACKOFF_SECONDS > i64::MAX {
        i64::MAX as int
    } else {
        now + BACKOFF_SECONDS
    }
}

/// A provider that signalled a rate limit at `now` is left alone up to the
/// retry time that this sets, and may be polled again once it has passed.
pub proof fn lemma_backoff_window(limits: Map<ProviderKey, int>, key: ProviderKey, now: int, later: int)
    ensures
        rate_limited(limits.insert(key, retry_time(now)), key, later) == (later <= retry_time(now)),
        later <= now + BACKOFF_SECONDS && now + BACKOFF_SECONDS <= i64::MAX ==> rate_limited(
            limits.insert(key, retry_time(now)),
            key,
            later,
        ),
{
}

/// The settings after a batch of notifications that ended at `now`: the
/// cadence restarts if at least one notification went through, and is left
/// alone otherwise.
pub open spec fn after_batch(config: ApplicationConfig, delivered: int, now: i64) -> ApplicationConfig {
    ApplicationConfig {
        last_notification_sent: if delivered > 0 {
            now
        } else {
            config.last_notification_sent
        },
        ..config
    }
}

/// Someone who is told of new stock by text message.
#[derive(Debug, Clone, PartialEq, Eq)]
pub struct Subscriber {
    pub service: Vec<String>,
    pub to_phone_number: String,
    pub active: bool,
}

impl Subscriber {
    /// Whether the subscription lists a provider's identifier.
    pub open spec fn lists(&self, key: Seq<char>) -> bool {
        exists|i: int| 0 <= i < self.service@.len() && (#[trigger] self.service@[i])@ == key
    }

    /// Whether the subscriber is to be told of products of this provider:
    /// the record is active and its services list the provider.
    pub open spec fn wants(&self, key: Seq<char>) -> bool {
        self.active && self.lists(key)
    }

    /// Whether the subscriber is to be told of products of this provider.
    pub fn is_subscribed(&self, key: &str) -> (wanted: bool)
        ensures
            wanted == self.wants(key@),
    {
        if !self.active {
            return false;
        }
        let mut i: usize = 0;
        while i < self.service.len()
            invariant
                self.active,
                i <= self.service@.len(),
                forall|j: int| 0 <= j < i ==> (#[trigger] self.service@[j])@ != key@,
            decreases self.service@.len() - i,
        {
            if same_text(self.service[i].as_str(), key) {
                assert(self.service@[i as int]@ == key@);
                return true;
            }
            i += 1;
        }
        false
    }
}

/// The settings and the state that outlive a cycle.
#[derive(Debug, Clone, PartialEq, Eq)]
pub struct ApplicationConfig {
    pub last_seen_evga: i64,
    pub last_seen_newegg: i64,
    pub last_seen_asus: i64,
    pub last_notification_sent: i64,
    pub twilio_auth_token: Option<String>,
    pub twilio_account_id: Option<String>,
    pub imap_username: Option<String>,
    pub imap_password: Option<String>,
    pub imap_host: Option<String>,
    pub from_phone_number: Option<String>,
    pub should_open_browser: bool,
    pub daemon_mode: bool,
    pub discord_url: Option<String>,
    pub scraping_timeout: Option<i64>,
    pub ratelimit_keys: RateLimitTable,
    pub proxy_url: Option<String>,
}

impl ApplicationConfig {
    /// Whether the cadence gate is open at `now`.
    pub fn should_send_notification_at(&self, now: i64) -> (open: bool)
        ensures
            open == cadence_open(self.last_notification_sent as int, now as int, COOLDOWN_SECONDS as int),
    {
        now as i128 - self.last_notification_sent as i128 >= COOLDOWN_SECONDS as i128
    }

    /// Whether the cadence gate is open at the clock's present reading.
    pub fn should_send_notification(&self) -> (open: bool)
        ensures
            exists|now: i64|
                open == #[trigger] cadence_open(
                    self.last_notification_sent as int,
                    now as int,
                    COOLDOWN_SECONDS as int,
                ),
    {
        let now = current_time();
        self.should_send_notification_at(now)
    }

    /// Whether the three settings of the text-message channel are all there.
    pub fn has_twilio_config(&self) -> (complete: bool)
        ensures
            complete == (self.twilio_account_id is Some && self.twilio_auth_token is Some
                && self.from_phone_number is Some),
    {
        self.twilio_account_id.is_some() && self.twilio_auth_token.is_some()
            && self.from_phone_number.is_some()
    }

    /// Whether the three settings of the mailbox are all there.
    pub fn has_imap_config(&self) -> (complete: bool)
        ensures
            complete == (self.imap_host is Some && self.imap_username is Some
                && self.imap_password is Some),
    {
        self.imap_host.is_some() && self.imap_username.is_some() && self.imap_password.is_some()
    }

    /// Whether a found product's page is to be opened in a browser.
    pub fn should_open_browser(&self) -> (open: bool)
        ensures
            open == self.should_open_browser,
    {
        self.should_open_browser
    }

    /// Whether a provider may be polled at `now`.
    pub fn should_scrape_at(&self, key: ProviderKey, now: i64) -> (allowed: bool)
        ensures
            allowed == scrape_allowed(self.scraping_timeout, self.ratelimit_keys@, key, now as int),
    {
        let unpaused = match self.scraping_timeout {
            Some(until) => until < now,
            None => true,
        };
        unpaused && !self.ratelimit_keys.is_rate_limited(key, now)
    }

    /// Whether a provider may be polled at the clock's present reading.
    pub fn should_scrape(&self, key: ProviderKey) -> (allowed: bool)
        ensures
            exists|now: i64|
                allowed == #[trigger] scrape_allowed(
                    self.scraping_timeout,
                    self.ratelimit_keys@,
                    key,
                    now as int,
                ),
    {
        let now = current_time();
        self.should_scrape_at(key, now)
    }

    /// Leaves a provider alone for the backoff time, counted from `now`.
    pub fn add_ratelimit(&mut self, key: ProviderKey, now: i64)
        ensures
            final(self).ratelimit_keys@ == old(self).ratelimit_keys@.insert(key, retry_time(now as int)),
            *final(self) == (ApplicationConfig { ratelimit_keys: final(self).ratelimit_keys, ..*old(self) }),
    {
        let until: i64 = if now > i64::MAX - BACKOFF_SECONDS {
            i64::MAX
        } else {
            now + BACKOFF_SECONDS
        };
        self.ratelimit_keys.set(key, until);
    }

    /// Records that a batch in which `delivered` notifications went through
    /// ended at `now`. A batch in which none did leaves the cadence alone.
    pub fn record_batch(&mut self, delivered: usize, now: i64)
        ensures
            *final(self) == after_batch(*old(self), delivered as int, now),
    {
        if delivered > 0 {
            self.last_notification_sent = now;
        }
    }
}

/// Everything the notifier is configured with.
#[derive(Debug, Clone, PartialEq, Eq)]
pub struct Config {
    pub application_config: ApplicationConfig,
    pub subscribers: Vec<Subscriber>,
    pub products: Vec<Product>,
}

} // verus!
