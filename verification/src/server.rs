//! Decision rules of the servers: request rate limits of the identity
//! server, the push notification clients' configuration, and the bootstrap
//! node's configuration.

use vstd::prelude::*;
use vstd::string::StringSliceAdditionalSpecFns;
use std::path::PathBuf;
use std::collections::HashMap;
use crate::text::{bytes_prefix, str_starts_with, string_of};

verus! {

/// `std::path::PathBuf`, held by configurations and storages.
#[verifier::external_type_specification]
#[verifier::external_body]
pub struct ExPathBuf(PathBuf);

/// Rate limit of one endpoint: requests allowed per window.
#[derive(Debug, Clone, Copy)]
pub struct RateLimitConfig {
    pub max_requests: u32,
    pub window_seconds: u64,
}

/// Limit (requests, window in seconds) of a request path, by its prefix;
/// none for unlimited paths.
pub open spec fn path_limit(path: Seq<u8>) -> Option<(u32, u64)> {
    if bytes_prefix("/api/v1/register".spec_bytes(), path) {
        Some((5u32, 3600u64))
    } else if bytes_prefix("/api/v1/lookup".spec_bytes(), path) {
        Some((100u32, 3600u64))
    } else if bytes_prefix("/api/v1/prekeys".spec_bytes(), path) {
        Some((50u32, 3600u64))
    } else {
        None
    }
}

impl RateLimitConfig {
    /// Registration: 5 requests per hour.
    pub fn register() -> (res: Self)
        ensures
            res.max_requests == 5 && res.window_seconds == 3600,
    {
        Self { max_requests: 5, window_seconds: 3600 }
    }

    /// Lookup: 100 requests per hour.
    pub fn lookup() -> (res: Self)
        ensures
            res.max_requests == 100 && res.window_seconds == 3600,
    {
        Self { max_requests: 100, window_seconds: 3600 }
    }

    /// Prekey updates: 50 requests per hour.
    pub fn update_prekeys() -> (res: Self)
        ensures
            res.max_requests == 50 && res.window_seconds == 3600,
    {
        Self { max_requests: 50, window_seconds: 3600 }
    }

    /// The limit of a request path: registration, lookup and prekey paths
    /// are limited, every other path (such as the health check) is not.
    pub fn for_path(path: &str) -> (res: Option<Self>)
        ensures
            match res {
                Some(c) => path_limit(path.spec_bytes()) == Some((c.max_requests, c.window_seconds)),
                None => path_limit(path.spec_bytes()) is None,
            },
    {
        if str_starts_with(path, "/api/v1/register") {
            Some(Self::register())
        } else if str_starts_with(path, "/api/v1/lookup") {
            Some(Self::lookup())
        } else if str_starts_with(path, "/api/v1/prekeys") {
            Some(Self::update_prekeys())
        } else {
            None
        }
    }

    /// Whether a request is let through, given the count stored for its
    /// client and path (none before the first request of a window).
    pub fn admits(&self, stored_count: Option<u32>) -> (res: bool)
        ensures
            res == (match stored_count {
                Some(c) => c,
                None => 0u32,
            } < self.max_requests),
    {
        let current: u32 = match stored_count {
            Some(c) => c,
            None => 0,
        };
        current < self.max_requests
    }

    /// Requests left in the window after the count has been raised to
    /// `new_count` (zero once the limit is reached).
    pub fn remaining(&self, new_count: u32) -> (res: u32)
        ensures
            res == if new_count >= self.max_requests {
                0
            } else {
                self.max_requests - new_count
            },
    {
        self.max_requests.saturating_sub(new_count)
    }
}

/// What the rate limiter learns from the counter store while it handles
/// one request of a limited path.
#[derive(Debug, Clone, Copy, PartialEq, Eq, Structural)]
pub enum RateLimitEvent {
    /// The count stored for the client and path (none before the first
    /// request of a window).
    CountRead(Option<u32>),
    /// The count after the increment.
    Incremented(u32),
    /// The expiry of a new window was set; the count it was set for.
    ExpirySet(u32),
    /// The store failed.
    StoreFailed,
}

/// What the rate limiter does next.
#[derive(Debug, Clone, Copy, PartialEq, Eq, Structural)]
pub enum RateLimitAction {
    /// Increment the counter.
    Increment,
    /// Set the counter to expire after this many seconds.
    SetExpiry(u64),
    /// Let the request through, with the limit and the requests left.
    Allow { limit: u32, remaining: u32 },
    /// Answer 429 Too Many Requests.
    Reject,
    /// Answer 500: the store failed.
    Fail,
}

/// The step of the rate limiter: a count below the limit is incremented
/// and anything else rejected; the first request of a window sets the
/// expiry before the request is allowed; a store failure fails the request.
pub open spec fn rate_limit_step(config: RateLimitConfig, event: RateLimitEvent) -> RateLimitAction {
    match event {
        RateLimitEvent::CountRead(c) => if (match c {
            Some(n) => n,
            None => 0u32,
        }) < config.max_requests {
            RateLimitAction::Increment
        } else {
            RateLimitAction::Reject
        },
        RateLimitEvent::Incremented(n) => if n == 1 {
            RateLimitAction::SetExpiry(config.window_seconds)
        } else {
            RateLimitAction::Allow {
                limit: config.max_requests,
                remaining: if n >= config.max_requests {
                    0
                } else {
                    (config.max_requests - n) as u32
                },
            }
        },
        RateLimitEvent::ExpirySet(n) => RateLimitAction::Allow {
            limit: config.max_requests,
            remaining: if n >= config.max_requests {
                0
            } else {
                (config.max_requests - n) as u32
            },
        },
        RateLimitEvent::StoreFailed => RateLimitAction::Fail,
    }
}

/// Law: after the stored count is read, a request is counted exactly when
/// the count (zero when none is stored) is below the endpoint's own limit,
/// and rejected otherwise; nothing else can follow the read.
pub proof fn law_admission_against_own_limit(config: RateLimitConfig, n: u32)
    ensures
        rate_limit_step(config, RateLimitEvent::CountRead(Some(n))) == (if n < config.max_requests {
            RateLimitAction::Increment
        } else {
            RateLimitAction::Reject
        }),
        rate_limit_step(config, RateLimitEvent::CountRead(None)) == (if 0 < config.max_requests {
            RateLimitAction::Increment
        } else {
            RateLimitAction::Reject
        }),
{
}

/// Law: a request let through reports the endpoint's own limit, and the
/// requests it reports as left plus the count it was counted as make up
/// that limit (none are left once the count has reached it); only the
/// first request of a window sets the expiry, to the endpoint's window.
pub proof fn law_allowance_accounting(config: RateLimitConfig, n: u32)
    ensures
        n != 1 ==> (rate_limit_step(config, RateLimitEvent::Incremented(n)) matches RateLimitAction::Allow {
            limit,
            remaining,
        } && limit == config.max_requests && (n <= config.max_requests ==> remaining + n
            == config.max_requests) && (n >= config.max_requests ==> remaining == 0)),
        rate_limit_step(config, RateLimitEvent::Incremented(1)) == RateLimitAction::SetExpiry(
            config.window_seconds,
        ),
        rate_limit_step(config, RateLimitEvent::ExpirySet(n)) matches RateLimitAction::Allow {
            limit,
            remaining,
        } && limit == config.max_requests && (n <= config.max_requests ==> remaining + n
            == config.max_requests) && (n >= config.max_requests ==> remaining == 0),
        rate_limit_step(config, RateLimitEvent::StoreFailed) == RateLimitAction::Fail,
{
}

impl RateLimitConfig {
    /// The next action of the rate limiter after an event.
    pub fn next_action(&self, event: RateLimitEvent) -> (res: RateLimitAction)
        ensures
            res == rate_limit_step(*self, event),
    {
        match event {
            RateLimitEvent::CountRead(c) => if self.admits(c) {
                RateLimitAction::Increment
            } else {
                RateLimitAction::Reject
            },
            RateLimitEvent::Incremented(n) => if starts_window(n) {
                RateLimitAction::SetExpiry(self.window_seconds)
            } else {
                RateLimitAction::Allow { limit: self.max_requests, remaining: self.remaining(n) }
            },
            RateLimitEvent::ExpirySet(n) => RateLimitAction::Allow {
                limit: self.max_requests,
                remaining: self.remaining(n),
            },
            RateLimitEvent::StoreFailed => RateLimitAction::Fail,
        }
    }
}

/// Whether the counter's expiry is set: on the first request of a window.
pub fn starts_window(new_count: u32) -> (res: bool)
    ensures
        res == (new_count == 1),
{
    new_count == 1
}

/// Client identifier of a request: its `X-Forwarded-For` header, or
/// `unknown` without one.
pub fn client_id(forwarded_for: Option<&str>) -> (res: String)
    ensures
        res@ == match forwarded_for {
            Some(h) => h@,
            None => "unknown"@,
        },
{
    match forwarded_for {
        Some(h) => string_of(h),
        None => string_of("unknown"),
    }
}

/// Key of the request counter of a path and client: `ratelimit:PATH:CLIENT`.
pub fn rate_limit_key(path: &str, client_id: &str) -> (res: String)
    ensures
        res@ == "ratelimit:"@ + path@ + ":"@ + client_id@,
{
    let mut k = string_of("ratelimit:");
    k.append(path);
    k.append(":");
    k.append(client_id);
    k
}

/// Query of a username lookup.
#[derive(Debug, Clone)]
pub struct LookupQuery {
    pub username: String,
}

/// Name of the APNs endpoint.
pub open spec fn apns_endpoint_name(production: bool) -> Seq<char> {
    if production {
        "Production"@
    } else {
        "Sandbox"@
    }
}

/// Message of every refused APNs send.
pub open spec fn apns_pending_message() -> Seq<char> {
    "APNs HTTP/2 client implementation pending - requires full a2 integration or manual HTTP/2"@
}

/// Client of the Apple Push Notification service (token-based).
pub struct ApnsClient {
    key_id: String,
    team_id: String,
    bundle_id: String,
    production: bool,
}

impl ApnsClient {
    /// The key ID.
    pub closed spec fn key_id_view(&self) -> Seq<char> {
        self.key_id@
    }

    /// The team ID.
    pub closed spec fn team_id_view(&self) -> Seq<char> {
        self.team_id@
    }

    /// The app bundle ID.
    pub closed spec fn bundle_id_view(&self) -> Seq<char> {
        self.bundle_id@
    }

    /// Whether the production endpoint is used.
    pub closed spec fn production_view(&self) -> bool {
        self.production
    }

    /// A client for a key, team and bundle, once the private key file has
    /// been found readable.
    pub fn with_credentials(key_id: String, team_id: String, bundle_id: String, production: bool) -> (res: Self)
        ensures
            res.key_id_view() == key_id@,
            res.team_id_view() == team_id@,
            res.bundle_id_view() == bundle_id@,
            res.production_view() == production,
    {
        Self { key_id, team_id, bundle_id, production }
    }

    /// Name of the endpoint in use.
    pub fn endpoint(&self) -> (res: &'static str)
        ensures
            res@ == apns_endpoint_name(self.production_view()),
    {
        if self.production {
            "Production"
        } else {
            "Sandbox"
        }
    }

    /// Sends a notification. The HTTP/2 transport is not in place yet, so
    /// every request is refused with the same message.
    pub fn send(
        &self,
        device_token: &str,
        title: &str,
        body: &str,
        data: &HashMap<String, String>,
        badge: Option<u32>,
    ) -> (res: Result<(), String>)
        ensures
            res matches Err(m) && m@ == apns_pending_message(),
    {
        Err(string_of(
            "APNs HTTP/2 client implementation pending - requires full a2 integration or manual HTTP/2",
        ))
    }

    /// Configuration summary for debugging.
    pub fn info(&self) -> (res: String)
        ensures
            res@ == "APNs client - team_id: "@ + self.team_id_view() + ", key_id: "@
                + self.key_id_view() + ", bundle_id: "@ + self.bundle_id_view() + ", endpoint: "@
                + apns_endpoint_name(self.production_view()),
    {
        let mut s = string_of("APNs client - team_id: ");
        s.append(self.team_id.as_str());
        s.append(", key_id: ");
        s.append(self.key_id.as_str());
        s.append(", bundle_id: ");
        s.append(self.bundle_id.as_str());
        s.append(", endpoint: ");
        s.append(self.endpoint());
        s
    }
}

/// Client of Firebase Cloud Messaging.
pub struct FcmClient {
    /// Server key.
    pub api_key: String,
}

impl FcmClient {
    /// A client with a server key.
    pub fn new(server_key: String) -> (res: Self)
        ensures
            res.api_key == server_key,
    {
        Self { api_key: server_key }
    }
}

/// Configuration of the bootstrap node.
#[derive(Debug)]
pub struct Config {
    /// Port of the libp2p listener.
    pub p2p_port: u16,
    /// Port of the HTTP health check.
    pub health_port: u16,
    /// Seed of the deterministic peer ID.
    pub peer_id_seed: String,
    /// Directory of persistent storage.
    pub data_dir: PathBuf,
    pub log_level: String,
}

impl Config {
    /// Checks the configured values: the peer ID seed must not be empty.
    /// Creating the data directory when it is missing is the caller's part.
    pub fn validate(&self) -> (res: Result<(), String>)
        ensures
            res is Ok <==> self.peer_id_seed@.len() > 0,
            res matches Err(m) ==> m@ == "PEER_ID_SEED cannot be empty"@,
    {
        if self.peer_id_seed.as_str().is_empty() {
            return Err(string_of("PEER_ID_SEED cannot be empty"));
        }
        Ok(())
    }
}

} // verus!
