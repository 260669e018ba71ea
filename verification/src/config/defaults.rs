//! The values that settings take where the configuration is silent.

use crate::text::views;
use vstd::prelude::*;

verus! {

/// The default of a switch that is on unless turned off.
pub fn true_fn() -> (b: bool)
    ensures
        b,
{
    true
}

/// `val` times the number of processing units, saturating.
pub open spec fn scaled(val: int, parallelism: int, max: int) -> int {
    if val * parallelism <= max {
        val * parallelism
    } else {
        max
    }
}

/// Scales `val` by the number of processing units, saturating at the
/// largest value.
pub fn parallelism_scaled(val: usize, parallelism: usize) -> (r: usize)
    ensures
        r == scaled(val as int, parallelism as int, usize::MAX as int),
{
    match val.checked_mul(parallelism) {
        Some(r) => r,
        None => usize::MAX,
    }
}

/// Scales `val` by the number of processing units, saturating at the
/// largest 32-bit value.
pub fn parallelism_scaled_u32(val: u32, parallelism: usize) -> (r: u32)
    ensures
        r == scaled(val as int, parallelism as int, u32::MAX as int),
{
    let wide = parallelism_scaled(val as usize, parallelism);
    if wide <= u32::MAX as usize {
        wide as u32
    } else {
        u32::MAX
    }
}

/// A base capacity scaled by the number of processing units, plus a fixed
/// part, saturating.
pub open spec fn scaled_capacity(base: int, parallelism: int, fixed: int) -> int {
    if scaled(base, parallelism, u32::MAX as int) + fixed <= u32::MAX {
        scaled(base, parallelism, u32::MAX as int) + fixed
    } else {
        u32::MAX as int
    }
}

/// Permissions of the UNIX socket, as the digits of an octal mode.
pub fn default_unix_socket_perms() -> (v: u32)
    ensures
        v == 660,
{
    660
}

/// How many database backups are kept.
pub fn default_database_backups_to_keep() -> (v: i16)
    ensures
        v == 1,
{
    1
}

/// Entries of the DNS memory cache.
pub fn default_dns_cache_entries() -> (v: u32)
    ensures
        v == 32768,
{
    32768
}

/// Least time to live of a DNS cache entry: three hours, in seconds.
pub fn default_dns_min_ttl() -> (v: u64)
    ensures
        v == 10800,
{
    60 * 180
}

/// Least time to live of an NXDOMAIN entry: three days, in seconds.
pub fn default_dns_min_ttl_nxdomain() -> (v: u64)
    ensures
        v == 259200,
{
    60 * 60 * 24 * 3
}

/// Retries after a DNS timeout.
pub fn default_dns_attempts() -> (v: u16)
    ensures
        v == 10,
{
    10
}

/// Seconds to wait for a DNS reply.
pub fn default_dns_timeout() -> (v: u64)
    ensures
        v == 10,
{
    10
}

/// DNS record lookup strategy: 5, IPv4 then IPv6.
pub fn default_ip_lookup_strategy() -> (v: u8)
    ensures
        v == 5,
{
    5
}

/// Largest upload: 20 MiB.
pub fn default_max_request_size() -> (v: usize)
    ensures
        v == 20971520,
{
    20 * 1024 * 1024
}

/// Connection timeout of the default client, in seconds.
pub fn default_request_conn_timeout() -> (v: u64)
    ensures
        v == 10,
{
    10
}

/// Request timeout of the default client, in seconds.
pub fn default_request_timeout() -> (v: u64)
    ensures
        v == 35,
{
    35
}

/// Total timeout of one request of the default client, in seconds.
pub fn default_request_total_timeout() -> (v: u64)
    ensures
        v == 320,
{
    320
}

/// Idle timeout of the default client's pool, in seconds.
pub fn default_request_idle_timeout() -> (v: u64)
    ensures
        v == 5,
{
    5
}

/// Idle connections per host of the default client.
pub fn default_request_idle_per_host() -> (v: u16)
    ensures
        v == 1,
{
    1
}

/// Connection timeout of well-known resolution, in seconds.
pub fn default_well_known_conn_timeout() -> (v: u64)
    ensures
        v == 6,
{
    6
}

/// Request timeout of well-known resolution, in seconds.
pub fn default_well_known_timeout() -> (v: u64)
    ensures
        v == 10,
{
    10
}

/// Request timeout of the federation client, in seconds.
pub fn default_federation_timeout() -> (v: u64)
    ensures
        v == 25,
{
    25
}

/// Idle timeout of the federation client's pool, in seconds.
pub fn default_federation_idle_timeout() -> (v: u64)
    ensures
        v == 25,
{
    25
}

/// Idle connections per host of the federation client.
pub fn default_federation_idle_per_host() -> (v: u16)
    ensures
        v == 1,
{
    1
}

/// Total timeout of one outbound transaction, in seconds.
pub fn default_sender_timeout() -> (v: u64)
    ensures
        v == 180,
{
    180
}

/// Idle timeout of the sender's pool, in seconds.
pub fn default_sender_idle_timeout() -> (v: u64)
    ensures
        v == 180,
{
    180
}

/// Upper limit of the sender's retry backoff: one day, in seconds.
pub fn default_sender_retry_backoff_limit() -> (v: u64)
    ensures
        v == 86400,
{
    86400
}

/// Request timeout towards appservices, in seconds.
pub fn default_appservice_timeout() -> (v: u64)
    ensures
        v == 35,
{
    35
}

/// Idle timeout of the appservice pool, in seconds.
pub fn default_appservice_idle_timeout() -> (v: u64)
    ensures
        v == 300,
{
    300
}

/// Idle timeout of the push gateway pool, in seconds.
pub fn default_pusher_idle_timeout() -> (v: u64)
    ensures
        v == 15,
{
    15
}

/// How many previous events are fetched at most.
pub fn default_max_fetch_prev_events() -> (v: u16)
    ensures
        v == 192,
{
    192
}

/// Lifetime of an OpenID token: one hour, in seconds.
pub fn default_openid_token_ttl() -> (v: u64)
    ensures
        v == 3600,
{
    60 * 60
}

/// Lifetime of TURN credentials: one day, in seconds.
pub fn default_turn_ttl() -> (v: u64)
    ensures
        v == 86400,
{
    60 * 60 * 24
}

/// Seconds without activity after which a user counts as idle.
pub fn default_presence_idle_timeout_s() -> (v: u64)
    ensures
        v == 300,
{
    5 * 60
}

/// Seconds without activity after which a user counts as offline.
pub fn default_presence_offline_timeout_s() -> (v: u64)
    ensures
        v == 1800,
{
    30 * 60
}

/// Seconds after which a typing notice from a peer lapses.
pub fn default_typing_federation_timeout_s() -> (v: u64)
    ensures
        v == 30,
{
    30
}

/// Least typing timeout a client may ask for, in seconds.
pub fn default_typing_client_timeout_min_s() -> (v: u64)
    ensures
        v == 15,
{
    15
}

/// Greatest typing timeout a client may ask for, in seconds.
pub fn default_typing_client_timeout_max_s() -> (v: u64)
    ensures
        v == 45,
{
    45
}

/// RocksDB recovery mode: 1, tolerate corrupted tail records.
pub fn default_rocksdb_recovery_mode() -> (v: u8)
    ensures
        v == 1,
{
    1
}

/// Seconds after which the RocksDB log rolls; 0 turns it off.
pub fn default_rocksdb_log_time_to_roll() -> (v: usize)
    ensures
        v == 0,
{
    0
}

/// How many RocksDB log files are kept.
pub fn default_rocksdb_max_log_files() -> (v: usize)
    ensures
        v == 3,
{
    3
}

/// Largest RocksDB log file: 4 MiB.
pub fn default_rocksdb_max_log_file_size() -> (v: usize)
    ensures
        v == 4194304,
{
    4 * 1024 * 1024
}

/// RocksDB background threads; 0 leaves the choice to the engine.
pub fn default_rocksdb_parallelism_threads() -> (v: usize)
    ensures
        v == 0,
{
    0
}

/// RocksDB compression level: 32767 stands for the algorithm's own default.
pub fn default_rocksdb_compression_level() -> (v: i32)
    ensures
        v == 32767,
{
    32767
}

/// RocksDB bottommost compression level: 32767 stands for the algorithm's own default.
pub fn default_rocksdb_bottommost_compression_level() -> (v: i32)
    ensures
        v == 32767,
{
    32767
}

/// RocksDB statistics level.
pub fn default_rocksdb_stats_level() -> (v: u8)
    ensures
        v == 1,
{
    1
}

/// Most bytes read of a page for a URL preview.
pub fn default_url_preview_max_spider_size() -> (v: usize)
    ensures
        v == 384000,
{
    384_000
}

/// How many queued events per destination survive a restart.
pub fn default_startup_netburst_keep() -> (v: i64)
    ensures
        v == 50,
{
    50
}

/// Capacity of the PDU cache.
pub fn default_pdu_cache_capacity(parallelism: usize) -> (v: u32)
    ensures
        v == scaled_capacity(10_000, parallelism as int, 100_000),
{
    parallelism_scaled_u32(10_000, parallelism).saturating_add(100_000)
}

/// Capacity of the auth chain cache.
pub fn default_auth_chain_cache_capacity(parallelism: usize) -> (v: u32)
    ensures
        v == scaled_capacity(10_000, parallelism as int, 100_000),
{
    parallelism_scaled_u32(10_000, parallelism).saturating_add(100_000)
}

/// Capacity of the cache from short event ids to event ids.
pub fn default_shorteventid_cache_capacity(parallelism: usize) -> (v: u32)
    ensures
        v == scaled_capacity(50_000, parallelism as int, 100_000),
{
    parallelism_scaled_u32(50_000, parallelism).saturating_add(100_000)
}

/// Capacity of the cache from event ids to short event ids.
pub fn default_eventidshort_cache_capacity(parallelism: usize) -> (v: u32)
    ensures
        v == scaled_capacity(25_000, parallelism as int, 100_000),
{
    parallelism_scaled_u32(25_000, parallelism).saturating_add(100_000)
}

/// Capacity of the cache from short state keys to state keys.
pub fn default_shortstatekey_cache_capacity(parallelism: usize) -> (v: u32)
    ensures
        v == scaled_capacity(10_000, parallelism as int, 100_000),
{
    parallelism_scaled_u32(10_000, parallelism).saturating_add(100_000)
}

/// Capacity of the cache from state keys to short state keys.
pub fn default_statekeyshort_cache_capacity(parallelism: usize) -> (v: u32)
    ensures
        v == scaled_capacity(10_000, parallelism as int, 100_000),
{
    parallelism_scaled_u32(10_000, parallelism).saturating_add(100_000)
}

/// Capacity of the server visibility cache.
pub fn default_server_visibility_cache_capacity(parallelism: usize) -> (v: u32)
    ensures
        v == scaled(500, parallelism as int, u32::MAX as int),
{
    parallelism_scaled_u32(500, parallelism)
}

/// Capacity of the user visibility cache.
pub fn default_user_visibility_cache_capacity(parallelism: usize) -> (v: u32)
    ensures
        v == scaled(1000, parallelism as int, u32::MAX as int),
{
    parallelism_scaled_u32(1000, parallelism)
}

/// Capacity of the state info cache.
pub fn default_stateinfo_cache_capacity(parallelism: usize) -> (v: u32)
    ensures
        v == scaled(1000, parallelism as int, u32::MAX as int),
{
    parallelism_scaled_u32(1000, parallelism)
}

/// Capacity of the space hierarchy cache.
pub fn default_roomid_spacehierarchy_cache_capacity(parallelism: usize) -> (v: u32)
    ensures
        v == scaled(1000, parallelism as int, u32::MAX as int),
{
    parallelism_scaled_u32(1000, parallelism)
}

/// The database backend.
pub fn default_database_backend() -> (s: String)
    ensures
        s@ == "rocksdb"@,
{
    "rocksdb".to_owned()
}

/// Where the flame graph trace is written.
pub fn default_tracing_flame_output_path() -> (s: String)
    ensures
        s@ == "./tracing.folded"@,
{
    "./tracing.folded".to_owned()
}

/// The path of a push gateway's notify endpoint.
pub fn default_notification_push_path() -> (s: String)
    ensures
        s@ == "/_matrix/push/v1/notify"@,
{
    "/_matrix/push/v1/notify".to_owned()
}

/// The RocksDB log level.
pub fn default_rocksdb_log_level() -> (s: String)
    ensures
        s@ == "error"@,
{
    "error".to_owned()
}

/// The RocksDB compression algorithm.
pub fn default_rocksdb_compression_algo() -> (s: String)
    ensures
        s@ == "zstd"@,
{
    "zstd".to_owned()
}

/// The log filter of error reporting.
pub fn default_sentry_filter() -> (s: String)
    ensures
        s@ == "info"@,
{
    "info".to_owned()
}

/// The tag that marks the admin room.
pub fn default_admin_room_tag() -> (s: String)
    ensures
        s@ == "m.server_notice"@,
{
    "m.server_notice".to_owned()
}

/// The log filter of the flame graph trace: everything but HTTP/2 in a debug build.
pub fn default_tracing_flame_filter(debug_build: bool) -> (s: String)
    ensures
        s@ == (if debug_build {
            "trace,h2=off"@
        } else {
            "info"@
        }),
{
    if debug_build {
        "trace,h2=off".to_owned()
    } else {
        "info".to_owned()
    }
}

/// The log filter of the Jaeger exporter: everything but HTTP/2 in a debug build.
pub fn default_jaeger_filter(debug_build: bool) -> (s: String)
    ensures
        s@ == (if debug_build {
            "trace,h2=off"@
        } else {
            "info"@
        }),
{
    if debug_build {
        "trace,h2=off".to_owned()
    } else {
        "info".to_owned()
    }
}

/// The log filter of captures in the admin room: debug logging in a debug build.
pub fn default_admin_log_capture(debug_build: bool) -> (s: String)
    ensures
        s@ == (if debug_build {
            "debug"@
        } else {
            "info"@
        }),
{
    if debug_build {
        "debug".to_owned()
    } else {
        "info".to_owned()
    }
}

/// The address ranges that outbound requests never go to: loopback,
/// private, link-local, documentation and multicast ranges.
pub open spec fn ip_range_denylist() -> Seq<Seq<char>> {
    seq![
        "127.0.0.0/8"@,
        "10.0.0.0/8"@,
        "172.16.0.0/12"@,
        "192.168.0.0/16"@,
        "100.64.0.0/10"@,
        "192.0.0.0/24"@,
        "169.254.0.0/16"@,
        "192.88.99.0/24"@,
        "198.18.0.0/15"@,
        "192.0.2.0/24"@,
        "198.51.100.0/24"@,
        "203.0.113.0/24"@,
        "224.0.0.0/4"@,
        "::1/128"@,
        "fe80::/10"@,
        "fc00::/7"@,
        "2001:db8::/32"@,
        "ff00::/8"@,
        "fec0::/10"@,
    ]
}

/// The default denylist of address ranges for outbound requests.
pub fn default_ip_range_denylist() -> (v: Vec<String>)
    ensures
        views(v@) == ip_range_denylist(),
{
    let mut v: Vec<String> = Vec::new();
    v.push("127.0.0.0/8".to_owned());
    v.push("10.0.0.0/8".to_owned());
    v.push("172.16.0.0/12".to_owned());
    v.push("192.168.0.0/16".to_owned());
    v.push("100.64.0.0/10".to_owned());
    v.push("192.0.0.0/24".to_owned());
    v.push("169.254.0.0/16".to_owned());
    v.push("192.88.99.0/24".to_owned());
    v.push("198.18.0.0/15".to_owned());
    v.push("192.0.2.0/24".to_owned());
    v.push("198.51.100.0/24".to_owned());
    v.push("203.0.113.0/24".to_owned());
    v.push("224.0.0.0/4".to_owned());
    v.push("::1/128".to_owned());
    v.push("fe80::/10".to_owned());
    v.push("fc00::/7".to_owned());
    v.push("2001:db8::/32".to_owned());
    v.push("ff00::/8".to_owned());
    v.push("fec0::/10".to_owned());
    assert(views(v@) =~= ip_range_denylist());
    v
}

/// What is appended to the display name of a new user.
pub fn default_new_user_displayname_suffix() -> (s: String)
    ensures
        s@ == "\u{1F3F3}\u{FE0F}\u{200D}\u{26A7}\u{FE0F}"@,
{
    "\u{1F3F3}\u{FE0F}\u{200D}\u{26A7}\u{FE0F}".to_owned()
}

} // verus!
