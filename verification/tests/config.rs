use conduwuit_core::config::defaults::{
    default_admin_log_capture, default_admin_room_tag, default_database_backend,
    default_dns_min_ttl, default_dns_min_ttl_nxdomain, default_federation_timeout,
    default_ip_range_denylist, default_jaeger_filter, default_max_request_size,
    default_new_user_displayname_suffix, default_pdu_cache_capacity,
    default_sender_retry_backoff_limit, default_sender_timeout,
    default_server_visibility_cache_capacity, default_shorteventid_cache_capacity,
    default_startup_netburst_keep, default_tracing_flame_filter, default_unix_socket_perms,
    parallelism_scaled, parallelism_scaled_u32, true_fn,
};
use conduwuit_core::config::{
    default_address, default_default_room_version, default_log, default_port,
    default_trusted_servers, Config, IpAddress, ListeningAddr, ListeningPort, WellKnownConfig,
};
use conduwuit_core::room_version::RoomVersion;

fn config(address: ListeningAddr, port: ListeningPort) -> Config {
    Config {
        server_name: "example.org".to_owned(),
        address,
        port,
        tls: None,
        allow_federation: true,
        allow_registration: false,
        registration_token: None,
        forbidden_remote_server_names: Vec::new(),
        auto_deactivate_banned_room_attempts: false,
        block_non_admin_invites: false,
        max_concurrent_requests: 500,
        sender_timeout: default_sender_timeout(),
        federation_timeout: default_federation_timeout(),
        well_known_timeout: 10,
        request_timeout: 35,
        startup_netburst: true,
        startup_netburst_keep: default_startup_netburst_keep(),
        trusted_servers: default_trusted_servers(),
        query_trusted_key_servers_first: false,
        query_trusted_key_servers_first_on_join: true,
        default_room_version: default_default_room_version(),
        allow_unstable_room_versions: true,
        allow_outgoing_presence: true,
        allow_outgoing_read_receipts: true,
        well_known: WellKnownConfig {
            client: None,
            server: None,
            support_page: None,
            support_role: None,
            support_email: None,
            support_mxid: None,
        },
    }
}

#[test]
fn plain_defaults() {
    assert!(true_fn());
    assert_eq!(default_unix_socket_perms(), 660);
    assert_eq!(default_dns_min_ttl(), 10_800);
    assert_eq!(default_dns_min_ttl_nxdomain(), 259_200);
    assert_eq!(default_max_request_size(), 20 * 1024 * 1024);
    assert_eq!(default_sender_timeout(), 180);
    assert_eq!(default_sender_retry_backoff_limit(), 86_400);
    assert_eq!(default_startup_netburst_keep(), 50);
    assert_eq!(default_database_backend(), "rocksdb");
    assert_eq!(default_admin_room_tag(), "m.server_notice");
    assert_eq!(default_default_room_version(), RoomVersion::V10);
    assert_eq!(default_trusted_servers(), vec!["matrix.org".to_owned()]);
    assert_eq!(default_new_user_displayname_suffix(), "\u{1F3F3}\u{FE0F}\u{200D}\u{26A7}\u{FE0F}");
}

#[test]
fn log_defaults_follow_the_build() {
    assert_eq!(default_log(true), "debug");
    assert_eq!(default_log(false), "info");
    assert_eq!(default_admin_log_capture(true), "debug");
    assert_eq!(default_admin_log_capture(false), "info");
    assert_eq!(default_tracing_flame_filter(true), "trace,h2=off");
    assert_eq!(default_tracing_flame_filter(false), "info");
    assert_eq!(default_jaeger_filter(true), "trace,h2=off");
    assert_eq!(default_jaeger_filter(false), "info");
}

#[test]
fn capacities_scale_with_parallelism_and_saturate() {
    assert_eq!(parallelism_scaled(1000, 8), 8000);
    assert_eq!(parallelism_scaled(usize::MAX, 2), usize::MAX);
    assert_eq!(parallelism_scaled(5, 0), 0);
    assert_eq!(parallelism_scaled_u32(10_000, 4), 40_000);
    assert_eq!(parallelism_scaled_u32(u32::MAX, 2), u32::MAX);
    assert_eq!(default_pdu_cache_capacity(4), 140_000);
    assert_eq!(default_shorteventid_cache_capacity(2), 200_000);
    assert_eq!(default_server_visibility_cache_capacity(16), 8000);
    assert_eq!(default_pdu_cache_capacity(usize::MAX), u32::MAX);
}

#[test]
fn denylist_holds_the_private_and_special_ranges() {
    let list = default_ip_range_denylist();
    assert_eq!(list.len(), 19);
    assert_eq!(list[0], "127.0.0.0/8");
    assert_eq!(list[12], "224.0.0.0/4");
    assert_eq!(list[13], "::1/128");
    assert_eq!(list[18], "fec0::/10");
}

#[test]
fn default_listeners_are_loopback_on_8008() {
    let c = config(default_address(), default_port());
    assert_eq!(
        c.get_bind_addrs(),
        vec![
            (IpAddress::V4(127, 0, 0, 1), 8008),
            (IpAddress::V6(0, 0, 0, 0, 0, 0, 0, 1), 8008),
        ]
    );
}

#[test]
fn bind_addrs_pair_every_host_with_every_port() {
    let a = IpAddress::V4(10, 0, 0, 1);
    let b = IpAddress::V4(10, 0, 0, 2);
    let c = config(ListeningAddr::Many(vec![a, b]), ListeningPort::Many(vec![80, 443, 8448]));
    assert_eq!(c.get_bind_hosts(), vec![a, b]);
    assert_eq!(c.get_bind_ports(), vec![80, 443, 8448]);
    assert_eq!(
        c.get_bind_addrs(),
        vec![(a, 80), (a, 443), (a, 8448), (b, 80), (b, 443), (b, 8448)]
    );
}

#[test]
fn bind_addrs_are_empty_without_hosts_or_ports() {
    let c = config(ListeningAddr::Many(Vec::new()), ListeningPort::One(8008));
    assert!(c.get_bind_addrs().is_empty());
    let c = config(ListeningAddr::One(IpAddress::V4(127, 0, 0, 1)), ListeningPort::Many(Vec::new()));
    assert!(c.get_bind_addrs().is_empty());
}
