use conduwuit_core::config::{
    default_address, default_port, Config, WellKnownConfig,
};
use conduwuit_core::room_version::RoomVersion;
use conduwuit_core::sending::handler::{SenderAction, SenderEvent};
use conduwuit_core::sending::service::Service;
use conduwuit_core::sending::startup::ActiveRow;
use conduwuit_core::sending::status::{QueuedRow, TransactionStatus};
use conduwuit_core::sending::{OutgoingDestination, SendingEventType};

fn config(startup_netburst: bool, keep: i64) -> Config {
    Config {
        server_name: "x.example".to_owned(),
        address: default_address(),
        port: default_port(),
        tls: None,
        allow_federation: true,
        allow_registration: false,
        registration_token: None,
        forbidden_remote_server_names: Vec::new(),
        auto_deactivate_banned_room_attempts: false,
        block_non_admin_invites: false,
        max_concurrent_requests: 500,
        sender_timeout: 180,
        federation_timeout: 25,
        well_known_timeout: 10,
        request_timeout: 35,
        startup_netburst,
        startup_netburst_keep: keep,
        trusted_servers: Vec::new(),
        query_trusted_key_servers_first: false,
        query_trusted_key_servers_first_on_join: true,
        default_room_version: RoomVersion::V10,
        allow_unstable_room_versions: true,
        allow_outgoing_presence: true,
        allow_outgoing_read_receipts: true,
        well_known: WellKnownConfig {
            client: None,
            server: None,
            support_page: None,
            support_role: None,
            support_email: None,
            support_mxid: None,
        },
    }
}

fn normal(name: &str) -> OutgoingDestination {
    OutgoingDestination::Normal(name.to_owned())
}

#[test]
fn build_takes_settings_from_the_configuration() {
    let service = Service::build(&config(true, 50));
    assert_eq!(service.server_name, "x.example");
    assert_eq!(service.maximum_requests, 500);
    assert_eq!(service.timeout, 180);
    assert!(service.startup_netburst);
    assert_eq!(service.startup_netburst_keep, 50);
    assert_eq!(service.status.len(), 0);
}

#[test]
fn room_events_go_to_every_server_but_this_one() {
    let service = Service::build(&config(true, 50));
    let servers = vec!["y.example".to_owned(), "x.example".to_owned(), "z.example".to_owned()];
    let requests = service.send_pdu_room(&servers, &b"pdu1".to_vec());
    assert_eq!(
        requests,
        vec![
            (normal("y.example"), SendingEventType::Pdu(b"pdu1".to_vec())),
            (normal("z.example"), SendingEventType::Pdu(b"pdu1".to_vec())),
        ]
    );
    let requests = service.send_edu_room(&servers, &b"{}".to_vec());
    assert_eq!(
        requests,
        vec![
            (normal("y.example"), SendingEventType::Edu(b"{}".to_vec())),
            (normal("z.example"), SendingEventType::Edu(b"{}".to_vec())),
        ]
    );
    let requests = service.flush_room(&servers);
    assert_eq!(
        requests,
        vec![(normal("y.example"), SendingEventType::Flush), (normal("z.example"), SendingEventType::Flush)]
    );
}

#[test]
fn named_servers_are_not_filtered() {
    let service = Service::build(&config(true, 50));
    let servers = vec!["x.example".to_owned(), "y.example".to_owned()];
    assert_eq!(service.send_pdu_servers(&servers, &b"p".to_vec()).len(), 2);
    assert_eq!(service.send_edu_servers(&servers, &b"e".to_vec()).len(), 2);
    assert_eq!(service.flush_servers(&servers).len(), 2);
    assert!(service.send_pdu_servers(&Vec::new(), &b"p".to_vec()).is_empty());
}

#[test]
fn single_requests_name_their_destination() {
    let service = Service::build(&config(true, 50));
    assert_eq!(
        service.send_pdu_push(&b"p".to_vec(), "@u:x.example", "key".to_owned()),
        (
            OutgoingDestination::Push("@u:x.example".to_owned(), "key".to_owned()),
            SendingEventType::Pdu(b"p".to_vec())
        )
    );
    assert_eq!(
        service.send_pdu_appservice("bridge".to_owned(), b"p".to_vec()),
        (OutgoingDestination::Appservice("bridge".to_owned()), SendingEventType::Pdu(b"p".to_vec()))
    );
    assert_eq!(
        service.send_edu_server("y.example", b"{}".to_vec()),
        (normal("y.example"), SendingEventType::Edu(b"{}".to_vec()))
    );
    assert_eq!(
        service.cleanup_events("bridge".to_owned()),
        OutgoingDestination::Appservice("bridge".to_owned())
    );
}

#[test]
fn handler_starts_with_a_netburst_when_configured() {
    let rows = vec![
        ActiveRow { key: b"k1".to_vec(), destination: normal("y.example"), event: SendingEventType::Pdu(b"1".to_vec()), pending: false },
        ActiveRow { key: b"k2".to_vec(), destination: normal("y.example"), event: SendingEventType::Pdu(b"2".to_vec()), pending: false },
    ];
    let mut service = Service::build(&config(true, 1));
    let burst = service.start_handler(&rows).unwrap();
    assert_eq!(burst.dropped, vec![b"k2".to_vec()]);
    assert_eq!(service.status.get(&normal("y.example")), Some(&TransactionStatus::Running));

    let mut quiet = Service::build(&config(false, 1));
    assert!(quiet.start_handler(&rows).is_none());
    assert_eq!(quiet.status.len(), 0);
}

#[test]
fn handler_runs_one_turn() {
    let mut service = Service::build(&config(false, 0));
    let action = service.handler(SenderEvent::Queued {
        dest: normal("y.example"),
        row: QueuedRow { event: SendingEventType::Pdu(b"1".to_vec()), key: b"k".to_vec() },
        edus: None,
    });
    assert!(matches!(action, SenderAction::Send { .. }));
    let action = service.handler(SenderEvent::Failed { dest: normal("y.example") });
    assert!(matches!(action, SenderAction::Backoff { secs: 30, .. }));
}
