use core::time::Duration;

use mdns_sd_discovery::addr::{interface_number, port_from_network};
use mdns_sd_discovery::browse::{interior_nul_text, resolve_failed_text};
use mdns_sd_discovery::{
    DiscoveredService, IpAddr, NonZeroU32, ServiceBrowseError, ServiceBrowserBuilder,
    ServiceResolverBuilder, SocketAddr, TxtRecord,
};

const LOCALHOST_V6: [u8; 16] = [0, 0, 0, 0, 0, 0, 0, 0, 0, 0, 0, 0, 0, 0, 0, 1];

fn sample_service() -> DiscoveredService {
    DiscoveredService {
        name: "My Web Server".to_string(),
        service_type: "_http._tcp".to_string(),
        domain: "local".to_string(),
        host_name: "macbook.local".to_string(),
        port: 8080,
        addresses: vec![IpAddr::V4([192, 168, 1, 10]), IpAddr::V6(LOCALHOST_V6)],
        txt_records: vec![
            TxtRecord {
                key: "path".to_string(),
                value: Some(b"/index.html".to_vec()),
            },
            TxtRecord {
                key: "empty".to_string(),
                value: Some(Vec::new()),
            },
            TxtRecord {
                key: "flag".to_string(),
                value: None,
            },
        ],
        interface_index: NonZeroU32::new(3),
    }
}

#[test]
fn builder_defaults_to_browsing_all_types() {
    let builder = ServiceBrowserBuilder::new();
    assert_eq!(builder.service_type, None);
    assert_eq!(builder.domain, None);
    assert_eq!(builder.interface_index, None);
}

#[test]
fn builder_default_matches_new() {
    let from_default = ServiceBrowserBuilder::default();
    let from_new = ServiceBrowserBuilder::new();
    assert_eq!(from_default.service_type, from_new.service_type);
    assert_eq!(from_default.domain, from_new.domain);
    assert_eq!(from_default.interface_index, from_new.interface_index);
}

#[test]
fn builder_setters_record_values_and_chain() {
    let mut builder = ServiceBrowserBuilder::new();
    builder
        .service_type("_http._tcp")
        .domain("local")
        .interface_index(NonZeroU32::new(7).unwrap());

    assert_eq!(builder.service_type.as_deref(), Some("_http._tcp"));
    assert_eq!(builder.domain.as_deref(), Some("local"));
    assert_eq!(builder.interface_index, NonZeroU32::new(7));
}

#[test]
fn builder_setters_accept_string_and_overwrite() {
    let mut builder = ServiceBrowserBuilder::new();
    builder.service_type(&String::from("_ftp._tcp"));
    builder.service_type("_ipp._tcp");
    assert_eq!(builder.service_type.as_deref(), Some("_ipp._tcp"));
}

#[test]
fn socket_addrs_pairs_each_address_with_port() {
    let service = sample_service();
    let addrs: Vec<SocketAddr> = service.socket_addrs();
    assert_eq!(
        addrs,
        vec![
            SocketAddr {
                ip: IpAddr::V4([192, 168, 1, 10]),
                port: 8080
            },
            SocketAddr {
                ip: IpAddr::V6(LOCALHOST_V6),
                port: 8080
            },
        ]
    );
}

#[test]
fn socket_addrs_is_empty_without_addresses() {
    let mut service = sample_service();
    service.addresses.clear();
    assert_eq!(service.socket_addrs().len(), 0);
}

#[test]
fn txt_returns_value_for_present_key() {
    let service = sample_service();
    assert_eq!(service.txt("path"), Some(&b"/index.html"[..]));
}

#[test]
fn txt_returns_empty_slice_for_present_empty_value() {
    let service = sample_service();
    assert_eq!(service.txt("empty"), Some(&[][..]));
}

#[test]
fn txt_returns_none_for_key_only_entry() {
    let service = sample_service();
    assert_eq!(service.txt("flag"), None);
}

#[test]
fn txt_returns_none_for_absent_key() {
    let service = sample_service();
    assert_eq!(service.txt("missing"), None);
}

#[test]
fn txt_returns_first_match_for_duplicate_keys() {
    let mut service = sample_service();
    service.txt_records.push(TxtRecord {
        key: "path".to_string(),
        value: Some(b"/second".to_vec()),
    });
    assert_eq!(service.txt("path"), Some(&b"/index.html"[..]));
}

#[test]
fn txt_key_only_record_hides_a_later_value() {
    let mut service = sample_service();
    service.txt_records.push(TxtRecord {
        key: "flag".to_string(),
        value: Some(b"late".to_vec()),
    });
    assert_eq!(service.txt("flag"), None);
}

#[test]
fn error_messages_render_expected_text() {
    assert_eq!(
        ServiceBrowseError::DnsSdUnavailable("no avahi".into()).to_string(),
        "DNS-SD not available on system: no avahi"
    );
    assert_eq!(
        ServiceBrowseError::ParameterContainsInteriorNulByte("a\0b".into(), 1).to_string(),
        "parameter \"a\\0b\" contains interior nul byte at position 1"
    );
    assert_eq!(
        ServiceBrowseError::InvalidInterfaceIndex(42).to_string(),
        "interface index 42 is invalid"
    );
    assert_eq!(
        ServiceBrowseError::BrowseFailed("boom".into()).to_string(),
        "browse operation failed: boom"
    );
    assert_eq!(
        ServiceBrowseError::ResolveFailed("svc".into(), "timeout".into()).to_string(),
        "failed to resolve service \"svc\": timeout"
    );
}

#[test]
fn error_messages_quote_names_and_print_large_numbers() {
    assert_eq!(
        ServiceBrowseError::InvalidInterfaceIndex(4294967295).to_string(),
        "interface index 4294967295 is invalid"
    );
    assert_eq!(
        ServiceBrowseError::ResolveFailed("say \"hi\"".into(), "".into()).to_string(),
        "failed to resolve service \"say \\\"hi\\\"\": "
    );
    assert_eq!(
        interior_nul_text("\"x\"", 0),
        "parameter \"x\" contains interior nul byte at position 0"
    );
    assert_eq!(
        resolve_failed_text("\"x\"", "gone"),
        "failed to resolve service \"x\": gone"
    );
}

#[test]
fn resolver_builder_records_values() {
    let mut builder = ServiceResolverBuilder::new("My Service", "_mock._tcp", "local");
    assert_eq!(builder.name, "My Service");
    assert_eq!(builder.service_type, "_mock._tcp");
    assert_eq!(builder.domain, "local");
    assert_eq!(builder.interface_index, None);
    assert_eq!(builder.timeout, None);
    builder
        .interface_index(NonZeroU32::new(4).unwrap())
        .timeout(Duration::from_secs(5));
    assert_eq!(builder.interface_index, NonZeroU32::new(4));
    assert_eq!(builder.timeout, Some(Duration::from_secs(5)));
}

#[test]
fn resolver_reports_how_long_it_waited() {
    let builder = ServiceResolverBuilder::new("hang-forever", "_mock._tcp", "local");
    match builder.timed_out(200) {
        ServiceBrowseError::ResolveFailed(name, reason) => {
            assert_eq!(name, "hang-forever");
            assert_eq!(reason, "timed out after 200ms");
        }
        other => panic!("expected ResolveFailed, got {other:?}"),
    }
}

#[test]
fn interface_numbers_round_trip() {
    assert_eq!(interface_number(None), 0);
    assert_eq!(interface_number(NonZeroU32::new(9)), 9);
    assert_eq!(NonZeroU32::new(interface_number(None)), None);
    assert_eq!(NonZeroU32::new(7).unwrap().get(), 7);
}

#[test]
fn ports_arrive_in_network_order() {
    assert_eq!(port_from_network([0x1f, 0x90]), 8080);
    assert_eq!(port_from_network([0xff, 0xff]), 65535);
    assert_eq!(port_from_network([0, 1]), 1);
}
