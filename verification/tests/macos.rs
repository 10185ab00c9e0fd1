use mdns_sd_discovery::macos::meta::meta_reply_to_type_and_domain;
use mdns_sd_discovery::macos::native::{
    cstr_to_string, cstring, DNSServiceRef, FLAGS_ADD, FLAGS_MORE_COMING, FLAGS_SHARE_CONNECTION,
};
use mdns_sd_discovery::macos::pump::{
    browse_start, pump_loop, BrowseAction, BrowseReply, InstanceToResolve, PumpAction, PumpState,
    SharedConnection, EINTR, POLLERR, POLLHUP, POLLIN, POLLNVAL,
};
use mdns_sd_discovery::macos::resolve::{
    do_resolve, get_addresses, process_once, resolve_once, resolve_service, resolve_start,
    resolve_task_error, sockaddr_to_ip, AddrReply, AddrResult, Endpoint, LookupEvent, LookupStep, ResolveEvent,
    ResolveReply, ResolveResult, ResolveStep, SockAddr,
};
use mdns_sd_discovery::{
    BrowseEvent, IpAddr, NonZeroU32, ServiceBrowseError, ServiceResolverBuilder, TxtRecord,
};

fn browse_failed(error: &ServiceBrowseError) -> &str {
    match error {
        ServiceBrowseError::BrowseFailed(message) => message.as_str(),
        other => panic!("expected BrowseFailed, got {other:?}"),
    }
}

fn browse_reply(flags: u32, name: &str, regtype: &str, domain: &str) -> BrowseReply {
    BrowseReply {
        flags,
        interface_index: 4,
        error_code: 0,
        service_name: Some(name.as_bytes().to_vec()),
        regtype: Some(regtype.as_bytes().to_vec()),
        reply_domain: Some(domain.as_bytes().to_vec()),
    }
}

fn connection() -> SharedConnection {
    match SharedConnection::create(0, DNSServiceRef(100)) {
        Ok(conn) => conn,
        Err(error) => panic!("expected a connection, got {error:?}"),
    }
}

fn instance() -> InstanceToResolve {
    InstanceToResolve {
        name: "My Web Server".to_string(),
        regtype: "_http._tcp.".to_string(),
        domain: "local.".to_string(),
        interface: 4,
    }
}

fn endpoint() -> Endpoint {
    Endpoint {
        host: "macbook.local.".to_string(),
        port: 8080,
        txt_records: vec![TxtRecord {
            key: "flag".to_string(),
            value: None,
        }],
    }
}

/// The shape mDNSResponder actually reports for a `local.` service type: the
/// domain lives in `regtype`, and the reply domain is the DNS root.
#[test]
fn meta_reply_recovers_local_domain_from_regtype() {
    let (service_type, domain) = meta_reply_to_type_and_domain("_http", "_tcp.local.", ".");
    assert_eq!(service_type, "_http._tcp");
    assert_eq!(domain, "local");
}

/// A root reply domain must never be browsed as if it were a real domain:
/// that queries the DNS root instead of mDNS and finds nothing.
#[test]
fn meta_reply_never_yields_a_root_domain() {
    for reply_domain in [".", "", ".."] {
        let (_, domain) = meta_reply_to_type_and_domain("_ipp", "_tcp.local.", reply_domain);
        assert_eq!(domain, "local", "reply domain {reply_domain:?}");
    }
}

#[test]
fn meta_reply_handles_udp_types() {
    let (service_type, domain) = meta_reply_to_type_and_domain("_sleep-proxy", "_udp.local.", ".");
    assert_eq!(service_type, "_sleep-proxy._udp");
    assert_eq!(domain, "local");
}

/// A multi-label domain is split across `regtype` and `reply_domain`.
#[test]
fn meta_reply_rejoins_a_multi_label_domain() {
    let (service_type, domain) = meta_reply_to_type_and_domain("_http", "_tcp.example.", "com.");
    assert_eq!(service_type, "_http._tcp");
    assert_eq!(domain, "example.com");
}

/// Nothing beyond the transport label: browse the default domains rather
/// than inventing one.
#[test]
fn meta_reply_without_a_domain_falls_back_to_the_defaults() {
    let (service_type, domain) = meta_reply_to_type_and_domain("_http", "_tcp.", ".");
    assert_eq!(service_type, "_http._tcp");
    assert_eq!(domain, "");
}

/// The reconstructed type is the string handed back to `DNSServiceBrowse`,
/// so it must survive the conversion to a C string.
#[test]
fn meta_reply_output_is_usable_as_a_browse_type() {
    let (service_type, domain) = meta_reply_to_type_and_domain("_ssh", "_tcp.local.", ".");
    assert_eq!(
        cstring(&service_type).ok().unwrap().to_bytes(),
        b"_ssh._tcp"
    );
    assert_eq!(cstring(&domain).ok().unwrap().to_bytes(), b"local");
}

#[test]
fn meta_reply_joins_parts_without_dots() {
    assert_eq!(
        meta_reply_to_type_and_domain("_http", "_tcp", "example.com"),
        ("_http._tcp".to_string(), "example.com".to_string())
    );
    assert_eq!(
        meta_reply_to_type_and_domain("_http", "_tcp.a.", ".b.c."),
        ("_http._tcp".to_string(), "a.b.c".to_string())
    );
    assert_eq!(
        meta_reply_to_type_and_domain("", "", ""),
        (String::new(), String::new())
    );
    assert_eq!(
        meta_reply_to_type_and_domain("a", "", "."),
        ("a".to_string(), String::new())
    );
}

#[test]
fn cstring_round_trips_plain_ascii() {
    let c = cstring("_http._tcp").ok().unwrap();
    assert_eq!(c.to_bytes(), b"_http._tcp");
}

#[test]
fn cstring_rejects_interior_nul() {
    match cstring("a\0b") {
        Err(ServiceBrowseError::ParameterContainsInteriorNulByte(s, pos)) => {
            assert_eq!(s, "a\0b");
            assert_eq!(pos, 1);
        }
        Err(other) => panic!("expected interior nul error, got {other:?}"),
        Ok(_) => panic!("expected interior nul error"),
    }
}

#[test]
fn cstring_counts_bytes() {
    match cstring("\u{e9}x\0\0") {
        Err(ServiceBrowseError::ParameterContainsInteriorNulByte(_, pos)) => assert_eq!(pos, 3),
        _ => panic!("expected interior nul error"),
    }
    assert_eq!(
        cstring("ab").ok().unwrap().to_bytes_with_nul(),
        b"ab\0".to_vec()
    );
}

#[test]
fn cstr_to_string_null_pointer_is_empty() {
    let s = cstr_to_string(None);
    assert_eq!(s, "");
}

#[test]
fn cstr_to_string_reads_c_string() {
    let c = cstring("macbook.local").ok().unwrap();
    let s = cstr_to_string(Some(c.to_bytes()));
    assert_eq!(s, "macbook.local");
}

#[test]
fn cstr_to_string_replaces_invalid_bytes() {
    assert_eq!(cstr_to_string(Some(b"a\xff")), "a\u{FFFD}");
}

#[test]
fn browse_starts_with_a_type_or_the_meta_query() {
    let start = browse_start(&None, &None, None);
    assert_eq!(start.regtype, "_services._dns-sd._udp");
    assert_eq!(start.domain, "");
    assert_eq!(start.interface, 0);
    assert!(start.is_meta);
    let start = browse_start(
        &Some("_http._tcp".to_string()),
        &Some("local".to_string()),
        NonZeroU32::new(4),
    );
    assert_eq!(start.regtype, "_http._tcp");
    assert_eq!(start.domain, "local");
    assert_eq!(start.interface, 4);
    assert!(!start.is_meta);
}

#[test]
fn connections_report_their_status() {
    match SharedConnection::create(-65563, DNSServiceRef::default()) {
        Err(error) => assert_eq!(
            browse_failed(&error),
            "DNSServiceCreateConnection failed: -65563"
        ),
        Ok(_) => panic!("expected an error"),
    }
    let conn = connection();
    assert_eq!(conn.shared(), 100);
    assert_eq!(conn.socket_fd(0).ok(), Some(0));
    assert_eq!(
        browse_failed(&conn.socket_fd(-1).err().unwrap()),
        "DNSServiceRefSockFD returned an invalid descriptor"
    );
    assert!(conn.process_result(0).is_ok());
    assert_eq!(
        browse_failed(&conn.process_result(-1).err().unwrap()),
        "DNSServiceProcessResult failed: -1"
    );
}

#[test]
fn connections_prepare_browses() {
    let conn = connection();
    let request = conn.browse("_http._tcp", "", 4).ok().unwrap();
    assert_eq!(request.op.0, 100);
    assert_eq!(request.flags, FLAGS_SHARE_CONNECTION);
    assert_eq!(request.interface, 4);
    assert_eq!(request.service_type, "_http._tcp");
    assert_eq!(request.regtype.to_bytes(), b"_http._tcp");
    assert!(request.domain.is_none());
    let request = conn.browse("_http._tcp", "local", 0).ok().unwrap();
    assert_eq!(request.domain.unwrap().to_bytes(), b"local");
    assert!(matches!(
        conn.browse("_http._tcp", "lo\0cal", 0),
        Err(ServiceBrowseError::ParameterContainsInteriorNulByte(_, 2))
    ));
    assert!(matches!(
        conn.browse("\0", "lo\0cal", 0),
        Err(ServiceBrowseError::ParameterContainsInteriorNulByte(_, 0))
    ));
}

#[test]
fn connections_are_released_after_their_operations() {
    let mut conn = connection();
    assert!(conn.browse_started("_a._tcp", DNSServiceRef(1), 0).is_ok());
    match conn.browse_started("_b._tcp", DNSServiceRef(2), -65540) {
        Err(error) => assert_eq!(
            browse_failed(&error),
            "DNSServiceBrowse failed for _b._tcp: -65540"
        ),
        Ok(()) => panic!("expected an error"),
    }
    assert!(conn.browse_started("_c._tcp", DNSServiceRef(3), 0).is_ok());
    let order: Vec<usize> = conn.release().iter().map(|reference| reference.0).collect();
    assert_eq!(order, vec![1, 3, 100]);
}

#[test]
fn meta_replies_queue_each_type_once() {
    let conn = connection();
    let mut pump = PumpState::new(6);
    for domain in [".", "", "."] {
        let action = pump.browse_callback(
            true,
            browse_reply(FLAGS_ADD, "_http", "_tcp.local.", domain),
        );
        assert!(matches!(action, BrowseAction::Ignore));
    }
    pump.browse_callback(true, browse_reply(0, "_ipp", "_tcp.local.", "."));
    pump.browse_callback(
        true,
        browse_reply(FLAGS_ADD | FLAGS_MORE_COMING, "_b\0d", "_tcp.local.", "."),
    );
    pump.browse_callback(true, browse_reply(FLAGS_ADD, "_ssh", "_tcp.local.", "."));
    let starts = pump.start_pending_browses(&conn);
    assert_eq!(starts.len(), 3);
    match &starts[0] {
        Ok(request) => {
            assert_eq!(request.service_type, "_http._tcp");
            assert_eq!(request.interface, 6);
            assert_eq!(request.domain.as_ref().unwrap().to_bytes(), b"local");
        }
        Err(error) => panic!("expected a browse, got {error:?}"),
    }
    assert!(matches!(
        starts[1],
        Err(ServiceBrowseError::ParameterContainsInteriorNulByte(_, 2))
    ));
    assert!(matches!(&starts[2], Ok(request) if request.service_type == "_ssh._tcp"));
    assert!(pump.start_pending_browses(&conn).is_empty());
    pump.browse_callback(true, browse_reply(FLAGS_ADD, "_http", "_tcp.local.", "."));
    assert!(pump.start_pending_browses(&conn).is_empty());
}

#[test]
fn instance_replies_resolve_or_remove() {
    let mut pump = PumpState::new(0);
    match pump.browse_callback(
        false,
        browse_reply(FLAGS_ADD, "My Web Server", "_http._tcp.", "local."),
    ) {
        BrowseAction::Resolve(instance) => {
            assert_eq!(instance.name, "My Web Server");
            assert_eq!(instance.regtype, "_http._tcp.");
            assert_eq!(instance.domain, "local.");
            assert_eq!(instance.interface, 4);
        }
        _ => panic!("expected a resolve"),
    }
    match pump.browse_callback(
        false,
        browse_reply(FLAGS_MORE_COMING, "My Web Server", "_http._tcp.", "local."),
    ) {
        BrowseAction::Deliver(BrowseEvent::Removed(service)) => {
            assert_eq!(service.name, "My Web Server");
            assert_eq!(service.service_type, "_http._tcp");
            assert_eq!(service.domain, "local");
            assert_eq!(service.interface_index, NonZeroU32::new(4));
        }
        _ => panic!("expected a removal"),
    }
    let failed = BrowseReply {
        flags: FLAGS_ADD,
        interface_index: 0,
        error_code: -65537,
        service_name: None,
        regtype: None,
        reply_domain: None,
    };
    match pump.browse_callback(true, failed) {
        BrowseAction::Report(error) => {
            assert_eq!(browse_failed(&error), "browse callback error: -65537")
        }
        _ => panic!("expected an error"),
    }
}

#[test]
fn pump_goes_on_unless_the_daemon_is_gone() {
    assert!(matches!(
        pump_loop(-1, 0, Some(EINTR), "interrupted"),
        PumpAction::Continue
    ));
    match pump_loop(-1, 0, Some(9), "bad descriptor") {
        PumpAction::Fail(error) => assert_eq!(browse_failed(&error), "poll failed: bad descriptor"),
        _ => panic!("expected an error"),
    }
    assert!(matches!(
        pump_loop(-1, 0, None, "unknown"),
        PumpAction::Fail(_)
    ));
    assert!(matches!(pump_loop(0, 0, None, ""), PumpAction::Continue));
    assert!(matches!(
        pump_loop(1, POLLIN | POLLHUP, None, ""),
        PumpAction::Dispatch
    ));
    for revents in [POLLHUP, POLLERR, POLLNVAL] {
        assert!(matches!(pump_loop(1, revents, None, ""), PumpAction::Stop));
    }
    assert!(matches!(pump_loop(1, 0x4, None, ""), PumpAction::Continue));
}

#[test]
fn resolves_are_prepared_from_text() {
    let request = do_resolve("My Web Server", "_http._tcp.", "local.", 4)
        .ok()
        .unwrap();
    assert_eq!(request.interface, 4);
    assert_eq!(request.name.to_bytes(), b"My Web Server");
    assert_eq!(request.regtype.to_bytes(), b"_http._tcp.");
    assert_eq!(request.domain.to_bytes(), b"local.");
    assert_eq!(
        do_resolve("ok", "a\0b", "c\0", 4).err(),
        Some("parameter \"a\\0b\" contains interior nul byte at position 1".to_string())
    );
}

#[test]
fn resolves_step_through_one_result() {
    assert!(matches!(
        process_once(ResolveEvent::Started(0)),
        ResolveStep::Poll(5000)
    ));
    assert!(matches!(
        process_once(ResolveEvent::Polled(1, String::new())),
        ResolveStep::Process
    ));
    assert!(matches!(
        process_once(ResolveEvent::Processed(0)),
        ResolveStep::Finish
    ));
    let failures = [
        (
            ResolveEvent::Started(-65540),
            "DNSServiceResolve failed: -65540",
        ),
        (
            ResolveEvent::Polled(-1, "interrupted".to_string()),
            "poll failed: interrupted",
        ),
        (ResolveEvent::Polled(0, String::new()), "operation timed out"),
        (ResolveEvent::Processed(-1), "DNSServiceProcessResult failed"),
    ];
    for (event, expected) in failures {
        match process_once(event) {
            ResolveStep::Fail(reason) => assert_eq!(reason, expected),
            _ => panic!("expected a failure"),
        }
    }
}

#[test]
fn resolve_replies_fill_the_result() {
    let mut result = ResolveResult::default();
    result.resolve_callback(ResolveReply {
        error_code: 0,
        host_target: Some(b"macbook.local.".to_vec()),
        port: [0x1f, 0x90],
        txt_record: Some(vec![4, b'f', b'l', b'a', b'g']),
    });
    let endpoint = result.finish().ok().unwrap();
    assert_eq!(endpoint.host, "macbook.local.");
    assert_eq!(endpoint.port, 8080);
    assert_eq!(endpoint.txt_records.len(), 1);
    assert_eq!(endpoint.txt_records[0].key, "flag");
}

#[test]
fn resolve_results_without_a_reply_are_incomplete() {
    assert_eq!(
        ResolveResult::default().finish().err(),
        Some("resolve did not complete (error 0)".to_string())
    );
    let mut result = ResolveResult::default();
    result.resolve_callback(ResolveReply {
        error_code: -65538,
        host_target: None,
        port: [0, 0],
        txt_record: None,
    });
    assert_eq!(
        result.finish().err(),
        Some("resolve did not complete (error -65538)".to_string())
    );
}

#[test]
fn empty_txt_records_keep_what_was_known() {
    let mut result = ResolveResult::default();
    for txt_record in [Some(vec![1, b'a']), Some(Vec::new()), None] {
        result.resolve_callback(ResolveReply {
            error_code: 0,
            host_target: None,
            port: [0, 80],
            txt_record,
        });
    }
    let endpoint = result.finish().ok().unwrap();
    assert_eq!(endpoint.host, "");
    assert_eq!(endpoint.txt_records.len(), 1);
}

#[test]
fn lookups_collect_addresses_until_the_last() {
    let request = get_addresses("macbook.local.", 4).unwrap();
    assert_eq!(request.interface, 4);
    assert_eq!(request.protocol, 0);
    assert_eq!(request.host.to_bytes(), b"macbook.local.");
    assert!(get_addresses("mac\0book", 4).is_none());

    let mut result = AddrResult::default();
    result.getaddr_callback(AddrReply {
        flags: FLAGS_ADD | FLAGS_MORE_COMING,
        error_code: 0,
        address: Some(SockAddr::Inet([192, 168, 7, 42])),
    });
    assert_eq!(
        result.next_step(LookupEvent::Processed(0), 500_000_000),
        LookupStep::Poll(1500)
    );
    result.getaddr_callback(AddrReply {
        flags: FLAGS_MORE_COMING,
        error_code: -1,
        address: Some(SockAddr::Inet([1, 2, 3, 4])),
    });
    result.getaddr_callback(AddrReply {
        flags: FLAGS_MORE_COMING,
        error_code: 0,
        address: None,
    });
    result.getaddr_callback(AddrReply {
        flags: FLAGS_ADD,
        error_code: 0,
        address: Some(SockAddr::Other),
    });
    assert_eq!(
        result.next_step(LookupEvent::Processed(0), 0),
        LookupStep::Finish
    );
    assert_eq!(
        result.into_addresses(),
        vec![IpAddr::V4([192, 168, 7, 42])]
    );
}

#[test]
fn lookups_stay_in_their_budget() {
    let result = AddrResult::default();
    assert_eq!(
        result.next_step(LookupEvent::Started(0), 0),
        LookupStep::Poll(2000)
    );
    assert_eq!(
        result.next_step(LookupEvent::Started(0), 1),
        LookupStep::Poll(1999)
    );
    assert_eq!(
        result.next_step(LookupEvent::Processed(0), 1_999_999_999),
        LookupStep::Poll(0)
    );
    assert_eq!(
        result.next_step(LookupEvent::Processed(0), 2_000_000_000),
        LookupStep::Finish
    );
    assert_eq!(
        result.next_step(LookupEvent::Started(-65540), 0),
        LookupStep::NotStarted
    );
    assert_eq!(
        result.next_step(LookupEvent::Polled(1), 0),
        LookupStep::Process
    );
    assert_eq!(
        result.next_step(LookupEvent::Polled(0), 0),
        LookupStep::Finish
    );
    assert_eq!(
        result.next_step(LookupEvent::Processed(-1), 0),
        LookupStep::Finish
    );
}

#[test]
fn socket_addresses_keep_their_octets() {
    assert_eq!(
        sockaddr_to_ip(SockAddr::Inet([10, 0, 0, 1])),
        Some(IpAddr::V4([10, 0, 0, 1]))
    );
    assert_eq!(
        sockaddr_to_ip(SockAddr::Inet6([9; 16])),
        Some(IpAddr::V6([9; 16]))
    );
    assert_eq!(sockaddr_to_ip(SockAddr::Other), None);
}

#[test]
fn resolved_instances_lose_their_trailing_dots() {
    match resolve_service(
        instance(),
        Ok(endpoint()),
        Some(vec![IpAddr::V4([10, 0, 0, 1])]),
    ) {
        Ok(BrowseEvent::Found(service)) => {
            assert_eq!(service.name, "My Web Server");
            assert_eq!(service.service_type, "_http._tcp");
            assert_eq!(service.domain, "local");
            assert_eq!(service.host_name, "macbook.local");
            assert_eq!(service.port, 8080);
            assert_eq!(service.addresses, vec![IpAddr::V4([10, 0, 0, 1])]);
            assert_eq!(service.txt_records.len(), 1);
            assert_eq!(service.interface_index, NonZeroU32::new(4));
        }
        _ => panic!("expected a service"),
    }
    let service = resolve_once(instance(), Ok(endpoint()), None).unwrap();
    assert!(service.addresses.is_empty());
}

#[test]
fn unresolved_instances_are_reported_by_name() {
    match resolve_once(instance(), Err("operation timed out".to_string()), None) {
        Err(ServiceBrowseError::ResolveFailed(name, reason)) => {
            assert_eq!(name, "My Web Server");
            assert_eq!(reason, "operation timed out");
        }
        _ => panic!("expected ResolveFailed"),
    }
    match resolve_task_error("cancelled") {
        ServiceBrowseError::ResolveFailed(name, reason) => {
            assert_eq!(name, "");
            assert_eq!(reason, "resolve task failed: cancelled");
        }
        other => panic!("expected ResolveFailed, got {other:?}"),
    }
}

#[test]
fn one_shot_resolves_start_from_the_builder() {
    let mut builder = ServiceResolverBuilder::new("My Service", "_mock._tcp", "local");
    assert_eq!(resolve_start(&builder).interface, 0);
    builder.interface_index(NonZeroU32::new(4).unwrap());
    let instance = resolve_start(&builder);
    assert_eq!(instance.name, "My Service");
    assert_eq!(instance.regtype, "_mock._tcp");
    assert_eq!(instance.domain, "local");
    assert_eq!(instance.interface, 4);
}

#[test]
fn the_last_resolve_reply_decides() {
    let reply = |error_code, host: &str| ResolveReply {
        error_code,
        host_target: Some(host.as_bytes().to_vec()),
        port: [0, 80],
        txt_record: None,
    };
    let mut result = ResolveResult::default();
    result.resolve_callback(reply(-1, "ignored."));
    result.resolve_callback(reply(0, "first."));
    result.resolve_callback(reply(0, "second."));
    assert_eq!(result.finish().ok().unwrap().host, "second.");
    let mut result = ResolveResult::default();
    result.resolve_callback(reply(0, "first."));
    result.resolve_callback(reply(-7, "ignored."));
    assert_eq!(
        result.finish().err(),
        Some("resolve did not complete (error -7)".to_string())
    );
}
