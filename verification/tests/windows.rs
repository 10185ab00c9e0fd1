use mdns_sd_discovery::windows::browse::{
    browse_start, browse_started, instance_label, start_browse, BrowseAction, DnsRecord,
    NativeBrowse, DNS_TYPE_PTR,
};
use mdns_sd_discovery::windows::resolve::{
    read_txt, resolve_once, start_resolve, ResolveContext, ServiceInstance, DNS_REQUEST_PENDING,
};
use mdns_sd_discovery::windows::wide::pwstr_to_string;
use mdns_sd_discovery::{
    BrowseEvent, IpAddr, NonZeroU32, ServiceBrowseError, ServiceResolverBuilder,
};

fn wide(s: &str) -> Vec<u16> {
    s.encode_utf16().collect()
}

fn wide_nul(s: &str) -> Vec<u16> {
    let mut units = wide(s);
    units.push(0);
    units
}

fn ptr(target: &str) -> DnsRecord {
    DnsRecord {
        record_type: DNS_TYPE_PTR,
        target: Some(wide(target)),
    }
}

fn browse_failed(error: &ServiceBrowseError) -> &str {
    match error {
        ServiceBrowseError::BrowseFailed(message) => message.as_str(),
        other => panic!("expected BrowseFailed, got {other:?}"),
    }
}

fn one_type() -> NativeBrowse {
    browse_start(
        &Some("_http._tcp".to_string()),
        &None,
        NonZeroU32::new(5),
    )
    .ok()
    .unwrap()
}

fn all_types() -> NativeBrowse {
    browse_start(&None, &None, NonZeroU32::new(5)).ok().unwrap()
}

fn context() -> ResolveContext {
    ResolveContext {
        name: "My Web Server".to_string(),
        service_type: "_http._tcp".to_string(),
        domain: "local".to_string(),
    }
}

fn service_instance() -> ServiceInstance {
    ServiceInstance {
        host_name: Some(wide("pc.local.")),
        ip4_address: Some([192, 168, 7, 42]),
        ip6_address: Some([1; 16]),
        port: 8080,
        keys: Some(vec![
            Some(wide("path")),
            Some(wide("")),
            None,
            Some(wide("flag")),
            Some(wide("last")),
        ]),
        values: Some(vec![
            Some(wide("/gr\u{fc}n")),
            Some(wide("dropped")),
            Some(wide("dropped")),
            None,
        ]),
        interface_index: 3,
    }
}

#[test]
fn browse_queries_the_type_in_its_domain() {
    let request = one_type();
    assert_eq!(request.query_name, wide_nul("_http._tcp.local"));
    assert_eq!(request.interface, 5);
    let request = browse_start(
        &Some("_http._tcp".to_string()),
        &Some("example.com".to_string()),
        None,
    )
    .ok()
    .unwrap();
    assert_eq!(request.query_name, wide_nul("_http._tcp.example.com"));
    assert_eq!(request.interface, 0);
    assert_eq!(
        all_types().query_name,
        wide_nul("_services._dns-sd._udp.local")
    );
}

#[test]
fn browse_of_all_types_stays_in_its_domain() {
    let request = browse_start(&None, &Some("example.com".to_string()), None)
        .ok()
        .unwrap();
    assert_eq!(
        request.query_name,
        wide_nul("_services._dns-sd._udp.example.com")
    );
    let mut browse = request.context;
    let mut child = match browse.handle_ptr("_http._tcp.example.com".to_string()) {
        BrowseAction::Browse(request) => {
            assert_eq!(request.query_name, wide_nul("_http._tcp.example.com"));
            request.context
        }
        _ => panic!("expected a browse"),
    };
    match child.handle_ptr("Printer._http._tcp.example.com".to_string()) {
        BrowseAction::Resolve(request) => {
            assert_eq!(request.context.name, "Printer");
            assert_eq!(request.context.service_type, "_http._tcp");
            assert_eq!(request.context.domain, "example.com");
        }
        _ => panic!("expected a resolve"),
    }
    let mut bare = match browse.handle_ptr("_ipp._tcp".to_string()) {
        BrowseAction::Browse(request) => request.context,
        _ => panic!("expected a browse"),
    };
    match bare.handle_ptr("Printer._ipp._tcp.example.com".to_string()) {
        BrowseAction::Resolve(request) => {
            assert_eq!(request.context.name, "Printer");
            assert_eq!(request.context.service_type, "_ipp._tcp");
            assert_eq!(request.context.domain, "example.com");
        }
        _ => panic!("expected a resolve"),
    }
}

#[test]
fn targets_are_started_in_the_order_of_their_first_report() {
    let mut browse = one_type().context;
    let actions = browse.browse_callback(
        0,
        vec![ptr("b"), ptr("x\0y"), ptr("a"), ptr("b."), ptr("c")],
    );
    let mut names: Vec<String> = Vec::new();
    for action in actions {
        if let BrowseAction::Resolve(request) = action {
            names.push(request.context.name);
        }
    }
    assert_eq!(names, vec!["b", "a", "c"]);
}

#[test]
fn browse_rejects_interior_nuls() {
    match browse_start(&Some("_a\0b".to_string()), &None, None) {
        Err(error) => assert_eq!(
            browse_failed(&error),
            "invalid nul value found at position 2"
        ),
        Ok(_) => panic!("expected an error"),
    }
    // A single NUL at the very end counts as the terminator.
    let request = start_browse("x\0", "x", "local", 0, false).ok().unwrap();
    assert_eq!(request.query_name, vec![0x78, 0]);
    assert_eq!(
        start_browse("\u{1d11e}\0\0", "x", "local", 0, false).err(),
        Some("invalid nul value found at position 2".to_string())
    );
    let request = start_browse("", "", "", 0, false).ok().unwrap();
    assert_eq!(request.query_name, vec![0]);
}

#[test]
fn browse_status_must_be_pending() {
    assert!(browse_started(DNS_REQUEST_PENDING, false).is_ok());
    assert_eq!(
        browse_failed(&browse_started(87, true).err().unwrap()),
        "DnsServiceBrowse failed with status 87"
    );
    assert_eq!(
        browse_failed(&browse_started(DNS_REQUEST_PENDING, true).err().unwrap()),
        "browse registry poisoned"
    );
}

#[test]
fn meta_targets_start_one_browse_each() {
    let mut browse = all_types().context;
    let actions = browse.browse_callback(
        0,
        vec![
            ptr("_http._tcp.local."),
            DnsRecord {
                record_type: 16,
                target: None,
            },
            ptr("_http._tcp.local"),
            ptr("single"),
        ],
    );
    assert_eq!(actions.len(), 3);
    match &actions[0] {
        BrowseAction::Browse(request) => {
            assert_eq!(request.query_name, wide_nul("_http._tcp.local"));
            assert_eq!(request.interface, 5);
        }
        _ => panic!("expected a browse"),
    }
    assert!(matches!(actions[1], BrowseAction::Ignore));
    assert!(matches!(
        &actions[2],
        BrowseAction::Browse(request) if request.query_name == wide_nul("single")
    ));
    assert!(matches!(
        browse.handle_ptr("_http._tcp.local".to_string()),
        BrowseAction::Ignore
    ));
}

#[test]
fn cascaded_browses_resolve_instances_under_their_labels() {
    let mut browse = all_types().context;
    let mut child = match browse.handle_ptr("_http._tcp.local".to_string()) {
        BrowseAction::Browse(request) => request.context,
        _ => panic!("expected a browse"),
    };
    match child.handle_ptr("My. Web Server._http._tcp.local".to_string()) {
        BrowseAction::Resolve(request) => {
            assert_eq!(
                request.query_name,
                wide_nul("My. Web Server._http._tcp.local")
            );
            assert_eq!(request.interface, 5);
            assert_eq!(request.context.name, "My. Web Server");
            assert_eq!(request.context.service_type, "_http._tcp");
            assert_eq!(request.context.domain, "local");
        }
        _ => panic!("expected a resolve"),
    }
}

#[test]
fn callbacks_report_their_status_and_go_on() {
    let mut browse = one_type().context;
    let actions = browse.browse_callback(9003, vec![ptr("Printer._http._tcp.local.")]);
    assert_eq!(actions.len(), 2);
    match &actions[0] {
        BrowseAction::Report(error) => {
            assert_eq!(browse_failed(error), "browse callback status 9003")
        }
        _ => panic!("expected an error"),
    }
    match &actions[1] {
        BrowseAction::Resolve(request) => assert_eq!(request.context.name, "Printer"),
        _ => panic!("expected a resolve"),
    }
    let actions = browse.browse_callback(0, vec![ptr("a\0b"), ptr("a\0b")]);
    assert!(matches!(actions[0], BrowseAction::Ignore));
    assert!(matches!(actions[1], BrowseAction::Ignore));
}

#[test]
fn instance_labels_lose_type_and_domain() {
    assert_eq!(
        instance_label("My Web Server._http._tcp.local", "_http._tcp", "local"),
        "My Web Server"
    );
    assert_eq!(
        instance_label("My Web Server._ipp._tcp.local", "_http._tcp", "local"),
        "My Web Server._ipp._tcp.local"
    );
    assert_eq!(
        instance_label("_http._tcp.local", "_http._tcp", "local"),
        "_http._tcp.local"
    );
    assert_eq!(
        instance_label("._http._tcp.local", "_http._tcp", "local"),
        ""
    );
}

#[test]
fn wide_strings_are_decoded() {
    assert_eq!(pwstr_to_string(&None), "");
    assert_eq!(pwstr_to_string(&Some(wide("pc.local"))), "pc.local");
    assert_eq!(
        pwstr_to_string(&Some(vec![0xd834, 0xdd1e, 0x6d])),
        "\u{1d11e}m"
    );
    // An unpaired surrogate is no text.
    assert_eq!(pwstr_to_string(&Some(vec![0x61, 0xd834])), "");
}

#[test]
fn txt_properties_become_records() {
    let records = read_txt(&service_instance());
    assert_eq!(records.len(), 3);
    assert_eq!(records[0].key, "path");
    assert_eq!(
        records[0].value.as_deref(),
        Some("/gr\u{fc}n".as_bytes())
    );
    assert_eq!(records[1].key, "flag");
    assert_eq!(records[1].value, None);
    assert_eq!(records[2].key, "last");
    assert_eq!(records[2].value, None);
    let mut bare = service_instance();
    bare.values = None;
    assert_eq!(read_txt(&bare)[0].value, None);
    bare.keys = None;
    assert!(read_txt(&bare).is_empty());
}

#[test]
fn resolves_query_the_full_name() {
    let request = start_resolve("My Web Server._http._tcp.local", 5, context()).unwrap();
    assert_eq!(
        request.query_name,
        wide_nul("My Web Server._http._tcp.local")
    );
    assert_eq!(request.interface, 5);
    assert!(request.context.resolve_started(DNS_REQUEST_PENDING).is_none());
    match request.context.resolve_started(-1) {
        Some(ServiceBrowseError::ResolveFailed(name, reason)) => {
            assert_eq!(name, "My Web Server");
            assert_eq!(reason, "DnsServiceResolve failed with status -1");
        }
        _ => panic!("expected ResolveFailed"),
    }
    assert!(start_resolve("a\0b", 5, context()).is_none());
}

#[test]
fn resolved_instances_are_found() {
    match context().resolve_callback(0, Some(service_instance())) {
        Ok(BrowseEvent::Found(service)) => {
            assert_eq!(service.name, "My Web Server");
            assert_eq!(service.service_type, "_http._tcp");
            assert_eq!(service.domain, "local");
            assert_eq!(service.host_name, "pc.local");
            assert_eq!(service.port, 8080);
            assert_eq!(
                service.addresses,
                vec![IpAddr::V4([192, 168, 7, 42]), IpAddr::V6([1; 16])]
            );
            assert_eq!(service.txt_records.len(), 3);
            assert_eq!(service.interface_index, NonZeroU32::new(3));
        }
        _ => panic!("expected a service"),
    }
}

#[test]
fn failed_resolves_are_reported_by_name() {
    for (status, instance) in [(9003, Some(service_instance())), (0, None)] {
        match context().resolve_callback(status, instance) {
            Err(ServiceBrowseError::ResolveFailed(name, reason)) => {
                assert_eq!(name, "My Web Server");
                assert_eq!(reason, format!("resolve callback status {status}"));
            }
            _ => panic!("expected ResolveFailed"),
        }
    }
}

#[test]
fn one_shot_resolves_query_the_full_name() {
    let mut builder = ServiceResolverBuilder::new("My Service", "_mock._tcp", "local");
    let request = resolve_once(&builder).ok().unwrap();
    assert_eq!(request.query_name, wide_nul("My Service._mock._tcp.local"));
    assert_eq!(request.interface, 0);
    assert_eq!(request.context.name, "My Service");
    assert_eq!(request.context.service_type, "_mock._tcp");
    assert_eq!(request.context.domain, "local");
    assert_eq!(
        instance_label("My Service._mock._tcp.local", "_mock._tcp", "local"),
        "My Service"
    );
    builder.interface_index(NonZeroU32::new(4).unwrap());
    assert_eq!(resolve_once(&builder).ok().unwrap().interface, 4);
    match resolve_once(&ServiceResolverBuilder::new("a\0b", "_mock._tcp", "local")) {
        Err(ServiceBrowseError::ResolveFailed(name, reason)) => {
            assert_eq!(name, "a\0b");
            assert_eq!(reason, "invalid nul value found at position 1");
        }
        _ => panic!("expected ResolveFailed"),
    }
}

#[test]
fn targets_are_handled_once_over_several_callbacks() {
    let first = || vec![ptr("a"), ptr("b")];
    let second = || vec![ptr("b."), ptr("c"), ptr("a")];
    let names = |actions: Vec<BrowseAction>| -> Vec<String> {
        let mut names = Vec::new();
        for action in actions {
            match action {
                BrowseAction::Resolve(request) => names.push(request.context.name),
                BrowseAction::Ignore => names.push(String::new()),
                _ => panic!("expected a resolve or nothing"),
            }
        }
        names
    };
    let mut divided = one_type().context;
    let mut seen = names(divided.browse_callback(0, first()));
    seen.extend(names(divided.browse_callback(0, second())));
    let mut whole = one_type().context;
    let mut all = first();
    all.extend(second());
    assert_eq!(seen, names(whole.browse_callback(0, all)));
    assert_eq!(seen, vec!["a", "b", "", "c", ""]);
}
