use mdns_sd_discovery::dbus::MessageBody;
use mdns_sd_discovery::linux::{
    avahi_interface_to_index, browse_start, instance_member, instance_signal, interface_to_avahi,
    resolve_and_emit, resolve_once, resolve_start, resolved, resolved_at, type_member, type_signal,
    InstanceAction, InstanceBrowser, InstanceItem, InstanceMember, InstanceSignal, Reachability,
    ResolvedService, SetupFailure, TypeAction, TypeBrowser, TypeItem, TypeMember, TypeSignal,
};
use mdns_sd_discovery::{
    BrowseEvent, IpAddr, NonZeroU32, ServiceBrowseError, ServiceResolverBuilder,
};
use zbus::zvariant::serialized::Context;
use zbus::zvariant::{to_bytes, Endian};

fn body(bytes: &[u8], signature: &str, big_endian: bool) -> MessageBody {
    MessageBody {
        bytes: bytes.to_vec(),
        signature: signature.to_string(),
        big_endian,
    }
}

fn type_item_body(endian: Endian) -> MessageBody {
    let encoded = to_bytes(
        Context::new_dbus(endian, 0),
        &(7i32, -1i32, "_mock._tcp", "local", 5u32),
    )
    .unwrap();
    body(encoded.bytes(), "(iissu)", endian == Endian::Big)
}

fn instance_item_body() -> MessageBody {
    let encoded = to_bytes(
        Context::new_dbus(Endian::Little, 0),
        &(7i32, -1i32, "Mock Service", "_mock._tcp", "local", 5u32),
    )
    .unwrap();
    body(encoded.bytes(), "(iisssu)", false)
}

fn string_body(text: &str) -> MessageBody {
    let encoded = to_bytes(Context::new_dbus(Endian::Little, 0), text).unwrap();
    body(encoded.bytes(), "s", false)
}

fn byte_body() -> MessageBody {
    let encoded = to_bytes(Context::new_dbus(Endian::Little, 0), &42u8).unwrap();
    body(encoded.bytes(), "y", false)
}

fn browse_failed(error: &ServiceBrowseError) -> &str {
    match error {
        ServiceBrowseError::BrowseFailed(message) => message.as_str(),
        other => panic!("expected BrowseFailed, got {other:?}"),
    }
}

fn unavailable(error: &ServiceBrowseError) -> &str {
    match error {
        ServiceBrowseError::DnsSdUnavailable(message) => message.as_str(),
        other => panic!("expected DnsSdUnavailable, got {other:?}"),
    }
}

fn reply() -> ResolvedService {
    ResolvedService {
        interface: 7,
        protocol: -1,
        name: "Mock Service".to_string(),
        service_type: "_mock._tcp".to_string(),
        domain: "local".to_string(),
        host: "mock-host.local".to_string(),
        address_protocol: -1,
        address: "192.168.7.42".to_string(),
        port: 8080,
        txt: vec![b"path=/mock".to_vec(), b"flag".to_vec()],
        flags: 0,
    }
}

#[test]
fn interfaces_map_to_avahi_and_back() {
    assert_eq!(interface_to_avahi(None).unwrap(), -1);
    assert_eq!(interface_to_avahi(NonZeroU32::new(2)).unwrap(), 2);
    assert_eq!(
        interface_to_avahi(NonZeroU32::new(0x7fff_ffff)).unwrap(),
        i32::MAX
    );
    match interface_to_avahi(NonZeroU32::new(0x8000_0000)) {
        Err(ServiceBrowseError::InvalidInterfaceIndex(index)) => assert_eq!(index, 0x8000_0000),
        other => panic!("expected InvalidInterfaceIndex, got {other:?}"),
    }
    assert_eq!(avahi_interface_to_index(-1), None);
    assert_eq!(avahi_interface_to_index(0), None);
    assert_eq!(avahi_interface_to_index(7), NonZeroU32::new(7));
}

#[test]
fn browse_starts_with_the_requested_type() {
    let request = browse_start(
        Reachability::Reachable,
        &Some("_printer._tcp".to_string()),
        &Some("local".to_string()),
        NonZeroU32::new(2),
    )
    .ok()
    .unwrap();
    assert_eq!(request.interface, 2);
    assert_eq!(request.protocol, -1);
    assert_eq!(request.service_type.as_deref(), Some("_printer._tcp"));
    assert_eq!(request.domain, "local");
    assert_eq!(request.flags, 0);
    let request = browse_start(Reachability::Reachable, &None, &None, None)
        .ok()
        .unwrap();
    assert_eq!(request.interface, -1);
    assert_eq!(request.service_type, None);
    assert_eq!(request.domain, "");
}

#[test]
fn browse_and_resolve_report_a_missing_bus_first() {
    let index = NonZeroU32::new(0xffff_ffff);
    match browse_start(Reachability::NoBus("refused".to_string()), &None, &None, index) {
        Err(error) => assert_eq!(
            unavailable(&error),
            "failed to connect to system D-Bus: refused"
        ),
        Ok(_) => panic!("expected an error"),
    }
    let mut builder = ServiceResolverBuilder::new("My Service", "_mock._tcp", "local");
    builder.interface_index(index.unwrap());
    match resolve_start(Reachability::NoAvahi("no owner".to_string()), &builder) {
        Err(error) => assert_eq!(
            unavailable(&error),
            "failed to connect to Avahi via D-Bus: no owner"
        ),
        Ok(_) => panic!("expected an error"),
    }
    assert!(matches!(
        resolve_start(Reachability::Reachable, &builder),
        Err(ServiceBrowseError::InvalidInterfaceIndex(0xffff_ffff))
    ));
    builder.interface_index(NonZeroU32::new(4).unwrap());
    let request = resolve_start(Reachability::Reachable, &builder)
        .ok()
        .unwrap();
    assert_eq!(request.interface, 4);
    assert_eq!(request.protocol, -1);
    assert_eq!(request.name, "My Service");
    assert_eq!(request.service_type, "_mock._tcp");
    assert_eq!(request.domain, "local");
    assert_eq!(request.address_protocol, -1);
    assert_eq!(request.flags, 0);
}

#[test]
fn members_are_told_apart() {
    assert_eq!(type_member(Some("ItemNew")), TypeMember::ItemNew);
    assert_eq!(type_member(Some("Failure")), TypeMember::Failure);
    assert_eq!(type_member(Some("ItemRemove")), TypeMember::Other);
    assert_eq!(type_member(None), TypeMember::Other);
    assert_eq!(instance_member(Some("ItemNew")), InstanceMember::ItemNew);
    assert_eq!(
        instance_member(Some("ItemRemove")),
        InstanceMember::ItemRemove
    );
    assert_eq!(instance_member(Some("Failure")), InstanceMember::Failure);
    assert_eq!(instance_member(Some("AllForNow")), InstanceMember::Other);
}

#[test]
fn type_signals_are_read_from_their_bodies() {
    for endian in [Endian::Little, Endian::Big] {
        match type_signal(Some("ItemNew"), &type_item_body(endian)) {
            TypeSignal::ItemNew(Some(item)) => {
                assert_eq!(item.service_type, "_mock._tcp");
                assert_eq!(item.domain, "local");
            }
            _ => panic!("expected an item"),
        }
    }
    match type_signal(Some("Failure"), &string_body("type boom")) {
        TypeSignal::Failure(Some(reason)) => assert_eq!(reason, "type boom"),
        _ => panic!("expected a failure"),
    }
    assert!(matches!(
        type_signal(Some("ItemNew"), &byte_body()),
        TypeSignal::ItemNew(None)
    ));
    assert!(matches!(
        type_signal(Some("Failure"), &byte_body()),
        TypeSignal::Failure(None)
    ));
    assert!(matches!(
        type_signal(Some("AllForNow"), &body(&[], "", false)),
        TypeSignal::Other
    ));
}

#[test]
fn instance_signals_are_read_from_their_bodies() {
    match instance_signal(Some("ItemNew"), &instance_item_body()) {
        InstanceSignal::ItemNew(Some(item)) => {
            assert_eq!(item.interface, 7);
            assert_eq!(item.protocol, -1);
            assert_eq!(item.name, "Mock Service");
            assert_eq!(item.service_type, "_mock._tcp");
            assert_eq!(item.domain, "local");
        }
        _ => panic!("expected an item"),
    }
    assert!(matches!(
        instance_signal(Some("ItemRemove"), &instance_item_body()),
        InstanceSignal::ItemRemove(Some(_))
    ));
    assert!(matches!(
        instance_signal(Some("ItemRemove"), &byte_body()),
        InstanceSignal::ItemRemove(None)
    ));
    match instance_signal(Some("Failure"), &string_body("browse boom")) {
        InstanceSignal::Failure(Some(reason)) => assert_eq!(reason, "browse boom"),
        _ => panic!("expected a failure"),
    }
    assert!(matches!(
        instance_signal(None, &instance_item_body()),
        InstanceSignal::Other
    ));
}

#[test]
fn bodies_without_parentheses_or_with_missing_bytes() {
    let item = type_item_body(Endian::Little);
    let plain = body(&item.bytes, "iissu", false);
    let arguments = plain.read_type_item().unwrap();
    assert_eq!(
        arguments,
        (7, -1, "_mock._tcp".to_string(), "local".to_string(), 5)
    );
    let cut = body(&item.bytes[..item.bytes.len() - 1], "(iissu)", false);
    assert!(cut.read_type_item().is_none());
    assert!(item.read_instance_item().is_none());
    assert_eq!(string_body("x").read_string(), Some("x".to_string()));
    assert_eq!(instance_item_body().read_instance_item().unwrap().5, 5);
}

#[test]
fn each_type_is_browsed_once() {
    let mut browser = TypeBrowser::new(3);
    match browser.on_signal(type_signal(
        Some("ItemNew"),
        &type_item_body(Endian::Little),
    )) {
        TypeAction::Browse(request) => {
            assert_eq!(request.interface, 3);
            assert_eq!(request.protocol, -1);
            assert_eq!(request.service_type.as_deref(), Some("_mock._tcp"));
            assert_eq!(request.domain, "local");
        }
        _ => panic!("expected a browse"),
    }
    assert!(matches!(
        browser.on_signal(type_signal(
            Some("ItemNew"),
            &type_item_body(Endian::Little)
        )),
        TypeAction::Ignore
    ));
    assert!(matches!(
        browser.on_signal(TypeSignal::ItemNew(Some(TypeItem {
            service_type: "_mock._tcp".to_string(),
            domain: "example.com".to_string(),
        }))),
        TypeAction::Browse(_)
    ));
    assert!(matches!(
        browser.on_signal(TypeSignal::ItemNew(None)),
        TypeAction::Ignore
    ));
    assert!(matches!(
        browser.on_signal(TypeSignal::Other),
        TypeAction::Ignore
    ));
    match browser.on_signal(TypeSignal::Failure(Some("type boom".to_string()))) {
        TypeAction::Report(error) => assert_eq!(
            browse_failed(&error),
            "service type browser failure: type boom"
        ),
        _ => panic!("expected an error"),
    }
    match browser.on_signal(TypeSignal::Failure(None)) {
        TypeAction::Report(error) => {
            assert_eq!(browse_failed(&error), "service type browser failure: ")
        }
        _ => panic!("expected an error"),
    }
}

#[test]
fn instances_are_resolved_and_removed() {
    let browser = InstanceBrowser {
        service_type: "_mock._tcp".to_string(),
    };
    let found = browser.on_signal(instance_signal(Some("ItemNew"), &instance_item_body()));
    assert!(!found.ends_browse(false));
    match found {
        InstanceAction::Resolve(request) => {
            assert_eq!(request.interface, 7);
            assert_eq!(request.protocol, -1);
            assert_eq!(request.name, "Mock Service");
            assert_eq!(request.service_type, "_mock._tcp");
            assert_eq!(request.domain, "local");
            assert_eq!(request.address_protocol, -1);
        }
        _ => panic!("expected a resolve"),
    }
    let removed = browser.on_signal(InstanceSignal::ItemRemove(Some(InstanceItem {
        interface: 7,
        protocol: -1,
        name: "Gone Service".to_string(),
        service_type: "_mock._tcp".to_string(),
        domain: "local".to_string(),
    })));
    assert!(removed.ends_browse(false));
    assert!(!removed.ends_browse(true));
    match removed {
        InstanceAction::Deliver(BrowseEvent::Removed(service)) => {
            assert_eq!(service.name, "Gone Service");
            assert_eq!(service.service_type, "_mock._tcp");
            assert_eq!(service.domain, "local");
            assert_eq!(service.interface_index, NonZeroU32::new(7));
        }
        _ => panic!("expected a removal"),
    }
    for signal in [
        InstanceSignal::ItemNew(None),
        InstanceSignal::ItemRemove(None),
        InstanceSignal::Other,
    ] {
        assert!(matches!(browser.on_signal(signal), InstanceAction::Ignore));
    }
    let failure = browser.on_signal(InstanceSignal::Failure(Some("browse boom".to_string())));
    assert!(!failure.ends_browse(false));
    match failure {
        InstanceAction::Report(error) => assert_eq!(
            browse_failed(&error),
            "service browser failure for _mock._tcp: browse boom"
        ),
        _ => panic!("expected an error"),
    }
}

#[test]
fn setup_failures_name_the_step() {
    assert_eq!(
        browse_failed(&TypeBrowser::setup_error(SetupFailure::Create(
            "rejected".to_string()
        ))),
        "ServiceTypeBrowserNew failed: rejected"
    );
    assert_eq!(
        unavailable(&TypeBrowser::setup_error(SetupFailure::Connect(
            "refused".to_string()
        ))),
        "failed to connect to system D-Bus: refused"
    );
    assert_eq!(
        browse_failed(&TypeBrowser::setup_error(SetupFailure::Subscribe(
            "bad rule".to_string()
        ))),
        "bad rule"
    );
    let browser = InstanceBrowser {
        service_type: "_new-fails._tcp".to_string(),
    };
    assert_eq!(
        browse_failed(&browser.setup_error(SetupFailure::Create("rejected".to_string()))),
        "ServiceBrowserNew failed for _new-fails._tcp: rejected"
    );
    assert_eq!(
        unavailable(&browser.setup_error(SetupFailure::Proxy("no proxy".to_string()))),
        "no proxy"
    );
}

#[test]
fn replies_become_services() {
    let service = resolved(reply());
    assert_eq!(service.name, "Mock Service");
    assert_eq!(service.service_type, "_mock._tcp");
    assert_eq!(service.domain, "local");
    assert_eq!(service.host_name, "mock-host.local");
    assert_eq!(service.port, 8080);
    assert_eq!(service.addresses, vec![IpAddr::V4([192, 168, 7, 42])]);
    assert_eq!(service.txt("path"), Some(&b"/mock"[..]));
    assert_eq!(service.txt("flag"), None);
    assert_eq!(service.interface_index, NonZeroU32::new(7));
}

#[test]
fn replies_without_an_address_or_interface() {
    let mut unresolved = reply();
    unresolved.address = "not an address".to_string();
    unresolved.interface = -1;
    unresolved.txt = vec![Vec::new()];
    let service = resolved(unresolved);
    assert!(service.addresses.is_empty());
    assert_eq!(service.interface_index, None);
    assert_eq!(service.txt_records.len(), 1);
}

#[test]
fn resolve_outcomes_are_found_or_failed() {
    assert!(matches!(
        resolve_and_emit("Mock Service".to_string(), Ok(reply())),
        Ok(BrowseEvent::Found(_))
    ));
    assert_eq!(
        resolve_once("other".to_string(), Ok(reply()))
            .ok()
            .unwrap()
            .name,
        "Mock Service"
    );
    match resolve_and_emit("missing".to_string(), Err("no such service".to_string())) {
        Err(ServiceBrowseError::ResolveFailed(name, reason)) => {
            assert_eq!(name, "missing");
            assert_eq!(reason, "no such service");
        }
        _ => panic!("expected ResolveFailed"),
    }
}

#[test]
fn replies_carry_addresses_of_either_family() {
    let mut v6 = reply();
    v6.address = "fe80::1".to_string();
    let mut octets = [0u8; 16];
    octets[0] = 0xfe;
    octets[1] = 0x80;
    octets[15] = 1;
    assert_eq!(resolved(v6).addresses, vec![IpAddr::V6(octets)]);
    for text in ["", "192.168.7", "192.168.7.42 ", "mock-host.local"] {
        let mut none = reply();
        none.address = text.to_string();
        assert!(resolved(none).addresses.is_empty());
    }
    assert_eq!(
        resolved_at(reply(), Some(IpAddr::V4([1, 2, 3, 4]))).addresses,
        vec![IpAddr::V4([1, 2, 3, 4])]
    );
    assert!(resolved_at(reply(), None).addresses.is_empty());
}
