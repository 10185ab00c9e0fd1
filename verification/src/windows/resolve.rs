//! Resolving an instance, and reading what it resolved to.

use vstd::prelude::*;
use vstd::slice::slice_to_vec;
use vstd::string::*;
use vstd::utf8::*;

use crate::addr::{interface_number, interface_number_of, nonzero, IpAddr, NonZeroU32};
use crate::browse::{
    delivery, BrowseEvent, DiscoveredService, ErrorView, EventView, ServiceBrowseError,
    ServiceResolverBuilder, ServiceView,
};
use crate::text::{
    concat, decimal, decimal_text, law_trim_dot, signed_decimal, signed_decimal_text, strips_dots,
    trim_dot, trim_end_dots,
};
use crate::txt::{TxtEntry, TxtRecord};
use crate::windows::wide::{
    encode_wide, pwstr_text, pwstr_to_string, wide_string, wide_string_error, wide_units,
};

verus! {

/// `DnsServiceBrowse` and `DnsServiceResolve` return this when the request started
/// asynchronously (the completion callback will fire).
pub const DNS_REQUEST_PENDING: i32 = 9506;

/// The context of a resolve: the identity of the instance.
pub struct ResolveContext {
    /// The service instance name.
    pub name: String,
    /// The service type.
    pub service_type: String,
    /// The domain.
    pub domain: String,
}

/// The arguments of a `DnsServiceResolve` call, and its context.
pub struct NativeResolve {
    /// The full name to resolve, NUL included.
    pub query_name: Vec<u16>,
    /// The interface number; zero for all interfaces.
    pub interface: u32,
    /// The context for the completion callback.
    pub context: ResolveContext,
}

/// A resolve request as plain values.
#[verifier::ext_equal]
pub struct NativeResolveView {
    pub query_name: Seq<u16>,
    pub interface: u32,
    pub name: Seq<char>,
    pub service_type: Seq<char>,
    pub domain: Seq<char>,
}

impl DeepView for NativeResolve {
    type V = NativeResolveView;

    open spec fn deep_view(&self) -> NativeResolveView {
        NativeResolveView {
            query_name: self.query_name@,
            interface: self.interface,
            name: self.context.name@,
            service_type: self.context.service_type@,
            domain: self.context.domain@,
        }
    }
}

/// Prepares the `DnsServiceResolve` call for an instance with the label `context.name`.
/// There is none for a full name that is no wide string.
pub fn start_resolve(full_name: &str, interface: u32, context: ResolveContext) -> (request: Option<
    NativeResolve,
>)
    ensures
        match request {
            Some(request) => {
                &&& wide_string(full_name@) == Some(request.query_name@)
                &&& request.interface == interface
                &&& request.context == context
            },
            None => wide_string(full_name@) is None,
        },
{
    match encode_wide(full_name) {
        Ok(query_name) => Some(NativeResolve { query_name, interface, context }),
        Err(_) => None,
    }
}

/// An instance as the resolve callback gets it. Wide strings come without their
/// NUL; `None` stands for a null pointer.
pub struct ServiceInstance {
    /// The host name.
    pub host_name: Option<Vec<u16>>,
    /// The IPv4 address, in network byte order.
    pub ip4_address: Option<[u8; 4]>,
    /// The IPv6 address, in network byte order.
    pub ip6_address: Option<[u8; 16]>,
    /// The port.
    pub port: u16,
    /// The TXT keys.
    pub keys: Option<Vec<Option<Vec<u16>>>>,
    /// The TXT values.
    pub values: Option<Vec<Option<Vec<u16>>>>,
    /// The interface number.
    pub interface_index: u32,
}

/// The value at `i`, as the bytes of its text: none where there is no value, or a
/// null pointer.
pub open spec fn value_at(values: Option<Vec<Option<Vec<u16>>>>, i: int) -> Option<Seq<u8>> {
    match values {
        Some(values) => if i < values@.len() && values@[i] is Some {
            Some(encode_utf8(pwstr_text(wide_units(values@[i]))))
        } else {
            None
        },
        None => None,
    }
}

/// The records that the first `n` keys and their values stand for. An empty key is
/// skipped, its value with it.
pub open spec fn property_records(
    keys: Seq<Option<Vec<u16>>>,
    values: Option<Vec<Option<Vec<u16>>>>,
    n: nat,
) -> Seq<TxtEntry>
    decreases n,
{
    if n == 0 {
        Seq::empty()
    } else {
        let before = property_records(keys, values, (n - 1) as nat);
        let key = pwstr_text(wide_units(keys[n - 1]));
        if key.len() == 0 {
            before
        } else {
            before.push(TxtEntry { key, value: value_at(values, n - 1) })
        }
    }
}

/// The TXT records of an instance.
pub open spec fn instance_records(instance: ServiceInstance) -> Seq<TxtEntry> {
    match instance.keys {
        Some(keys) => property_records(keys@, instance.values, keys@.len()),
        None => Seq::empty(),
    }
}

/// Reads the value at `i`.
fn read_value(values: &Option<Vec<Option<Vec<u16>>>>, i: usize) -> (value: Option<Vec<u8>>)
    ensures
        value.deep_view() == value_at(*values, i as int),
{
    match values {
        Some(values) => if i < values.len() {
            match &values[i] {
                Some(_) => {
                    let value = slice_to_vec(pwstr_to_string(&values[i]).as_str().as_bytes());
                    assert(value.deep_view() =~= value@);
                    Some(value)
                },
                None => None,
            }
        } else {
            None
        },
        None => None,
    }
}

/// Reads the TXT key/value pairs out of a resolved service instance.
///
/// Windows exposes TXT values as wide strings, so binary TXT values are not
/// representable and are treated as UTF-16 text.
pub fn read_txt(instance: &ServiceInstance) -> (records: Vec<TxtRecord>)
    ensures
        records.deep_view() == instance_records(*instance),
{
    let mut records: Vec<TxtRecord> = Vec::new();
    assert(records.deep_view() =~= Seq::empty());
    match &instance.keys {
        Some(keys) => {
            let mut i: usize = 0;
            while i < keys.len()
                invariant
                    i <= keys.len(),
                    records.deep_view() == property_records(keys@, instance.values, i as nat),
                decreases keys.len() - i,
            {
                let key = pwstr_to_string(&keys[i]);
                if key.as_str().unicode_len() > 0 {
                    let ghost before = records.deep_view();
                    let value = read_value(&instance.values, i);
                    let record = TxtRecord { key, value };
                    assert(record.deep_view().value == value.deep_view());
                    records.push(record);
                    assert(records.deep_view() =~= before.push(record.deep_view()));
                }
                i = i + 1;
            }
        },
        None => {},
    }
    records
}

/// The addresses of an instance: IPv4 first.
pub open spec fn instance_addresses(
    ip4: Option<[u8; 4]>,
    ip6: Option<[u8; 16]>,
) -> Seq<IpAddr> {
    let v4 = match ip4 {
        Some(octets) => seq![IpAddr::V4(octets)],
        None => Seq::empty(),
    };
    match ip6 {
        Some(octets) => v4.push(IpAddr::V6(octets)),
        None => v4,
    }
}

/// What a resolve delivers: the service under the identity that it was asked for
/// with, or the status that it ended with.
pub open spec fn resolve_delivery(
    context: ResolveContext,
    status: u32,
    instance: Option<ServiceInstance>,
) -> Result<EventView, ErrorView> {
    if status == 0 && instance is Some {
        let instance = instance->0;
        Ok(
            EventView::Found(
                ServiceView {
                    name: context.name@,
                    service_type: context.service_type@,
                    domain: context.domain@,
                    host_name: trim_end_dots(pwstr_text(wide_units(instance.host_name))),
                    port: instance.port,
                    addresses: instance_addresses(instance.ip4_address, instance.ip6_address),
                    txt_records: instance_records(instance),
                    interface_index: nonzero(instance.interface_index),
                },
            ),
        )
    } else {
        Err(
            ErrorView::ResolveFailed(
                context.name@,
                "resolve callback status "@ + decimal(status as nat),
            ),
        )
    }
}

impl ResolveContext {
    /// Takes the status of `DnsServiceResolve`: the error to deliver when the
    /// request did not start, so that no callback will fire.
    pub fn resolve_started(&self, result: i32) -> (error: Option<ServiceBrowseError>)
        ensures
            match error {
                None => result == DNS_REQUEST_PENDING,
                Some(error) => {
                    &&& result != DNS_REQUEST_PENDING
                    &&& error.deep_view() == ErrorView::ResolveFailed(
                        self.name@,
                        "DnsServiceResolve failed with status "@ + signed_decimal(result as int),
                    )
                },
            },
    {
        if result != DNS_REQUEST_PENDING {
            Some(
                ServiceBrowseError::ResolveFailed(
                    self.name.clone(),
                    concat(
                        "DnsServiceResolve failed with status ",
                        signed_decimal_text(result).as_str(),
                    ),
                ),
            )
        } else {
            None
        }
    }

    /// Takes what the resolve ended with, and gives what to deliver.
    pub fn resolve_callback(self, status: u32, instance: Option<ServiceInstance>) -> (outcome:
        Result<BrowseEvent, ServiceBrowseError>)
        ensures
            delivery(outcome) == resolve_delivery(self, status, instance),
            outcome is Ok <==> status == 0 && instance is Some,
            outcome is Ok ==> {
                &&& outcome->Ok_0 is Found
                &&& outcome->Ok_0->Found_0.name@ == self.name@
                &&& outcome->Ok_0->Found_0.service_type@ == self.service_type@
                &&& outcome->Ok_0->Found_0.domain@ == self.domain@
                &&& outcome->Ok_0->Found_0.port == instance->0.port
                &&& outcome->Ok_0->Found_0.addresses@ == instance_addresses(
                    instance->0.ip4_address,
                    instance->0.ip6_address,
                )
            },
    {
        if status == 0 {
            if let Some(instance) = instance {
                let mut addresses: Vec<IpAddr> = Vec::new();
                match instance.ip4_address {
                    Some(octets) => addresses.push(IpAddr::V4(octets)),
                    None => {},
                }
                match instance.ip6_address {
                    Some(octets) => addresses.push(IpAddr::V6(octets)),
                    None => {},
                }
                assert(addresses@ =~= instance_addresses(
                    instance.ip4_address,
                    instance.ip6_address,
                ));
                return Ok(
                    BrowseEvent::Found(
                        DiscoveredService {
                            name: self.name,
                            service_type: self.service_type,
                            domain: self.domain,
                            host_name: trim_dot(pwstr_to_string(&instance.host_name).as_str()),
                            port: instance.port,
                            addresses,
                            txt_records: read_txt(&instance),
                            interface_index: NonZeroU32::new(instance.interface_index),
                        },
                    ),
                );
            }
        }
        Err(
            ServiceBrowseError::ResolveFailed(
                self.name,
                concat("resolve callback status ", decimal_text(status as u64).as_str()),
            ),
        )
    }
}

/// Every record that is read has a key, and there are no more records than keys.
pub proof fn law_property_records_have_keys(
    keys: Seq<Option<Vec<u16>>>,
    values: Option<Vec<Option<Vec<u16>>>>,
    n: nat,
)
    requires
        n <= keys.len(),
    ensures
        property_records(keys, values, n).len() <= n,
        forall|i: int|
            0 <= i < property_records(keys, values, n).len() ==> #[trigger] property_records(
                keys,
                values,
                n,
            )[i].key.len() > 0,
    decreases n,
{
    if n > 0 {
        law_property_records_have_keys(keys, values, (n - 1) as nat);
    }
}

/// A resolve never reports a removal, and fails only under the name that it was
/// asked for with.
pub proof fn law_resolve_reports_no_removal(
    context: ResolveContext,
    status: u32,
    instance: Option<ServiceInstance>,
)
    ensures
        match resolve_delivery(context, status, instance) {
            Ok(event) => event is Found && event->Found_0.name == context.name@,
            Err(error) => error is ResolveFailed && error->ResolveFailed_0 == context.name@,
        },
{
}

/// The full name of an instance.
pub open spec fn full_name(
    name: Seq<char>,
    service_type: Seq<char>,
    domain: Seq<char>,
) -> Seq<char> {
    name + seq!['.'] + service_type + seq!['.'] + domain
}

/// Prepares the `DnsServiceResolve` call for a one-shot resolve. A full name that is
/// no wide string gives the reason why there is none.
pub fn resolve_once(builder: &ServiceResolverBuilder) -> (request: Result<
    NativeResolve,
    ServiceBrowseError,
>)
    ensures
        ({
            let scope = builder.deep_view();
            let full = full_name(scope.name, scope.service_type, scope.domain);
            match request {
                Ok(request) => {
                    &&& wide_string(full) is Some
                    &&& request.deep_view() == (NativeResolveView {
                        query_name: wide_string(full)->0,
                        interface: interface_number_of(scope.interface_index),
                        name: scope.name,
                        service_type: scope.service_type,
                        domain: scope.domain,
                    })
                },
                Err(error) => {
                    &&& wide_string(full) is None
                    &&& error.deep_view() == ErrorView::ResolveFailed(
                        scope.name,
                        wide_string_error(full),
                    )
                },
            }
        }),
{
    proof {
        reveal_strlit(".");
        assert("."@ =~= seq!['.']);
    }
    let mut full = concat(builder.name.as_str(), ".");
    full.append(builder.service_type.as_str());
    full.append(".");
    full.append(builder.domain.as_str());
    match encode_wide(full.as_str()) {
        Ok(query_name) => Ok(
            NativeResolve {
                query_name,
                interface: interface_number(builder.interface_index),
                context: ResolveContext {
                    name: builder.name.clone(),
                    service_type: builder.service_type.clone(),
                    domain: builder.domain.clone(),
                },
            },
        ),
        Err(reason) => Err(ServiceBrowseError::ResolveFailed(builder.name.clone(), reason)),
    }
}

/// The addresses of an instance are the IPv4 address if there is one and the IPv6
/// address if there is one, each whether or not the other is there, the IPv4 address
/// first, and no others.
pub proof fn law_instance_addresses(ip4: Option<[u8; 4]>, ip6: Option<[u8; 16]>)
    ensures
        forall|octets: [u8; 4]|
            #[trigger] instance_addresses(ip4, ip6).contains(IpAddr::V4(octets)) <==> ip4 == Some(
                octets,
            ),
        forall|octets: [u8; 16]|
            #[trigger] instance_addresses(ip4, ip6).contains(IpAddr::V6(octets)) <==> ip6 == Some(
                octets,
            ),
        instance_addresses(ip4, ip6).len() == (if ip4 is Some {
            1int
        } else {
            0
        }) + (if ip6 is Some {
            1int
        } else {
            0
        }),
        ip4 is Some ==> instance_addresses(ip4, ip6)[0] == IpAddr::V4(ip4->0),
        ip6 is Some ==> instance_addresses(ip4, ip6).last() == IpAddr::V6(ip6->0),
{
    let list = instance_addresses(ip4, ip6);
    if ip4 is Some {
        assert(list[0] == IpAddr::V4(ip4->0));
    }
    if ip6 is Some {
        assert(list[list.len() - 1] == IpAddr::V6(ip6->0));
    }
}

/// A resolve finds its instance exactly if it ended well and there is one: under the
/// identity that it was asked for with, and with the instance's own host, port,
/// addresses, TXT records and interface. Otherwise it fails with its status.
pub proof fn law_resolve_delivers_instance(
    context: ResolveContext,
    status: u32,
    instance: Option<ServiceInstance>,
)
    ensures
        resolve_delivery(context, status, instance) is Ok <==> status == 0 && instance is Some,
        match resolve_delivery(context, status, instance) {
            Ok(EventView::Found(service)) => {
                &&& service.name == context.name@
                &&& service.service_type == context.service_type@
                &&& service.domain == context.domain@
                &&& strips_dots(
                    pwstr_text(wide_units(instance->0.host_name)),
                    service.host_name,
                )
                &&& service.port == instance->0.port
                &&& service.addresses == instance_addresses(
                    instance->0.ip4_address,
                    instance->0.ip6_address,
                )
                &&& service.txt_records == instance_records(instance->0)
                &&& service.interface_index is None <==> instance->0.interface_index == 0
                &&& instance->0.interface_index != 0 ==> service.interface_index == Some(
                    instance->0.interface_index,
                )
            },
            Ok(EventView::Removed(_)) => false,
            Err(error) => error == ErrorView::ResolveFailed(
                context.name@,
                "resolve callback status "@ + decimal(status as nat),
            ),
        },
{
    if instance is Some {
        law_trim_dot(pwstr_text(wide_units(instance->0.host_name)));
    }
}

/// One more key adds one record behind the others, with its own text and with the
/// text of the value at its own place as bytes, or no value where there is none; a
/// key without text adds nothing, whatever its value.
pub proof fn law_property_records(
    keys: Seq<Option<Vec<u16>>>,
    values: Option<Vec<Option<Vec<u16>>>>,
    n: nat,
)
    requires
        n < keys.len(),
    ensures
        ({
            let before = property_records(keys, values, n);
            let after = property_records(keys, values, n + 1);
            let key = pwstr_text(wide_units(keys[n as int]));
            let valued = values is Some && n < values->0@.len() && values->0@[n as int] is Some;
            &&& key.len() == 0 ==> after == before
            &&& key.len() > 0 ==> {
                &&& after.len() == before.len() + 1
                &&& after.drop_last() == before
                &&& after.last().key == key
                &&& after.last().value is Some <==> valued
                &&& valued ==> after.last().value == Some(
                    encode_utf8(pwstr_text(Some(values->0@[n as int]->0@))),
                )
            }
        }),
        property_records(keys, values, 0).len() == 0,
{
    let before = property_records(keys, values, n);
    let after = property_records(keys, values, n + 1);
    if after.len() > before.len() {
        assert(after.drop_last() =~= before);
    }
}

/// All keys of an instance count; an instance without keys has no records.
pub proof fn law_instance_records(instance: ServiceInstance)
    ensures
        instance.keys is None ==> instance_records(instance).len() == 0,
        instance.keys is Some ==> instance_records(instance) == property_records(
            instance.keys->0@,
            instance.values,
            instance.keys->0@.len(),
        ),
        forall|units: Vec<u16>| #[trigger] wide_units(Some(units)) == Some(units@),
        wide_units(None) is None,
{
}

} // verus!
