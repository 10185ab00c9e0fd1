//! The shared model: builders, discovered services, events and errors.

use core::time::Duration;
use vstd::prelude::*;
use vstd::string::*;

use crate::addr::{IpAddr, NonZeroU32, SocketAddr};
use crate::text::{concat, decimal, decimal_text, same_text};
use crate::txt::{TxtEntry, TxtRecord};

verus! {

/// Builder for a DNS-SD service browse (discovery) operation.
///
/// By default a browser discovers **all** service types advertised on the
/// network and reports the instances of each (using the DNS-SD service-type
/// enumeration meta-query). Filter on [`DiscoveredService::service_type`] for
/// the types you care about, or call
/// [`service_type`](ServiceBrowserBuilder::service_type) to narrow to a single
/// type.
#[derive(Debug, Clone)]
pub struct ServiceBrowserBuilder {
    /// `None` means browse every service type via the meta-query cascade.
    pub service_type: Option<String>,
    /// The domain to browse; `None` means the default browse domains.
    pub domain: Option<String>,
    /// The interface to browse on; `None` means all interfaces.
    pub interface_index: Option<NonZeroU32>,
}

/// What a browse asks for.
pub struct BrowseScope {
    pub service_type: Option<Seq<char>>,
    pub domain: Option<Seq<char>>,
    pub interface_index: Option<u32>,
}

impl DeepView for ServiceBrowserBuilder {
    type V = BrowseScope;

    open spec fn deep_view(&self) -> BrowseScope {
        BrowseScope {
            service_type: self.service_type.deep_view(),
            domain: self.domain.deep_view(),
            interface_index: self.interface_index.deep_view(),
        }
    }
}

/// The scope of a browse that nothing narrows.
pub open spec fn unrestricted() -> BrowseScope {
    BrowseScope { service_type: None, domain: None, interface_index: None }
}

impl Default for ServiceBrowserBuilder {
    fn default() -> (builder: ServiceBrowserBuilder)
        ensures
            builder.deep_view() == unrestricted(),
    {
        ServiceBrowserBuilder { service_type: None, domain: None, interface_index: None }
    }
}

impl ServiceBrowserBuilder {
    /// Initializes a builder that browses for **all** service types on the
    /// network.
    ///
    /// Call [`service_type`](ServiceBrowserBuilder::service_type) to narrow to a
    /// single type.
    pub fn new() -> (builder: ServiceBrowserBuilder)
        ensures
            builder.deep_view() == unrestricted(),
    {
        ServiceBrowserBuilder { service_type: None, domain: None, interface_index: None }
    }

    /// Restricts browsing to a single service type, e.g. `_http._tcp`.
    ///
    /// The service type is the service followed by the transport protocol,
    /// separated by a dot (e.g. `_ftp._tcp`). When unset (the default), all
    /// service types are discovered via the DNS-SD meta-query
    /// (`_services._dns-sd._udp`); setting a type skips the meta-query and
    /// browses that type directly.
    pub fn service_type(&mut self, service_type: &str) -> (builder: &mut ServiceBrowserBuilder)
        ensures
            builder.deep_view() == (BrowseScope {
                service_type: Some(service_type@),
                ..old(self).deep_view()
            }),
            *final(self) == *final(builder),
    {
        self.service_type = Some(service_type.to_owned());
        self
    }

    /// Browses a specific domain.
    ///
    /// Most applications will not specify a domain, instead browsing the
    /// default browse domain(s) (usually `local`).
    pub fn domain(&mut self, domain: &str) -> (builder: &mut ServiceBrowserBuilder)
        ensures
            builder.deep_view() == (BrowseScope {
                domain: Some(domain@),
                ..old(self).deep_view()
            }),
            *final(self) == *final(builder),
    {
        self.domain = Some(domain.to_owned());
        self
    }

    /// Restricts browsing to a single interface (the index for a given interface
    /// is determined via the `if_nametoindex()` family of calls.)
    ///
    /// Most applications will not specify an interface, instead browsing on all
    /// available interfaces.
    pub fn interface_index(&mut self, index: NonZeroU32) -> (builder: &mut ServiceBrowserBuilder)
        ensures
            builder.deep_view() == (BrowseScope {
                interface_index: Some(index@),
                ..old(self).deep_view()
            }),
            *final(self) == *final(builder),
    {
        self.interface_index = Some(index);
        self
    }
}

/// The domain to browse: empty, for the default browse domains, when unset.
pub open spec fn domain_or_default(domain: Option<Seq<char>>) -> Seq<char> {
    match domain {
        Some(d) => d,
        None => Seq::empty(),
    }
}

/// The domain text to browse.
pub(crate) fn domain_text(domain: &Option<String>) -> (text: String)
    ensures
        text@ == domain_or_default(domain.deep_view()),
{
    match domain {
        Some(d) => d.clone(),
        None => String::new(),
    }
}

/// Builder for a one-shot resolve of a known service instance, which also serves
/// as a liveness probe.
#[derive(Debug, Clone)]
pub struct ServiceResolverBuilder {
    /// The service instance name.
    pub name: String,
    /// The service type, e.g. `_http._tcp`.
    pub service_type: String,
    /// The domain the service lives in.
    pub domain: String,
    /// The interface to resolve on; `None` means all interfaces.
    pub interface_index: Option<NonZeroU32>,
    /// How long to wait for an answer; `None` means as long as the platform does.
    pub timeout: Option<Duration>,
}

/// What a resolve asks for.
pub struct ResolveScope {
    pub name: Seq<char>,
    pub service_type: Seq<char>,
    pub domain: Seq<char>,
    pub interface_index: Option<u32>,
    pub timeout: Option<Duration>,
}

impl DeepView for ServiceResolverBuilder {
    type V = ResolveScope;

    open spec fn deep_view(&self) -> ResolveScope {
        ResolveScope {
            name: self.name@,
            service_type: self.service_type@,
            domain: self.domain@,
            interface_index: self.interface_index.deep_view(),
            timeout: self.timeout,
        }
    }
}

impl ServiceResolverBuilder {
    /// Initializes a builder that resolves the instance `name` of `service_type`
    /// in `domain`, on any interface and without a timeout of its own.
    pub fn new(name: &str, service_type: &str, domain: &str) -> (builder: ServiceResolverBuilder)
        ensures
            builder.deep_view() == (ResolveScope {
                name: name@,
                service_type: service_type@,
                domain: domain@,
                interface_index: None,
                timeout: None,
            }),
    {
        ServiceResolverBuilder {
            name: name.to_owned(),
            service_type: service_type.to_owned(),
            domain: domain.to_owned(),
            interface_index: None,
            timeout: None,
        }
    }

    /// Resolves on a single interface.
    pub fn interface_index(&mut self, index: NonZeroU32) -> (builder: &mut ServiceResolverBuilder)
        ensures
            builder.deep_view() == (ResolveScope {
                interface_index: Some(index@),
                ..old(self).deep_view()
            }),
            *final(self) == *final(builder),
    {
        self.interface_index = Some(index);
        self
    }

    /// Gives up after `timeout`.
    pub fn timeout(&mut self, timeout: Duration) -> (builder: &mut ServiceResolverBuilder)
        ensures
            builder.deep_view() == (ResolveScope {
                timeout: Some(timeout),
                ..old(self).deep_view()
            }),
            *final(self) == *final(builder),
    {
        self.timeout = Some(timeout);
        self
    }

    /// The error of a resolve that got no answer within `waited_ms`
    /// milliseconds.
    pub fn timed_out(&self, waited_ms: u64) -> (error: ServiceBrowseError)
        ensures
            error.deep_view() == ErrorView::ResolveFailed(
                self.name@,
                "timed out after "@ + decimal(waited_ms as nat) + "ms"@,
            ),
    {
        let mut reason = concat("timed out after ", decimal_text(waited_ms).as_str());
        reason.append("ms");
        ServiceBrowseError::ResolveFailed(self.name.clone(), reason)
    }
}

/// A resolved, connectable service instance.
#[derive(Debug, Clone)]
pub struct DiscoveredService {
    /// The service instance name, e.g. `My Web Server`.
    pub name: String,
    /// The service type, e.g. `_http._tcp`.
    pub service_type: String,
    /// The domain the service was discovered in, e.g. `local`.
    pub domain: String,
    /// The SRV target host name, e.g. `macbook.local`.
    pub host_name: String,
    /// The port the service accepts connections on.
    pub port: u16,
    /// Resolved IP addresses for [`host_name`](DiscoveredService::host_name). May
    /// be empty if address resolution did not (yet) yield any records.
    pub addresses: Vec<IpAddr>,
    /// The service's TXT record entries.
    pub txt_records: Vec<TxtRecord>,
    /// The interface the service was discovered on, if known.
    pub interface_index: Option<NonZeroU32>,
}

/// A discovered service as plain values.
#[verifier::ext_equal]
pub struct ServiceView {
    pub name: Seq<char>,
    pub service_type: Seq<char>,
    pub domain: Seq<char>,
    pub host_name: Seq<char>,
    pub port: u16,
    pub addresses: Seq<IpAddr>,
    pub txt_records: Seq<TxtEntry>,
    pub interface_index: Option<u32>,
}

impl DeepView for DiscoveredService {
    type V = ServiceView;

    open spec fn deep_view(&self) -> ServiceView {
        ServiceView {
            name: self.name@,
            service_type: self.service_type@,
            domain: self.domain@,
            host_name: self.host_name@,
            port: self.port,
            addresses: self.addresses@,
            txt_records: self.txt_records.deep_view(),
            interface_index: self.interface_index.deep_view(),
        }
    }
}

/// The value of the first record with `key`, if there is one and it has a value.
pub open spec fn txt_value(records: Seq<TxtEntry>, key: Seq<char>) -> Option<Seq<u8>>
    decreases records.len(),
{
    if records.len() == 0 {
        None
    } else if records[0].key == key {
        records[0].value
    } else {
        txt_value(records.drop_first(), key)
    }
}

impl DiscoveredService {
    /// Returns the resolved socket addresses (each
    /// [address](DiscoveredService::addresses) paired with the
    /// [port](DiscoveredService::port)).
    pub fn socket_addrs(&self) -> (addrs: Vec<SocketAddr>)
        ensures
            addrs@ == self.addresses@.map_values(|ip: IpAddr| SocketAddr { ip, port: self.port }),
    {
        let mut addrs: Vec<SocketAddr> = Vec::new();
        let mut i: usize = 0;
        while i < self.addresses.len()
            invariant
                i <= self.addresses.len(),
                addrs.len() == i,
                forall|k: int|
                    0 <= k < i ==> #[trigger] addrs[k] == (SocketAddr {
                        ip: self.addresses[k],
                        port: self.port,
                    }),
            decreases self.addresses.len() - i,
        {
            addrs.push(SocketAddr { ip: self.addresses[i], port: self.port });
            i = i + 1;
        }
        addrs
    }

    /// Returns the value of the first TXT record entry matching `key`, if any.
    ///
    /// Returns `Some(&[])` for a key that is present with an empty value and
    /// `None` for a key that is absent or key-only.
    pub fn txt(&self, key: &str) -> (value: Option<&[u8]>)
        ensures
            match value {
                Some(bytes) => txt_value(self.deep_view().txt_records, key@) == Some(bytes@),
                None => txt_value(self.deep_view().txt_records, key@) is None,
            },
    {
        let ghost all = self.deep_view().txt_records;
        let mut i: usize = 0;
        assert(all.skip(0) =~= all);
        while i < self.txt_records.len()
            invariant
                i <= self.txt_records.len(),
                all == self.txt_records.deep_view(),
                txt_value(all, key@) == txt_value(all.skip(i as int), key@),
            decreases self.txt_records.len() - i,
        {
            let record = &self.txt_records[i];
            assert(all.skip(i as int)[0] == record.deep_view());
            assert(all.skip(i as int).drop_first() =~= all.skip(i + 1));
            if same_text(record.key.as_str(), key) {
                return match &record.value {
                    Some(bytes) => Some(bytes.as_slice()),
                    None => None,
                };
            }
            i = i + 1;
        }
        None
    }
}

/// The first record with a key decides what the key's value is: a value gives
/// `Some`, an empty one included, and a key-only record gives `None`.
pub proof fn law_txt_first_match(records: Seq<TxtEntry>, key: Seq<char>, i: int)
    requires
        0 <= i < records.len(),
        records[i].key == key,
        forall|j: int| 0 <= j < i ==> records[j].key != key,
    ensures
        txt_value(records, key) == records[i].value,
    decreases records.len(),
{
    if i > 0 {
        let rest = records.drop_first();
        assert forall|j: int| 0 <= j < i - 1 implies rest[j].key != key by {
            assert(rest[j] == records[j + 1]);
        }
        law_txt_first_match(rest, key, i - 1);
    }
}

/// A key that no record has gives `None`.
pub proof fn law_txt_absent(records: Seq<TxtEntry>, key: Seq<char>)
    requires
        forall|j: int| 0 <= j < records.len() ==> records[j].key != key,
    ensures
        txt_value(records, key) is None,
    decreases records.len(),
{
    if records.len() > 0 {
        let rest = records.drop_first();
        assert forall|j: int| 0 <= j < rest.len() implies rest[j].key != key by {
            assert(rest[j] == records[j + 1]);
        }
        law_txt_absent(rest, key);
    }
}

/// Identity of a service instance that disappeared.
///
/// Browsing does not provide resolved data on removal, so only the identifying
/// fields are available.
#[derive(Debug, Clone)]
pub struct RemovedService {
    /// The service instance name.
    pub name: String,
    /// The service type, e.g. `_http._tcp`.
    pub service_type: String,
    /// The domain the service was discovered in.
    pub domain: String,
    /// The interface the service was discovered on, if known.
    pub interface_index: Option<NonZeroU32>,
}

/// A removed service as plain values.
#[verifier::ext_equal]
pub struct RemovedView {
    pub name: Seq<char>,
    pub service_type: Seq<char>,
    pub domain: Seq<char>,
    pub interface_index: Option<u32>,
}

impl DeepView for RemovedService {
    type V = RemovedView;

    open spec fn deep_view(&self) -> RemovedView {
        RemovedView {
            name: self.name@,
            service_type: self.service_type@,
            domain: self.domain@,
            interface_index: self.interface_index.deep_view(),
        }
    }
}

/// A single change in the set of discovered services.
#[derive(Debug, Clone)]
pub enum BrowseEvent {
    /// A service appeared and was resolved to a connectable endpoint.
    Found(DiscoveredService),
    /// A previously seen service went away. Only identity fields are known.
    Removed(RemovedService),
}

/// An event as plain values.
#[verifier::ext_equal]
pub enum EventView {
    Found(ServiceView),
    Removed(RemovedView),
}

impl DeepView for BrowseEvent {
    type V = EventView;

    open spec fn deep_view(&self) -> EventView {
        match self {
            BrowseEvent::Found(service) => EventView::Found(service.deep_view()),
            BrowseEvent::Removed(service) => EventView::Removed(service.deep_view()),
        }
    }
}

/// Error type for service browse / discovery failures.
#[derive(Debug)]
pub enum ServiceBrowseError {
    /// DNS-SD not available on system (Linux only - either D-Bus or Avahi
    /// unavailable).
    DnsSdUnavailable(String),
    /// A string parameter contains an interior NUL byte.
    ParameterContainsInteriorNulByte(String, usize),
    /// The interface index is not valid.
    InvalidInterfaceIndex(u32),
    /// The browse operation failed.
    BrowseFailed(String),
    /// A discovered service could not be resolved to a connectable endpoint.
    ResolveFailed(String, String),
}

/// An error as plain values.
#[verifier::ext_equal]
pub enum ErrorView {
    DnsSdUnavailable(Seq<char>),
    ParameterContainsInteriorNulByte(Seq<char>, usize),
    InvalidInterfaceIndex(u32),
    BrowseFailed(Seq<char>),
    ResolveFailed(Seq<char>, Seq<char>),
}

impl DeepView for ServiceBrowseError {
    type V = ErrorView;

    open spec fn deep_view(&self) -> ErrorView {
        match self {
            ServiceBrowseError::DnsSdUnavailable(reason) => ErrorView::DnsSdUnavailable(reason@),
            ServiceBrowseError::ParameterContainsInteriorNulByte(parameter, position) =>
                ErrorView::ParameterContainsInteriorNulByte(parameter@, *position),
            ServiceBrowseError::InvalidInterfaceIndex(index) =>
                ErrorView::InvalidInterfaceIndex(*index),
            ServiceBrowseError::BrowseFailed(reason) => ErrorView::BrowseFailed(reason@),
            ServiceBrowseError::ResolveFailed(name, reason) =>
                ErrorView::ResolveFailed(name@, reason@),
        }
    }
}

/// What a browse delivers: an event, or an error that does not end it.
pub open spec fn delivery(outcome: Result<BrowseEvent, ServiceBrowseError>) -> Result<
    EventView,
    ErrorView,
> {
    match outcome {
        Ok(event) => Ok(event.deep_view()),
        Err(error) => Err(error.deep_view()),
    }
}

/// The text that `Debug` formatting gives for a string: quoted and escaped.
pub uninterp spec fn debug_text(s: Seq<char>) -> Seq<char>;

/// Quotes and escapes a string with `format!("{:?}", ..)`, the `Debug`
/// formatting of `str`.
///
/// What is taken on trust: the text is a function of the string alone. How
/// single characters are escaped is not stated.
#[verifier::external_body]
fn debug_quoted(s: &str) -> (quoted: String)
    ensures
        quoted@ == debug_text(s@),
{
    format!("{:?}", s)
}

/// The message for an interior NUL byte, with the parameter already quoted.
pub open spec fn interior_nul_message(quoted: Seq<char>, position: nat) -> Seq<char> {
    "parameter "@ + quoted + " contains interior nul byte at position "@ + decimal(position)
}

/// The message for an instance that could not be resolved, with its name already
/// quoted.
pub open spec fn resolve_failed_message(quoted: Seq<char>, reason: Seq<char>) -> Seq<char> {
    "failed to resolve service "@ + quoted + ": "@ + reason
}

/// The message that an error renders as.
pub open spec fn error_message(error: ErrorView) -> Seq<char> {
    match error {
        ErrorView::DnsSdUnavailable(reason) => "DNS-SD not available on system: "@ + reason,
        ErrorView::ParameterContainsInteriorNulByte(parameter, position) => interior_nul_message(
            debug_text(parameter),
            position as nat,
        ),
        ErrorView::InvalidInterfaceIndex(index) => "interface index "@ + decimal(index as nat)
            + " is invalid"@,
        ErrorView::BrowseFailed(reason) => "browse operation failed: "@ + reason,
        ErrorView::ResolveFailed(name, reason) => resolve_failed_message(debug_text(name), reason),
    }
}

/// Renders the message for an interior NUL byte in a parameter that is already
/// quoted.
pub fn interior_nul_text(quoted: &str, position: usize) -> (message: String)
    ensures
        message@ == interior_nul_message(quoted@, position as nat),
{
    let mut message = concat("parameter ", quoted);
    message.append(" contains interior nul byte at position ");
    message.append(decimal_text(position as u64).as_str());
    message
}

/// Renders the message for an instance, its name already quoted, that could not
/// be resolved.
pub fn resolve_failed_text(quoted: &str, reason: &str) -> (message: String)
    ensures
        message@ == resolve_failed_message(quoted@, reason@),
{
    let mut message = concat("failed to resolve service ", quoted);
    message.append(": ");
    message.append(reason);
    message
}

impl ServiceBrowseError {
    /// Renders the error as a message.
    pub fn to_string(&self) -> (message: String)
        ensures
            message@ == error_message(self.deep_view()),
    {
        match self {
            ServiceBrowseError::DnsSdUnavailable(reason) => concat(
                "DNS-SD not available on system: ",
                reason.as_str(),
            ),
            ServiceBrowseError::ParameterContainsInteriorNulByte(parameter, position) =>
                interior_nul_text(debug_quoted(parameter.as_str()).as_str(), *position),
            ServiceBrowseError::InvalidInterfaceIndex(index) => {
                let mut message = concat("interface index ", decimal_text(*index as u64).as_str());
                message.append(" is invalid");
                message
            },
            ServiceBrowseError::BrowseFailed(reason) => concat(
                "browse operation failed: ",
                reason.as_str(),
            ),
            ServiceBrowseError::ResolveFailed(name, reason) => resolve_failed_text(
                debug_quoted(name.as_str()).as_str(),
                reason.as_str(),
            ),
        }
    }
}

/// Every message names its kind of failure and carries what is known of it in full.
pub proof fn law_error_messages(text: Seq<char>, reason: Seq<char>, index: u32, position: usize)
    ensures
        error_message(ErrorView::DnsSdUnavailable(reason)) == "DNS-SD not available on system: "@
            + reason,
        error_message(ErrorView::BrowseFailed(reason)) == "browse operation failed: "@ + reason,
        error_message(ErrorView::ResolveFailed(text, reason)) == "failed to resolve service "@
            + debug_text(text) + ": "@ + reason,
        error_message(ErrorView::ParameterContainsInteriorNulByte(text, position)) == "parameter "@
            + debug_text(text) + " contains interior nul byte at position "@ + decimal(
            position as nat,
        ),
        error_message(ErrorView::InvalidInterfaceIndex(index)) == "interface index "@ + decimal(
            index as nat,
        ) + " is invalid"@,
{
}

/// An unset domain is the empty one; a set domain is kept as it is.
pub proof fn law_domain_or_default(domain: Seq<char>)
    ensures
        domain_or_default(None).len() == 0,
        domain_or_default(Some(domain)) == domain,
{
}

/// What is delivered is the outcome itself: an event stays that event, and an error
/// that error.
pub proof fn law_delivery(event: BrowseEvent, error: ServiceBrowseError)
    ensures
        delivery(Ok(event)) == Ok::<EventView, ErrorView>(event.deep_view()),
        delivery(Err(error)) == Err::<EventView, ErrorView>(error.deep_view()),
        event is Found <==> event.deep_view() is Found,
{
}

} // verus!
