//! Resolving an instance to an endpoint, and its host to addresses.

use vstd::prelude::*;
use vstd::string::*;
use vstd::utf8::*;

use crate::addr::{
    big_endian_u16, interface_number, interface_number_of, nonzero, port_from_network, IpAddr,
    NonZeroU32,
};
use crate::browse::{
    delivery, error_message, BrowseEvent, DiscoveredService, ErrorView, EventView,
    ServiceBrowseError, ServiceResolverBuilder, ServiceView,
};
use crate::macos::native::{
    cstr_text, cstring, has_flag, law_cstring_refuses_only_nul, law_flag_bits, nul_error,
    status_message, CString, DNSServiceErrorType, DNSServiceFlags, FLAGS_MORE_COMING,
    GETADDR_TIMEOUT_MS, NO_ERROR, RESOLVE_TIMEOUT_MS,
};
use crate::macos::pump::{reply_text, InstanceToResolve};
use crate::text::{
    concat, law_trim_dot, signed_decimal, signed_decimal_text, strips_dots, trim_dot, trim_end_dots,
};
use crate::txt::{lossy_text, parse_txt_buffer, txt_records, value_bytes, TxtEntry, TxtRecord};

verus! {

/// The arguments of a `DNSServiceResolve` call.
pub struct NativeResolve {
    /// The flags.
    pub flags: DNSServiceFlags,
    /// The interface number; zero for all interfaces.
    pub interface: u32,
    /// The service instance name.
    pub name: CString,
    /// The service type.
    pub regtype: CString,
    /// The domain.
    pub domain: CString,
}

/// The error of the first of `name`, `regtype` and `domain` that cannot be a C
/// string.
pub open spec fn resolve_argument_error(
    name: Seq<char>,
    regtype: Seq<char>,
    domain: Seq<char>,
) -> Option<ErrorView> {
    match nul_error(name) {
        Some(error) => Some(error),
        None => match nul_error(regtype) {
            Some(error) => Some(error),
            None => nul_error(domain),
        },
    }
}

/// Prepares the `DNSServiceResolve` call for an instance. A part that holds a NUL
/// gives the reason why there is none.
pub fn do_resolve(name: &str, regtype: &str, domain: &str, interface: u32) -> (request: Result<
    NativeResolve,
    String,
>)
    ensures
        match request {
            Ok(request) => {
                &&& resolve_argument_error(name@, regtype@, domain@) is None
                &&& request.flags == 0
                &&& request.interface == interface
                &&& request.name@ == encode_utf8(name@)
                &&& request.regtype@ == encode_utf8(regtype@)
                &&& request.domain@ == encode_utf8(domain@)
            },
            Err(reason) => match resolve_argument_error(name@, regtype@, domain@) {
                Some(error) => reason@ == error_message(error),
                None => false,
            },
        },
{
    let name = match cstring(name) {
        Ok(c) => c,
        Err(error) => {
            return Err(error.to_string());
        },
    };
    let regtype = match cstring(regtype) {
        Ok(c) => c,
        Err(error) => {
            return Err(error.to_string());
        },
    };
    let domain = match cstring(domain) {
        Ok(c) => c,
        Err(error) => {
            return Err(error.to_string());
        },
    };
    Ok(NativeResolve { flags: 0, interface, name, regtype, domain })
}

/// What has happened to a resolve.
pub enum ResolveEvent {
    /// `DNSServiceResolve` returned, with this status.
    Started(DNSServiceErrorType),
    /// `poll` returned this, and this is the text of the error behind a negative
    /// value.
    Polled(i32, String),
    /// `DNSServiceProcessResult` returned, with this status.
    Processed(DNSServiceErrorType),
}

/// What a resolve does next.
pub enum ResolveStep {
    /// Poll for this many milliseconds.
    Poll(i32),
    /// Process one result.
    Process,
    /// Take the result.
    Finish,
    /// Give up, for this reason.
    Fail(String),
}

/// A resolve step as plain values.
pub enum ResolveStepView {
    Poll(i32),
    Process,
    Finish,
    Fail(Seq<char>),
}

impl DeepView for ResolveStep {
    type V = ResolveStepView;

    open spec fn deep_view(&self) -> ResolveStepView {
        match self {
            ResolveStep::Poll(timeout_ms) => ResolveStepView::Poll(*timeout_ms),
            ResolveStep::Process => ResolveStepView::Process,
            ResolveStep::Finish => ResolveStepView::Finish,
            ResolveStep::Fail(reason) => ResolveStepView::Fail(reason@),
        }
    }
}

/// What a resolve does next: it polls once, processes a single result, and gives up
/// at the first failure or timeout.
pub open spec fn resolve_step(event: ResolveEvent) -> ResolveStepView {
    match event {
        ResolveEvent::Started(err) => if err != NO_ERROR {
            ResolveStepView::Fail(status_message("DNSServiceResolve failed: "@, err as int))
        } else {
            ResolveStepView::Poll(RESOLVE_TIMEOUT_MS)
        },
        ResolveEvent::Polled(rv, reason) => if rv < 0 {
            ResolveStepView::Fail("poll failed: "@ + reason@)
        } else if rv == 0 {
            ResolveStepView::Fail("operation timed out"@)
        } else {
            ResolveStepView::Process
        },
        ResolveEvent::Processed(err) => if err != NO_ERROR {
            ResolveStepView::Fail("DNSServiceProcessResult failed"@)
        } else {
            ResolveStepView::Finish
        },
    }
}

/// Decides what a resolve does next.
pub fn process_once(event: ResolveEvent) -> (step: ResolveStep)
    ensures
        step.deep_view() == resolve_step(event),
{
    match event {
        ResolveEvent::Started(err) => if err != NO_ERROR {
            ResolveStep::Fail(
                concat("DNSServiceResolve failed: ", signed_decimal_text(err).as_str()),
            )
        } else {
            ResolveStep::Poll(RESOLVE_TIMEOUT_MS)
        },
        ResolveEvent::Polled(rv, reason) => if rv < 0 {
            ResolveStep::Fail(concat("poll failed: ", reason.as_str()))
        } else if rv == 0 {
            ResolveStep::Fail("operation timed out".to_owned())
        } else {
            ResolveStep::Process
        },
        ResolveEvent::Processed(err) => if err != NO_ERROR {
            ResolveStep::Fail("DNSServiceProcessResult failed".to_owned())
        } else {
            ResolveStep::Finish
        },
    }
}

/// A reply to a resolve, as the callback gets it. The host is a C string without
/// its NUL; `None` stands for a null pointer.
pub struct ResolveReply {
    /// The reply's status.
    pub error_code: DNSServiceErrorType,
    /// The SRV target host name.
    pub host_target: Option<Vec<u8>>,
    /// The port, in network byte order.
    pub port: [u8; 2],
    /// The packed TXT record.
    pub txt_record: Option<Vec<u8>>,
}

/// What a resolve has learned so far.
pub struct ResolveResult {
    host: Option<String>,
    port: u16,
    txt: Vec<TxtRecord>,
    error: DNSServiceErrorType,
    got: bool,
}

/// What a resolve has learned, as plain values.
#[verifier::ext_equal]
pub struct ResolveResultView {
    pub host: Option<Seq<char>>,
    pub port: u16,
    pub txt: Seq<TxtEntry>,
    pub error: i32,
    pub got: bool,
}

impl DeepView for ResolveResult {
    type V = ResolveResultView;

    closed spec fn deep_view(&self) -> ResolveResultView {
        ResolveResultView {
            host: self.host.deep_view(),
            port: self.port,
            txt: self.txt.deep_view(),
            error: self.error,
            got: self.got,
        }
    }
}

/// What is known after a reply: its status always, the rest only from a reply
/// without an error. A TXT record that is absent or empty changes nothing.
pub open spec fn after_resolve_reply(
    result: ResolveResultView,
    reply: ResolveReply,
) -> ResolveResultView {
    if reply.error_code != NO_ERROR {
        ResolveResultView { got: true, error: reply.error_code, ..result }
    } else {
        ResolveResultView {
            got: true,
            error: NO_ERROR,
            host: Some(cstr_text(value_bytes(reply.host_target))),
            port: big_endian_u16(reply.port),
            txt: match value_bytes(reply.txt_record) {
                Some(bytes) => if bytes.len() > 0 {
                    txt_records(bytes)
                } else {
                    result.txt
                },
                None => result.txt,
            },
        }
    }
}

/// The reason why a result is none, if it is.
pub open spec fn incomplete_reason(result: ResolveResultView) -> Option<Seq<char>> {
    if !result.got || result.error != NO_ERROR {
        Some(status_message("resolve did not complete (error "@, result.error as int) + ")"@)
    } else {
        None
    }
}

/// A resolved endpoint: host name, port and TXT records.
pub struct Endpoint {
    /// The SRV target host name.
    pub host: String,
    /// The port.
    pub port: u16,
    /// The TXT records.
    pub txt_records: Vec<TxtRecord>,
}

/// An endpoint as plain values.
#[verifier::ext_equal]
pub struct EndpointView {
    pub host: Seq<char>,
    pub port: u16,
    pub txt_records: Seq<TxtEntry>,
}

impl DeepView for Endpoint {
    type V = EndpointView;

    open spec fn deep_view(&self) -> EndpointView {
        EndpointView {
            host: self.host@,
            port: self.port,
            txt_records: self.txt_records.deep_view(),
        }
    }
}

impl Default for ResolveResult {
    fn default() -> (result: ResolveResult)
        ensures
            result.deep_view() == (ResolveResultView {
                host: None,
                port: 0,
                txt: Seq::empty(),
                error: NO_ERROR,
                got: false,
            }),
    {
        let result = ResolveResult {
            host: None,
            port: 0,
            txt: Vec::new(),
            error: NO_ERROR,
            got: false,
        };
        assert(result.deep_view().txt =~= Seq::empty());
        result
    }
}

impl ResolveResult {
    /// Takes a reply.
    pub fn resolve_callback(&mut self, reply: ResolveReply)
        ensures
            final(self).deep_view() == after_resolve_reply(old(self).deep_view(), reply),
            final(self).deep_view().error == reply.error_code,
            reply.error_code == 0 ==> final(self).deep_view().port == reply.port[0] * 256
                + reply.port[1],
    {
        self.got = true;
        self.error = reply.error_code;
        if reply.error_code != NO_ERROR {
            return;
        }
        self.host = Some(reply_text(&reply.host_target));
        self.port = port_from_network(reply.port);
        match &reply.txt_record {
            Some(record) => {
                if record.len() > 0 {
                    self.txt = parse_txt_buffer(record.as_slice());
                }
            },
            None => {},
        }
    }

    /// Gives what was resolved, or the reason why nothing was.
    pub fn finish(self) -> (outcome: Result<Endpoint, String>)
        ensures
            match outcome {
                Ok(endpoint) => {
                    &&& incomplete_reason(self.deep_view()) is None
                    &&& endpoint.deep_view() == (EndpointView {
                        host: match self.deep_view().host {
                            Some(host) => host,
                            None => Seq::empty(),
                        },
                        port: self.deep_view().port,
                        txt_records: self.deep_view().txt,
                    })
                },
                Err(reason) => incomplete_reason(self.deep_view()) == Some(reason@),
            },
    {
        if !self.got || self.error != NO_ERROR {
            let mut reason = concat(
                "resolve did not complete (error ",
                signed_decimal_text(self.error).as_str(),
            );
            reason.append(")");
            return Err(reason);
        }
        let host = match self.host {
            Some(host) => host,
            None => String::new(),
        };
        Ok(Endpoint { host, port: self.port, txt_records: self.txt })
    }
}

/// What is known after a run of replies.
pub open spec fn after_resolve_replies(replies: Seq<ResolveReply>) -> ResolveResultView
    decreases replies.len(),
{
    if replies.len() == 0 {
        ResolveResultView { host: None, port: 0, txt: Seq::empty(), error: NO_ERROR, got: false }
    } else {
        after_resolve_reply(after_resolve_replies(replies.drop_last()), replies.last())
    }
}

/// A resolve completes exactly if a reply came and the last one had no error, and
/// the host and port are then those of the last.
pub proof fn law_last_reply_decides(replies: Seq<ResolveReply>)
    ensures
        incomplete_reason(after_resolve_replies(replies)) is None <==> replies.len() > 0
            && replies.last().error_code == NO_ERROR,
        replies.len() > 0 && replies.last().error_code == NO_ERROR ==> {
            let result = after_resolve_replies(replies);
            &&& result.host == Some(cstr_text(value_bytes(replies.last().host_target)))
            &&& result.port == big_endian_u16(replies.last().port)
        },
{
}

/// The address in a `sockaddr`, by its family.
pub enum SockAddr {
    /// `AF_INET`, with the address in network byte order.
    Inet([u8; 4]),
    /// `AF_INET6`, with the address in network byte order.
    Inet6([u8; 16]),
    /// Any other family.
    Other,
}

/// The IP address in a `sockaddr`, if it is of an IP family.
pub open spec fn sockaddr_ip(addr: SockAddr) -> Option<IpAddr> {
    match addr {
        SockAddr::Inet(octets) => Some(IpAddr::V4(octets)),
        SockAddr::Inet6(octets) => Some(IpAddr::V6(octets)),
        SockAddr::Other => None,
    }
}

/// Reads the IP address out of a `sockaddr`.
pub fn sockaddr_to_ip(addr: SockAddr) -> (ip: Option<IpAddr>)
    ensures
        ip == sockaddr_ip(addr),
{
    match addr {
        SockAddr::Inet(octets) => Some(IpAddr::V4(octets)),
        SockAddr::Inet6(octets) => Some(IpAddr::V6(octets)),
        SockAddr::Other => None,
    }
}

/// A reply to an address lookup, as the callback gets it.
pub struct AddrReply {
    /// The reply's flags.
    pub flags: DNSServiceFlags,
    /// The reply's status.
    pub error_code: DNSServiceErrorType,
    /// The address; `None` for a null pointer.
    pub address: Option<SockAddr>,
}

/// The arguments of a `DNSServiceGetAddrInfo` call.
pub struct NativeLookup {
    /// The flags.
    pub flags: DNSServiceFlags,
    /// The interface number; zero for all interfaces.
    pub interface: u32,
    /// The protocols to look up; zero for both IPv4 and IPv6.
    pub protocol: u32,
    /// The host name.
    pub host: CString,
}

/// Prepares the `DNSServiceGetAddrInfo` call for a host. There is none for a host
/// name that holds a NUL.
pub fn get_addresses(host: &str, interface: u32) -> (request: Option<NativeLookup>)
    ensures
        match request {
            Some(request) => {
                &&& nul_error(host@) is None
                &&& request.flags == 0
                &&& request.interface == interface
                &&& request.protocol == 0
                &&& request.host@ == encode_utf8(host@)
            },
            None => nul_error(host@) is Some,
        },
{
    match cstring(host) {
        Ok(host) => Some(NativeLookup { flags: 0, interface, protocol: 0, host }),
        Err(_) => None,
    }
}

/// What has happened to an address lookup.
#[derive(Clone, Copy)]
pub enum LookupEvent {
    /// `DNSServiceGetAddrInfo` returned, with this status.
    Started(DNSServiceErrorType),
    /// `poll` returned this.
    Polled(i32),
    /// `DNSServiceProcessResult` returned, with this status.
    Processed(DNSServiceErrorType),
}

/// What an address lookup does next.
#[derive(Debug, Clone, Copy, PartialEq, Eq, Structural)]
pub enum LookupStep {
    /// Poll for this many milliseconds.
    Poll(i32),
    /// Process one result.
    Process,
    /// End, with the addresses collected so far.
    Finish,
    /// End: the lookup did not start.
    NotStarted,
}

/// The time that a lookup may take, in nanoseconds.
pub open spec fn lookup_budget() -> int {
    GETADDR_TIMEOUT_MS * 1_000_000
}

/// Waiting for more results: until the last one, and no longer than what is left of
/// the budget, in whole milliseconds.
pub open spec fn lookup_wait(done: bool, elapsed_ns: int) -> LookupStep {
    if done || elapsed_ns >= lookup_budget() {
        LookupStep::Finish
    } else {
        LookupStep::Poll(((lookup_budget() - elapsed_ns) / 1_000_000) as i32)
    }
}

/// What a lookup does next. Whatever goes wrong once it has started ends it with
/// the addresses collected so far.
pub open spec fn lookup_step(done: bool, event: LookupEvent, elapsed_ns: int) -> LookupStep {
    match event {
        LookupEvent::Started(err) => if err != NO_ERROR {
            LookupStep::NotStarted
        } else {
            lookup_wait(done, elapsed_ns)
        },
        LookupEvent::Polled(rv) => if rv <= 0 {
            LookupStep::Finish
        } else {
            LookupStep::Process
        },
        LookupEvent::Processed(err) => if err != NO_ERROR {
            LookupStep::Finish
        } else {
            lookup_wait(done, elapsed_ns)
        },
    }
}

/// What an address lookup has collected.
pub struct AddrResult {
    addrs: Vec<IpAddr>,
    done: bool,
}

/// What a lookup has collected, as plain values.
#[verifier::ext_equal]
pub struct AddrResultView {
    pub addrs: Seq<IpAddr>,
    pub done: bool,
}

impl DeepView for AddrResult {
    type V = AddrResultView;

    closed spec fn deep_view(&self) -> AddrResultView {
        AddrResultView { addrs: self.addrs@, done: self.done }
    }
}

/// The address that a reply brings, if it does.
pub open spec fn reply_ip(reply: AddrReply) -> Option<IpAddr> {
    if reply.error_code != NO_ERROR {
        None
    } else {
        match reply.address {
            Some(addr) => sockaddr_ip(addr),
            None => None,
        }
    }
}

/// What has been collected after a reply. The lookup is done with a reply that
/// announces no other, an error included.
pub open spec fn after_addr_reply(result: AddrResultView, reply: AddrReply) -> AddrResultView {
    AddrResultView {
        addrs: match reply_ip(reply) {
            Some(ip) => result.addrs.push(ip),
            None => result.addrs,
        },
        done: result.done || !has_flag(reply.flags, FLAGS_MORE_COMING),
    }
}

impl Default for AddrResult {
    fn default() -> (result: AddrResult)
        ensures
            result.deep_view() == (AddrResultView { addrs: Seq::empty(), done: false }),
    {
        AddrResult { addrs: Vec::new(), done: false }
    }
}

impl AddrResult {
    /// Takes a reply.
    pub fn getaddr_callback(&mut self, reply: AddrReply)
        ensures
            final(self).deep_view() == after_addr_reply(old(self).deep_view(), reply),
    {
        if reply.error_code == NO_ERROR {
            match reply.address {
                Some(addr) => match sockaddr_to_ip(addr) {
                    Some(ip) => self.addrs.push(ip),
                    None => {},
                },
                None => {},
            }
        }
        if reply.flags & FLAGS_MORE_COMING == 0 {
            self.done = true;
        }
    }

    /// Decides what the lookup does next, `elapsed_ns` nanoseconds after its start.
    pub fn next_step(&self, event: LookupEvent, elapsed_ns: u128) -> (step: LookupStep)
        ensures
            step == lookup_step(self.deep_view().done, event, elapsed_ns as int),
    {
        match event {
            LookupEvent::Started(err) => if err != NO_ERROR {
                LookupStep::NotStarted
            } else {
                self.wait(elapsed_ns)
            },
            LookupEvent::Polled(rv) => if rv <= 0 {
                LookupStep::Finish
            } else {
                LookupStep::Process
            },
            LookupEvent::Processed(err) => if err != NO_ERROR {
                LookupStep::Finish
            } else {
                self.wait(elapsed_ns)
            },
        }
    }

    /// Waits for more results, as long as the budget allows.
    fn wait(&self, elapsed_ns: u128) -> (step: LookupStep)
        ensures
            step == lookup_wait(self.deep_view().done, elapsed_ns as int),
    {
        let budget: u128 = GETADDR_TIMEOUT_MS as u128 * 1_000_000;
        if self.done || elapsed_ns >= budget {
            LookupStep::Finish
        } else {
            LookupStep::Poll(((budget - elapsed_ns) / 1_000_000) as i32)
        }
    }

    /// The addresses that were collected.
    pub fn into_addresses(self) -> (addrs: Vec<IpAddr>)
        ensures
            addrs@ == self.deep_view().addrs,
    {
        self.addrs
    }
}

/// A lookup never polls past its budget, and polls for no more than all of it.
pub proof fn law_lookup_stays_in_budget(done: bool, event: LookupEvent, elapsed_ns: int)
    requires
        elapsed_ns >= 0,
    ensures
        match lookup_step(done, event, elapsed_ns) {
            LookupStep::Poll(timeout_ms) => {
                &&& 0 <= timeout_ms <= GETADDR_TIMEOUT_MS
                &&& elapsed_ns + timeout_ms * 1_000_000 <= lookup_budget()
                &&& !done
            },
            _ => true,
        },
{
}

/// A lookup after a run of replies.
pub open spec fn after_addr_replies(replies: Seq<AddrReply>) -> AddrResultView
    decreases replies.len(),
{
    if replies.len() == 0 {
        AddrResultView { addrs: Seq::empty(), done: false }
    } else {
        after_addr_reply(after_addr_replies(replies.drop_last()), replies.last())
    }
}

/// A lookup is done exactly when some reply announced no other.
pub proof fn law_lookup_done(replies: Seq<AddrReply>)
    ensures
        after_addr_replies(replies).done <==> exists|i: int|
            0 <= i < replies.len() && !has_flag(
                #[trigger] replies[i].flags,
                FLAGS_MORE_COMING,
            ),
    decreases replies.len(),
{
    if replies.len() > 0 {
        let before = replies.drop_last();
        law_lookup_done(before);
        if after_addr_replies(before).done {
            let i = choose|i: int|
                0 <= i < before.len() && !has_flag(#[trigger] before[i].flags, FLAGS_MORE_COMING);
            assert(replies[i] == before[i]);
        }
        if exists|i: int|
            0 <= i < replies.len() && !has_flag(#[trigger] replies[i].flags, FLAGS_MORE_COMING) {
            let i = choose|i: int|
                0 <= i < replies.len() && !has_flag(
                    #[trigger] replies[i].flags,
                    FLAGS_MORE_COMING,
                );
            if i < before.len() {
                assert(before[i] == replies[i]);
            }
        }
    }
}

/// The service that an instance resolved to. The names come fully qualified, so
/// the dots at their ends are stripped.
pub open spec fn service_view(
    name: Seq<char>,
    service_type: Seq<char>,
    domain: Seq<char>,
    interface: u32,
    endpoint: EndpointView,
    addresses: Option<Seq<IpAddr>>,
) -> ServiceView {
    ServiceView {
        name,
        service_type: trim_end_dots(service_type),
        domain: trim_end_dots(domain),
        host_name: trim_end_dots(endpoint.host),
        port: endpoint.port,
        addresses: match addresses {
            Some(addresses) => addresses,
            None => Seq::empty(),
        },
        txt_records: endpoint.txt_records,
        interface_index: nonzero(interface),
    }
}

/// The addresses that a lookup gave, if there was one.
pub open spec fn address_values(addresses: Option<Vec<IpAddr>>) -> Option<Seq<IpAddr>> {
    match addresses {
        Some(addresses) => Some(addresses@),
        None => None,
    }
}

/// What resolving an instance gives: the service at the endpoint that was resolved,
/// with the addresses that the lookup gave (none without a lookup), or the reason
/// why it could not be resolved, which tells that the instance no longer responds.
pub fn resolve_once(
    instance: InstanceToResolve,
    resolved: Result<Endpoint, String>,
    addresses: Option<Vec<IpAddr>>,
) -> (outcome: Result<DiscoveredService, ServiceBrowseError>)
    ensures
        match outcome {
            Ok(service) => {
                &&& resolved is Ok
                &&& service.deep_view() == service_view(
                    instance.name@,
                    instance.regtype@,
                    instance.domain@,
                    instance.interface,
                    resolved->Ok_0.deep_view(),
                    address_values(addresses),
                )
                &&& service.name@ == instance.name@
                &&& service.port == resolved->Ok_0.port
                &&& addresses is Some ==> service.addresses@ == addresses->0@
                &&& addresses is None ==> service.addresses@.len() == 0
            },
            Err(error) => resolved is Err && error.deep_view() == ErrorView::ResolveFailed(
                instance.name@,
                resolved->Err_0@,
            ),
        },
{
    match resolved {
        Ok(endpoint) => Ok(
            DiscoveredService {
                name: instance.name,
                service_type: trim_dot(instance.regtype.as_str()),
                domain: trim_dot(instance.domain.as_str()),
                host_name: trim_dot(endpoint.host.as_str()),
                port: endpoint.port,
                addresses: match addresses {
                    Some(addresses) => addresses,
                    None => Vec::new(),
                },
                txt_records: endpoint.txt_records,
                interface_index: NonZeroU32::new(instance.interface),
            },
        ),
        Err(reason) => Err(ServiceBrowseError::ResolveFailed(instance.name, reason)),
    }
}

/// What a browse delivers for an instance that appeared, once it has been resolved
/// or could not be.
pub fn resolve_service(
    instance: InstanceToResolve,
    resolved: Result<Endpoint, String>,
    addresses: Option<Vec<IpAddr>>,
) -> (outcome: Result<BrowseEvent, ServiceBrowseError>)
    ensures
        delivery(outcome) == match resolved {
            Ok(endpoint) => Ok::<EventView, ErrorView>(
                EventView::Found(
                    service_view(
                        instance.name@,
                        instance.regtype@,
                        instance.domain@,
                        instance.interface,
                        endpoint.deep_view(),
                        address_values(addresses),
                    ),
                ),
            ),
            Err(reason) => Err::<EventView, ErrorView>(
                ErrorView::ResolveFailed(instance.name@, reason@),
            ),
        },
        outcome is Ok <==> resolved is Ok,
        outcome is Ok ==> {
            &&& outcome->Ok_0 is Found
            &&& outcome->Ok_0->Found_0.name@ == instance.name@
            &&& outcome->Ok_0->Found_0.port == resolved->Ok_0.port
            &&& addresses is Some ==> outcome->Ok_0->Found_0.addresses@ == addresses->0@
            &&& addresses is None ==> outcome->Ok_0->Found_0.addresses@.len() == 0
        },
{
    match resolve_once(instance, resolved, addresses) {
        Ok(service) => Ok(BrowseEvent::Found(service)),
        Err(error) => Err(error),
    }
}

/// The error for a resolve whose task did not run to its end.
pub fn resolve_task_error(reason: &str) -> (error: ServiceBrowseError)
    ensures
        error.deep_view() == ErrorView::ResolveFailed(
            Seq::empty(),
            "resolve task failed: "@ + reason@,
        ),
{
    let name = String::new();
    assert(name@ =~= Seq::empty());
    ServiceBrowseError::ResolveFailed(name, concat("resolve task failed: ", reason))
}

/// The instance that a one-shot resolve is about.
pub fn resolve_start(builder: &ServiceResolverBuilder) -> (instance: InstanceToResolve)
    ensures
        instance.name@ == builder.deep_view().name,
        instance.regtype@ == builder.deep_view().service_type,
        instance.domain@ == builder.deep_view().domain,
        instance.interface == interface_number_of(builder.deep_view().interface_index),
{
    InstanceToResolve {
        name: builder.name.clone(),
        regtype: builder.service_type.clone(),
        domain: builder.domain.clone(),
        interface: interface_number(builder.interface_index),
    }
}

/// A resolve is refused exactly if one of its names holds a NUL, and under the first
/// that does.
pub proof fn law_resolve_arguments(name: Seq<char>, regtype: Seq<char>, domain: Seq<char>)
    ensures
        resolve_argument_error(name, regtype, domain) is Some <==> name.contains('\0')
            || regtype.contains('\0') || domain.contains('\0'),
        match resolve_argument_error(name, regtype, domain) {
            Some(ErrorView::ParameterContainsInteriorNulByte(parameter, _)) => parameter
                == if name.contains('\0') {
                name
            } else if regtype.contains('\0') {
                regtype
            } else {
                domain
            },
            Some(_) => false,
            None => true,
        },
{
    law_cstring_refuses_only_nul(name);
    law_cstring_refuses_only_nul(regtype);
    law_cstring_refuses_only_nul(domain);
}

/// Only success leads on: a start to a poll of five seconds, a poll with something to
/// read to the result, and a result that was processed to the end. Anything else
/// fails, with the reason.
pub proof fn law_resolve_steps(status: i32, rv: i32, reason: String)
    ensures
        status == 0 ==> resolve_step(ResolveEvent::Started(status)) == ResolveStepView::Poll(5000),
        status != 0 ==> resolve_step(ResolveEvent::Started(status)) == ResolveStepView::Fail(
            "DNSServiceResolve failed: "@ + signed_decimal(status as int),
        ),
        resolve_step(ResolveEvent::Polled(rv, reason)) is Process <==> rv > 0,
        rv == 0 ==> resolve_step(ResolveEvent::Polled(rv, reason)) == ResolveStepView::Fail(
            "operation timed out"@,
        ),
        rv < 0 ==> resolve_step(ResolveEvent::Polled(rv, reason)) == ResolveStepView::Fail(
            "poll failed: "@ + reason@,
        ),
        resolve_step(ResolveEvent::Processed(status)) is Finish <==> status == 0,
        status != 0 ==> resolve_step(ResolveEvent::Processed(status)) == ResolveStepView::Fail(
            "DNSServiceProcessResult failed"@,
        ),
{
}

/// A reply with an error changes nothing but the status. One without an error brings
/// its host and its port, the first byte of which is the high one, and its TXT
/// records if there is anything to read them from.
pub proof fn law_resolve_reply(result: ResolveResultView, reply: ResolveReply)
    ensures
        ({
            let after = after_resolve_reply(result, reply);
            &&& after.got
            &&& after.error == reply.error_code
            &&& reply.error_code != 0 ==> {
                &&& after.host == result.host
                &&& after.port == result.port
                &&& after.txt == result.txt
            }
            &&& reply.error_code == 0 ==> {
                &&& after.port == reply.port[0] * 256 + reply.port[1]
                &&& reply.host_target is None ==> after.host == Some(Seq::<char>::empty())
                &&& reply.host_target is Some ==> after.host == Some(
                    lossy_text(reply.host_target->0@),
                )
                &&& reply.txt_record is None ==> after.txt == result.txt
                &&& reply.txt_record is Some && reply.txt_record->0@.len() == 0 ==> after.txt
                    == result.txt
                &&& reply.txt_record is Some && reply.txt_record->0@.len() > 0 ==> after.txt
                    == txt_records(reply.txt_record->0@)
            }
        }),
{
}

/// A result is complete exactly if there was a reply and its status is good; the
/// reason why it is not gives the status.
pub proof fn law_incomplete_reason(result: ResolveResultView)
    ensures
        incomplete_reason(result) is None <==> result.got && result.error == 0,
        incomplete_reason(result) is Some ==> incomplete_reason(result)->0
            == "resolve did not complete (error "@ + signed_decimal(result.error as int) + ")"@,
{
}

/// The octets of an address are kept, each in its family, and only an IP family has
/// any.
pub proof fn law_sockaddr(v4: [u8; 4], v6: [u8; 16])
    ensures
        sockaddr_ip(SockAddr::Inet(v4)) == Some(IpAddr::V4(v4)),
        sockaddr_ip(SockAddr::Inet6(v6)) == Some(IpAddr::V6(v6)),
        sockaddr_ip(SockAddr::Other) is None,
{
}

/// A lookup takes the address of every reply that has one and no error, behind those
/// it has, whatever the reply's flags; and it is done with the first reply, good or
/// bad, that announces no other.
pub proof fn law_addr_reply(result: AddrResultView, reply: AddrReply, ip: IpAddr)
    ensures
        ({
            let after = after_addr_reply(result, reply);
            let brings = reply.error_code == 0 && reply.address is Some && match (
            reply.address->0,
            ip,
            ) {
                (SockAddr::Inet(octets), IpAddr::V4(bytes)) => octets == bytes,
                (SockAddr::Inet6(octets), IpAddr::V6(bytes)) => octets == bytes,
                _ => false,
            };
            let bare = reply.error_code != 0 || reply.address is None || reply.address->0 is Other;
            &&& brings ==> after.addrs == result.addrs.push(ip)
            &&& bare ==> after.addrs == result.addrs
            &&& after.done <==> result.done || reply.flags % 2 == 0
        }),
{
    law_flag_bits(reply.flags);
}

/// A lookup that started goes on until it is done, out of time, or a call fails: it
/// then waits for all of the two seconds that are left, in whole milliseconds.
pub proof fn law_lookup_waits_its_budget(done: bool, status: i32, rv: i32, elapsed_ns: int)
    requires
        elapsed_ns >= 0,
    ensures
        lookup_step(done, LookupEvent::Started(status), elapsed_ns) is NotStarted <==> status != 0,
        lookup_step(done, LookupEvent::Polled(rv), elapsed_ns) is Process <==> rv > 0,
        lookup_step(done, LookupEvent::Polled(rv), elapsed_ns) is Finish <==> rv <= 0,
        status != 0 ==> lookup_step(done, LookupEvent::Processed(status), elapsed_ns) is Finish,
        lookup_step(done, LookupEvent::Processed(0), elapsed_ns) == lookup_step(
            done,
            LookupEvent::Started(0),
            elapsed_ns,
        ),
        match lookup_step(done, LookupEvent::Started(0), elapsed_ns) {
            LookupStep::Poll(timeout_ms) => {
                &&& !done && elapsed_ns < 2_000_000_000
                &&& elapsed_ns + timeout_ms * 1_000_000 <= 2_000_000_000
                &&& elapsed_ns + (timeout_ms + 1) * 1_000_000 > 2_000_000_000
            },
            LookupStep::Finish => done || elapsed_ns >= 2_000_000_000,
            _ => false,
        },
{
}

/// A resolved instance keeps its name, port, addresses and TXT records; its type,
/// domain and host lose the dots at their ends; and interface zero is none.
pub proof fn law_resolved_instance(
    name: Seq<char>,
    service_type: Seq<char>,
    domain: Seq<char>,
    interface: u32,
    endpoint: EndpointView,
    addresses: Seq<IpAddr>,
)
    ensures
        ({
            let service = service_view(
                name,
                service_type,
                domain,
                interface,
                endpoint,
                Some(addresses),
            );
            &&& service.name == name
            &&& strips_dots(service_type, service.service_type)
            &&& strips_dots(domain, service.domain)
            &&& strips_dots(endpoint.host, service.host_name)
            &&& service.port == endpoint.port
            &&& service.addresses == addresses
            &&& service.txt_records == endpoint.txt_records
            &&& service.interface_index is None <==> interface == 0
            &&& interface != 0 ==> service.interface_index == Some(interface)
            &&& service_view(name, service_type, domain, interface, endpoint, None) == (
            ServiceView { addresses: Seq::empty(), ..service })
        }),
        forall|list: Vec<IpAddr>| #[trigger] address_values(Some(list)) == Some(list@),
        address_values(None) is None,
{
    law_trim_dot(service_type);
    law_trim_dot(domain);
    law_trim_dot(endpoint.host);
}

} // verus!
