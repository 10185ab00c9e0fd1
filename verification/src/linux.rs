//! The Avahi back-end: what to ask of the daemon over D-Bus, and what its
//! signals and replies mean.

use vstd::prelude::*;
use vstd::string::*;

use crate::addr::{IpAddr, NonZeroU32};
use crate::browse::{
    delivery, domain_or_default, domain_text, BrowseEvent, DiscoveredService, ErrorView, EventView,
    RemovedService, RemovedView, ServiceBrowseError, ServiceResolverBuilder, ServiceView,
};
use crate::dbus::{InstanceItemArguments, MessageBody, TypeItemArguments};
use crate::seen::{law_noted_once, note, note_all, SeenTypes, TypeKey};
use crate::text::{concat, same_text};
use crate::txt::{parse_txt_entry, txt_entry, TxtEntry, TxtRecord};

verus! {

/// Avahi protocol constant: unspecified address family (IPv4 or IPv6).
pub const AVAHI_PROTO_UNSPEC: i32 = -1;

/// Avahi interface constant: unspecified (all) interfaces.
pub const AVAHI_IF_UNSPEC: i32 = -1;

/// The D-Bus interface of Avahi's instance browsers.
pub const SERVICE_BROWSER_INTERFACE: &'static str = "org.freedesktop.Avahi.ServiceBrowser";

/// The D-Bus interface of Avahi's service-type browsers.
pub const SERVICE_TYPE_BROWSER_INTERFACE: &'static str =
    "org.freedesktop.Avahi.ServiceTypeBrowser";

/// The Avahi argument for an optional interface index, or the index that does
/// not fit.
pub open spec fn avahi_interface(index: Option<u32>) -> Result<i32, ErrorView> {
    match index {
        Some(i) => if i > i32::MAX {
            Err(ErrorView::InvalidInterfaceIndex(i))
        } else {
            Ok(i as i32)
        },
        None => Ok(AVAHI_IF_UNSPEC),
    }
}

/// The interface index that a value from Avahi stands for.
pub open spec fn avahi_index(interface: i32) -> Option<u32> {
    if interface <= 0 {
        None
    } else {
        Some(interface as u32)
    }
}

/// Maps an optional interface index to Avahi's `i32` interface argument.
pub fn interface_to_avahi(interface_index: Option<NonZeroU32>) -> (interface: Result<
    i32,
    ServiceBrowseError,
>)
    ensures
        match interface {
            Ok(argument) => avahi_interface(interface_index.deep_view()) == Ok::<i32, ErrorView>(
                argument,
            ),
            Err(error) => avahi_interface(interface_index.deep_view()) == Err::<i32, ErrorView>(
                error.deep_view(),
            ),
        },
{
    match interface_index {
        Some(i) => {
            let idx: u32 = i.get();
            if idx > i32::MAX as u32 {
                return Err(ServiceBrowseError::InvalidInterfaceIndex(idx));
            }
            Ok(idx as i32)
        },
        None => Ok(AVAHI_IF_UNSPEC),
    }
}

/// Maps an Avahi `i32` interface value from a signal back to an interface index.
pub fn avahi_interface_to_index(interface: i32) -> (index: Option<NonZeroU32>)
    ensures
        index.deep_view() == avahi_index(interface),
{
    if interface <= 0 {
        None
    } else {
        NonZeroU32::new(interface as u32)
    }
}

/// An index that Avahi accepts comes back from the value that stands for it, and
/// so does the absence of one.
pub proof fn law_avahi_interface_round_trip(index: Option<u32>)
    requires
        index != Some(0u32),
    ensures
        match avahi_interface(index) {
            Ok(argument) => avahi_index(argument) == index,
            Err(error) => index is Some && index->0 > i32::MAX && error
                == ErrorView::InvalidInterfaceIndex(index->0),
        },
{
}

/// Whether Avahi could be reached before a browse or resolve starts.
pub enum Reachability {
    /// The daemon is there.
    Reachable,
    /// The system bus could not be reached, and why.
    NoBus(String),
    /// The bus is there but Avahi is not, and why.
    NoAvahi(String),
}

/// The error that an unreachable daemon gives.
pub open spec fn unreachable_error(reach: Reachability) -> Option<ErrorView> {
    match reach {
        Reachability::Reachable => None,
        Reachability::NoBus(reason) => Some(
            ErrorView::DnsSdUnavailable("failed to connect to system D-Bus: "@ + reason@),
        ),
        Reachability::NoAvahi(reason) => Some(
            ErrorView::DnsSdUnavailable("failed to connect to Avahi via D-Bus: "@ + reason@),
        ),
    }
}

/// Fails when the daemon could not be reached.
fn require_reachable(reach: Reachability) -> (outcome: Result<(), ServiceBrowseError>)
    ensures
        match outcome {
            Ok(()) => unreachable_error(reach) is None,
            Err(error) => unreachable_error(reach) == Some(error.deep_view()),
        },
{
    match reach {
        Reachability::Reachable => Ok(()),
        Reachability::NoBus(reason) => Err(
            ServiceBrowseError::DnsSdUnavailable(
                concat("failed to connect to system D-Bus: ", reason.as_str()),
            ),
        ),
        Reachability::NoAvahi(reason) => Err(
            ServiceBrowseError::DnsSdUnavailable(
                concat("failed to connect to Avahi via D-Bus: ", reason.as_str()),
            ),
        ),
    }
}

/// The arguments of a call that creates a browser: `ServiceTypeBrowserNew` without
/// a service type, `ServiceBrowserNew` with one.
pub struct BrowseRequest {
    /// The Avahi interface argument.
    pub interface: i32,
    /// The Avahi protocol argument.
    pub protocol: i32,
    /// The service type; `None` for the service-type meta-query.
    pub service_type: Option<String>,
    /// The domain; empty for the default browse domains.
    pub domain: String,
    /// Avahi's lookup flags.
    pub flags: u32,
}

/// A browse request as plain values.
#[verifier::ext_equal]
pub struct RequestView {
    pub interface: i32,
    pub protocol: i32,
    pub service_type: Option<Seq<char>>,
    pub domain: Seq<char>,
    pub flags: u32,
}

impl DeepView for BrowseRequest {
    type V = RequestView;

    open spec fn deep_view(&self) -> RequestView {
        RequestView {
            interface: self.interface,
            protocol: self.protocol,
            service_type: self.service_type.deep_view(),
            domain: self.domain@,
            flags: self.flags,
        }
    }
}

/// The request for a browse over any protocol, without flags.
pub open spec fn browse_request(
    interface: i32,
    service_type: Option<Seq<char>>,
    domain: Seq<char>,
) -> RequestView {
    RequestView { interface, protocol: AVAHI_PROTO_UNSPEC, service_type, domain, flags: 0 }
}

/// Decides how a browse starts. An unreachable daemon is reported first, then an
/// interface index that Avahi cannot take.
pub fn browse_start(
    reach: Reachability,
    service_type: &Option<String>,
    domain: &Option<String>,
    interface_index: Option<NonZeroU32>,
) -> (request: Result<BrowseRequest, ServiceBrowseError>)
    ensures
        match request {
            Ok(request) => {
                &&& unreachable_error(reach) is None
                &&& avahi_interface(interface_index.deep_view()) == Ok::<i32, ErrorView>(
                    request.interface,
                )
                &&& request.deep_view() == browse_request(
                    request.interface,
                    service_type.deep_view(),
                    domain_or_default(domain.deep_view()),
                )
                &&& interface_index is None ==> request.interface == AVAHI_IF_UNSPEC
                &&& interface_index is Some ==> request.interface as int
                    == interface_index->0@ as int
                &&& request.protocol == AVAHI_PROTO_UNSPEC
                &&& request.flags == 0
                &&& request.service_type is Some <==> service_type is Some
                &&& service_type is Some ==> request.service_type->0@ == service_type->0@
                &&& domain is Some ==> request.domain@ == domain->0@
                &&& domain is None ==> request.domain@.len() == 0
            },
            Err(error) => match unreachable_error(reach) {
                Some(unreachable) => error.deep_view() == unreachable,
                None => avahi_interface(interface_index.deep_view()) == Err::<i32, ErrorView>(
                    error.deep_view(),
                ),
            },
        },
{
    match require_reachable(reach) {
        Ok(()) => {},
        Err(error) => {
            return Err(error);
        },
    }
    let interface: i32 = match interface_to_avahi(interface_index) {
        Ok(interface) => interface,
        Err(error) => {
            return Err(error);
        },
    };
    let service_type = match service_type {
        Some(service_type) => Some(service_type.clone()),
        None => None,
    };
    Ok(
        BrowseRequest {
            interface,
            protocol: AVAHI_PROTO_UNSPEC,
            service_type,
            domain: domain_text(domain),
            flags: 0,
        },
    )
}

/// The arguments of a `ResolveService` call.
pub struct ResolveRequest {
    /// The Avahi interface argument.
    pub interface: i32,
    /// The Avahi protocol argument.
    pub protocol: i32,
    /// The service instance name.
    pub name: String,
    /// The service type.
    pub service_type: String,
    /// The domain.
    pub domain: String,
    /// The protocol of the address to look up.
    pub address_protocol: i32,
    /// Avahi's lookup flags.
    pub flags: u32,
}

/// A resolve request as plain values.
#[verifier::ext_equal]
pub struct ResolveRequestView {
    pub interface: i32,
    pub protocol: i32,
    pub name: Seq<char>,
    pub service_type: Seq<char>,
    pub domain: Seq<char>,
    pub address_protocol: i32,
    pub flags: u32,
}

impl DeepView for ResolveRequest {
    type V = ResolveRequestView;

    open spec fn deep_view(&self) -> ResolveRequestView {
        ResolveRequestView {
            interface: self.interface,
            protocol: self.protocol,
            name: self.name@,
            service_type: self.service_type@,
            domain: self.domain@,
            address_protocol: self.address_protocol,
            flags: self.flags,
        }
    }
}

/// The request that resolves an instance to an address of any protocol, without
/// flags.
pub open spec fn resolve_request(
    interface: i32,
    protocol: i32,
    name: Seq<char>,
    service_type: Seq<char>,
    domain: Seq<char>,
) -> ResolveRequestView {
    ResolveRequestView {
        interface,
        protocol,
        name,
        service_type,
        domain,
        address_protocol: AVAHI_PROTO_UNSPEC,
        flags: 0,
    }
}

/// Decides how a one-shot resolve starts. An unreachable daemon is reported first,
/// then an interface index that Avahi cannot take.
pub fn resolve_start(reach: Reachability, builder: &ServiceResolverBuilder) -> (request: Result<
    ResolveRequest,
    ServiceBrowseError,
>)
    ensures
        match request {
            Ok(request) => {
                &&& unreachable_error(reach) is None
                &&& avahi_interface(builder.deep_view().interface_index) == Ok::<i32, ErrorView>(
                    request.interface,
                )
                &&& request.deep_view() == resolve_request(
                    request.interface,
                    AVAHI_PROTO_UNSPEC,
                    builder.deep_view().name,
                    builder.deep_view().service_type,
                    builder.deep_view().domain,
                )
                &&& builder.interface_index is None ==> request.interface == AVAHI_IF_UNSPEC
                &&& builder.interface_index is Some ==> request.interface as int
                    == builder.interface_index->0@ as int
                &&& request.name@ == builder.name@
                &&& request.service_type@ == builder.service_type@
                &&& request.domain@ == builder.domain@
                &&& request.protocol == AVAHI_PROTO_UNSPEC
                &&& request.address_protocol == AVAHI_PROTO_UNSPEC
                &&& request.flags == 0
            },
            Err(error) => match unreachable_error(reach) {
                Some(unreachable) => error.deep_view() == unreachable,
                None => avahi_interface(builder.deep_view().interface_index) == Err::<
                    i32,
                    ErrorView,
                >(error.deep_view()),
            },
        },
{
    match require_reachable(reach) {
        Ok(()) => {},
        Err(error) => {
            return Err(error);
        },
    }
    match interface_to_avahi(builder.interface_index) {
        Ok(interface) => Ok(
            ResolveRequest {
                interface,
                protocol: AVAHI_PROTO_UNSPEC,
                name: builder.name.clone(),
                service_type: builder.service_type.clone(),
                domain: builder.domain.clone(),
                address_protocol: AVAHI_PROTO_UNSPEC,
                flags: 0,
            },
        ),
        Err(error) => Err(error),
    }
}

/// The step at which setting up a browser object failed, and why.
pub enum SetupFailure {
    /// No dedicated connection to the system bus.
    Connect(String),
    /// The signals of the browser could not be subscribed to.
    Subscribe(String),
    /// No proxy for the Avahi server.
    Proxy(String),
    /// The daemon refused to create the browser.
    Create(String),
}

/// The error for a type browser that could not be set up.
pub open spec fn type_setup_error(failure: SetupFailure) -> ErrorView {
    match failure {
        SetupFailure::Connect(reason) => ErrorView::DnsSdUnavailable(
            "failed to connect to system D-Bus: "@ + reason@,
        ),
        SetupFailure::Subscribe(reason) => ErrorView::BrowseFailed(reason@),
        SetupFailure::Proxy(reason) => ErrorView::DnsSdUnavailable(reason@),
        SetupFailure::Create(reason) => ErrorView::BrowseFailed(
            "ServiceTypeBrowserNew failed: "@ + reason@,
        ),
    }
}

/// The error for an instance browser that could not be set up: as for a type
/// browser, except that a refused creation names the type.
pub open spec fn instance_setup_error(
    service_type: Seq<char>,
    failure: SetupFailure,
) -> ErrorView {
    match failure {
        SetupFailure::Create(reason) => ErrorView::BrowseFailed(
            "ServiceBrowserNew failed for "@ + service_type + ": "@ + reason@,
        ),
        _ => type_setup_error(failure),
    }
}

/// What a service-type `ItemNew` signal announces.
pub struct TypeItem {
    /// The service type.
    pub service_type: String,
    /// The domain.
    pub domain: String,
}

/// A signal of the service-type browser, `None` standing for a body that could
/// not be read.
pub enum TypeSignal {
    /// A type appeared.
    ItemNew(Option<TypeItem>),
    /// The browser failed, and why.
    Failure(Option<String>),
    /// Anything else: `ItemRemove` (of a type), `AllForNow`, `CacheExhausted`.
    Other,
}

/// The characters of a member name.
pub open spec fn member_name(member: Option<&str>) -> Option<Seq<char>> {
    match member {
        Some(name) => Some(name@),
        None => None,
    }
}

/// The signals of the service-type browser that mean something.
#[derive(Debug, Clone, Copy, PartialEq, Eq, Structural)]
pub enum TypeMember {
    /// `ItemNew`.
    ItemNew,
    /// `Failure`.
    Failure,
    /// Any other member, or none.
    Other,
}

/// The signal that a member name stands for.
pub open spec fn type_member_of(member: Option<Seq<char>>) -> TypeMember {
    if member == Some("ItemNew"@) {
        TypeMember::ItemNew
    } else if member == Some("Failure"@) {
        TypeMember::Failure
    } else {
        TypeMember::Other
    }
}

/// Tells what a signal of the service-type browser is from its member name.
pub fn type_member(member: Option<&str>) -> (kind: TypeMember)
    ensures
        kind == type_member_of(member_name(member)),
{
    match member {
        Some(name) => if same_text(name, "ItemNew") {
            TypeMember::ItemNew
        } else if same_text(name, "Failure") {
            TypeMember::Failure
        } else {
            TypeMember::Other
        },
        None => TypeMember::Other,
    }
}

/// A type signal as plain values.
pub enum TypeSignalView {
    ItemNew(Option<TypeKey>),
    Failure(Option<Seq<char>>),
    Other,
}

impl DeepView for TypeSignal {
    type V = TypeSignalView;

    open spec fn deep_view(&self) -> TypeSignalView {
        match self {
            TypeSignal::ItemNew(Some(item)) => TypeSignalView::ItemNew(
                Some((item.service_type@, item.domain@)),
            ),
            TypeSignal::ItemNew(None) => TypeSignalView::ItemNew(None),
            TypeSignal::Failure(reason) => TypeSignalView::Failure(reason.deep_view()),
            TypeSignal::Other => TypeSignalView::Other,
        }
    }
}

/// The signal with a member name whose body holds these arguments.
pub open spec fn type_signal_of(
    member: Option<Seq<char>>,
    item: Option<TypeItemArguments>,
    reason: Option<Seq<char>>,
) -> TypeSignalView {
    match type_member_of(member) {
        TypeMember::ItemNew => TypeSignalView::ItemNew(
            match item {
                Some(arguments) => Some((arguments.2, arguments.3)),
                None => None,
            },
        ),
        TypeMember::Failure => TypeSignalView::Failure(reason),
        TypeMember::Other => TypeSignalView::Other,
    }
}

/// Reads a signal of the service-type browser. The interface, protocol and flags of
/// an item play no part.
pub fn type_signal(member: Option<&str>, body: &MessageBody) -> (signal: TypeSignal)
    ensures
        signal.deep_view() == type_signal_of(
            member_name(member),
            body.type_item(),
            body.string(),
        ),
        signal is ItemNew && signal->ItemNew_0 is Some ==> {
            &&& body.type_item() is Some
            &&& signal->ItemNew_0->0.service_type@ == (body.type_item()->0).2
            &&& signal->ItemNew_0->0.domain@ == (body.type_item()->0).3
        },
{
    match type_member(member) {
        TypeMember::ItemNew => match body.read_type_item() {
            Some((_, _, service_type, domain, _)) => TypeSignal::ItemNew(
                Some(TypeItem { service_type, domain }),
            ),
            None => TypeSignal::ItemNew(None),
        },
        TypeMember::Failure => TypeSignal::Failure(body.read_string()),
        TypeMember::Other => TypeSignal::Other,
    }
}

/// What a signal of the service-type browser calls for.
pub enum TypeAction {
    /// Nothing.
    Ignore,
    /// Start an instance browse for a type that is new.
    Browse(BrowseRequest),
    /// Deliver an error; the browse goes on.
    Report(ServiceBrowseError),
}

/// A type action as plain values.
pub enum TypeActionView {
    Ignore,
    Browse(RequestView),
    Report(ErrorView),
}

impl DeepView for TypeAction {
    type V = TypeActionView;

    open spec fn deep_view(&self) -> TypeActionView {
        match self {
            TypeAction::Ignore => TypeActionView::Ignore,
            TypeAction::Browse(request) => TypeActionView::Browse(request.deep_view()),
            TypeAction::Report(error) => TypeActionView::Report(error.deep_view()),
        }
    }
}

/// What a failure signal says: nothing when its body could not be read.
pub open spec fn failure_reason(reason: Option<Seq<char>>) -> Seq<char> {
    match reason {
        Some(text) => text,
        None => Seq::empty(),
    }
}

/// The text of a failure signal.
fn failure_text(reason: &Option<String>) -> (text: String)
    ensures
        text@ == failure_reason(reason.deep_view()),
{
    match reason {
        Some(text) => text.clone(),
        None => String::new(),
    }
}

/// The types that have been seen after a signal.
pub open spec fn types_after(seen: Seq<TypeKey>, signal: TypeSignalView) -> Seq<TypeKey> {
    match signal {
        TypeSignalView::ItemNew(Some(key)) => note(seen, key),
        _ => seen,
    }
}

/// What a signal calls for: a browse for a type that was not seen before, on the
/// interface that the caller asked for; an error for a failure; nothing else.
pub open spec fn type_action(
    interface: i32,
    seen: Seq<TypeKey>,
    signal: TypeSignalView,
) -> TypeActionView {
    match signal {
        TypeSignalView::ItemNew(Some(key)) => if seen.contains(key) {
            TypeActionView::Ignore
        } else {
            TypeActionView::Browse(browse_request(interface, Some(key.0), key.1))
        },
        TypeSignalView::ItemNew(None) => TypeActionView::Ignore,
        TypeSignalView::Failure(reason) => TypeActionView::Report(
            ErrorView::BrowseFailed("service type browser failure: "@ + failure_reason(reason)),
        ),
        TypeSignalView::Other => TypeActionView::Ignore,
    }
}

/// The browse of the service-type meta-query: it starts an instance browse for
/// each newly discovered type. A type may be announced on several interfaces, so
/// it remembers what it has seen.
pub struct TypeBrowser {
    interface: i32,
    seen: SeenTypes,
}

impl TypeBrowser {
    /// The Avahi interface argument of the browse.
    pub closed spec fn interface(self) -> i32 {
        self.interface
    }

    /// The types seen so far.
    pub closed spec fn seen(self) -> Seq<TypeKey> {
        self.seen.deep_view()
    }

    /// A browse on `interface` that has seen nothing yet.
    pub fn new(interface: i32) -> (browser: TypeBrowser)
        ensures
            browser.interface() == interface,
            browser.seen() == Seq::<TypeKey>::empty(),
    {
        TypeBrowser { interface, seen: SeenTypes::new() }
    }

    /// The error to deliver when the browser could not be set up; the browse then
    /// ends.
    pub fn setup_error(failure: SetupFailure) -> (error: ServiceBrowseError)
        ensures
            error.deep_view() == type_setup_error(failure),
    {
        match failure {
            SetupFailure::Connect(reason) => ServiceBrowseError::DnsSdUnavailable(
                concat("failed to connect to system D-Bus: ", reason.as_str()),
            ),
            SetupFailure::Subscribe(reason) => ServiceBrowseError::BrowseFailed(reason),
            SetupFailure::Proxy(reason) => ServiceBrowseError::DnsSdUnavailable(reason),
            SetupFailure::Create(reason) => ServiceBrowseError::BrowseFailed(
                concat("ServiceTypeBrowserNew failed: ", reason.as_str()),
            ),
        }
    }

    /// Decides what a signal calls for, and remembers the type that it announces.
    pub fn on_signal(&mut self, signal: TypeSignal) -> (action: TypeAction)
        ensures
            final(self).interface() == old(self).interface(),
            final(self).seen() == types_after(old(self).seen(), signal.deep_view()),
            action.deep_view() == type_action(
                old(self).interface(),
                old(self).seen(),
                signal.deep_view(),
            ),
            action is Browse ==> {
                &&& action->Browse_0.interface == old(self).interface()
                &&& action->Browse_0.protocol == AVAHI_PROTO_UNSPEC
                &&& action->Browse_0.flags == 0
                &&& signal is ItemNew && signal->ItemNew_0 is Some
                &&& action->Browse_0.service_type is Some
                &&& action->Browse_0.service_type->0@ == signal->ItemNew_0->0.service_type@
                &&& action->Browse_0.domain@ == signal->ItemNew_0->0.domain@
            },
    {
        match signal {
            TypeSignal::ItemNew(Some(item)) => {
                if self.seen.insert(item.service_type.as_str(), item.domain.as_str()) {
                    TypeAction::Browse(
                        BrowseRequest {
                            interface: self.interface,
                            protocol: AVAHI_PROTO_UNSPEC,
                            service_type: Some(item.service_type),
                            domain: item.domain,
                            flags: 0,
                        },
                    )
                } else {
                    TypeAction::Ignore
                }
            },
            TypeSignal::ItemNew(None) => TypeAction::Ignore,
            TypeSignal::Failure(reason) => TypeAction::Report(
                ServiceBrowseError::BrowseFailed(
                    concat("service type browser failure: ", failure_text(&reason).as_str()),
                ),
            ),
            TypeSignal::Other => TypeAction::Ignore,
        }
    }
}

/// The types that have been seen after a run of signals.
pub open spec fn types_after_all(signals: Seq<TypeSignalView>) -> Seq<TypeKey>
    decreases signals.len(),
{
    if signals.len() == 0 {
        Seq::empty()
    } else {
        types_after(types_after_all(signals.drop_last()), signals.last())
    }
}

/// The types that a run of signals starts a browse for, in order.
pub open spec fn browsed(interface: i32, signals: Seq<TypeSignalView>) -> Seq<TypeKey>
    decreases signals.len(),
{
    if signals.len() == 0 {
        Seq::empty()
    } else {
        let before = browsed(interface, signals.drop_last());
        match type_action(interface, types_after_all(signals.drop_last()), signals.last()) {
            TypeActionView::Browse(request) => before.push(
                (request.service_type->0, request.domain),
            ),
            _ => before,
        }
    }
}

/// The types that a run of signals announces, repetitions included.
pub open spec fn announced(signals: Seq<TypeSignalView>) -> Seq<TypeKey>
    decreases signals.len(),
{
    if signals.len() == 0 {
        Seq::empty()
    } else {
        match signals.last() {
            TypeSignalView::ItemNew(Some(key)) => announced(signals.drop_last()).push(key),
            _ => announced(signals.drop_last()),
        }
    }
}

/// Over any run of signals every announced type is browsed, and browsed once;
/// signals that cannot be read, failures and other members change nothing in
/// that.
pub proof fn law_each_type_browsed_once(interface: i32, signals: Seq<TypeSignalView>)
    ensures
        browsed(interface, signals) == note_all(Seq::empty(), announced(signals)),
        types_after_all(signals) == browsed(interface, signals),
        browsed(interface, signals).no_duplicates(),
        forall|key: TypeKey| #[trigger]
            browsed(interface, signals).contains(key) <==> announced(signals).contains(key),
    decreases signals.len(),
{
    if signals.len() > 0 {
        let before = signals.drop_last();
        law_each_type_browsed_once(interface, before);
        if let TypeSignalView::ItemNew(Some(key)) = signals.last() {
            assert(announced(signals).drop_last() =~= announced(before));
        }
    }
    law_noted_once(announced(signals));
}

/// What an instance `ItemNew` or `ItemRemove` signal is about.
pub struct InstanceItem {
    /// The interface the instance was announced on.
    pub interface: i32,
    /// The protocol it was announced over.
    pub protocol: i32,
    /// The service instance name.
    pub name: String,
    /// The service type.
    pub service_type: String,
    /// The domain.
    pub domain: String,
}

/// A signal of an instance browser, `None` standing for a body that could not be
/// read.
pub enum InstanceSignal {
    /// An instance appeared.
    ItemNew(Option<InstanceItem>),
    /// An instance went away.
    ItemRemove(Option<InstanceItem>),
    /// The browser failed, and why.
    Failure(Option<String>),
    /// Anything else: `AllForNow`, `CacheExhausted`.
    Other,
}

/// The signals of an instance browser that mean something.
#[derive(Debug, Clone, Copy, PartialEq, Eq, Structural)]
pub enum InstanceMember {
    /// `ItemNew`.
    ItemNew,
    /// `ItemRemove`.
    ItemRemove,
    /// `Failure`.
    Failure,
    /// Any other member, or none.
    Other,
}

/// The signal that a member name stands for.
pub open spec fn instance_member_of(member: Option<Seq<char>>) -> InstanceMember {
    if member == Some("ItemNew"@) {
        InstanceMember::ItemNew
    } else if member == Some("ItemRemove"@) {
        InstanceMember::ItemRemove
    } else if member == Some("Failure"@) {
        InstanceMember::Failure
    } else {
        InstanceMember::Other
    }
}

/// Tells what a signal of an instance browser is from its member name.
pub fn instance_member(member: Option<&str>) -> (kind: InstanceMember)
    ensures
        kind == instance_member_of(member_name(member)),
{
    match member {
        Some(name) => if same_text(name, "ItemNew") {
            InstanceMember::ItemNew
        } else if same_text(name, "ItemRemove") {
            InstanceMember::ItemRemove
        } else if same_text(name, "Failure") {
            InstanceMember::Failure
        } else {
            InstanceMember::Other
        },
        None => InstanceMember::Other,
    }
}

/// An instance as an item signal names it.
pub struct InstanceView {
    pub interface: i32,
    pub protocol: i32,
    pub name: Seq<char>,
    pub service_type: Seq<char>,
    pub domain: Seq<char>,
}

impl DeepView for InstanceItem {
    type V = InstanceView;

    open spec fn deep_view(&self) -> InstanceView {
        InstanceView {
            interface: self.interface,
            protocol: self.protocol,
            name: self.name@,
            service_type: self.service_type@,
            domain: self.domain@,
        }
    }
}

/// An instance signal as plain values.
pub enum InstanceSignalView {
    ItemNew(Option<InstanceView>),
    ItemRemove(Option<InstanceView>),
    Failure(Option<Seq<char>>),
    Other,
}

impl DeepView for InstanceSignal {
    type V = InstanceSignalView;

    open spec fn deep_view(&self) -> InstanceSignalView {
        match self {
            InstanceSignal::ItemNew(item) => InstanceSignalView::ItemNew(item.deep_view()),
            InstanceSignal::ItemRemove(item) => InstanceSignalView::ItemRemove(item.deep_view()),
            InstanceSignal::Failure(reason) => InstanceSignalView::Failure(reason.deep_view()),
            InstanceSignal::Other => InstanceSignalView::Other,
        }
    }
}

/// The instance that the arguments of an item signal name.
pub open spec fn instance_of(item: Option<InstanceItemArguments>) -> Option<InstanceView> {
    match item {
        Some(arguments) => Some(
            InstanceView {
                interface: arguments.0,
                protocol: arguments.1,
                name: arguments.2,
                service_type: arguments.3,
                domain: arguments.4,
            },
        ),
        None => None,
    }
}

/// The signal with a member name whose body holds these arguments.
pub open spec fn instance_signal_of(
    member: Option<Seq<char>>,
    item: Option<InstanceItemArguments>,
    reason: Option<Seq<char>>,
) -> InstanceSignalView {
    match instance_member_of(member) {
        InstanceMember::ItemNew => InstanceSignalView::ItemNew(instance_of(item)),
        InstanceMember::ItemRemove => InstanceSignalView::ItemRemove(instance_of(item)),
        InstanceMember::Failure => InstanceSignalView::Failure(reason),
        InstanceMember::Other => InstanceSignalView::Other,
    }
}

/// Reads the instance that an item signal is about. Its flags play no part.
fn read_instance(body: &MessageBody) -> (item: Option<InstanceItem>)
    ensures
        item.deep_view() == instance_of(body.instance_item()),
        item is Some <==> body.instance_item() is Some,
        item is Some ==> {
            &&& item->0.interface == (body.instance_item()->0).0
            &&& item->0.protocol == (body.instance_item()->0).1
            &&& item->0.name@ == (body.instance_item()->0).2
            &&& item->0.service_type@ == (body.instance_item()->0).3
            &&& item->0.domain@ == (body.instance_item()->0).4
        },
{
    match body.read_instance_item() {
        Some((interface, protocol, name, service_type, domain, _)) => Some(
            InstanceItem { interface, protocol, name, service_type, domain },
        ),
        None => None,
    }
}

/// Reads a signal of an instance browser.
pub fn instance_signal(member: Option<&str>, body: &MessageBody) -> (signal: InstanceSignal)
    ensures
        signal.deep_view() == instance_signal_of(
            member_name(member),
            body.instance_item(),
            body.string(),
        ),
{
    match instance_member(member) {
        InstanceMember::ItemNew => InstanceSignal::ItemNew(read_instance(body)),
        InstanceMember::ItemRemove => InstanceSignal::ItemRemove(read_instance(body)),
        InstanceMember::Failure => InstanceSignal::Failure(body.read_string()),
        InstanceMember::Other => InstanceSignal::Other,
    }
}

/// What a signal of an instance browser calls for.
pub enum InstanceAction {
    /// Nothing.
    Ignore,
    /// Resolve an instance that appeared, with the interface and protocol that it
    /// was announced on.
    Resolve(ResolveRequest),
    /// Deliver an event.
    Deliver(BrowseEvent),
    /// Deliver an error; the browse goes on.
    Report(ServiceBrowseError),
}

/// An instance action as plain values.
pub enum InstanceActionView {
    Ignore,
    Resolve(ResolveRequestView),
    Deliver(EventView),
    Report(ErrorView),
}

impl DeepView for InstanceAction {
    type V = InstanceActionView;

    open spec fn deep_view(&self) -> InstanceActionView {
        match self {
            InstanceAction::Ignore => InstanceActionView::Ignore,
            InstanceAction::Resolve(request) => InstanceActionView::Resolve(request.deep_view()),
            InstanceAction::Deliver(event) => InstanceActionView::Deliver(event.deep_view()),
            InstanceAction::Report(error) => InstanceActionView::Report(error.deep_view()),
        }
    }
}

impl InstanceAction {
    /// Whether the browse ends once the action is done: when nobody is left to
    /// take the event. An error that nobody takes does not end it.
    pub fn ends_browse(&self, delivered: bool) -> (ends: bool)
        ensures
            ends == (self is Deliver && !delivered),
    {
        match self {
            InstanceAction::Deliver(_) => !delivered,
            _ => false,
        }
    }
}

/// What a signal of the browse for `service_type` calls for: resolve what
/// appeared, report what went away under the identity that the signal gives it,
/// and pass a failure on.
pub open spec fn instance_action(
    service_type: Seq<char>,
    signal: InstanceSignalView,
) -> InstanceActionView {
    match signal {
        InstanceSignalView::ItemNew(Some(item)) => InstanceActionView::Resolve(
            resolve_request(
                item.interface,
                item.protocol,
                item.name,
                item.service_type,
                item.domain,
            ),
        ),
        InstanceSignalView::ItemNew(None) => InstanceActionView::Ignore,
        InstanceSignalView::ItemRemove(Some(item)) => InstanceActionView::Deliver(
            EventView::Removed(
                RemovedView {
                    name: item.name,
                    service_type: item.service_type,
                    domain: item.domain,
                    interface_index: avahi_index(item.interface),
                },
            ),
        ),
        InstanceSignalView::ItemRemove(None) => InstanceActionView::Ignore,
        InstanceSignalView::Failure(reason) => InstanceActionView::Report(
            ErrorView::BrowseFailed(
                "service browser failure for "@ + service_type + ": "@ + failure_reason(reason),
            ),
        ),
        InstanceSignalView::Other => InstanceActionView::Ignore,
    }
}

/// The browse of the instances of a single service type.
pub struct InstanceBrowser {
    /// The service type that is browsed.
    pub service_type: String,
}

impl InstanceBrowser {
    /// The error to deliver when the browser could not be set up; the browse then
    /// ends.
    pub fn setup_error(&self, failure: SetupFailure) -> (error: ServiceBrowseError)
        ensures
            error.deep_view() == instance_setup_error(self.service_type@, failure),
    {
        match failure {
            SetupFailure::Create(reason) => {
                let mut message = concat(
                    "ServiceBrowserNew failed for ",
                    self.service_type.as_str(),
                );
                message.append(": ");
                message.append(reason.as_str());
                ServiceBrowseError::BrowseFailed(message)
            },
            failure => TypeBrowser::setup_error(failure),
        }
    }

    /// Decides what a signal calls for.
    pub fn on_signal(&self, signal: InstanceSignal) -> (action: InstanceAction)
        ensures
            action.deep_view() == instance_action(self.service_type@, signal.deep_view()),
            signal is ItemNew && signal->ItemNew_0 is Some ==> {
                &&& action is Resolve
                &&& action->Resolve_0.interface == signal->ItemNew_0->0.interface
                &&& action->Resolve_0.protocol == signal->ItemNew_0->0.protocol
                &&& action->Resolve_0.name@ == signal->ItemNew_0->0.name@
                &&& action->Resolve_0.service_type@ == signal->ItemNew_0->0.service_type@
                &&& action->Resolve_0.domain@ == signal->ItemNew_0->0.domain@
            },
            signal is ItemRemove && signal->ItemRemove_0 is Some ==> {
                &&& action is Deliver && action->Deliver_0 is Removed
                &&& action->Deliver_0->Removed_0.name@ == signal->ItemRemove_0->0.name@
                &&& action->Deliver_0->Removed_0.service_type@
                    == signal->ItemRemove_0->0.service_type@
                &&& action->Deliver_0->Removed_0.domain@ == signal->ItemRemove_0->0.domain@
            },
            signal is Failure ==> action is Report,
    {
        match signal {
            InstanceSignal::ItemNew(Some(item)) => InstanceAction::Resolve(
                ResolveRequest {
                    interface: item.interface,
                    protocol: item.protocol,
                    name: item.name,
                    service_type: item.service_type,
                    domain: item.domain,
                    address_protocol: AVAHI_PROTO_UNSPEC,
                    flags: 0,
                },
            ),
            InstanceSignal::ItemNew(None) => InstanceAction::Ignore,
            InstanceSignal::ItemRemove(Some(item)) => InstanceAction::Deliver(
                BrowseEvent::Removed(
                    RemovedService {
                        name: item.name,
                        service_type: item.service_type,
                        domain: item.domain,
                        interface_index: avahi_interface_to_index(item.interface),
                    },
                ),
            ),
            InstanceSignal::ItemRemove(None) => InstanceAction::Ignore,
            InstanceSignal::Failure(reason) => {
                let mut message = concat(
                    "service browser failure for ",
                    self.service_type.as_str(),
                );
                message.append(": ");
                message.append(failure_text(&reason).as_str());
                InstanceAction::Report(ServiceBrowseError::BrowseFailed(message))
            },
            InstanceSignal::Other => InstanceAction::Ignore,
        }
    }
}

/// The resolved data that `Server.ResolveService` returns.
pub struct ResolvedService {
    /// The interface the instance was resolved on.
    pub interface: i32,
    /// The protocol it was resolved over.
    pub protocol: i32,
    /// The service instance name.
    pub name: String,
    /// The service type.
    pub service_type: String,
    /// The domain.
    pub domain: String,
    /// The host name.
    pub host: String,
    /// The protocol of the address.
    pub address_protocol: i32,
    /// The address, as text.
    pub address: String,
    /// The port.
    pub port: u16,
    /// The TXT entries.
    pub txt: Vec<Vec<u8>>,
    /// Avahi's lookup result flags.
    pub flags: u32,
}

/// What reading an IP address gives for a text, IPv4 or IPv6: nothing for a text
/// that is none.
pub uninterp spec fn parsed_ip(text: Seq<char>) -> Option<IpAddr>;

/// Reads an IP address with `core::net::IpAddr`'s `FromStr`.
///
/// What is taken on trust: the address is a function of the text alone. Which texts
/// are addresses is not stated.
#[verifier::external_body]
fn parse_ip(text: &str) -> (ip: Option<IpAddr>)
    ensures
        ip == parsed_ip(text@),
{
    text.parse::<core::net::IpAddr>().ok().map(|ip| match ip {
        core::net::IpAddr::V4(v4) => IpAddr::V4(v4.octets()),
        core::net::IpAddr::V6(v6) => IpAddr::V6(v6.octets()),
    })
}

/// The addresses that a reply gives: one, or none when it could not be read.
pub open spec fn address_list(address: Option<IpAddr>) -> Seq<IpAddr> {
    match address {
        Some(ip) => seq![ip],
        None => Seq::empty(),
    }
}

/// The records that a reply's TXT entries stand for, one for each.
pub open spec fn entry_records(txt: Seq<Vec<u8>>) -> Seq<TxtEntry> {
    txt.map_values(|entry: Vec<u8>| txt_entry(entry@))
}

/// The service that a reply describes, its address already read.
pub open spec fn resolved_view_at(reply: ResolvedService, address: Option<IpAddr>) -> ServiceView {
    ServiceView {
        name: reply.name@,
        service_type: reply.service_type@,
        domain: reply.domain@,
        host_name: reply.host@,
        port: reply.port,
        addresses: address_list(address),
        txt_records: entry_records(reply.txt@),
        interface_index: avahi_index(reply.interface),
    }
}

/// The service that a reply describes.
pub open spec fn resolved_view(reply: ResolvedService) -> ServiceView {
    resolved_view_at(reply, parsed_ip(reply.address@))
}

/// Parses the TXT entries of a reply.
fn parse_entries(txt: &Vec<Vec<u8>>) -> (records: Vec<TxtRecord>)
    ensures
        records.deep_view() == entry_records(txt@),
        records.len() == txt.len(),
        forall|i: int| 0 <= i < records.len() ==> !(#[trigger] records[i]).key@.contains('='),
{
    let mut records: Vec<TxtRecord> = Vec::new();
    let mut i: usize = 0;
    while i < txt.len()
        invariant
            i <= txt.len(),
            records.len() == i,
            forall|k: int|
                0 <= k < i ==> #[trigger] records[k].deep_view() == txt_entry(txt[k]@),
            forall|k: int| 0 <= k < i ==> !(#[trigger] records[k]).key@.contains('='),
        decreases txt.len() - i,
    {
        records.push(parse_txt_entry(txt[i].as_slice()));
        i = i + 1;
    }
    assert(records.deep_view() =~= entry_records(txt@));
    records
}

/// Turns a reply into the service that it describes. An address that cannot be read
/// leaves the service without one.
pub fn resolved(reply: ResolvedService) -> (service: DiscoveredService)
    ensures
        service.deep_view() == resolved_view(reply),
        parsed_ip(reply.address@) is Some ==> service.addresses@ == seq![
            parsed_ip(reply.address@)->0,
        ],
        parsed_ip(reply.address@) is None ==> service.addresses@.len() == 0,
        forall|i: int|
            0 <= i < service.txt_records.len() ==> !(#[trigger] service.txt_records[i]).key@.contains(
                '=',
            ),
{
    let address = parse_ip(reply.address.as_str());
    resolved_at(reply, address)
}

/// Turns a reply into the service that it describes, given the address that its text
/// was read as.
pub fn resolved_at(reply: ResolvedService, address: Option<IpAddr>) -> (service: DiscoveredService)
    ensures
        service.deep_view() == resolved_view_at(reply, address),
        address is Some ==> service.addresses@ == seq![address->0],
        address is None ==> service.addresses@.len() == 0,
        service.name@ == reply.name@,
        service.service_type@ == reply.service_type@,
        service.domain@ == reply.domain@,
        service.host_name@ == reply.host@,
        service.port == reply.port,
        service.txt_records.len() == reply.txt.len(),
        forall|i: int|
            0 <= i < service.txt_records.len() ==> !(#[trigger] service.txt_records[i]).key@.contains(
                '=',
            ),
{
    let txt_records = parse_entries(&reply.txt);
    let mut addresses: Vec<IpAddr> = Vec::new();
    match address {
        Some(ip) => addresses.push(ip),
        None => {},
    }
    assert(addresses@ =~= address_list(address));
    DiscoveredService {
        name: reply.name,
        service_type: reply.service_type,
        domain: reply.domain,
        host_name: reply.host,
        port: reply.port,
        addresses,
        txt_records,
        interface_index: avahi_interface_to_index(reply.interface),
    }
}

/// What a one-shot resolve of the instance `name` gives: the service that the reply
/// describes, or the reason why there is no reply, which tells that the instance no
/// longer responds.
pub fn resolve_once(name: String, reply: Result<ResolvedService, String>) -> (outcome: Result<
    DiscoveredService,
    ServiceBrowseError,
>)
    ensures
        match outcome {
            Ok(service) => reply is Ok && service.deep_view() == resolved_view(reply->Ok_0),
            Err(error) => reply is Err && error.deep_view() == ErrorView::ResolveFailed(
                name@,
                reply->Err_0@,
            ),
        },
{
    match reply {
        Ok(reply) => Ok(resolved(reply)),
        Err(reason) => Err(ServiceBrowseError::ResolveFailed(name, reason)),
    }
}

/// What a browse delivers for the instance `name` that appeared, once it has been
/// resolved or could not be.
pub fn resolve_and_emit(name: String, reply: Result<ResolvedService, String>) -> (outcome: Result<
    BrowseEvent,
    ServiceBrowseError,
>)
    ensures
        delivery(outcome) == match reply {
            Ok(reply) => Ok::<EventView, ErrorView>(EventView::Found(resolved_view(reply))),
            Err(reason) => Err::<EventView, ErrorView>(ErrorView::ResolveFailed(name@, reason@)),
        },
        outcome is Ok <==> reply is Ok,
        outcome is Ok ==> outcome->Ok_0 is Found && outcome->Ok_0->Found_0.deep_view()
            == resolved_view(reply->Ok_0),
{
    match resolve_once(name, reply) {
        Ok(service) => Ok(BrowseEvent::Found(service)),
        Err(error) => Err(error),
    }
}

/// No index is `-1`, an index that fits is itself, and one that does not fit is
/// refused under its number. From a signal, only a positive value is an index.
pub proof fn law_avahi_interface_values(index: Option<u32>, interface: i32)
    ensures
        index is None ==> avahi_interface(index) == Ok::<i32, ErrorView>(-1i32),
        index is Some && index->0 <= 0x7fff_ffff ==> {
            &&& avahi_interface(index) is Ok
            &&& avahi_interface(index)->Ok_0 as int == index->0 as int
        },
        index is Some && index->0 > 0x7fff_ffff ==> avahi_interface(index) == Err::<
            i32,
            ErrorView,
        >(ErrorView::InvalidInterfaceIndex(index->0)),
        avahi_index(interface) is Some <==> interface > 0,
        interface > 0 ==> avahi_index(interface)->0 as int == interface as int,
{
}

/// A daemon that is not there is an error that says which part is missing and why;
/// one that is there is none.
pub proof fn law_unreachable(reason: String)
    ensures
        unreachable_error(Reachability::Reachable) is None,
        unreachable_error(Reachability::NoBus(reason)) == Some(
            ErrorView::DnsSdUnavailable("failed to connect to system D-Bus: "@ + reason@),
        ),
        unreachable_error(Reachability::NoAvahi(reason)) == Some(
            ErrorView::DnsSdUnavailable("failed to connect to Avahi via D-Bus: "@ + reason@),
        ),
{
}

/// A browser that could not be set up is reported with its reason in full: a missing
/// bus or proxy as an unavailable DNS-SD, anything else as a failed browse. Only a
/// refused creation tells the two kinds of browser apart.
pub proof fn law_setup_errors(service_type: Seq<char>, reason: String)
    ensures
        type_setup_error(SetupFailure::Connect(reason)) == ErrorView::DnsSdUnavailable(
            "failed to connect to system D-Bus: "@ + reason@,
        ),
        type_setup_error(SetupFailure::Proxy(reason)) == ErrorView::DnsSdUnavailable(reason@),
        type_setup_error(SetupFailure::Subscribe(reason)) == ErrorView::BrowseFailed(reason@),
        type_setup_error(SetupFailure::Create(reason)) == ErrorView::BrowseFailed(
            "ServiceTypeBrowserNew failed: "@ + reason@,
        ),
        instance_setup_error(service_type, SetupFailure::Create(reason))
            == ErrorView::BrowseFailed(
            "ServiceBrowserNew failed for "@ + service_type + ": "@ + reason@,
        ),
        forall|failure: SetupFailure|
            !(failure is Create) ==> #[trigger] instance_setup_error(service_type, failure)
                == type_setup_error(failure),
{
}

/// A signal is what its member name says, and nothing else is.
pub proof fn law_members(member: Option<Seq<char>>)
    ensures
        type_member_of(member) is ItemNew <==> member == Some("ItemNew"@),
        type_member_of(member) is Failure <==> member == Some("Failure"@),
        instance_member_of(member) is ItemNew <==> member == Some("ItemNew"@),
        instance_member_of(member) is ItemRemove <==> member == Some("ItemRemove"@),
        instance_member_of(member) is Failure <==> member == Some("Failure"@),
{
    reveal_strlit("ItemNew");
    reveal_strlit("ItemRemove");
    reveal_strlit("Failure");
    assert("ItemNew"@[0] != "Failure"@[0]);
    assert("ItemRemove"@[0] != "Failure"@[0]);
    assert("ItemNew"@.len() != "ItemRemove"@.len());
}

/// What a type signal says is what its body holds: the third and fourth arguments of
/// an item are the type and the domain, and the others play no part.
pub proof fn law_type_signal_reads_body(
    item: Option<TypeItemArguments>,
    reason: Option<Seq<char>>,
)
    ensures
        type_signal_of(Some("ItemNew"@), None, reason) == TypeSignalView::ItemNew(None),
        item is Some ==> type_signal_of(Some("ItemNew"@), item, reason) == TypeSignalView::ItemNew(
            Some(((item->0).2, (item->0).3)),
        ),
        type_signal_of(Some("Failure"@), item, reason) == TypeSignalView::Failure(reason),
        forall|member: Option<Seq<char>>|
            member != Some("ItemNew"@) && member != Some("Failure"@)
                ==> #[trigger] type_signal_of(member, item, reason) is Other,
{
    law_members(Some("ItemNew"@));
    law_members(Some("Failure"@));
}

/// What an instance signal says is what its body holds, each argument in its place.
/// Appearing and going away are told apart by the member alone.
pub proof fn law_instance_signal_reads_body(
    item: Option<InstanceItemArguments>,
    reason: Option<Seq<char>>,
)
    ensures
        instance_signal_of(Some("ItemNew"@), item, reason) is ItemNew,
        instance_signal_of(Some("ItemRemove"@), item, reason) is ItemRemove,
        instance_signal_of(Some("Failure"@), item, reason) == InstanceSignalView::Failure(reason),
        forall|member: Option<Seq<char>>|
            member != Some("ItemNew"@) && member != Some("ItemRemove"@) && member != Some(
                "Failure"@,
            ) ==> #[trigger] instance_signal_of(member, item, reason) is Other,
        ({
            let appeared = instance_signal_of(Some("ItemNew"@), item, reason)->ItemNew_0;
            let removed = instance_signal_of(Some("ItemRemove"@), item, reason)->ItemRemove_0;
            &&& appeared == removed
            &&& appeared is Some <==> item is Some
            &&& item is Some ==> appeared->0.interface == (item->0).0
            &&& item is Some ==> appeared->0.protocol == (item->0).1
            &&& item is Some ==> appeared->0.name == (item->0).2
            &&& item is Some ==> appeared->0.service_type == (item->0).3
            &&& item is Some ==> appeared->0.domain == (item->0).4
        }),
{
    law_members(Some("ItemNew"@));
    law_members(Some("ItemRemove"@));
    law_members(Some("Failure"@));
}

/// A browse is started for a readable announcement of a type that is new, and for
/// nothing else: for that type in that domain, on exactly the interface that the
/// meta-query runs on, over any protocol and without flags. A failure is reported
/// whatever was seen, with what it says.
pub proof fn law_type_browse_scope(interface: i32, seen: Seq<TypeKey>, signal: TypeSignalView)
    ensures
        match type_action(interface, seen, signal) {
            TypeActionView::Browse(request) => {
                &&& request.interface == interface
                &&& request.protocol == -1
                &&& request.flags == 0
                &&& request.service_type is Some
                &&& signal == TypeSignalView::ItemNew(
                    Some((request.service_type->0, request.domain)),
                )
                &&& !seen.contains((request.service_type->0, request.domain))
            },
            TypeActionView::Report(error) => {
                &&& signal is Failure
                &&& signal->Failure_0 is Some ==> error == ErrorView::BrowseFailed(
                    "service type browser failure: "@ + signal->Failure_0->0,
                )
                &&& signal->Failure_0 is None ==> error == ErrorView::BrowseFailed(
                    "service type browser failure: "@,
                )
            },
            TypeActionView::Ignore => {
                &&& !(signal is Failure)
                &&& forall|key: TypeKey|
                    signal == TypeSignalView::ItemNew(Some(key)) ==> #[trigger] seen.contains(key)
            },
        },
        forall|key: TypeKey|
            types_after(seen, signal).contains(key) <==> #[trigger] seen.contains(key) || signal
                == TypeSignalView::ItemNew(Some(key)),
{
    assert("service type browser failure: "@ + Seq::<char>::empty()
        =~= "service type browser failure: "@);
    assert forall|key: TypeKey|
        types_after(seen, signal).contains(key) <==> #[trigger] seen.contains(key) || signal
            == TypeSignalView::ItemNew(Some(key)) by {
        if let TypeSignalView::ItemNew(Some(new)) = signal {
            if !seen.contains(new) {
                assert(seen.push(new).last() == new);
                if seen.contains(key) {
                    let k = choose|k: int| 0 <= k < seen.len() && seen[k] == key;
                    assert(seen.push(new)[k] == key);
                }
                if seen.push(new).contains(key) && key != new {
                    let k = choose|k: int|
                        0 <= k < seen.push(new).len() && seen.push(new)[k] == key;
                    assert(seen[k] == key);
                }
            }
        }
    }
}

/// Two meta-queries on different interfaces start the same browses, each on its own
/// interface.
pub proof fn law_type_browse_interface(
    a: i32,
    b: i32,
    seen: Seq<TypeKey>,
    signal: TypeSignalView,
)
    ensures
        match (type_action(a, seen, signal), type_action(b, seen, signal)) {
            (TypeActionView::Browse(first), TypeActionView::Browse(second)) => {
                &&& first.interface == a
                &&& second == (RequestView { interface: b, ..first })
            },
            (first, second) => first == second,
        },
{
}

/// An instance that appears is resolved, one that goes away is reported as removed,
/// each under the identity that the signal gives it; a failure is reported with what
/// it says; a body that cannot be read, and any other signal, does nothing.
pub proof fn law_instance_actions(service_type: Seq<char>, item: InstanceView, reason: Seq<char>)
    ensures
        ({
            let action = instance_action(service_type, InstanceSignalView::ItemNew(Some(item)));
            &&& action is Resolve
            &&& action->Resolve_0.interface == item.interface
            &&& action->Resolve_0.protocol == item.protocol
            &&& action->Resolve_0.name == item.name
            &&& action->Resolve_0.service_type == item.service_type
            &&& action->Resolve_0.domain == item.domain
            &&& action->Resolve_0.address_protocol == -1
            &&& action->Resolve_0.flags == 0
        }),
        ({
            let action = instance_action(service_type, InstanceSignalView::ItemRemove(Some(item)));
            &&& action is Deliver
            &&& action->Deliver_0 is Removed
            &&& action->Deliver_0->Removed_0.name == item.name
            &&& action->Deliver_0->Removed_0.service_type == item.service_type
            &&& action->Deliver_0->Removed_0.domain == item.domain
            &&& action->Deliver_0->Removed_0.interface_index is Some <==> item.interface > 0
            &&& item.interface > 0 ==> action->Deliver_0->Removed_0.interface_index->0 as int
                == item.interface as int
        }),
        instance_action(service_type, InstanceSignalView::Failure(Some(reason)))
            == InstanceActionView::Report(
            ErrorView::BrowseFailed(
                "service browser failure for "@ + service_type + ": "@ + reason,
            ),
        ),
        instance_action(service_type, InstanceSignalView::Failure(None))
            == InstanceActionView::Report(
            ErrorView::BrowseFailed("service browser failure for "@ + service_type + ": "@),
        ),
        instance_action(service_type, InstanceSignalView::ItemNew(None)) is Ignore,
        instance_action(service_type, InstanceSignalView::ItemRemove(None)) is Ignore,
        instance_action(service_type, InstanceSignalView::Other) is Ignore,
{
    assert("service browser failure for "@ + service_type + ": "@ + Seq::<char>::empty()
        =~= "service browser failure for "@ + service_type + ": "@);
}

/// A reply's address is the service's address whenever its text reads as one, and
/// the service has no other. The protocols and flags of a reply change nothing.
pub proof fn law_resolved_address(
    reply: ResolvedService,
    protocol: i32,
    address_protocol: i32,
    flags: u32,
)
    ensures
        match parsed_ip(reply.address@) {
            Some(ip) => resolved_view(reply).addresses == seq![ip],
            None => resolved_view(reply).addresses.len() == 0,
        },
        resolved_view(ResolvedService { protocol, address_protocol, flags, ..reply })
            == resolved_view(reply),
        forall|address: Option<IpAddr>| #[trigger]
            resolved_view_at(reply, address) == (ServiceView {
                addresses: resolved_view_at(reply, address).addresses,
                ..resolved_view(reply)
            }),
        forall|ip: IpAddr| #[trigger]
            resolved_view_at(reply, Some(ip)).addresses == seq![ip],
        resolved_view_at(reply, None).addresses.len() == 0,
{
}

/// A reply's own names, port and TXT entries are the service's, each entry one
/// record, and its interface is the service's if it is one.
pub proof fn law_resolved_identity(reply: ResolvedService)
    ensures
        resolved_view(reply).name == reply.name@,
        resolved_view(reply).service_type == reply.service_type@,
        resolved_view(reply).domain == reply.domain@,
        resolved_view(reply).host_name == reply.host@,
        resolved_view(reply).port == reply.port,
        resolved_view(reply).txt_records.len() == reply.txt@.len(),
        forall|i: int|
            0 <= i < reply.txt@.len() ==> #[trigger] resolved_view(reply).txt_records[i]
                == txt_entry(reply.txt@[i]@),
        resolved_view(reply).interface_index is Some <==> reply.interface > 0,
        reply.interface > 0 ==> resolved_view(reply).interface_index->0 as int
            == reply.interface as int,
{
}

/// What the requests of a browse and a resolve hold besides what they are about: any
/// protocol where none is given, and no flags.
pub proof fn law_requests(
    interface: i32,
    protocol: i32,
    name: Seq<char>,
    service_type: Seq<char>,
    domain: Seq<char>,
)
    ensures
        browse_request(interface, Some(service_type), domain) == (RequestView {
            interface,
            protocol: -1i32,
            service_type: Some(service_type),
            domain,
            flags: 0,
        }),
        browse_request(interface, None, domain) == (RequestView {
            interface,
            protocol: -1i32,
            service_type: None,
            domain,
            flags: 0,
        }),
        resolve_request(interface, protocol, name, service_type, domain) == (
        ResolveRequestView {
            interface,
            protocol,
            name,
            service_type,
            domain,
            address_protocol: -1i32,
            flags: 0,
        }),
{
}

} // verus!
