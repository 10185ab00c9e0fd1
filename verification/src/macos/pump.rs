//! The browse pump: every browse over a single connection to the daemon.

use vstd::prelude::*;
use vstd::string::*;
use vstd::utf8::*;

use crate::addr::{interface_number, interface_number_of, nonzero, NonZeroU32};
use crate::browse::{
    domain_or_default, domain_text, BrowseEvent, ErrorView, EventView, RemovedService, RemovedView,
    ServiceBrowseError,
};
use crate::macos::meta::{meta_reply, meta_reply_to_type_and_domain};
use crate::macos::native::{
    cstr_text, cstr_to_string, cstring, has_flag, law_cstring_refuses_only_nul, law_flag_bits,
    nul_error, status_error, status_message, CString, DNSServiceErrorType, DNSServiceFlags,
    DNSServiceRef, FLAGS_ADD, FLAGS_SHARE_CONNECTION, META_QUERY_TYPE, NO_ERROR,
};
use crate::seen::{law_noted_once, note_all, SeenTypes, TypeKey};
use crate::text::{concat, law_trim_dot, signed_decimal, strips_dots, trim_dot, trim_end_dots};
use crate::txt::value_bytes;

verus! {

/// What the browse pump has to start with.
pub struct PumpStart {
    /// The type to browse, or the meta-query.
    pub regtype: String,
    /// The domain; empty for the default browse domains.
    pub domain: String,
    /// The interface number; zero for all interfaces.
    pub interface: u32,
    /// Whether the replies are service types rather than instances.
    pub is_meta: bool,
}

/// Decides what the pump starts with: the type that was asked for, or the
/// meta-query.
pub fn browse_start(
    service_type: &Option<String>,
    domain: &Option<String>,
    interface_index: Option<NonZeroU32>,
) -> (start: PumpStart)
    ensures
        start.regtype@ == match service_type.deep_view() {
            Some(service_type) => service_type,
            None => META_QUERY_TYPE@,
        },
        start.is_meta == (service_type is None),
        start.domain@ == domain_or_default(domain.deep_view()),
        start.interface == interface_number_of(interface_index.deep_view()),
{
    let interface: u32 = interface_number(interface_index);
    let domain = domain_text(domain);
    match service_type {
        Some(service_type) => PumpStart {
            regtype: service_type.clone(),
            domain,
            interface,
            is_meta: false,
        },
        None => PumpStart {
            regtype: META_QUERY_TYPE.to_owned(),
            domain,
            interface,
            is_meta: true,
        },
    }
}

/// The arguments of a `DNSServiceBrowse` call on a shared connection.
pub struct NativeBrowse {
    /// A copy of the parent's reference, which the call initializes in place.
    pub op: DNSServiceRef,
    /// The flags.
    pub flags: DNSServiceFlags,
    /// The interface number; zero for all interfaces.
    pub interface: u32,
    /// The type to browse, as text.
    pub service_type: String,
    /// The type to browse.
    pub regtype: CString,
    /// The domain; `None` (a null pointer) for the default browse domains.
    pub domain: Option<CString>,
}

/// The error for a browse whose type or domain cannot be a C string. An empty
/// domain is not handed over.
pub open spec fn browse_argument_error(regtype: Seq<char>, domain: Seq<char>) -> Option<ErrorView> {
    match nul_error(regtype) {
        Some(error) => Some(error),
        None => if domain.len() == 0 {
            None
        } else {
            nul_error(domain)
        },
    }
}

/// The bytes of the domain that is handed over, if one is.
pub open spec fn domain_argument(domain: Seq<char>) -> Option<Seq<u8>> {
    if domain.len() == 0 {
        None
    } else {
        Some(encode_utf8(domain))
    }
}

/// Whether `request` asks for `regtype` in `domain` on `interface`, on the
/// connection `parent`.
pub open spec fn is_browse_of(
    request: NativeBrowse,
    parent: usize,
    regtype: Seq<char>,
    domain: Seq<char>,
    interface: u32,
) -> bool {
    &&& request.op.0 == parent
    &&& request.flags == FLAGS_SHARE_CONNECTION
    &&& request.interface == interface
    &&& request.service_type@ == regtype
    &&& request.regtype@ == encode_utf8(regtype)
    &&& match request.domain {
        Some(d) => domain_argument(domain) == Some(d@),
        None => domain_argument(domain) is None,
    }
}

/// Whether `start` is what preparing the browse of `regtype` in `domain` gives: the
/// request, or the error of an argument that cannot be handed over.
pub open spec fn is_start_of(
    start: Result<NativeBrowse, ServiceBrowseError>,
    parent: usize,
    regtype: Seq<char>,
    domain: Seq<char>,
    interface: u32,
) -> bool {
    match start {
        Ok(request) => {
            &&& browse_argument_error(regtype, domain) is None
            &&& is_browse_of(request, parent, regtype, domain, interface)
        },
        Err(error) => browse_argument_error(regtype, domain) == Some(error.deep_view()),
    }
}

/// A single connection to the daemon, plus every browse operation started on it.
///
/// Deallocating the parent reference implicitly terminates the operations that
/// share it, and they must not be touched afterwards: so the operations are
/// released first and the connection last.
pub struct SharedConnection {
    shared: DNSServiceRef,
    ops: Vec<DNSServiceRef>,
}

/// A connection as plain values.
#[verifier::ext_equal]
pub struct ConnectionView {
    pub shared: usize,
    pub ops: Seq<usize>,
}

impl DeepView for SharedConnection {
    type V = ConnectionView;

    closed spec fn deep_view(&self) -> ConnectionView {
        ConnectionView { shared: self.shared.0, ops: self.ops.deep_view() }
    }
}

/// The connection after a browse was started on it with status `err`: a failed
/// start leaves it alone.
pub open spec fn after_start(conn: ConnectionView, op: usize, err: i32) -> ConnectionView {
    if err == NO_ERROR {
        ConnectionView { ops: conn.ops.push(op), ..conn }
    } else {
        conn
    }
}

/// The references to deallocate, in order.
pub open spec fn release_order(conn: ConnectionView) -> Seq<usize> {
    conn.ops.push(conn.shared)
}

impl SharedConnection {
    /// Takes what `DNSServiceCreateConnection` returned: its status, and the
    /// reference that it filled in.
    pub fn create(err: DNSServiceErrorType, shared: DNSServiceRef) -> (conn: Result<
        SharedConnection,
        ServiceBrowseError,
    >)
        ensures
            match conn {
                Ok(conn) => {
                    &&& err == NO_ERROR
                    &&& conn.deep_view() == (ConnectionView { shared: shared.0, ops: Seq::empty() })
                },
                Err(error) => {
                    &&& err != NO_ERROR
                    &&& error.deep_view() == ErrorView::BrowseFailed(
                        status_message("DNSServiceCreateConnection failed: "@, err as int),
                    )
                },
            },
    {
        if err != NO_ERROR {
            return Err(status_error("DNSServiceCreateConnection failed: ", err));
        }
        let conn = SharedConnection { shared, ops: Vec::new() };
        assert(conn.deep_view().ops =~= Seq::empty());
        Ok(conn)
    }

    /// The reference whose descriptor is polled, and whose replies are processed.
    pub fn shared(&self) -> (shared: usize)
        ensures
            shared == self.deep_view().shared,
    {
        self.shared.0
    }

    /// The descriptor to poll for all operations on this connection, from what
    /// `DNSServiceRefSockFD` returned.
    pub fn socket_fd(&self, fd: i32) -> (descriptor: Result<i32, ServiceBrowseError>)
        ensures
            match descriptor {
                Ok(descriptor) => fd >= 0 && descriptor == fd,
                Err(error) => fd < 0 && error.deep_view() == ErrorView::BrowseFailed(
                    "DNSServiceRefSockFD returned an invalid descriptor"@,
                ),
            },
    {
        if fd < 0 {
            return Err(
                ServiceBrowseError::BrowseFailed(
                    "DNSServiceRefSockFD returned an invalid descriptor".to_owned(),
                ),
            );
        }
        Ok(fd)
    }

    /// Takes the status of `DNSServiceProcessResult`, which reads one queued reply
    /// and dispatches it to the owning callback.
    pub fn process_result(&self, err: DNSServiceErrorType) -> (outcome: Result<
        (),
        ServiceBrowseError,
    >)
        ensures
            match outcome {
                Ok(()) => err == NO_ERROR,
                Err(error) => err != NO_ERROR && error.deep_view() == ErrorView::BrowseFailed(
                    status_message("DNSServiceProcessResult failed: "@, err as int),
                ),
            },
    {
        if err != NO_ERROR {
            return Err(status_error("DNSServiceProcessResult failed: ", err));
        }
        Ok(())
    }

    /// The `DNSServiceBrowse` call that starts a browse on this connection.
    pub fn browse(&self, regtype: &str, domain: &str, interface: u32) -> (request: Result<
        NativeBrowse,
        ServiceBrowseError,
    >)
        ensures
            is_start_of(request, self.deep_view().shared, regtype@, domain@, interface),
    {
        let regtype_c = match cstring(regtype) {
            Ok(c) => c,
            Err(error) => {
                return Err(error);
            },
        };
        let domain_c = if domain.unicode_len() == 0 {
            None
        } else {
            match cstring(domain) {
                Ok(c) => Some(c),
                Err(error) => {
                    return Err(error);
                },
            }
        };
        Ok(
            NativeBrowse {
                op: DNSServiceRef(self.shared.0),
                flags: FLAGS_SHARE_CONNECTION,
                interface,
                service_type: regtype.to_owned(),
                regtype: regtype_c,
                domain: domain_c,
            },
        )
    }

    /// Takes what `DNSServiceBrowse` returned for the browse of `regtype`: its
    /// status, and the reference that it filled in. A browse that started is kept
    /// until the connection is released.
    pub fn browse_started(
        &mut self,
        regtype: &str,
        op: DNSServiceRef,
        err: DNSServiceErrorType,
    ) -> (outcome: Result<(), ServiceBrowseError>)
        ensures
            final(self).deep_view() == after_start(old(self).deep_view(), op.0, err),
            match outcome {
                Ok(()) => err == NO_ERROR,
                Err(error) => err != NO_ERROR && error.deep_view() == ErrorView::BrowseFailed(
                    status_message(
                        "DNSServiceBrowse failed for "@ + regtype@ + ": "@,
                        err as int,
                    ),
                ),
            },
    {
        if err != NO_ERROR {
            let mut what = concat("DNSServiceBrowse failed for ", regtype);
            what.append(": ");
            return Err(status_error(what.as_str(), err));
        }
        self.ops.push(op);
        assert(self.deep_view().ops =~= old(self).deep_view().ops.push(op.0));
        Ok(())
    }

    /// Gives up the connection: the references to deallocate, in the order in
    /// which that has to happen.
    pub fn release(self) -> (order: Vec<DNSServiceRef>)
        ensures
            order.deep_view() == release_order(self.deep_view()),
    {
        let mut order = self.ops;
        order.push(self.shared);
        assert(order.deep_view() =~= release_order(self.deep_view()));
        order
    }
}

/// A connection after a run of browses, each given by the reference and the status
/// that the start returned.
pub open spec fn after_starts(shared: usize, starts: Seq<(usize, i32)>) -> ConnectionView
    decreases starts.len(),
{
    if starts.len() == 0 {
        ConnectionView { shared, ops: Seq::empty() }
    } else {
        after_start(
            after_starts(shared, starts.drop_last()),
            starts.last().0,
            starts.last().1,
        )
    }
}

/// However many browses were started on a connection: exactly those that started
/// are released, each once and in order, and the connection itself after all of
/// them.
pub proof fn law_connection_released_last(shared: usize, starts: Seq<(usize, i32)>)
    ensures
        release_order(after_starts(shared, starts)) == starts.filter(
            |start: (usize, i32)| start.1 == NO_ERROR,
        ).map_values(|start: (usize, i32)| start.0).push(shared),
    decreases starts.len(),
{
    let started = |start: (usize, i32)| start.1 == NO_ERROR;
    let op = |start: (usize, i32)| start.0;
    reveal(Seq::filter);
    if starts.len() > 0 {
        let before = starts.drop_last();
        law_connection_released_last(shared, before);
        assert(release_order(after_starts(shared, before)).drop_last() =~= after_starts(
            shared,
            before,
        ).ops);
        assert(before.filter(started).map_values(op).push(shared).drop_last() =~= before.filter(
            started,
        ).map_values(op));
        assert(after_starts(shared, starts).ops =~= starts.filter(started).map_values(op));
        lemma_shared_stays(shared, starts);
    } else {
        assert(starts.filter(started).map_values(op) =~= Seq::empty());
    }
}

/// Starting browses keeps the connection.
proof fn lemma_shared_stays(shared: usize, starts: Seq<(usize, i32)>)
    ensures
        after_starts(shared, starts).shared == shared,
    decreases starts.len(),
{
    if starts.len() > 0 {
        lemma_shared_stays(shared, starts.drop_last());
    }
}

/// A reply to a browse, as the callback gets it. The strings are C strings without
/// their NUL, and `None` for a null pointer.
pub struct BrowseReply {
    /// The reply's flags.
    pub flags: DNSServiceFlags,
    /// The interface number that the reply is about.
    pub interface_index: u32,
    /// The reply's status.
    pub error_code: DNSServiceErrorType,
    /// The service instance name.
    pub service_name: Option<Vec<u8>>,
    /// The service type.
    pub regtype: Option<Vec<u8>>,
    /// The domain.
    pub reply_domain: Option<Vec<u8>>,
}

/// A browse reply as plain values.
pub struct BrowseReplyView {
    pub flags: u32,
    pub interface_index: u32,
    pub error_code: i32,
    pub name: Seq<char>,
    pub regtype: Seq<char>,
    pub domain: Seq<char>,
}

impl DeepView for BrowseReply {
    type V = BrowseReplyView;

    open spec fn deep_view(&self) -> BrowseReplyView {
        BrowseReplyView {
            flags: self.flags,
            interface_index: self.interface_index,
            error_code: self.error_code,
            name: cstr_text(value_bytes(self.service_name)),
            regtype: cstr_text(value_bytes(self.regtype)),
            domain: cstr_text(value_bytes(self.reply_domain)),
        }
    }
}

/// Reads a C string that may be a null pointer.
pub(crate) fn reply_text(p: &Option<Vec<u8>>) -> (text: String)
    ensures
        text@ == cstr_text(value_bytes(*p)),
{
    match p {
        Some(bytes) => cstr_to_string(Some(bytes.as_slice())),
        None => cstr_to_string(None),
    }
}

/// An instance to resolve, as the browse reply names it.
pub struct InstanceToResolve {
    /// The service instance name.
    pub name: String,
    /// The service type.
    pub regtype: String,
    /// The domain.
    pub domain: String,
    /// The interface number to resolve on; zero for all interfaces.
    pub interface: u32,
}

/// What a browse reply calls for.
pub enum BrowseAction {
    /// Nothing.
    Ignore,
    /// Resolve an instance that appeared.
    Resolve(InstanceToResolve),
    /// Deliver an event.
    Deliver(BrowseEvent),
    /// Deliver an error; the browse goes on.
    Report(ServiceBrowseError),
}

/// A browse action as plain values; an instance is its name, type, domain and
/// interface number.
pub enum BrowseActionView {
    Ignore,
    Resolve(Seq<char>, Seq<char>, Seq<char>, u32),
    Deliver(EventView),
    Report(ErrorView),
}

impl DeepView for BrowseAction {
    type V = BrowseActionView;

    open spec fn deep_view(&self) -> BrowseActionView {
        match self {
            BrowseAction::Ignore => BrowseActionView::Ignore,
            BrowseAction::Resolve(instance) => BrowseActionView::Resolve(
                instance.name@,
                instance.regtype@,
                instance.domain@,
                instance.interface,
            ),
            BrowseAction::Deliver(event) => BrowseActionView::Deliver(event.deep_view()),
            BrowseAction::Report(error) => BrowseActionView::Report(error.deep_view()),
        }
    }
}

/// What a browse reply calls for: an error is reported; a service type only
/// changes the state of the pump; an instance that appeared is resolved, and one
/// that went away is reported.
pub open spec fn browse_action(is_meta: bool, reply: BrowseReplyView) -> BrowseActionView {
    if reply.error_code != NO_ERROR {
        BrowseActionView::Report(
            ErrorView::BrowseFailed(
                status_message("browse callback error: "@, reply.error_code as int),
            ),
        )
    } else if is_meta {
        BrowseActionView::Ignore
    } else if has_flag(reply.flags, FLAGS_ADD) {
        BrowseActionView::Resolve(reply.name, reply.regtype, reply.domain, reply.interface_index)
    } else {
        BrowseActionView::Deliver(
            EventView::Removed(
                RemovedView {
                    name: reply.name,
                    service_type: trim_end_dots(reply.regtype),
                    domain: trim_end_dots(reply.domain),
                    interface_index: nonzero(reply.interface_index),
                },
            ),
        )
    }
}

/// The service type that a reply announces, if it does: a reply to the meta-query,
/// without an error, that adds something.
pub open spec fn announced_type(is_meta: bool, reply: BrowseReplyView) -> Option<TypeKey> {
    if is_meta && reply.error_code == NO_ERROR && has_flag(reply.flags, FLAGS_ADD) {
        Some(meta_reply(reply.name, reply.regtype, reply.domain))
    } else {
        None
    }
}

/// The state of a pump as plain values.
#[verifier::ext_equal]
pub struct PumpView {
    pub interface: u32,
    pub seen: Seq<TypeKey>,
    pub pending: Seq<TypeKey>,
}

/// The pump after a reply: a type that is new is noted, and waits for its browse.
pub open spec fn after_reply(pump: PumpView, is_meta: bool, reply: BrowseReplyView) -> PumpView {
    match announced_type(is_meta, reply) {
        Some(key) => if pump.seen.contains(key) {
            pump
        } else {
            PumpView { seen: pump.seen.push(key), pending: pump.pending.push(key), ..pump }
        },
        None => pump,
    }
}

/// The state shared by every browse operation that the pump drives.
///
/// Types that the meta-query discovered wait here until the pump starts a browse
/// for each. The callback cannot start them itself: it runs while the connection
/// is being dispatched on, and would re-enter it.
pub struct PumpState {
    interface: u32,
    seen: SeenTypes,
    pending: Vec<(String, String)>,
}

impl DeepView for PumpState {
    type V = PumpView;

    closed spec fn deep_view(&self) -> PumpView {
        PumpView {
            interface: self.interface,
            seen: self.seen.deep_view(),
            pending: self.pending.deep_view(),
        }
    }
}

impl PumpState {
    /// A pump on `interface` (zero for all) that has seen nothing yet.
    pub fn new(interface: u32) -> (pump: PumpState)
        ensures
            pump.deep_view() == (PumpView {
                interface,
                seen: Seq::empty(),
                pending: Seq::empty(),
            }),
    {
        let pump = PumpState { interface, seen: SeenTypes::new(), pending: Vec::new() };
        assert(pump.deep_view().pending =~= Seq::empty());
        pump
    }

    /// Takes a reply to the meta-query (`is_meta`) or to an instance browse, and
    /// decides what it calls for.
    pub fn browse_callback(&mut self, is_meta: bool, reply: BrowseReply) -> (action: BrowseAction)
        ensures
            final(self).deep_view() == after_reply(
                old(self).deep_view(),
                is_meta,
                reply.deep_view(),
            ),
            action.deep_view() == browse_action(is_meta, reply.deep_view()),
            reply.error_code != 0 ==> action is Report,
            reply.error_code == 0 && is_meta ==> action is Ignore,
            reply.error_code == 0 && !is_meta ==> {
                &&& action is Resolve <==> (reply.flags / 2) % 2 == 1
                &&& action is Deliver <==> (reply.flags / 2) % 2 == 0
            },
            action is Resolve ==> {
                &&& action->Resolve_0.interface == reply.interface_index
                &&& action->Resolve_0.name@ == cstr_text(value_bytes(reply.service_name))
                &&& action->Resolve_0.regtype@ == cstr_text(value_bytes(reply.regtype))
                &&& action->Resolve_0.domain@ == cstr_text(value_bytes(reply.reply_domain))
            },
    {
        proof {
            law_flag_bits(reply.flags);
        }
        if reply.error_code != NO_ERROR {
            return BrowseAction::Report(status_error("browse callback error: ", reply.error_code));
        }
        let name = reply_text(&reply.service_name);
        let regtype = reply_text(&reply.regtype);
        let domain = reply_text(&reply.reply_domain);
        let is_add = reply.flags & FLAGS_ADD != 0;
        if is_meta {
            if is_add {
                let (service_type, child_domain) = meta_reply_to_type_and_domain(
                    name.as_str(),
                    regtype.as_str(),
                    domain.as_str(),
                );
                if self.seen.insert(service_type.as_str(), child_domain.as_str()) {
                    self.pending.push((service_type, child_domain));
                    assert(self.pending.deep_view() =~= old(self).pending.deep_view().push(
                        (service_type@, child_domain@),
                    ));
                }
            }
            BrowseAction::Ignore
        } else if is_add {
            BrowseAction::Resolve(
                InstanceToResolve { name, regtype, domain, interface: reply.interface_index },
            )
        } else {
            BrowseAction::Deliver(
                BrowseEvent::Removed(
                    RemovedService {
                        name,
                        service_type: trim_dot(regtype.as_str()),
                        domain: trim_dot(domain.as_str()),
                        interface_index: NonZeroU32::new(reply.interface_index),
                    },
                ),
            )
        }
    }

    /// Takes the types that wait for a browse, and prepares the browse of each on
    /// `conn`.
    ///
    /// A type that cannot be browsed gives an error in its place: it is to be
    /// reported and skipped, so that one bad type does not take down the browse of
    /// the others.
    pub fn start_pending_browses(&mut self, conn: &SharedConnection) -> (starts: Vec<
        Result<NativeBrowse, ServiceBrowseError>,
    >)
        ensures
            final(self).deep_view() == (PumpView {
                pending: Seq::empty(),
                ..old(self).deep_view()
            }),
            starts.len() == old(self).deep_view().pending.len(),
            forall|i: int|
                #![trigger starts[i]]
                0 <= i < starts.len() ==> is_start_of(
                    starts[i],
                    conn.deep_view().shared,
                    old(self).deep_view().pending[i].0,
                    old(self).deep_view().pending[i].1,
                    old(self).deep_view().interface,
                ),
    {
        let mut pending: Vec<(String, String)> = Vec::new();
        std::mem::swap(&mut pending, &mut self.pending);
        assert(self.pending.deep_view() =~= Seq::empty());
        let ghost keys = old(self).deep_view().pending;
        let mut starts: Vec<Result<NativeBrowse, ServiceBrowseError>> = Vec::new();
        let mut i: usize = 0;
        while i < pending.len()
            invariant
                i <= pending.len(),
                starts.len() == i,
                keys == pending.deep_view(),
                forall|k: int|
                    #![trigger starts[k]]
                    0 <= k < i ==> is_start_of(
                        starts[k],
                        conn.deep_view().shared,
                        keys[k].0,
                        keys[k].1,
                        self.interface,
                    ),
            decreases pending.len() - i,
        {
            let pair = &pending[i];
            assert(keys[i as int] == (pair.0@, pair.1@));
            starts.push(conn.browse(pair.0.as_str(), pair.1.as_str(), self.interface));
            i = i + 1;
        }
        starts
    }
}

/// What happens to a pump: a reply arrives, or the waiting types are browsed.
pub enum PumpStep {
    Reply(bool, BrowseReplyView),
    StartPending,
}

/// The state of a pump after a run of steps, with the types that have left it to be
/// browsed, in order.
pub open spec fn pump_run(interface: u32, steps: Seq<PumpStep>) -> (PumpView, Seq<TypeKey>)
    decreases steps.len(),
{
    if steps.len() == 0 {
        (PumpView { interface, seen: Seq::empty(), pending: Seq::empty() }, Seq::empty())
    } else {
        let (pump, browsed) = pump_run(interface, steps.drop_last());
        match steps.last() {
            PumpStep::Reply(is_meta, reply) => (after_reply(pump, is_meta, reply), browsed),
            PumpStep::StartPending => (
                PumpView { pending: Seq::empty(), ..pump },
                browsed + pump.pending,
            ),
        }
    }
}

/// The types that a run of steps announces, repetitions included.
pub open spec fn announced(steps: Seq<PumpStep>) -> Seq<TypeKey>
    decreases steps.len(),
{
    if steps.len() == 0 {
        Seq::empty()
    } else {
        let before = announced(steps.drop_last());
        match steps.last() {
            PumpStep::Reply(is_meta, reply) => match announced_type(is_meta, reply) {
                Some(key) => before.push(key),
                None => before,
            },
            PumpStep::StartPending => before,
        }
    }
}

/// Over any run of replies, however they interleave with the start of the waiting
/// browses: what has been browsed, followed by what still waits, is what has been
/// announced, each type in each domain once and in the order of its first
/// announcement.
pub proof fn law_each_type_browsed_once(interface: u32, steps: Seq<PumpStep>)
    ensures
        ({
            let (pump, browsed) = pump_run(interface, steps);
            &&& pump.interface == interface
            &&& browsed + pump.pending == note_all(Seq::empty(), announced(steps))
            &&& pump.seen == browsed + pump.pending
            &&& (browsed + pump.pending).no_duplicates()
            &&& forall|key: TypeKey| #[trigger]
                (browsed + pump.pending).contains(key) <==> announced(steps).contains(key)
        }),
    decreases steps.len(),
{
    if steps.len() > 0 {
        let before = steps.drop_last();
        law_each_type_browsed_once(interface, before);
        let (pump, browsed) = pump_run(interface, before);
        let (after, browsed_after) = pump_run(interface, steps);
        match steps.last() {
            PumpStep::Reply(is_meta, reply) => {
                if let Some(key) = announced_type(is_meta, reply) {
                    assert(announced(steps).drop_last() =~= announced(before));
                    if !pump.seen.contains(key) {
                        assert(browsed + pump.pending.push(key) =~= (browsed + pump.pending).push(
                            key,
                        ));
                    }
                }
            },
            PumpStep::StartPending => {
                assert(browsed_after + after.pending =~= browsed + pump.pending);
            },
        }
    }
    law_noted_once(announced(steps));
}

/// `poll` reports that there is something to read.
pub const POLLIN: i16 = 0x1;

/// `poll` reports an error condition.
pub const POLLERR: i16 = 0x8;

/// `poll` reports that the other end hung up.
pub const POLLHUP: i16 = 0x10;

/// `poll` reports that the descriptor is not open.
pub const POLLNVAL: i16 = 0x20;

/// The error number of a call that a signal interrupted.
pub const EINTR: i32 = 4;

/// What the pump does after a `poll`.
pub enum PumpAction {
    /// Check the stop flag and poll again.
    Continue,
    /// Process one result, then start the browses that wait.
    Dispatch,
    /// End without an error: the daemon hung up.
    Stop,
    /// End with an error.
    Fail(ServiceBrowseError),
}

/// A pump action as plain values.
pub enum PumpActionView {
    Continue,
    Dispatch,
    Stop,
    Fail(ErrorView),
}

impl DeepView for PumpAction {
    type V = PumpActionView;

    open spec fn deep_view(&self) -> PumpActionView {
        match self {
            PumpAction::Continue => PumpActionView::Continue,
            PumpAction::Dispatch => PumpActionView::Dispatch,
            PumpAction::Stop => PumpActionView::Stop,
            PumpAction::Fail(error) => PumpActionView::Fail(error.deep_view()),
        }
    }
}

/// What the result of a `poll` calls for. An interrupted poll and a timeout are no
/// reason to end; data is read even where the daemon has hung up behind it.
pub open spec fn pump_action(
    rv: i32,
    revents: i16,
    errno: Option<i32>,
    reason: Seq<char>,
) -> PumpActionView {
    if rv < 0 {
        if errno == Some(EINTR) {
            PumpActionView::Continue
        } else {
            PumpActionView::Fail(ErrorView::BrowseFailed("poll failed: "@ + reason))
        }
    } else if rv == 0 {
        PumpActionView::Continue
    } else if revents & POLLIN != 0 {
        PumpActionView::Dispatch
    } else if revents & (POLLHUP | POLLERR | POLLNVAL) != 0 {
        PumpActionView::Stop
    } else {
        PumpActionView::Continue
    }
}

/// Decides what the pump does after a `poll` that returned `rv` and `revents`.
/// `errno` and `reason` are the number and the text of the error behind a negative
/// `rv`.
pub fn pump_loop(rv: i32, revents: i16, errno: Option<i32>, reason: &str) -> (action: PumpAction)
    ensures
        action.deep_view() == pump_action(rv, revents, errno, reason@),
        action is Dispatch <==> rv > 0 && revents & POLLIN != 0,
{
    if rv < 0 {
        let interrupted = match errno {
            Some(number) => number == EINTR,
            None => false,
        };
        if interrupted {
            return PumpAction::Continue;
        }
        return PumpAction::Fail(
            ServiceBrowseError::BrowseFailed(concat("poll failed: ", reason)),
        );
    }
    if rv == 0 {
        return PumpAction::Continue;
    }
    if revents & POLLIN != 0 {
        PumpAction::Dispatch
    } else if revents & (POLLHUP | POLLERR | POLLNVAL) != 0 {
        PumpAction::Stop
    } else {
        PumpAction::Continue
    }
}

/// The browse that is prepared is the one that was asked for, on the connection that
/// it was asked of; an empty domain is handed over as none. It is refused exactly if
/// the type, or a domain that would be handed over, holds a NUL, and under the name
/// of the first that does.
pub proof fn law_prepared_browse(
    start: Result<NativeBrowse, ServiceBrowseError>,
    parent: usize,
    regtype: Seq<char>,
    domain: Seq<char>,
    interface: u32,
)
    requires
        is_start_of(start, parent, regtype, domain, interface),
    ensures
        match start {
            Ok(request) => {
                &&& request.op.0 == parent
                &&& request.flags == 0x4000
                &&& request.interface == interface
                &&& request.service_type@ == regtype
                &&& request.regtype@ == encode_utf8(regtype)
                &&& request.domain is None <==> domain.len() == 0
                &&& request.domain is Some ==> request.domain->0@ == encode_utf8(domain)
            },
            Err(error) => {
                &&& error is ParameterContainsInteriorNulByte
                &&& error->ParameterContainsInteriorNulByte_0@ == if regtype.contains('\0') {
                    regtype
                } else {
                    domain
                }
            },
        },
        start is Err <==> regtype.contains('\0') || domain.contains('\0'),
{
    law_cstring_refuses_only_nul(regtype);
    law_cstring_refuses_only_nul(domain);
}

/// An instance reply without an error is resolved exactly if its add bit is set, and
/// reported as removed exactly if it is clear: under the name, type and domain that
/// it carries, on the interface that it is about.
pub proof fn law_instance_replies(reply: BrowseReplyView)
    requires
        reply.error_code == 0,
    ensures
        browse_action(false, reply) is Resolve <==> (reply.flags / 2) % 2 == 1,
        browse_action(false, reply) is Deliver <==> (reply.flags / 2) % 2 == 0,
        match browse_action(false, reply) {
            BrowseActionView::Resolve(name, regtype, domain, interface) => {
                &&& name == reply.name
                &&& regtype == reply.regtype
                &&& domain == reply.domain
                &&& interface == reply.interface_index
            },
            BrowseActionView::Deliver(EventView::Removed(service)) => {
                &&& service.name == reply.name
                &&& strips_dots(reply.regtype, service.service_type)
                &&& strips_dots(reply.domain, service.domain)
                &&& service.interface_index is None <==> reply.interface_index == 0
                &&& reply.interface_index != 0 ==> service.interface_index == Some(
                    reply.interface_index,
                )
            },
            _ => false,
        },
{
    law_flag_bits(reply.flags);
    law_trim_dot(reply.regtype);
    law_trim_dot(reply.domain);
}

/// Of the flags of a reply only the add bit counts, for instances and for types: two
/// replies that agree in it, and in all but the flags, have the same effect.
pub proof fn law_only_the_add_bit_counts(
    pump: PumpView,
    is_meta: bool,
    reply: BrowseReplyView,
    flags: u32,
)
    requires
        (reply.flags / 2) % 2 == (flags / 2) % 2,
    ensures
        browse_action(is_meta, BrowseReplyView { flags, ..reply }) == browse_action(
            is_meta,
            reply,
        ),
        after_reply(pump, is_meta, BrowseReplyView { flags, ..reply }) == after_reply(
            pump,
            is_meta,
            reply,
        ),
{
    law_flag_bits(reply.flags);
    law_flag_bits(flags);
}

/// A reply with an error is reported with its status, whatever else it holds, and
/// leaves the pump alone.
pub proof fn law_error_replies(pump: PumpView, is_meta: bool, reply: BrowseReplyView)
    requires
        reply.error_code != 0,
    ensures
        browse_action(is_meta, reply) == BrowseActionView::Report(
            ErrorView::BrowseFailed(
                "browse callback error: "@ + signed_decimal(reply.error_code as int),
            ),
        ),
        after_reply(pump, is_meta, reply) == pump,
{
}

/// A type that the meta-query adds waits for its browse if it is new, behind those
/// that wait already; nothing else changes the pump, and a reply to the meta-query
/// delivers nothing. The interface of the reply plays no part.
pub proof fn law_meta_replies(pump: PumpView, reply: BrowseReplyView)
    requires
        reply.error_code == 0,
    ensures
        ({
            let key = meta_reply(reply.name, reply.regtype, reply.domain);
            let after = after_reply(pump, true, reply);
            let adds = (reply.flags / 2) % 2 == 1;
            &&& adds && !pump.seen.contains(key) ==> {
                &&& after.pending == pump.pending.push(key)
                &&& after.seen == pump.seen.push(key)
            }
            &&& !adds || pump.seen.contains(key) ==> after == pump
            &&& after.interface == pump.interface
        }),
        browse_action(true, reply) is Ignore,
        after_reply(pump, false, reply) == pump,
{
    law_flag_bits(reply.flags);
}

/// Data to read is always dispatched, and nothing else is: the pump ends in peace
/// only without data, when the daemon is gone, and with an error only when polling
/// failed for another reason than a signal. In all other cases it goes on.
pub proof fn law_pump_action(rv: i32, revents: i16, errno: Option<i32>, reason: Seq<char>)
    ensures
        pump_action(rv, revents, errno, reason) is Dispatch <==> rv > 0 && revents & 0x1 != 0,
        pump_action(rv, revents, errno, reason) is Stop <==> rv > 0 && revents & 0x1 == 0 && (
        revents & 0x8 != 0 || revents & 0x10 != 0 || revents & 0x20 != 0),
        pump_action(rv, revents, errno, reason) is Fail <==> rv < 0 && errno != Some(4i32),
        pump_action(rv, revents, errno, reason) is Fail ==> pump_action(
            rv,
            revents,
            errno,
            reason,
        ) == PumpActionView::Fail(ErrorView::BrowseFailed("poll failed: "@ + reason)),
{
    assert(revents & (0x10i16 | 0x8i16 | 0x20i16) != 0 <==> revents & 0x8 != 0 || revents & 0x10
        != 0 || revents & 0x20 != 0) by (bit_vector);
}

} // verus!
