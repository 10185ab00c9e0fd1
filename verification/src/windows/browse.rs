//! Browsing: the meta-query cascade, and the names that its replies carry.

use vstd::hash_set::StringHashSet;
use vstd::prelude::*;
use vstd::string::*;

use crate::addr::{interface_number, interface_number_of, NonZeroU32};
use crate::browse::{ErrorView, ServiceBrowseError};
use crate::labels::{
    dotted, has_one_dot, is_label, law_type_and_domain, lemma_split_qualified, second_dot,
    split_type_and_domain, type_and_domain,
};
use crate::seen::{law_noted_once, lemma_note, note, note_all, TypeKey};
use crate::text::{
    concat, decimal, decimal_text, law_trim_dot, law_without_suffix,
    signed_decimal, signed_decimal_text, strip_suffix, strips_dots,
    trim_dot, trim_end_dots, without_suffix,
};
use crate::windows::resolve::{
    full_name, start_resolve, NativeResolve, NativeResolveView, ResolveContext,
    DNS_REQUEST_PENDING,
};
use crate::windows::wide::{
    encode_wide, pwstr_text, pwstr_to_string, wide_string, wide_string_error, wide_units,
};

verus! {

/// The DNS-SD meta-query used to enumerate all service types on the network.
pub const META_QUERY_TYPE: &'static str = "_services._dns-sd._udp";

/// Default browse domain when none is specified.
pub const DEFAULT_DOMAIN: &'static str = "local";

/// The type of a PTR record.
pub const DNS_TYPE_PTR: u16 = 12;

/// What a name of a service of this type in this domain ends with.
pub open spec fn name_suffix(service_type: Seq<char>, domain: Seq<char>) -> Seq<char> {
    seq!['.'] + service_type + seq!['.'] + domain
}

/// The instance label of a full name: what is left without the type and domain, or
/// all of it if it does not end with them.
pub open spec fn label_of(
    full: Seq<char>,
    service_type: Seq<char>,
    domain: Seq<char>,
) -> Seq<char> {
    match without_suffix(full, name_suffix(service_type, domain)) {
        Some(label) => label,
        None => full,
    }
}

/// Returns the instance label of a fully-qualified service name by stripping the
/// trailing `.<service_type>.<domain>` suffix.
pub fn instance_label(full: &str, service_type: &str, domain: &str) -> (label: String)
    ensures
        label@ == label_of(full@, service_type@, domain@),
{
    proof {
        reveal_strlit(".");
        assert("."@ =~= seq!['.']);
    }
    let mut suffix = concat(".", service_type);
    suffix.append(".");
    suffix.append(domain);
    match strip_suffix(full, suffix.as_str()) {
        Some(label) => label,
        None => full.to_owned(),
    }
}

/// The label comes back from the full name of an instance, whatever it holds.
pub proof fn law_instance_label(label: Seq<char>, service_type: Seq<char>, domain: Seq<char>)
    ensures
        label_of(label + name_suffix(service_type, domain), service_type, domain) == label,
{
    let suffix = name_suffix(service_type, domain);
    let full = label + suffix;
    assert(full.subrange(full.len() - suffix.len(), full.len() as int) =~= suffix);
    assert(full.take(full.len() - suffix.len()) =~= label);
}

/// A one-shot resolve asks for the full name that a browse would report for the
/// instance: the name comes back from it as the label.
pub proof fn law_full_name_has_label(
    name: Seq<char>,
    service_type: Seq<char>,
    domain: Seq<char>,
)
    ensures
        label_of(full_name(name, service_type, domain), service_type, domain) == name,
{
    law_instance_label(name, service_type, domain);
    assert(full_name(name, service_type, domain) =~= name + name_suffix(service_type, domain));
}

/// The type and domain of a service type's full name: its first two labels are the
/// type, what follows them is the domain. A name without a domain lies in the one
/// that is browsed.
pub open spec fn split_target(target: Seq<char>, browsed_domain: Seq<char>) -> TypeKey {
    if second_dot(target) < target.len() {
        type_and_domain(target)
    } else {
        (target, browsed_domain)
    }
}

/// Splits the full name of a service type.
fn split_type(target: &str, browsed_domain: &str) -> (pair: (String, String))
    ensures
        (pair.0@, pair.1@) == split_target(target@, browsed_domain@),
{
    match split_type_and_domain(target) {
        (service_type, Some(domain)) => (service_type, domain),
        (service_type, None) => (service_type, browsed_domain.to_owned()),
    }
}

/// The state of a browse as plain values.
#[verifier::ext_equal]
pub struct ContextView {
    pub is_meta: bool,
    pub interface: u32,
    pub service_type: Seq<char>,
    pub domain: Seq<char>,
    pub seen: Set<Seq<char>>,
}

/// The context of one browse operation. It remembers the names that it has handled
/// (instance names, or service types for the meta-query).
pub struct BrowseContext {
    is_meta: bool,
    interface: u32,
    service_type: String,
    domain: String,
    seen: StringHashSet,
}

impl DeepView for BrowseContext {
    type V = ContextView;

    closed spec fn deep_view(&self) -> ContextView {
        ContextView {
            is_meta: self.is_meta,
            interface: self.interface,
            service_type: self.service_type@,
            domain: self.domain@,
            seen: self.seen@,
        }
    }
}

/// The arguments of a `DnsServiceBrowse` call, and its context.
pub struct NativeBrowse {
    /// The name to query, NUL included.
    pub query_name: Vec<u16>,
    /// The interface number; zero for all interfaces.
    pub interface: u32,
    /// The context for the callback.
    pub context: BrowseContext,
}

/// A browse request as plain values.
#[verifier::ext_equal]
pub struct NativeBrowseView {
    pub query_name: Seq<u16>,
    pub interface: u32,
    pub context: ContextView,
}

impl DeepView for NativeBrowse {
    type V = NativeBrowseView;

    open spec fn deep_view(&self) -> NativeBrowseView {
        NativeBrowseView {
            query_name: self.query_name@,
            interface: self.interface,
            context: self.context.deep_view(),
        }
    }
}

/// The context of a browse that has handled nothing yet.
pub open spec fn fresh_context(
    service_type: Seq<char>,
    domain: Seq<char>,
    interface: u32,
    is_meta: bool,
) -> ContextView {
    ContextView { is_meta, interface, service_type, domain, seen: Set::empty() }
}

/// Prepares the `DnsServiceBrowse` call for a name. A name that is no wide string
/// gives the reason why there is none.
pub fn start_browse(
    query_name: &str,
    service_type: &str,
    domain: &str,
    interface: u32,
    is_meta: bool,
) -> (request: Result<NativeBrowse, String>)
    ensures
        match request {
            Ok(request) => {
                &&& wide_string(query_name@) is Some
                &&& request.deep_view() == (NativeBrowseView {
                    query_name: wide_string(query_name@)->0,
                    interface,
                    context: fresh_context(service_type@, domain@, interface, is_meta),
                })
                &&& request.query_name@ == wide_string(query_name@)->0
                &&& request.interface == interface
            },
            Err(reason) => {
                &&& wide_string(query_name@) is None
                &&& reason@ == wide_string_error(query_name@)
            },
        },
{
    match encode_wide(query_name) {
        Ok(query_name) => Ok(
            NativeBrowse {
                query_name,
                interface,
                context: BrowseContext {
                    is_meta,
                    interface,
                    service_type: service_type.to_owned(),
                    domain: domain.to_owned(),
                    seen: StringHashSet::new(),
                },
            },
        ),
        Err(reason) => Err(reason),
    }
}

/// Why a browse is not running, if it is not: it did not start, or it could not be
/// registered.
pub open spec fn start_failure(result: i32, poisoned: bool) -> Option<Seq<char>> {
    if result != DNS_REQUEST_PENDING {
        Some("DnsServiceBrowse failed with status "@ + signed_decimal(result as int))
    } else if poisoned {
        Some("browse registry poisoned"@)
    } else {
        None
    }
}

/// Takes the status of `DnsServiceBrowse`, and whether the registry of active
/// browses is `poisoned`. A root browse that is not running is an error.
pub fn browse_started(result: i32, poisoned: bool) -> (outcome: Result<(), ServiceBrowseError>)
    ensures
        match outcome {
            Ok(()) => start_failure(result, poisoned) is None,
            Err(error) => {
                &&& start_failure(result, poisoned) is Some
                &&& error.deep_view() == ErrorView::BrowseFailed(
                    start_failure(result, poisoned)->0,
                )
            },
        },
{
    if result != DNS_REQUEST_PENDING {
        Err(
            ServiceBrowseError::BrowseFailed(
                concat(
                    "DnsServiceBrowse failed with status ",
                    signed_decimal_text(result).as_str(),
                ),
            ),
        )
    } else if poisoned {
        Err(ServiceBrowseError::BrowseFailed("browse registry poisoned".to_owned()))
    } else {
        Ok(())
    }
}

/// The domain that a browse is in.
pub open spec fn browsed_domain(domain: Option<Seq<char>>) -> Seq<char> {
    match domain {
        Some(domain) => domain,
        None => DEFAULT_DOMAIN@,
    }
}

/// The type that a browse is for.
pub open spec fn root_type(service_type: Option<Seq<char>>) -> Seq<char> {
    match service_type {
        Some(service_type) => service_type,
        None => META_QUERY_TYPE@,
    }
}

/// The name that a browse queries: its type in its domain.
pub open spec fn root_query(service_type: Option<Seq<char>>, domain: Seq<char>) -> Seq<char> {
    root_type(service_type) + seq!['.'] + domain
}

/// Decides how a browse starts: with the type that was asked for, or with the
/// meta-query, in the domain that was asked for.
pub fn browse_start(
    service_type: &Option<String>,
    domain: &Option<String>,
    interface_index: Option<NonZeroU32>,
) -> (request: Result<NativeBrowse, ServiceBrowseError>)
    ensures
        ({
            let domain = browsed_domain(domain.deep_view());
            let query = root_query(service_type.deep_view(), domain);
            let interface = interface_number_of(interface_index.deep_view());
            match request {
                Ok(request) => {
                    &&& wide_string(query) is Some
                    &&& request.deep_view() == (NativeBrowseView {
                        query_name: wide_string(query)->0,
                        interface,
                        context: fresh_context(
                            root_type(service_type.deep_view()),
                            domain,
                            interface,
                            service_type is None,
                        ),
                    })
                },
                Err(error) => {
                    &&& wide_string(query) is None
                    &&& error.deep_view() == ErrorView::BrowseFailed(wide_string_error(query))
                },
            }
        }),
{
    let interface: u32 = interface_number(interface_index);
    let domain = match domain {
        Some(domain) => domain.clone(),
        None => DEFAULT_DOMAIN.to_owned(),
    };
    let (root_type, is_meta) = match service_type {
        Some(service_type) => (service_type.clone(), false),
        None => (META_QUERY_TYPE.to_owned(), true),
    };
    proof {
        reveal_strlit(".");
        assert("."@ =~= seq!['.']);
    }
    let mut query_name = concat(root_type.as_str(), ".");
    query_name.append(domain.as_str());
    let request = start_browse(
        query_name.as_str(),
        root_type.as_str(),
        domain.as_str(),
        interface,
        is_meta,
    );
    match request {
        Ok(request) => Ok(request),
        Err(reason) => Err(ServiceBrowseError::BrowseFailed(reason)),
    }
}

/// What a reply to a browse calls for.
pub enum BrowseAction {
    /// Nothing.
    Ignore,
    /// Deliver an error; the browse goes on.
    Report(ServiceBrowseError),
    /// Start a browse for the instances of a type. That it does not start is not
    /// reported.
    Browse(NativeBrowse),
    /// Resolve an instance.
    Resolve(NativeResolve),
}

/// A browse action as plain values.
#[verifier::ext_equal]
pub enum BrowseActionView {
    Ignore,
    Report(ErrorView),
    Browse(NativeBrowseView),
    Resolve(NativeResolveView),
}

impl DeepView for BrowseAction {
    type V = BrowseActionView;

    open spec fn deep_view(&self) -> BrowseActionView {
        match self {
            BrowseAction::Ignore => BrowseActionView::Ignore,
            BrowseAction::Report(error) => BrowseActionView::Report(error.deep_view()),
            BrowseAction::Browse(request) => BrowseActionView::Browse(request.deep_view()),
            BrowseAction::Resolve(request) => BrowseActionView::Resolve(request.deep_view()),
        }
    }
}

/// What a PTR target calls for: nothing if it was handled before or is no wide
/// string; a browse for a service type, on the interface of the meta-query; a
/// resolve for an instance, under its label.
pub open spec fn ptr_action(context: ContextView, target: Seq<char>) -> BrowseActionView {
    match wide_string(target) {
        None => BrowseActionView::Ignore,
        Some(query_name) => if context.seen.contains(target) {
            BrowseActionView::Ignore
        } else if context.is_meta {
            let (service_type, domain) = split_target(target, context.domain);
            BrowseActionView::Browse(
                NativeBrowseView {
                    query_name,
                    interface: context.interface,
                    context: fresh_context(service_type, domain, context.interface, false),
                },
            )
        } else {
            BrowseActionView::Resolve(
                NativeResolveView {
                    query_name,
                    interface: context.interface,
                    name: label_of(target, context.service_type, context.domain),
                    service_type: context.service_type,
                    domain: context.domain,
                },
            )
        },
    }
}

/// A context after a run of targets.
pub open spec fn after_targets(context: ContextView, targets: Seq<Seq<char>>) -> ContextView
    decreases targets.len(),
{
    if targets.len() == 0 {
        context
    } else {
        let before = after_targets(context, targets.drop_last());
        ContextView { seen: before.seen.insert(targets.last()), ..before }
    }
}

/// What a run of targets calls for, one by one.
pub open spec fn ptr_actions(context: ContextView, targets: Seq<Seq<char>>) -> Seq<BrowseActionView>
    decreases targets.len(),
{
    if targets.len() == 0 {
        Seq::empty()
    } else {
        let before = targets.drop_last();
        ptr_actions(context, before).push(
            ptr_action(after_targets(context, before), targets.last()),
        )
    }
}

/// A DNS record as the browse callback gets it. The target of a PTR record is a
/// wide string without its NUL, and `None` for a null pointer; that of another
/// record is not read.
pub struct DnsRecord {
    /// The record's type.
    pub record_type: u16,
    /// The target.
    pub target: Option<Vec<u16>>,
}

/// The targets of the PTR records, in order, without the dots at their ends.
pub open spec fn ptr_targets(records: Seq<DnsRecord>) -> Seq<Seq<char>>
    decreases records.len(),
{
    if records.len() == 0 {
        Seq::empty()
    } else {
        let before = ptr_targets(records.drop_last());
        if records.last().record_type == DNS_TYPE_PTR {
            before.push(trim_end_dots(pwstr_text(wide_units(records.last().target))))
        } else {
            before
        }
    }
}

/// The errors that a callback status calls for: none for zero.
pub open spec fn status_reports(status: u32) -> Seq<BrowseActionView> {
    if status != 0 {
        seq![
            BrowseActionView::Report(
                ErrorView::BrowseFailed("browse callback status "@ + decimal(status as nat)),
            ),
        ]
    } else {
        Seq::empty()
    }
}

impl BrowseContext {
    /// Decides what a PTR target calls for, and remembers it.
    pub fn handle_ptr(&mut self, target: String) -> (action: BrowseAction)
        ensures
            final(self).deep_view() == (ContextView {
                seen: old(self).deep_view().seen.insert(target@),
                ..old(self).deep_view()
            }),
            action.deep_view() == ptr_action(old(self).deep_view(), target@),
    {
        if !self.seen.insert(target.clone()) {
            return BrowseAction::Ignore;
        }
        if self.is_meta {
            let (service_type, domain) = split_type(target.as_str(), self.domain.as_str());
            match start_browse(
                target.as_str(),
                service_type.as_str(),
                domain.as_str(),
                self.interface,
                false,
            ) {
                Ok(request) => BrowseAction::Browse(request),
                Err(_) => BrowseAction::Ignore,
            }
        } else {
            let context = ResolveContext {
                name: instance_label(
                    target.as_str(),
                    self.service_type.as_str(),
                    self.domain.as_str(),
                ),
                service_type: self.service_type.clone(),
                domain: self.domain.clone(),
            };
            match start_resolve(target.as_str(), self.interface, context) {
                Some(request) => BrowseAction::Resolve(request),
                None => BrowseAction::Ignore,
            }
        }
    }

    /// Takes a callback's status and records, and decides what they call for, in
    /// order: the error for a status other than zero, then what each PTR record
    /// calls for. The records count whatever the status is.
    pub fn browse_callback(&mut self, status: u32, records: Vec<DnsRecord>) -> (actions: Vec<
        BrowseAction,
    >)
        ensures
            final(self).deep_view() == after_targets(
                old(self).deep_view(),
                ptr_targets(records@),
            ),
            actions.deep_view() == status_reports(status) + ptr_actions(
                old(self).deep_view(),
                ptr_targets(records@),
            ),
    {
        let ghost context = self.deep_view();
        let mut actions: Vec<BrowseAction> = Vec::new();
        if status != 0 {
            actions.push(
                BrowseAction::Report(
                    ServiceBrowseError::BrowseFailed(
                        concat("browse callback status ", decimal_text(status as u64).as_str()),
                    ),
                ),
            );
        }
        assert(actions.deep_view() =~= status_reports(status));
        let ghost none = records@.take(0);
        assert(ptr_targets(none) =~= Seq::empty());
        assert(status_reports(status) + ptr_actions(context, ptr_targets(none))
            =~= status_reports(status));
        let mut i: usize = 0;
        while i < records.len()
            invariant
                i <= records.len(),
                self.deep_view() == after_targets(context, ptr_targets(records@.take(i as int))),
                actions.deep_view() == status_reports(status) + ptr_actions(
                    context,
                    ptr_targets(records@.take(i as int)),
                ),
            decreases records.len() - i,
        {
            let record = &records[i];
            let ghost done = records@.take(i as int);
            let ghost next = records@.take(i + 1);
            assert(next.drop_last() =~= done);
            assert(next.last() == record);
            if record.record_type == DNS_TYPE_PTR {
                let target = trim_dot(pwstr_to_string(&record.target).as_str());
                let ghost before = actions.deep_view();
                let action = self.handle_ptr(target);
                actions.push(action);
                assert(ptr_targets(next).drop_last() =~= ptr_targets(done));
                assert(actions.deep_view() =~= before.push(action.deep_view()));
                assert(actions.deep_view() =~= status_reports(status) + ptr_actions(
                    context,
                    ptr_targets(next),
                ));
            }
            i = i + 1;
        }
        assert(records@.take(i as int) =~= records@);
        actions
    }
}

/// A service type that the meta-query reports is browsed under its own full name:
/// its type and domain, joined, are that name. Without a domain of its own it is
/// browsed as a type of the domain that the meta-query is in.
pub proof fn law_split_target_rejoins(target: Seq<char>, browsed_domain: Seq<char>)
    ensures
        ({
            let (service_type, domain) = split_target(target, browsed_domain);
            if second_dot(target) < target.len() {
                &&& service_type + seq!['.'] + domain == target
                &&& has_one_dot(service_type)
            } else {
                service_type == target && domain == browsed_domain
            }
        }),
{
    law_type_and_domain(target);
}

/// The service type is the service and the transport, and the domain all the labels
/// behind them, however many there are.
pub proof fn law_split_target_recovers_type_and_domain(
    labels: Seq<Seq<char>>,
    browsed_domain: Seq<char>,
)
    requires
        labels.len() >= 2,
        forall|i: int| 0 <= i < labels.len() ==> is_label(#[trigger] labels[i]),
    ensures
        split_target(dotted(labels), browsed_domain) == (
            dotted(labels.take(2)),
            if labels.len() > 2 {
                dotted(labels.skip(2))
            } else {
                browsed_domain
            },
        ),
{
    lemma_split_qualified(labels);
    assert(labels.len() == 2 ==> labels.take(2) =~= labels);
}

/// The instances of a type that the meta-query reported with its domain are resolved
/// under their own labels: the browse of the type strips exactly the type's full
/// name.
pub proof fn law_cascade_recovers_label(
    label: Seq<char>,
    target: Seq<char>,
    browsed_domain: Seq<char>,
)
    requires
        second_dot(target) < target.len(),
    ensures
        ({
            let (service_type, domain) = split_target(target, browsed_domain);
            label_of(label + seq!['.'] + target, service_type, domain) == label
        }),
{
    let (service_type, domain) = split_target(target, browsed_domain);
    law_split_target_rejoins(target, browsed_domain);
    law_instance_label(label, service_type, domain);
    assert(label + seq!['.'] + target =~= label + name_suffix(service_type, domain));
}

/// The targets of a run that something is started for, in order.
pub open spec fn started(context: ContextView, targets: Seq<Seq<char>>) -> Seq<Seq<char>>
    decreases targets.len(),
{
    if targets.len() == 0 {
        Seq::empty()
    } else {
        let before = targets.drop_last();
        match ptr_action(after_targets(context, before), targets.last()) {
            BrowseActionView::Ignore => started(context, before),
            _ => started(context, before).push(targets.last()),
        }
    }
}

/// Whether a target can be queried for.
pub open spec fn is_wide(target: Seq<char>) -> bool {
    wide_string(target) is Some
}

/// However often a target is reported to a browse that starts fresh: something is
/// started for it once, provided that it is a wide string, and never otherwise, and
/// in the order in which the targets were first reported.
pub proof fn law_each_target_handled_once(context: ContextView, targets: Seq<Seq<char>>)
    requires
        context.seen == Set::<Seq<char>>::empty(),
    ensures
        started(context, targets) == note_all(
            Seq::empty(),
            targets.filter(|target: Seq<char>| is_wide(target)),
        ),
        started(context, targets).no_duplicates(),
        forall|target: Seq<char>| #[trigger]
            started(context, targets).contains(target) <==> targets.contains(target) && is_wide(
                target,
            ),
    decreases targets.len(),
{
    let wide = |target: Seq<char>| is_wide(target);
    reveal(Seq::filter);
    if targets.len() > 0 {
        let before = targets.drop_last();
        let last = targets.last();
        law_each_target_handled_once(context, before);
        lemma_seen_targets(context, before);
        let old_started = started(context, before);
        assert(after_targets(context, before).seen.contains(last) <==> before.contains(last));
        assert(old_started.contains(last) <==> before.contains(last) && is_wide(last));
        if is_wide(last) {
            assert(targets.filter(wide) == before.filter(wide).push(last));
            assert(targets.filter(wide).drop_last() =~= before.filter(wide));
        }
        assert forall|target: Seq<char>| #[trigger]
            started(context, targets).contains(target) <==> targets.contains(target) && is_wide(
                target,
            ) by {
            lemma_contains_last(targets, target);
            assert(old_started.contains(target) <==> before.contains(target) && is_wide(target));
            lemma_note(old_started, last);
            assert(note(old_started, last).contains(target) <==> old_started.contains(target)
                || target == last);
        }
        law_noted_once(targets.filter(wide));
    }
}

/// Callbacks add up: two runs of targets, one callback after the other, leave the
/// same context and call for the same as all the targets in one callback. So what
/// holds of a run of targets holds however the callbacks divide it.
pub proof fn law_callbacks_compose(
    context: ContextView,
    first: Seq<Seq<char>>,
    second: Seq<Seq<char>>,
)
    ensures
        after_targets(after_targets(context, first), second) == after_targets(
            context,
            first + second,
        ),
        ptr_actions(context, first + second) == ptr_actions(context, first) + ptr_actions(
            after_targets(context, first),
            second,
        ),
        started(context, first + second) == started(context, first) + started(
            after_targets(context, first),
            second,
        ),
    decreases second.len(),
{
    let middle = after_targets(context, first);
    if second.len() == 0 {
        assert(first + second =~= first);
        assert(ptr_actions(context, first) + ptr_actions(middle, second) =~= ptr_actions(
            context,
            first,
        ));
        assert(started(context, first) + started(middle, second) =~= started(context, first));
    } else {
        let before = second.drop_last();
        law_callbacks_compose(context, first, before);
        assert((first + second).drop_last() =~= first + before);
        assert((first + second).last() == second.last());
        assert(ptr_actions(context, first + second) =~= ptr_actions(context, first)
            + ptr_actions(middle, second));
        assert(started(context, first + second) =~= started(context, first) + started(
            middle,
            second,
        ));
    }
}

/// What is in a sequence is in what comes before its last item, or is that item.
proof fn lemma_contains_last<T>(s: Seq<T>, x: T)
    requires
        s.len() > 0,
    ensures
        s.contains(x) <==> s.drop_last().contains(x) || x == s.last(),
{
    if s.contains(x) && x != s.last() {
        let k = choose|k: int| 0 <= k < s.len() && s[k] == x;
        assert(s.drop_last()[k] == x);
    }
    if s.drop_last().contains(x) {
        let k = choose|k: int| 0 <= k < s.drop_last().len() && s.drop_last()[k] == x;
        assert(s[k] == x);
    }
    assert(s[s.len() - 1] == s.last());
}

/// A context remembers the targets that it was given, and nothing else changes.
proof fn lemma_seen_targets(context: ContextView, targets: Seq<Seq<char>>)
    requires
        context.seen == Set::<Seq<char>>::empty(),
    ensures
        forall|target: Seq<char>| #[trigger]
            after_targets(context, targets).seen.contains(target) <==> targets.contains(target),
    decreases targets.len(),
{
    if targets.len() > 0 {
        lemma_seen_targets(context, targets.drop_last());
        assert forall|target: Seq<char>| #[trigger]
            after_targets(context, targets).seen.contains(target) <==> targets.contains(
                target,
            ) by {
            lemma_contains_last(targets, target);
            let before = after_targets(context, targets.drop_last()).seen;
            assert(before.contains(target) <==> targets.drop_last().contains(target));
        }
    }
}

/// The label of a name that does not end with the type and the domain is all of it;
/// of one that does, what comes in front of the dot before them.
pub proof fn law_label_is_what_is_in_front(
    full: Seq<char>,
    service_type: Seq<char>,
    domain: Seq<char>,
)
    ensures
        ({
            let label = label_of(full, service_type, domain);
            ||| label + seq!['.'] + service_type + seq!['.'] + domain == full
            ||| label == full && forall|front: Seq<char>|
                #[trigger] (front + (seq!['.'] + service_type + seq!['.'] + domain)) != full
        }),
        forall|label: Seq<char>|
            #[trigger] label_of(
                label + (seq!['.'] + service_type + seq!['.'] + domain),
                service_type,
                domain,
            ) == label,
        label_of(
            full_name(full, service_type, domain),
            service_type,
            domain,
        ) == full,
        full_name(full, service_type, domain) == full + seq!['.'] + service_type + seq!['.']
            + domain,
{
    let suffix = seq!['.'] + service_type + seq!['.'] + domain;
    let label = label_of(full, service_type, domain);
    law_without_suffix(full, suffix);
    if without_suffix(full, suffix) is Some {
        assert(label + seq!['.'] + service_type + seq!['.'] + domain =~= label + suffix);
    }
    assert forall|label: Seq<char>|
        #[trigger] label_of(label + suffix, service_type, domain) == label by {
        law_instance_label(label, service_type, domain);
    }
    law_full_name_has_label(full, service_type, domain);
}

/// A browse queries for its type in its domain: the one that was asked for, or else
/// the meta-query and `local`.
pub proof fn law_root_query(service_type: Seq<char>, domain: Seq<char>)
    ensures
        root_query(Some(service_type), domain) == service_type + seq!['.'] + domain,
        root_query(None, domain) == "_services._dns-sd._udp"@ + seq!['.'] + domain,
        root_type(Some(service_type)) == service_type,
        root_type(None) == "_services._dns-sd._udp"@,
        browsed_domain(Some(domain)) == domain,
        browsed_domain(None) == "local"@,
{
}

/// A browse runs exactly if its request is pending and it could be registered.
pub proof fn law_start_failure(result: i32, poisoned: bool)
    ensures
        start_failure(result, poisoned) is None <==> result == 9506 && !poisoned,
        result != 9506 ==> start_failure(result, poisoned) == Some(
            "DnsServiceBrowse failed with status "@ + signed_decimal(result as int),
        ),
        result == 9506 && poisoned ==> start_failure(result, poisoned) == Some(
            "browse registry poisoned"@,
        ),
{
}

/// A target is handled exactly if it is new and can be queried for. The meta-query
/// then browses the target's own name, as an instance browse that has handled
/// nothing; an instance browse resolves it under its label, as of the browse's own
/// type and domain. Both stay on the interface of the browse.
pub proof fn law_ptr_action(context: ContextView, target: Seq<char>)
    ensures
        ptr_action(context, target) is Ignore <==> context.seen.contains(target) || wide_string(
            target,
        ) is None,
        !(ptr_action(context, target) is Report),
        ptr_action(context, target) is Browse ==> context.is_meta,
        ptr_action(context, target) is Resolve ==> !context.is_meta,
        match ptr_action(context, target) {
            BrowseActionView::Browse(request) => {
                &&& Some(request.query_name) == wide_string(target)
                &&& request.interface == context.interface
                &&& request.context.interface == context.interface
                &&& !request.context.is_meta
                &&& request.context.seen == Set::<Seq<char>>::empty()
                &&& (request.context.service_type, request.context.domain) == split_target(
                    target,
                    context.domain,
                )
            },
            BrowseActionView::Resolve(request) => {
                &&& Some(request.query_name) == wide_string(target)
                &&& request.interface == context.interface
                &&& request.name == label_of(target, context.service_type, context.domain)
                &&& request.service_type == context.service_type
                &&& request.domain == context.domain
            },
            _ => true,
        },
{
}

/// Targets change nothing of a browse but what it has handled, and each run calls for
/// one action for each of its targets.
pub proof fn law_targets_are_remembered(context: ContextView, targets: Seq<Seq<char>>)
    ensures
        after_targets(context, targets) == (ContextView {
            seen: after_targets(context, targets).seen,
            ..context
        }),
        forall|target: Seq<char>| #[trigger]
            after_targets(context, targets).seen.contains(target) <==> context.seen.contains(
                target,
            ) || targets.contains(target),
        ptr_actions(context, targets).len() == targets.len(),
        forall|i: int|
            0 <= i < targets.len() ==> #[trigger] ptr_actions(context, targets)[i] == ptr_action(
                after_targets(context, targets.take(i)),
                targets[i],
            ),
    decreases targets.len(),
{
    if targets.len() > 0 {
        let before = targets.drop_last();
        law_targets_are_remembered(context, before);
        assert forall|target: Seq<char>| #[trigger]
            after_targets(context, targets).seen.contains(target) <==> context.seen.contains(
                target,
            ) || targets.contains(target) by {
            lemma_contains_last(targets, target);
            assert(after_targets(context, before).seen.contains(target) <==> context.seen.contains(
                target,
            ) || before.contains(target));
        }
        assert forall|i: int| 0 <= i < targets.len() implies #[trigger] ptr_actions(
            context,
            targets,
        )[i] == ptr_action(after_targets(context, targets.take(i)), targets[i]) by {
            if i < before.len() {
                assert(ptr_actions(context, before)[i] == ptr_actions(context, targets)[i]);
                assert(before.take(i) =~= targets.take(i));
            } else {
                assert(targets.take(i) =~= before);
            }
        }
    } else {
        assert(after_targets(context, targets).seen == context.seen);
    }
}

/// The targets are those of the PTR records, one for each and in order, without the
/// dots at their ends; other records have none.
pub proof fn law_ptr_targets(records: Seq<DnsRecord>, record: DnsRecord)
    ensures
        ptr_targets(Seq::empty()).len() == 0,
        record.record_type != 12 ==> ptr_targets(records.push(record)) == ptr_targets(records),
        record.record_type == 12 ==> {
            let after = ptr_targets(records.push(record));
            &&& after.len() == ptr_targets(records).len() + 1
            &&& after.drop_last() == ptr_targets(records)
            &&& strips_dots(pwstr_text(wide_units(record.target)), after.last())
        },
{
    let all = records.push(record);
    assert(all.drop_last() =~= records);
    assert(all.last() == record);
    law_trim_dot(pwstr_text(wide_units(record.target)));
    if record.record_type == 12 {
        assert(ptr_targets(all).drop_last() =~= ptr_targets(records));
    }
}

/// A status other than zero is reported once, with its number; zero is not.
pub proof fn law_status_reports(status: u32)
    ensures
        status == 0 ==> status_reports(status).len() == 0,
        status != 0 ==> status_reports(status) == seq![
            BrowseActionView::Report(
                ErrorView::BrowseFailed("browse callback status "@ + decimal(status as nat)),
            ),
        ],
{
}

/// A new browse has handled nothing, and is what it was made for.
pub proof fn law_fresh_context(
    service_type: Seq<char>,
    domain: Seq<char>,
    interface: u32,
    is_meta: bool,
    target: Seq<char>,
)
    ensures
        !fresh_context(service_type, domain, interface, is_meta).seen.contains(target),
        fresh_context(service_type, domain, interface, is_meta).service_type == service_type,
        fresh_context(service_type, domain, interface, is_meta).domain == domain,
        fresh_context(service_type, domain, interface, is_meta).interface == interface,
        fresh_context(service_type, domain, interface, is_meta).is_meta == is_meta,
{
}

} // verus!
