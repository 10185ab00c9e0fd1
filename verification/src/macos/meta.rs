//! Putting the replies to the service-type meta-query together again.

use vstd::prelude::*;
use vstd::string::*;

use crate::labels::{
    dotted, is_label, lemma_qualified_end, lemma_split_qualified, qualified, second_dot,
    split_type_and_domain, type_and_domain,
};
use crate::macos::native::{law_cstring_refuses_only_nul, nul_error};
use crate::seen::TypeKey;
use crate::text::{
    chars_of, concat, first_index, law_trim_dot, lemma_first_index_holds, lemma_trim_end_dots,
    lemma_trim_start_dots, strips_dots, trim_dot, trim_end_dots, trim_start, trim_start_dots,
};

verus! {

/// The service type that a meta-query reply was split from, put together again:
/// the three parts with a dot between them. A reply domain of nothing but dots is
/// the root and adds no labels.
pub open spec fn rejoined(
    name: Seq<char>,
    regtype: Seq<char>,
    reply_domain: Seq<char>,
) -> Seq<char> {
    let full = name + seq!['.'] + regtype;
    let suffix = trim_start_dots(reply_domain);
    if suffix.len() == 0 {
        full
    } else if full.last() == '.' {
        full + suffix
    } else {
        full + seq!['.'] + suffix
    }
}

/// The service type and domain that a meta-query reply describes.
pub open spec fn meta_reply(
    name: Seq<char>,
    regtype: Seq<char>,
    reply_domain: Seq<char>,
) -> TypeKey {
    type_and_domain(trim_end_dots(rejoined(name, regtype, reply_domain)))
}

/// Rebuilds the `(service_type, domain)` pair that a service-type meta-query reply
/// describes, so that it can be browsed as an ordinary type.
///
/// The meta-query (`_services._dns-sd._udp`) is answered with PTR records whose
/// target is a service type, e.g. `_http._tcp.local.`. mDNSResponder splits that
/// target as if it were a service *instance* name (first label as the instance,
/// the next two labels as the type, the remainder as the domain), so the reply
/// holds `_http`, `_tcp.local.` and `.`.
///
/// The reply domain is therefore the DNS root, not the domain that the type lives
/// in, and the domain has to be recovered from `regtype`: the three parts are
/// joined and split again on the real boundary.
///
/// An empty domain stands for the default browse domains, which is the right
/// fallback when the reply carried no domain at all.
pub fn meta_reply_to_type_and_domain(name: &str, regtype: &str, reply_domain: &str) -> (pair: (
    String,
    String,
))
    ensures
        (pair.0@, pair.1@) == meta_reply(name@, regtype@, reply_domain@),
{
    proof {
        reveal_strlit(".");
        assert("."@ =~= seq!['.']);
    }
    let mut full = concat(name, ".");
    full.append(regtype);
    let suffix = trim_start(reply_domain);
    let full_chars = chars_of(full.as_str());
    let suffix_chars = chars_of(suffix.as_str());
    if suffix_chars.len() > 0 {
        if full_chars[full_chars.len() - 1] != '.' {
            full.append(".");
        }
        full.append(suffix.as_str());
    }
    assert(full@ == rejoined(name@, regtype@, reply_domain@));
    let trimmed = trim_dot(full.as_str());
    match split_type_and_domain(trimmed.as_str()) {
        (service_type, Some(domain)) => (service_type, domain),
        (service_type, None) => {
            let domain = String::new();
            assert(domain@ =~= Seq::<char>::empty());
            (service_type, domain)
        },
    }
}

/// The type and the domain put together are the rejoined name without the dots at
/// its end, and neither part ends with a dot: a root domain is never browsed.
pub proof fn law_meta_reply_rejoins(
    name: Seq<char>,
    regtype: Seq<char>,
    reply_domain: Seq<char>,
)
    ensures
        ({
            let (service_type, domain) = meta_reply(name, regtype, reply_domain);
            let full = trim_end_dots(rejoined(name, regtype, reply_domain));
            &&& domain.len() == 0 ==> full == service_type
            &&& domain.len() > 0 ==> full == service_type + seq!['.'] + domain
            &&& domain.len() > 0 ==> domain.last() != '.'
        }),
{
    let full = trim_end_dots(rejoined(name, regtype, reply_domain));
    let (service_type, domain) = meta_reply(name, regtype, reply_domain);
    law_trim_dot(rejoined(name, regtype, reply_domain));
    let first = first_index(full, '.') as int;
    if first < full.len() {
        let rest = full.skip(first + 1);
        lemma_first_index_holds(rest, '.');
        let second = second_dot(full);
        if second < full.len() {
            assert(rest[second - first - 1] == full[second]);
            assert(full =~= service_type + seq!['.'] + domain);
            assert(second + 1 < full.len());
            assert(domain.last() == full.last());
        }
    }
}

/// A reply domain of nothing but dots is the root, and is treated as no domain.
pub proof fn law_meta_reply_ignores_root(
    name: Seq<char>,
    regtype: Seq<char>,
    reply_domain: Seq<char>,
)
    requires
        forall|i: int| 0 <= i < reply_domain.len() ==> reply_domain[i] == '.',
    ensures
        meta_reply(name, regtype, reply_domain) == meta_reply(name, regtype, Seq::empty()),
{
    lemma_trim_start_dots(reply_domain, reply_domain.len() as int);
}

/// What a meta-query reply describes can be handed back as a browse: text without
/// NUL characters gives a type and a domain without them, which are C strings.
pub proof fn law_meta_reply_is_browsable(
    name: Seq<char>,
    regtype: Seq<char>,
    reply_domain: Seq<char>,
)
    requires
        !name.contains('\0'),
        !regtype.contains('\0'),
        !reply_domain.contains('\0'),
    ensures
        !meta_reply(name, regtype, reply_domain).0.contains('\0'),
        !meta_reply(name, regtype, reply_domain).1.contains('\0'),
        nul_error(meta_reply(name, regtype, reply_domain).0) is None,
        nul_error(meta_reply(name, regtype, reply_domain).1) is None,
{
    let full = rejoined(name, regtype, reply_domain);
    let suffix = trim_start_dots(reply_domain);
    let trimmed = trim_end_dots(full);
    let (service_type, domain) = meta_reply(name, regtype, reply_domain);
    lemma_trim_start_is_suffix(reply_domain);
    law_trim_dot(full);
    law_meta_reply_rejoins(name, regtype, reply_domain);
    assert forall|i: int| 0 <= i < suffix.len() implies suffix[i] != '\0' by {
        assert(suffix[i] == reply_domain[i + reply_domain.len() - suffix.len()]);
    }
    assert forall|i: int| 0 <= i < full.len() implies full[i] != '\0' by {
        let joined = name + seq!['.'] + regtype;
        if i < joined.len() {
            assert(full[i] == joined[i]);
            if i < name.len() {
                assert(joined[i] == name[i]);
            } else if i > name.len() {
                assert(joined[i] == regtype[i - name.len() - 1]);
            }
        } else if joined.last() == '.' {
            assert(full[i] == suffix[i - joined.len()]);
        } else if i > joined.len() {
            assert(full[i] == suffix[i - joined.len() - 1]);
        }
    }
    assert forall|i: int| 0 <= i < service_type.len() implies service_type[i] != '\0' by {
        assert(service_type[i] == trimmed[i]);
        assert(trimmed[i] == full[i]);
    }
    assert forall|i: int| 0 <= i < domain.len() implies domain[i] != '\0' by {
        assert(domain[i] == trimmed[service_type.len() + 1 + i]);
        assert(trimmed[service_type.len() + 1 + i] == full[service_type.len() + 1 + i]);
    }
    law_cstring_refuses_only_nul(service_type);
    law_cstring_refuses_only_nul(domain);
}

/// Trimming at the start leaves a suffix.
proof fn lemma_trim_start_is_suffix(s: Seq<char>)
    ensures
        trim_start_dots(s).len() <= s.len(),
        trim_start_dots(s) == s.skip(s.len() - trim_start_dots(s).len()),
    decreases s.len(),
{
    if s.len() > 0 && s[0] == '.' {
        let rest = s.drop_first();
        lemma_trim_start_is_suffix(rest);
        let t = trim_start_dots(s);
        assert(t =~= s.skip(s.len() - t.len())) by {
            assert(rest.skip(rest.len() - t.len()) =~= s.skip(s.len() - t.len()));
        }
    } else {
        assert(s.skip(0) =~= s);
    }
}

/// The instance, type and domain that mDNSResponder reports for a name: the first
/// label, the next two labels, and the rest, which is the root when nothing is
/// left.
pub open spec fn deconstructed(labels: Seq<Seq<char>>) -> (Seq<char>, Seq<char>, Seq<char>) {
    let split = if labels.len() < 3 {
        labels.len() as int
    } else {
        3
    };
    (
        labels[0],
        qualified(labels.subrange(1, split)),
        if labels.len() > 3 {
            qualified(labels.skip(3))
        } else {
            seq!['.']
        },
    )
}

/// The type and the domain of a service type come back from the reply that
/// mDNSResponder makes of its name, for a domain of any number of labels: the
/// first two labels are the type, the rest is the domain.
pub proof fn law_meta_reply_recovers_type_and_domain(labels: Seq<Seq<char>>)
    requires
        labels.len() >= 2,
        forall|i: int| 0 <= i < labels.len() ==> is_label(#[trigger] labels[i]),
    ensures
        ({
            let (name, regtype, reply_domain) = deconstructed(labels);
            meta_reply(name, regtype, reply_domain) == (
                dotted(labels.take(2)),
                dotted(labels.skip(2)),
            )
        }),
{
    let (name, regtype, reply_domain) = deconstructed(labels);
    let full = qualified(labels);
    lemma_deconstructed_rejoins(labels);
    lemma_qualified_end(labels);
    lemma_trim_end_dots(full, full.len() - 1);
    assert(full.take(full.len() - 1) =~= full.drop_last());
    lemma_split_qualified(labels);
}

/// The three parts of a reply join to the name that they were split from.
proof fn lemma_deconstructed_rejoins(labels: Seq<Seq<char>>)
    requires
        labels.len() >= 2,
        forall|i: int| 0 <= i < labels.len() ==> is_label(#[trigger] labels[i]),
    ensures
        rejoined(deconstructed(labels).0, deconstructed(labels).1, deconstructed(labels).2)
            == qualified(labels),
{
    let (name, regtype, reply_domain) = deconstructed(labels);
    let a = labels[0];
    let b = labels[1];
    let tail = labels.drop_first();
    let none = Seq::<Seq<char>>::empty();
    assert(qualified(labels) == a + seq!['.'] + qualified(tail));
    assert(qualified(tail) == b + seq!['.'] + qualified(tail.drop_first()));
    assert(seq!['.'][0] == '.');
    if labels.len() == 2 {
        assert(labels.subrange(1, 2) =~= seq![b]);
        assert(seq![b].drop_first() =~= none);
        assert(tail.drop_first() =~= none);
        assert(regtype == b + seq!['.'] + qualified(none));
        lemma_trim_start_dots(reply_domain, 1);
        assert(rejoined(name, regtype, reply_domain) == a + seq!['.'] + regtype);
    } else {
        let c = labels[2];
        let rest = labels.skip(3);
        assert(labels.subrange(1, 3) =~= seq![b, c]);
        assert(seq![b, c].drop_first() =~= seq![c]);
        assert(seq![c].drop_first() =~= none);
        assert(qualified(seq![c]) == c + seq!['.'] + qualified(none));
        assert(regtype == b + seq!['.'] + qualified(seq![c]));
        assert(regtype.last() == '.');
        assert(tail.drop_first()[0] == c);
        assert(tail.drop_first().drop_first() =~= rest);
        let full = a + seq!['.'] + regtype;
        assert(full.last() == '.');
        assert(qualified(labels) =~= full + qualified(rest));
        if labels.len() > 3 {
            assert(is_label(labels[3]));
            assert(rest[0] == labels[3]);
            assert(reply_domain[0] == labels[3][0]);
            lemma_trim_start_dots(reply_domain, 0);
            assert(reply_domain.skip(0) =~= reply_domain);
        } else {
            lemma_trim_start_dots(reply_domain, 1);
            assert(rest =~= none);
        }
    }
}

/// Dots that only mark a name as fully qualified change nothing: one at the end of
/// the reply's type where none is, and any at the start or the end of the reply
/// domain.
pub proof fn law_meta_reply_ignores_qualifying_dots(
    name: Seq<char>,
    regtype: Seq<char>,
    reply_domain: Seq<char>,
)
    ensures
        regtype.len() > 0 && regtype.last() != '.' ==> meta_reply(
            name,
            regtype.push('.'),
            reply_domain,
        ) == meta_reply(name, regtype, reply_domain),
        meta_reply(name, regtype, seq!['.'] + reply_domain) == meta_reply(
            name,
            regtype,
            reply_domain,
        ),
        meta_reply(name, regtype, reply_domain.push('.')) == meta_reply(
            name,
            regtype,
            reply_domain,
        ),
{
    let full = name + seq!['.'] + regtype;
    let suffix = trim_start_dots(reply_domain);
    // A dot behind the type.
    if regtype.len() > 0 && regtype.last() != '.' {
        assert(full.last() == regtype.last());
        assert(name + seq!['.'] + regtype.push('.') =~= full.push('.'));
        assert(full.push('.').last() == '.');
        if suffix.len() == 0 {
            assert(full.push('.').drop_last() =~= full);
        } else {
            assert(full.push('.') + suffix =~= full + seq!['.'] + suffix);
        }
    }
    // A dot in front of the domain.
    assert((seq!['.'] + reply_domain).drop_first() =~= reply_domain);
    assert((seq!['.'] + reply_domain)[0] == '.');
    // A dot behind the domain.
    let longer = reply_domain.push('.');
    lemma_trim_start_push(reply_domain);
    if suffix.len() > 0 {
        let joined = rejoined(name, regtype, reply_domain);
        assert(rejoined(name, regtype, longer) =~= joined.push('.'));
        assert(joined.push('.').last() == '.');
        assert(joined.push('.').drop_last() =~= joined);
    }
}

/// A dot behind text of nothing but dots is trimmed with them; behind other text it
/// stays.
proof fn lemma_trim_start_push(s: Seq<char>)
    ensures
        trim_start_dots(s).len() == 0 ==> trim_start_dots(s.push('.')).len() == 0,
        trim_start_dots(s).len() > 0 ==> trim_start_dots(s.push('.')) == trim_start_dots(s).push(
            '.',
        ),
    decreases s.len(),
{
    reveal_with_fuel(trim_start_dots, 2);
    if s.len() == 0 {
        assert(s.push('.').drop_first() =~= Seq::empty());
    } else if s[0] == '.' {
        lemma_trim_start_push(s.drop_first());
        assert(s.push('.').drop_first() =~= s.drop_first().push('.'));
    }
}

/// Parts that already end and start where they should are joined as they stand:
/// nothing is lost and nothing added but the dot behind the name.
pub proof fn law_meta_reply_joins(name: Seq<char>, regtype: Seq<char>, reply_domain: Seq<char>)
    requires
        regtype.len() == 0 || regtype.last() == '.',
        reply_domain.len() == 0 || reply_domain[0] != '.',
    ensures
        exists|full: Seq<char>|
            strips_dots(name + seq!['.'] + regtype + reply_domain, full) && meta_reply(
                name,
                regtype,
                reply_domain,
            ) == #[trigger] type_and_domain(full),
{
    let joined = name + seq!['.'] + regtype + reply_domain;
    let head = name + seq!['.'] + regtype;
    lemma_trim_start_dots(reply_domain, 0);
    assert(reply_domain.skip(0) =~= reply_domain);
    assert(head.last() == '.');
    assert(rejoined(name, regtype, reply_domain) =~= joined);
    law_trim_dot(joined);
    assert(meta_reply(name, regtype, reply_domain) == type_and_domain(trim_end_dots(joined)));
}

} // verus!
