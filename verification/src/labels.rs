//! Names as labels: where the service type ends and the domain begins.

use vstd::prelude::*;
use vstd::string::*;

use crate::seen::TypeKey;
use crate::text::{chars_of, find_char, first_index, lemma_first_index, lemma_first_index_holds};

verus! {

/// Where the second dot of `s` is, or the length of `s` with fewer than two.
pub open spec fn second_dot(s: Seq<char>) -> int {
    let first = first_index(s, '.') as int;
    if first >= s.len() {
        s.len() as int
    } else {
        first + 1 + first_index(s.skip(first + 1), '.')
    }
}

/// Splits a name on the DNS-SD boundary: the first two labels are the service
/// type, what follows them is the domain.
pub open spec fn type_and_domain(s: Seq<char>) -> TypeKey {
    if second_dot(s) < s.len() {
        (s.take(second_dot(s)), s.skip(second_dot(s) + 1))
    } else {
        (s, Seq::empty())
    }
}

/// Splits a name behind its first two labels into the service type and the domain,
/// if there is one.
pub fn split_type_and_domain(name: &str) -> (parts: (String, Option<String>))
    ensures
        parts.0@ == type_and_domain(name@).0,
        match parts.1 {
            Some(domain) => second_dot(name@) < name@.len() && domain@ == type_and_domain(
                name@,
            ).1,
            None => second_dot(name@) >= name@.len(),
        },
{
    let chars = chars_of(name);
    let first: usize = find_char(&chars, '.', 0);
    assert(chars@.skip(0) =~= chars@);
    if first < chars.len() {
        let second: usize = find_char(&chars, '.', first + 1);
        if second < chars.len() {
            assert(chars@.take(second as int) =~= chars@.subrange(0, second as int));
            assert(chars@.skip(second + 1) =~= chars@.subrange(
                second + 1,
                chars@.len() as int,
            ));
            return (
                name.substring_char(0, second).to_owned(),
                Some(name.substring_char(second + 1, chars.len()).to_owned()),
            );
        }
    }
    (name.to_owned(), None)
}

/// A DNS label: not empty, and without a dot.
pub open spec fn is_label(label: Seq<char>) -> bool {
    label.len() > 0 && !label.contains('.')
}

/// A fully qualified name: every label with a dot behind it.
pub open spec fn qualified(labels: Seq<Seq<char>>) -> Seq<char>
    decreases labels.len(),
{
    if labels.len() == 0 {
        Seq::empty()
    } else {
        labels[0] + seq!['.'] + qualified(labels.drop_first())
    }
}

/// The labels with a dot between them.
pub open spec fn dotted(labels: Seq<Seq<char>>) -> Seq<char> {
    if labels.len() == 0 {
        Seq::empty()
    } else {
        qualified(labels).drop_last()
    }
}

/// Text of two labels, alone or in front of a dot and more, splits behind them.
pub proof fn lemma_split_after_two(a: Seq<char>, b: Seq<char>, domain: Seq<char>)
    requires
        is_label(a),
        is_label(b),
    ensures
        type_and_domain(a + seq!['.'] + b) == (a + seq!['.'] + b, Seq::<char>::empty()),
        type_and_domain(a + seq!['.'] + b + seq!['.'] + domain) == (a + seq!['.'] + b, domain),
        second_dot(a + seq!['.'] + b) == (a + seq!['.'] + b).len(),
        second_dot(a + seq!['.'] + b + seq!['.'] + domain) == (a + seq!['.'] + b).len(),
{
    let head = a + seq!['.'] + b;
    let name = head + seq!['.'] + domain;
    lemma_first_index(head, '.', a.len() as int);
    assert(head.skip(a.len() + 1int) =~= b);
    lemma_first_index(b, '.', b.len() as int);
    assert forall|j: int| 0 <= j < a.len() implies name[j] != '.' by {
        assert(name[j] == a[j]);
    }
    lemma_first_index(name, '.', a.len() as int);
    let after = name.skip(a.len() + 1int);
    assert(after =~= b + seq!['.'] + domain);
    lemma_first_index(after, '.', b.len() as int);
    assert(name.take(head.len() as int) =~= head);
    assert(name.skip(head.len() + 1int) =~= domain);
}

/// A name without its last dot splits into its first two labels and the others.
pub proof fn lemma_split_qualified(labels: Seq<Seq<char>>)
    requires
        labels.len() >= 2,
        forall|i: int| 0 <= i < labels.len() ==> is_label(#[trigger] labels[i]),
    ensures
        type_and_domain(qualified(labels).drop_last()) == (
            dotted(labels.take(2)),
            dotted(labels.skip(2)),
        ),
        second_dot(qualified(labels).drop_last()) < qualified(labels).drop_last().len()
            <==> labels.len() > 2,
{
    let a = labels[0];
    let b = labels[1];
    let rest = labels.skip(2);
    let tail = labels.drop_first();
    let none = Seq::<Seq<char>>::empty();
    let head = a + seq!['.'] + b;
    assert(is_label(a) && is_label(b));
    assert(tail.drop_first() =~= rest);
    assert(qualified(tail) == b + seq!['.'] + qualified(rest));
    assert(qualified(labels) =~= head + seq!['.'] + qualified(rest));
    assert(labels.take(2) =~= seq![a, b]);
    assert(seq![a, b].drop_first() =~= seq![b]);
    assert(seq![b].drop_first() =~= none);
    assert(qualified(seq![b]) == b + seq!['.'] + qualified(none));
    assert(qualified(seq![a, b]) == a + seq!['.'] + qualified(seq![b]));
    assert(dotted(labels.take(2)) =~= head);
    lemma_split_after_two(a, b, dotted(rest));
    if rest.len() == 0 {
        assert(qualified(labels).drop_last() =~= head);
    } else {
        lemma_qualified_end(rest);
        assert(qualified(labels).drop_last() =~= head + seq!['.'] + dotted(rest));
    }
}

/// A qualified name ends with one dot.
pub proof fn lemma_qualified_end(labels: Seq<Seq<char>>)
    requires
        labels.len() > 0,
        forall|i: int| 0 <= i < labels.len() ==> is_label(#[trigger] labels[i]),
    ensures
        qualified(labels).len() >= 2,
        qualified(labels).last() == '.',
        qualified(labels)[qualified(labels).len() - 2] != '.',
    decreases labels.len(),
{
    let rest = labels.drop_first();
    assert(is_label(labels[0]));
    if rest.len() > 0 {
        assert forall|i: int| 0 <= i < rest.len() implies is_label(#[trigger] rest[i]) by {
            assert(rest[i] == labels[i + 1]);
        }
        lemma_qualified_end(rest);
    } else {
        assert(labels[0].last() != '.');
        assert(qualified(labels) =~= labels[0] + seq!['.']);
    }
}

/// Whether `s` holds exactly one dot.
pub open spec fn has_one_dot(s: Seq<char>) -> bool {
    exists|i: int|
        0 <= i < s.len() && #[trigger] s[i] == '.' && forall|j: int|
            0 <= j < s.len() && j != i ==> s[j] != '.'
}

/// Whatever the name: what comes in front of its second dot, which holds one dot, is
/// the type, and all that comes behind it is the domain. A name with fewer dots is a
/// type alone.
pub proof fn law_type_and_domain(s: Seq<char>)
    ensures
        ({
            let (service_type, domain) = type_and_domain(s);
            if second_dot(s) < s.len() {
                &&& service_type + seq!['.'] + domain == s
                &&& has_one_dot(service_type)
            } else {
                &&& service_type == s
                &&& domain.len() == 0
                &&& s.contains('.') ==> has_one_dot(s)
            }
        }),
{
    lemma_first_index_holds(s, '.');
    let first = first_index(s, '.') as int;
    let (service_type, domain) = type_and_domain(s);
    if first < s.len() {
        let rest = s.skip(first + 1);
        lemma_first_index_holds(rest, '.');
        let second = second_dot(s);
        assert forall|j: int| 0 <= j < second && j != first implies s[j] != '.' by {
            if j > first {
                assert(rest[j - first - 1] == s[j]);
            }
        }
        assert(service_type[first] == '.');
        if second < s.len() {
            assert(rest[second - first - 1] == s[second]);
            assert(service_type + seq!['.'] + domain =~= s);
        }
    }
}

} // verus!
