//! Remembering what a browse has already reported.

use vstd::prelude::*;

use crate::text::{first_index, lemma_first_index, lemma_first_index_holds, same_text};

verus! {

/// `seen` with `item` noted: at the end if it is new, unchanged otherwise.
pub open spec fn note<T>(seen: Seq<T>, item: T) -> Seq<T> {
    if seen.contains(item) {
        seen
    } else {
        seen.push(item)
    }
}

/// `seen` with all of `items` noted, in order.
pub open spec fn note_all<T>(seen: Seq<T>, items: Seq<T>) -> Seq<T>
    decreases items.len(),
{
    if items.len() == 0 {
        seen
    } else {
        note(note_all(seen, items.drop_last()), items.last())
    }
}

/// Noting an item keeps what is there free of duplicates.
pub proof fn lemma_note<T>(seen: Seq<T>, item: T)
    requires
        seen.no_duplicates(),
    ensures
        note(seen, item).no_duplicates(),
        note(seen, item).contains(item),
        forall|x: T| #[trigger] note(seen, item).contains(x) <==> seen.contains(x) || x == item,
{
    let noted = note(seen, item);
    if !seen.contains(item) {
        assert(noted.last() == item);
        assert forall|x: T| #[trigger] noted.contains(x) <==> seen.contains(x) || x == item by {
            if seen.contains(x) {
                let k = choose|k: int| 0 <= k < seen.len() && seen[k] == x;
                assert(noted[k] == x);
            }
            if noted.contains(x) && x != item {
                let k = choose|k: int| 0 <= k < noted.len() && noted[k] == x;
                assert(seen[k] == x);
            }
        }
    }
}

/// Whatever is reported, and however often: the list of what was noted holds
/// exactly the reported items, each of them once.
pub proof fn law_noted_once<T>(items: Seq<T>)
    ensures
        note_all(Seq::empty(), items).no_duplicates(),
        forall|x: T| #[trigger] note_all(Seq::empty(), items).contains(x) <==> items.contains(x),
    decreases items.len(),
{
    let noted = note_all(Seq::empty(), items);
    if items.len() > 0 {
        let before = items.drop_last();
        law_noted_once(before);
        lemma_note(note_all(Seq::empty(), before), items.last());
        assert forall|x: T| #[trigger] noted.contains(x) <==> items.contains(x) by {
            if items.contains(x) && x != items.last() {
                let k = choose|k: int| 0 <= k < items.len() && items[k] == x;
                assert(before[k] == x);
            }
            if before.contains(x) {
                let k = choose|k: int| 0 <= k < before.len() && before[k] == x;
                assert(items[k] == x);
            }
        }
    }
}

/// A service type together with the domain that it was announced in. The domain
/// is part of the key because the same type may be advertised in more than one
/// domain.
pub type TypeKey = (Seq<char>, Seq<char>);

/// The service types that a browse has already reported, in order and without
/// duplicates.
pub struct SeenTypes {
    pairs: Vec<(String, String)>,
}

impl DeepView for SeenTypes {
    type V = Seq<TypeKey>;

    closed spec fn deep_view(&self) -> Seq<TypeKey> {
        self.pairs.deep_view()
    }
}

impl SeenTypes {
    #[verifier::type_invariant]
    closed spec fn distinct(self) -> bool {
        self.pairs.deep_view().no_duplicates()
    }

    /// Nothing seen yet.
    pub fn new() -> (seen: SeenTypes)
        ensures
            seen.deep_view() == Seq::<TypeKey>::empty(),
    {
        let seen = SeenTypes { pairs: Vec::new() };
        assert(seen.deep_view() =~= Seq::<TypeKey>::empty());
        seen
    }

    /// Whether a type was seen in a domain.
    pub fn contains(&self, service_type: &str, domain: &str) -> (present: bool)
        ensures
            present == self.deep_view().contains((service_type@, domain@)),
            self.deep_view().no_duplicates(),
    {
        proof {
            use_type_invariant(self);
        }
        let mut i: usize = 0;
        while i < self.pairs.len()
            invariant
                i <= self.pairs.len(),
                self.deep_view().no_duplicates(),
                forall|k: int|
                    0 <= k < i ==> #[trigger] self.deep_view()[k] != (service_type@, domain@),
            decreases self.pairs.len() - i,
        {
            let pair = &self.pairs[i];
            assert(self.deep_view()[i as int] == (pair.0@, pair.1@));
            if same_text(pair.0.as_str(), service_type) && same_text(pair.1.as_str(), domain) {
                return true;
            }
            i = i + 1;
        }
        false
    }

    /// Notes a type, and tells whether it is new.
    pub fn insert(&mut self, service_type: &str, domain: &str) -> (fresh: bool)
        ensures
            fresh == !old(self).deep_view().contains((service_type@, domain@)),
            final(self).deep_view() == note(old(self).deep_view(), (service_type@, domain@)),
            final(self).deep_view().no_duplicates(),
    {
        if self.contains(service_type, domain) {
            return false;
        }
        let ghost before = self.deep_view();
        let mut pairs: Vec<(String, String)> = Vec::new();
        std::mem::swap(&mut pairs, &mut self.pairs);
        pairs.push((service_type.to_owned(), domain.to_owned()));
        proof {
            lemma_note(before, (service_type@, domain@));
            assert(pairs.deep_view() =~= note(before, (service_type@, domain@)));
        }
        self.pairs = pairs;
        true
    }
}

/// The list keeps the order of the first reports.
pub proof fn law_noted_in_order<T>(items: Seq<T>, i: int, j: int)
    requires
        0 <= i < j < note_all(Seq::empty(), items).len(),
    ensures
        first_index(items, note_all(Seq::empty(), items)[i]) < first_index(
            items,
            note_all(Seq::empty(), items)[j],
        ),
    decreases items.len(),
{
    let before = items.drop_last();
    let last = items.last();
    let noted = note_all(Seq::empty(), before);
    law_noted_once(before);
    assert(noted.contains(noted[i]));
    lemma_first_index_grows(before, last, noted[i]);
    assert(before.push(last) =~= items);
    if j < noted.len() {
        law_noted_in_order(before, i, j);
        assert(noted.contains(noted[j]));
        lemma_first_index_grows(before, last, noted[j]);
    } else {
        assert(!before.contains(last));
        lemma_first_index(items, last, before.len() as int);
    }
}

/// What comes behind does not change where an item is first.
proof fn lemma_first_index_grows<T>(s: Seq<T>, y: T, x: T)
    requires
        s.contains(x),
    ensures
        first_index(s.push(y), x) == first_index(s, x),
        first_index(s, x) < s.len(),
{
    lemma_first_index_holds(s, x);
    let i = first_index(s, x) as int;
    if i == s.len() {
        let k = choose|k: int| 0 <= k < s.len() && s[k] == x;
        assert(s[k] != x);
    }
    assert forall|j: int| 0 <= j < i implies s.push(y)[j] != x by {
        assert(s[j] != x);
    }
    lemma_first_index(s.push(y), x, i);
}

} // verus!
