//! Ordered sets of texts.

use vstd::prelude::*;

use crate::text;
use crate::text::{comes_before, same_text};

verus! {

/// Each text of `s` comes before those that follow it.
pub open spec fn strictly_increasing(s: Seq<Seq<char>>) -> bool {
    forall|i: int, j: int| 0 <= i < j < s.len() ==> text::text_before(s[i], s[j])
}

/// A set of texts, listed in their order.
#[derive(Debug)]
pub struct StringSet {
    items: Vec<String>,
}

impl View for StringSet {
    type V = Seq<Seq<char>>;

    /// The texts of the set in increasing order.
    closed spec fn view(&self) -> Seq<Seq<char>> {
        self.items.deep_view()
    }
}

impl DeepView for StringSet {
    type V = Seq<Seq<char>>;

    open spec fn deep_view(&self) -> Seq<Seq<char>> {
        self@
    }
}

impl StringSet {
    #[verifier::type_invariant]
    spec fn ordered(self) -> bool {
        strictly_increasing(self.items.deep_view())
    }

    /// The set without texts.
    pub fn new() -> (set: StringSet)
        ensures
            set@ == Seq::<Seq<char>>::empty(),
    {
        let items: Vec<String> = Vec::new();
        proof {
            assert(items.deep_view() =~= Seq::<Seq<char>>::empty());
        }
        StringSet { items }
    }

    /// The set with `text` in it.
    pub fn with(self, text: &str) -> (set: StringSet)
        ensures
            strictly_increasing(set@),
            set@.to_set() == self@.to_set().insert(text@),
    {
        proof {
            use_type_invariant(&self);
        }
        let ghost start = self@;
        let mut items = self.items;
        let mut i: usize = 0;
        while i < items.len() && comes_before(items[i].as_str(), text)
            invariant
                i <= items.len(),
                items.deep_view() == start,
                forall|k: int| 0 <= k < i ==> text::text_before(#[trigger] start[k], text@),
            decreases items.len() - i,
        {
            i = i + 1;
        }
        if i < items.len() && same_text(items[i].as_str(), text) {
            proof {
                assert(start[i as int] == text@);
                assert(start.to_set() =~= start.to_set().insert(text@));
            }
            return StringSet { items };
        }
        items.insert(i, text.to_owned());
        proof {
            let grown = items.deep_view();
            assert(grown =~= start.insert(i as int, text@));
            if i < start.len() {
                text::lemma_text_before_total(start[i as int], text@);
                assert forall|k: int| i < k < start.len() implies text::text_before(
                    text@,
                    #[trigger] start[k],
                ) by {
                    text::lemma_text_before_transitive(text@, start[i as int], start[k]);
                }
            }
            assert(strictly_increasing(grown));
            assert forall|x: Seq<char>| grown.contains(x) == (start.contains(x) || x == text@) by {
                if start.contains(x) {
                    let k = choose|k: int| 0 <= k < start.len() && start[k] == x;
                    assert(grown[if k < i { k } else { k + 1 }] == x);
                }
                if x == text@ {
                    assert(grown[i as int] == x);
                }
                if grown.contains(x) {
                    let k = choose|k: int| 0 <= k < grown.len() && grown[k] == x;
                    if k != i {
                        assert(start[if k < i { k } else { k - 1 }] == x);
                    }
                }
            }
            assert(grown.to_set() =~= start.to_set().insert(text@));
        }
        StringSet { items }
    }

    /// The set of the given texts.
    pub fn from_texts(texts: &Vec<String>) -> (set: StringSet)
        ensures
            strictly_increasing(set@),
            set@.to_set() == texts.deep_view().to_set(),
    {
        let mut set = StringSet::new();
        let mut i: usize = 0;
        proof {
            assert(texts.deep_view().take(0) =~= Seq::<Seq<char>>::empty());
        }
        while i < texts.len()
            invariant
                i <= texts.len(),
                strictly_increasing(set@),
                set@.to_set() =~= texts.deep_view().take(i as int).to_set(),
            decreases texts.len() - i,
        {
            proof {
                let seen = texts.deep_view().take(i as int);
                let next = texts.deep_view().take(i + 1);
                assert(next =~= seen.push(texts@[i as int]@));
                seen.lemma_push_to_set_commute(texts@[i as int]@);
            }
            set = set.with(texts[i].as_str());
            i = i + 1;
        }
        proof {
            assert(texts.deep_view().take(i as int) =~= texts.deep_view());
        }
        set
    }

    /// Tells whether `text` is in the set.
    pub fn contains(&self, text: &str) -> (yes: bool)
        ensures
            yes == self@.contains(text@),
    {
        let mut i: usize = 0;
        while i < self.items.len()
            invariant
                i <= self.items.len(),
                forall|k: int| 0 <= k < i ==> self@[k] != text@,
            decreases self.items.len() - i,
        {
            if same_text(self.items[i].as_str(), text) {
                proof {
                    assert(self@[i as int] == text@);
                }
                return true;
            }
            i = i + 1;
        }
        false
    }

    /// Tells whether the set has no texts.
    pub fn is_empty(&self) -> (yes: bool)
        ensures
            yes == (self@.len() == 0),
    {
        self.items.is_empty()
    }

    /// The texts of the set in increasing order.
    pub fn to_texts(&self) -> (texts: Vec<String>)
        ensures
            texts.deep_view() == self@,
            strictly_increasing(texts.deep_view()),
    {
        proof {
            use_type_invariant(self);
        }
        let mut texts: Vec<String> = Vec::new();
        let mut i: usize = 0;
        while i < self.items.len()
            invariant
                i <= self.items.len(),
                texts.deep_view() =~= self@.take(i as int),
            decreases self.items.len() - i,
        {
            let ghost before = texts.deep_view();
            texts.push(self.items[i].clone());
            proof {
                assert(texts.deep_view() =~= before.push(self@[i as int]));
            }
            i = i + 1;
        }
        proof {
            assert(self@.take(i as int) =~= self@);
        }
        texts
    }
}

impl Clone for StringSet {
    fn clone(&self) -> (copy: Self)
        ensures
            copy@ == self@,
    {
        let items = self.to_texts();
        StringSet { items }
    }
}

/// The listing of a set is determined by what is in it.
pub proof fn law_listing_is_determined(left: Seq<Seq<char>>, right: Seq<Seq<char>>)
    requires
        strictly_increasing(left),
        strictly_increasing(right),
        left.to_set() == right.to_set(),
    ensures
        left == right,
    decreases left.len(),
{
    assert forall|x: Seq<char>| left.contains(x) == right.contains(x) by {
        assert(left.to_set().contains(x) == left.contains(x));
        assert(right.to_set().contains(x) == right.contains(x));
    }
    if left.len() == 0 {
        if right.len() > 0 {
            assert(right.contains(right[0]));
        }
        assert(left =~= right);
    } else {
        assert(left.contains(left[0]));
        let r = choose|r: int| 0 <= r < right.len() && right[r] == left[0];
        assert(right.contains(right[0]));
        let l = choose|l: int| 0 <= l < left.len() && left[l] == right[0];
        if r > 0 {
            assert(text::text_before(right[0], right[r]));
            if l > 0 {
                assert(text::text_before(left[0], left[l]));
            }
            text::lemma_text_before_total(left[0], right[0]);
        }
        let left_rest = left.drop_first();
        let right_rest = right.drop_first();
        assert forall|i: int, j: int| 0 <= i < j < left_rest.len() implies text::text_before(
            left_rest[i],
            left_rest[j],
        ) by {
            assert(text::text_before(left[i + 1], left[j + 1]));
        }
        assert forall|i: int, j: int| 0 <= i < j < right_rest.len() implies text::text_before(
            right_rest[i],
            right_rest[j],
        ) by {
            assert(text::text_before(right[i + 1], right[j + 1]));
        }
        lemma_rest_membership(left);
        lemma_rest_membership(right);
        assert(left_rest.to_set() =~= right_rest.to_set()) by {
            assert forall|x: Seq<char>|
                left_rest.to_set().contains(x) == right_rest.to_set().contains(x) by {
                assert(left_rest.to_set().contains(x) == left_rest.contains(x));
                assert(right_rest.to_set().contains(x) == right_rest.contains(x));
                assert(left.contains(x) == right.contains(x));
            }
        }
        law_listing_is_determined(left_rest, right_rest);
        assert(left =~= seq![left[0]] + left_rest);
        assert(right =~= seq![right[0]] + right_rest);
    }
}

/// Behind the first text of a listing are the others.
proof fn lemma_rest_membership(listing: Seq<Seq<char>>)
    requires
        strictly_increasing(listing),
        listing.len() > 0,
    ensures
        forall|x: Seq<char>| #[trigger]
            listing.drop_first().contains(x) == (listing.contains(x) && x != listing[0]),
{
    let rest = listing.drop_first();
    assert forall|x: Seq<char>| #[trigger] rest.contains(x) == (listing.contains(x) && x
        != listing[0]) by {
        if rest.contains(x) {
            let k = choose|k: int| 0 <= k < rest.len() && rest[k] == x;
            assert(listing[k + 1] == x);
            assert(text::text_before(listing[0], listing[k + 1]));
            text::lemma_text_before_total(x, x);
        }
        if listing.contains(x) && x != listing[0] {
            let k = choose|k: int| 0 <= k < listing.len() && listing[k] == x;
            assert(rest[k - 1] == x);
        }
    }
}

/// A set of texts has exactly the texts that it was made of.
pub proof fn law_sets_have_the_texts_they_are_made_of(
    texts: Vec<String>,
    set: StringSet,
    text: &str,
    yes: bool,
)
    requires
        call_ensures(StringSet::from_texts, (&texts,), set),
        call_ensures(StringSet::contains, (&set, text), yes),
    ensures
        yes == exists|i: int| 0 <= i < texts@.len() && (#[trigger] texts@[i])@ == text@,
{
    let views = texts.deep_view();
    assert(set@.contains(text@) == set@.to_set().contains(text@));
    assert(views.contains(text@) == views.to_set().contains(text@));
    if views.contains(text@) {
        let i = choose|i: int| 0 <= i < views.len() && views[i] == text@;
        assert(texts@[i]@ == text@);
    }
    if exists|i: int| 0 <= i < texts@.len() && (#[trigger] texts@[i])@ == text@ {
        let i = choose|i: int| 0 <= i < texts@.len() && (#[trigger] texts@[i])@ == text@;
        assert(views[i] == text@);
    }
}

} // verus!
