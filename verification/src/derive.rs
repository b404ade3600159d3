//! The traits that an overlay derives.

use crate::text::copy_text;
use vstd::prelude::*;
use vstd::string::*;

verus! {

/// The extra traits that the record does not derive already, in their order.
pub open spec fn added_derives(extra: Seq<Seq<char>>, derived: Seq<Seq<char>>) -> Seq<Seq<char>> {
    extra.filter(|name: Seq<char>| !derived.contains(name))
}

/// The traits in source text, a comma after each.
pub open spec fn trait_list_text(traits: Seq<Seq<char>>) -> Seq<char>
    decreases traits.len(),
{
    if traits.len() == 0 {
        Seq::empty()
    } else {
        trait_list_text(traits.drop_last()) + traits.last() + ", "@
    }
}

/// The annotation that derives the traits, in source text.
pub open spec fn derive_annotation_text(traits: Seq<Seq<char>>) -> Seq<char> {
    "#[derive("@ + trait_list_text(traits) + ")]"@
}

/// Whether the name stands in the list.
pub fn has_name(names: &Vec<String>, name: &String) -> (found: bool)
    ensures
        found == names.deep_view().contains(name@),
{
    let mut i: usize = 0;
    while i < names.len()
        invariant
            i <= names.len(),
            forall|j: int| 0 <= j < i ==> names.deep_view()[j] != name@,
        decreases names.len() - i,
    {
        assert(names.deep_view()[i as int] == names[i as int]@);
        if names[i] == *name {
            return true;
        }
        i += 1;
    }
    false
}

/// The extra traits that the record does not derive already, in their order.
pub fn derives_to_add(extra: &Vec<String>, derived: &Vec<String>) -> (added: Vec<String>)
    ensures
        added.deep_view() == added_derives(extra.deep_view(), derived.deep_view()),
{
    let ghost all = extra.deep_view();
    let ghost absent = |name: Seq<char>| !derived.deep_view().contains(name);
    let mut added: Vec<String> = Vec::new();
    let mut i: usize = 0;
    while i < extra.len()
        invariant
            i <= extra.len(),
            all == extra.deep_view(),
            absent == |name: Seq<char>| !derived.deep_view().contains(name),
            added.deep_view() == all.take(i as int).filter(absent),
        decreases extra.len() - i,
    {
        proof {
            reveal(Seq::filter);
            assert(all.take(i as int + 1).drop_last() =~= all.take(i as int));
        }
        if !has_name(derived, &extra[i]) {
            added.push(copy_text(&extra[i]));
        }
        i += 1;
    }
    assert(all.take(i as int) =~= all);
    added
}

/// Writes the annotation that derives the traits.
pub fn render_derive_annotation(traits: &Vec<String>) -> (text: String)
    ensures
        text@ == derive_annotation_text(traits.deep_view()),
{
    let ghost all = traits.deep_view();
    let mut list = String::new();
    let mut i: usize = 0;
    while i < traits.len()
        invariant
            i <= traits.len(),
            all == traits.deep_view(),
            list@ == trait_list_text(all.take(i as int)),
        decreases traits.len() - i,
    {
        proof {
            assert(all.take(i as int + 1).drop_last() =~= all.take(i as int));
        }
        list.append(traits[i].as_str());
        list.append(", ");
        i += 1;
    }
    assert(all.take(i as int) =~= all);
    let mut text = String::from_str("#[derive(");
    text.append(list.as_str());
    text.append(")]");
    text
}

/// How often a name stands in a list.
pub open spec fn occurrences(names: Seq<Seq<char>>, name: Seq<char>) -> nat {
    names.to_multiset().count(name)
}

/// A selection from names that differ holds names that differ.
pub proof fn selection_stays_distinct(names: Seq<Seq<char>>, kept: spec_fn(Seq<char>) -> bool)
    requires
        names.no_duplicates(),
    ensures
        names.filter(kept).no_duplicates(),
    decreases names.len(),
{
    reveal(Seq::filter);
    if names.len() > 0 {
        let front = names.drop_last();
        selection_stays_distinct(front, kept);
        if kept(names.last()) {
            if front.filter(kept).contains(names.last()) {
                front.lemma_filter_contains_rev(kept, names.last());
            }
        }
    }
}

/// The overlay derives each extra trait once, unless the record itself
/// derives it: then the overlay derives it as often as the record does.
pub proof fn extra_traits_are_derived_once(
    extra: Seq<Seq<char>>,
    derived: Seq<Seq<char>>,
    name: Seq<char>,
)
    requires
        extra.no_duplicates(),
        extra.contains(name),
    ensures
        occurrences(derived + added_derives(extra, derived), name) == if derived.contains(name) {
            occurrences(derived, name)
        } else {
            1
        },
{
    let absent = |name: Seq<char>| !derived.contains(name);
    let added = extra.filter(absent);
    vstd::seq_lib::lemma_multiset_commutative(derived, added);
    vstd::seq_lib::to_multiset_contains(added, name);
    vstd::seq_lib::to_multiset_contains(derived, name);
    if !derived.contains(name) {
        selection_stays_distinct(extra, absent);
        added.lemma_multiset_has_no_duplicates();
    }
}

/// A trait that is none of the extra ones is derived by the overlay as often
/// as by the record.
pub proof fn other_traits_are_derived_as_before(
    extra: Seq<Seq<char>>,
    derived: Seq<Seq<char>>,
    name: Seq<char>,
)
    requires
        !extra.contains(name),
    ensures
        occurrences(derived + added_derives(extra, derived), name) == occurrences(derived, name),
{
    let absent = |name: Seq<char>| !derived.contains(name);
    let added = extra.filter(absent);
    vstd::seq_lib::lemma_multiset_commutative(derived, added);
    vstd::seq_lib::to_multiset_contains(added, name);
    if added.contains(name) {
        extra.lemma_filter_contains_rev(absent, name);
    }
}

} // verus!
