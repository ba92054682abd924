//! The filter over the list of countries: which countries a filter text
//! lets pass, and the list that it leaves.

use crate::text::chars_of;
use crate::text::contains_chars;
use crate::text::is_substring;
use crate::text::lowercase;
use crate::text::str_to_lowercase;
use crate::types::roster_view;
use crate::types::Country;
use crate::types::CountryView;
use vstd::prelude::*;

verus! {

/// Whether a country shown as `display_name` passes `filter`: an empty
/// filter lets every country pass, any other one those whose display name
/// holds it, letter case set aside.
pub open spec fn matches_filter(display_name: Seq<char>, filter: Seq<char>) -> bool {
    filter.len() == 0 || is_substring(lowercase(filter), lowercase(display_name))
}

/// `matches_filter` as a predicate on countries.
pub open spec fn filter_pred(filter: Seq<char>) -> spec_fn(CountryView) -> bool {
    |country: CountryView| matches_filter(country.display_name, filter)
}

/// The countries of `countries` that pass `filter`, in their order.
pub open spec fn filtered_by(countries: Seq<CountryView>, filter: Seq<char>) -> Seq<CountryView> {
    countries.filter(filter_pred(filter))
}

/// `at` gives, for each item of `part`, a place in `whole` where that item
/// stands, and the places rise.
pub open spec fn embeds(part: Seq<CountryView>, whole: Seq<CountryView>, at: Seq<int>) -> bool {
    &&& at.len() == part.len()
    &&& forall|i: int|
        0 <= i < at.len() ==> 0 <= #[trigger] at[i] < whole.len() && part[i] == whole[at[i]]
    &&& forall|i: int, j: int| 0 <= i < j < at.len() ==> at[i] < at[j]
}

/// `part` is made of items of `whole`, in the order that they have there.
pub open spec fn is_subsequence(part: Seq<CountryView>, whole: Seq<CountryView>) -> bool {
    exists|at: Seq<int>| embeds(part, whole, at)
}

/// A list all of whose countries pass the filter is left as it is.
pub proof fn lemma_filter_keeps_all(countries: Seq<CountryView>, filter: Seq<char>)
    requires
        forall|i: int|
            0 <= i < countries.len() ==> matches_filter(
                (#[trigger] countries[i]).display_name,
                filter,
            ),
    ensures
        filtered_by(countries, filter) == countries,
    decreases countries.len(),
{
    reveal(Seq::filter);
    if countries.len() > 0 {
        lemma_filter_keeps_all(countries.drop_last(), filter);
        assert(filter_pred(filter)(countries.last()));
        assert(countries.drop_last().push(countries.last()) =~= countries);
    }
}

/// Filtering picks countries out of the list without reordering them, and
/// every country picked passes the filter.
pub proof fn lemma_filter_is_subsequence(countries: Seq<CountryView>, filter: Seq<char>)
    ensures
        is_subsequence(filtered_by(countries, filter), countries),
        forall|i: int|
            0 <= i < filtered_by(countries, filter).len() ==> matches_filter(
                (#[trigger] filtered_by(countries, filter)[i]).display_name,
                filter,
            ),
    decreases countries.len(),
{
    reveal(Seq::filter);
    let picked = filtered_by(countries, filter);
    if countries.len() == 0 {
        assert(embeds(picked, countries, Seq::<int>::empty()));
    } else {
        let front = countries.drop_last();
        lemma_filter_is_subsequence(front, filter);
        let picked_front = filtered_by(front, filter);
        let at_front = choose|at: Seq<int>| embeds(picked_front, front, at);
        if filter_pred(filter)(countries.last()) {
            let at = at_front.push(countries.len() - 1);
            assert(picked == picked_front.push(countries.last()));
            assert forall|i: int| 0 <= i < at.len() implies 0 <= #[trigger] at[i] < countries.len()
                && picked[i] == countries[at[i]] by {
                if i < at_front.len() {
                    assert(at[i] == at_front[i]);
                    assert(picked_front[i] == front[at_front[i]]);
                }
            }
            assert forall|i: int, j: int| 0 <= i < j < at.len() implies at[i] < at[j] by {
                assert(at[i] == at_front[i]);
                if j < at_front.len() {
                    assert(at[j] == at_front[j]);
                }
            }
            assert(embeds(picked, countries, at));
        } else {
            assert(picked == picked_front);
            assert forall|i: int| 0 <= i < at_front.len() implies 0 <= #[trigger] at_front[i]
                < countries.len() && picked[i] == countries[at_front[i]] by {
                assert(picked_front[i] == front[at_front[i]]);
            }
            assert(embeds(picked, countries, at_front));
        }
    }
}

/// Filtering what a filter has left, by the same filter or by the empty
/// one, changes nothing.
pub proof fn lemma_filter_idempotent(countries: Seq<CountryView>, filter: Seq<char>)
    ensures
        filtered_by(filtered_by(countries, filter), filter) == filtered_by(countries, filter),
        filtered_by(filtered_by(countries, filter), Seq::empty()) == filtered_by(
            countries,
            filter,
        ),
{
    lemma_filter_is_subsequence(countries, filter);
    lemma_filter_keeps_all(filtered_by(countries, filter), filter);
    lemma_filter_keeps_all(filtered_by(countries, filter), Seq::empty());
}

/// The countries of `roster` that pass `filter`, in their order.
pub fn apply_filter(roster: &Vec<Country>, filter: &str) -> (filtered: Vec<Country>)
    ensures
        roster_view(filtered@) == filtered_by(roster_view(roster@), filter@),
        is_subsequence(roster_view(filtered@), roster_view(roster@)),
        forall|i: int|
            0 <= i < filtered@.len() ==> matches_filter(
                (#[trigger] filtered@[i])@.display_name,
                filter@,
            ),
{
    let every = filter.is_empty();
    let lowered = str_to_lowercase(filter);
    let needle = chars_of(lowered.as_str());
    let mut filtered: Vec<Country> = Vec::new();
    let mut i: usize = 0;
    assert(roster_view(roster@.take(0)) =~= Seq::<CountryView>::empty());
    assert(roster_view(filtered@) =~= Seq::<CountryView>::empty());
    assert(filtered_by(Seq::<CountryView>::empty(), filter@) =~= Seq::<CountryView>::empty()) by {
        reveal(Seq::filter);
    }
    while i < roster.len()
        invariant
            i <= roster.len(),
            every == (filter@.len() == 0),
            needle@ == lowercase(filter@),
            roster_view(filtered@) == filtered_by(roster_view(roster@.take(i as int)), filter@),
        decreases roster.len() - i,
    {
        let country = &roster[i];
        let keep = every || {
            let name = str_to_lowercase(country.display_name.as_str());
            contains_chars(&chars_of(name.as_str()), &needle)
        };
        assert(keep == filter_pred(filter@)(country@));
        proof {
            let seen = roster@.take(i as int);
            assert(roster@.take(i + 1) =~= seen.push(*country));
            assert(roster_view(seen.push(*country)) =~= roster_view(seen).push(country@));
            roster_view(seen).lemma_filter_push(country@, filter_pred(filter@));
        }
        if keep {
            let ghost kept = filtered@;
            filtered.push(country.clone());
            assert(roster_view(filtered@) =~= roster_view(kept).push(country@));
        }
        i += 1;
    }
    assert(roster@.take(roster@.len() as int) =~= roster@);
    proof {
        lemma_filter_is_subsequence(roster_view(roster@), filter@);
        assert forall|i: int| 0 <= i < filtered@.len() implies matches_filter(
            (#[trigger] filtered@[i])@.display_name,
            filter@,
        ) by {
            assert(roster_view(filtered@)[i] == filtered@[i]@);
        }
    }
    filtered
}

} // verus!
