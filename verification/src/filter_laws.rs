//! Laws of the traffic filter, stated over its mathematical content.

use crate::text::{is_substring, occurs_at};
use crate::traffic_filter::{entry_matches, list_matches, toggled, without, TrafficFilterView};
use vstd::prelude::*;

verus! {

/// A disabled filter blocks no request, whatever its mode and lists hold.
pub proof fn law_disabled_filter_blocks_nothing(filter: TrafficFilterView, uri: Seq<char>)
    requires
        !filter.enabled,
    ensures
        !filter.blocks(uri),
{
}

/// An enabled filter in `Allow` mode blocks exactly the targets that its active list
/// matches; in `Deny` mode it blocks exactly those that the list does not match.
pub proof fn law_enabled_filter_follows_mode(filter: TrafficFilterView, uri: Seq<char>)
    requires
        filter.enabled,
    ensures
        filter.mode is Allow ==> filter.blocks(uri) == filter.in_filter_list(uri),
        filter.mode is Deny ==> filter.blocks(uri) == !filter.in_filter_list(uri),
{
}

/// Every sequence occurs in itself.
pub proof fn law_substring_reflexive(s: Seq<char>)
    ensures
        is_substring(s, s),
{
    assert(s.subrange(0, s.len() as int) =~= s);
    assert(occurs_at(s, s, 0));
}

/// Matching is containment either way round, so entry and target may change places.
pub proof fn law_entry_matches_symmetric(entry: Seq<char>, uri: Seq<char>)
    ensures
        entry_matches(entry, uri) == entry_matches(uri, entry),
        list_matches(seq![entry], uri) == list_matches(seq![uri], entry),
{
    if entry_matches(entry, uri) {
        assert(entry_matches(seq![uri][0], entry));
    }
    if entry_matches(uri, entry) {
        assert(entry_matches(seq![entry][0], uri));
    }
}

/// A list that holds no entry equal to `value` loses nothing when `value` is removed.
pub proof fn law_without_absent(list: Seq<Seq<char>>, value: Seq<char>)
    requires
        !list.contains(value),
    ensures
        without(list, value) == list,
    decreases list.len(),
{
    reveal(Seq::filter);
    if list.len() > 0 {
        let front = list.drop_last();
        assert forall|i: int| 0 <= i < front.len() implies front[i] != value by {
            assert(list[i] == front[i]);
            assert(list.contains(list[i]));
        }
        assert(!front.contains(value));
        law_without_absent(front, value);
        assert(list.contains(list.last()));
        assert(front.push(list.last()) =~= list);
    } else {
        assert(without(list, value) =~= list);
    }
}

/// A list that matches no entry against `value` holds no entry equal to `value`.
pub proof fn law_unmatched_is_absent(list: Seq<Seq<char>>, value: Seq<char>)
    requires
        !list_matches(list, value),
    ensures
        !list.contains(value),
{
    if list.contains(value) {
        let i = choose|i: int| 0 <= i < list.len() && list[i] == value;
        law_substring_reflexive(value);
        assert(entry_matches(list[i], value));
    }
}

/// Whether toggling `value` twice gives `list` back: no entry matches `value`; or
/// entries match it but none equals it; or `value` is the last entry and no earlier
/// entry matches it.
pub open spec fn toggle_is_reversible(list: Seq<Seq<char>>, value: Seq<char>) -> bool {
    ||| !list_matches(list, value)
    ||| !list.contains(value)
    ||| (list.len() > 0 && list.last() == value && !list_matches(list.drop_last(), value))
}

/// Toggling the same value twice restores the list, in order and content, wherever
/// the toggle is reversible.
pub proof fn law_toggle_twice_restores(list: Seq<Seq<char>>, value: Seq<char>)
    requires
        toggle_is_reversible(list, value),
    ensures
        toggled(toggled(list, value), value) == list,
{
    reveal(Seq::filter);
    law_substring_reflexive(value);
    if !list_matches(list, value) {
        let grown = list.push(value);
        assert(entry_matches(grown[list.len() as int], value));
        assert(grown.drop_last() =~= list);
        law_unmatched_is_absent(list, value);
        law_without_absent(list, value);
    } else if !list.contains(value) {
        law_without_absent(list, value);
    } else {
        let front = list.drop_last();
        law_unmatched_is_absent(front, value);
        law_without_absent(front, value);
        assert(front.push(value) =~= list);
    }
}

/// Updating a filter twice with the same value restores it, in order and content,
/// wherever the toggle is reversible on its active list; the inactive list, the mode
/// and the switch are never touched by an update.
pub proof fn law_update_twice_restores(filter: TrafficFilterView, value: Seq<char>)
    ensures
        toggle_is_reversible(filter.active_list(), value) ==> filter.updated(value).updated(value)
            == filter,
        filter.updated(value).inactive_list() == filter.inactive_list(),
        filter.updated(value).mode == filter.mode,
        filter.updated(value).enabled == filter.enabled,
{
    if toggle_is_reversible(filter.active_list(), value) {
        law_toggle_twice_restores(filter.active_list(), value);
    }
}

/// Removing `value` never lengthens a list, and shortens one that holds `value`.
pub proof fn law_without_shrinks(list: Seq<Seq<char>>, value: Seq<char>)
    ensures
        without(list, value).len() <= list.len(),
        list.contains(value) ==> without(list, value).len() < list.len(),
        !without(list, value).contains(value),
    decreases list.len(),
{
    reveal(Seq::filter);
    if list.len() > 0 {
        let front = list.drop_last();
        law_without_shrinks(front, value);
        if list.contains(value) && list.last() != value {
            let i = choose|i: int| 0 <= i < list.len() && list[i] == value;
            assert(front[i] == value);
        }
        let kept = without(list, value);
        if kept.contains(value) {
            let k = choose|k: int| 0 <= k < kept.len() && kept[k] == value;
            if list.last() != value && k < kept.len() - 1 {
                assert(without(front, value)[k] == value);
            }
        }
    }
}

/// Where the toggle is not reversible, toggling the same value twice gives a
/// different list.
pub proof fn law_toggle_twice_changes(list: Seq<Seq<char>>, value: Seq<char>)
    requires
        !toggle_is_reversible(list, value),
    ensures
        toggled(toggled(list, value), value) != list,
{
    let once = without(list, value);
    law_without_shrinks(list, value);
    if list_matches(once, value) {
        law_without_shrinks(once, value);
    } else {
        let twice = once.push(value);
        if twice == list {
            assert(twice.drop_last() =~= once);
        }
    }
}

/// Switching the mode twice gives the filter back, and one switch leaves both lists
/// as they were: the list that was active is the inactive one afterwards.
pub proof fn law_switch_twice_restores(filter: TrafficFilterView)
    ensures
        filter.switched().switched() == filter,
        filter.switched().allow_exclusions == filter.allow_exclusions,
        filter.switched().deny_exclusions == filter.deny_exclusions,
        filter.switched().inactive_list() == filter.active_list(),
        filter.switched().active_list() == filter.inactive_list(),
        filter.switched().switched().mode == filter.mode,
        filter.switched().switched().active_list() == filter.active_list(),
{
}

} // verus!
