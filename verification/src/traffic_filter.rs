//! The traffic filter: two exclusion lists, an active mode and an enabled flag.

use crate::text::{contains, is_substring};
use vstd::prelude::*;

verus! {

/// The default policy applied to traffic that the active exclusion list does not name.
#[derive(Debug, Clone, Copy, PartialEq, Eq, Structural)]
pub enum TrafficFilterType {
    Allow,
    Deny,
}

impl TrafficFilterType {
    /// The other mode.
    pub open spec fn opposite(self) -> TrafficFilterType {
        match self {
            TrafficFilterType::Allow => TrafficFilterType::Deny,
            TrafficFilterType::Deny => TrafficFilterType::Allow,
        }
    }

    /// The mode's display name.
    pub fn to_string(&self) -> (name: String)
        ensures
            name@ == (match *self {
                TrafficFilterType::Allow => "Allow"@,
                TrafficFilterType::Deny => "Deny"@,
            }),
    {
        match self {
            TrafficFilterType::Allow => "Allow".to_owned(),
            TrafficFilterType::Deny => "Deny".to_owned(),
        }
    }
}

impl Default for TrafficFilterType {
    fn default() -> (mode: Self)
        ensures
            mode == TrafficFilterType::Allow,
    {
        TrafficFilterType::Allow
    }
}

/// An entry and a request target match when either one contains the other.
pub open spec fn entry_matches(entry: Seq<char>, uri: Seq<char>) -> bool {
    is_substring(uri, entry) || is_substring(entry, uri)
}

/// Some entry of `list` matches `uri`.
pub open spec fn list_matches(list: Seq<Seq<char>>, uri: Seq<char>) -> bool {
    exists|i: int| 0 <= i < list.len() && entry_matches(#[trigger] list[i], uri)
}

/// `list` without the entries equal to `value`, the others in their order.
pub open spec fn without(list: Seq<Seq<char>>, value: Seq<char>) -> Seq<Seq<char>> {
    list.filter(|entry: Seq<char>| entry != value)
}

/// What toggling `value` makes of `list`: a matching list loses the entries equal to
/// `value`, any other list gains `value` at its end.
pub open spec fn toggled(list: Seq<Seq<char>>, value: Seq<char>) -> Seq<Seq<char>> {
    if list_matches(list, value) {
        without(list, value)
    } else {
        list.push(value)
    }
}

/// The two exclusion lists, one per mode.
#[derive(Debug)]
pub struct TrafficFilterList {
    pub allow_exclusions: Vec<String>,
    pub deny_exclusions: Vec<String>,
}

impl Default for TrafficFilterList {
    fn default() -> (lists: Self)
        ensures
            lists.allow_exclusions@ == Seq::<String>::empty(),
            lists.deny_exclusions@ == Seq::<String>::empty(),
    {
        TrafficFilterList { allow_exclusions: Vec::new(), deny_exclusions: Vec::new() }
    }
}

/// The mathematical content of a [`TrafficFilter`].
pub ghost struct TrafficFilterView {
    pub enabled: bool,
    pub mode: TrafficFilterType,
    pub allow_exclusions: Seq<Seq<char>>,
    pub deny_exclusions: Seq<Seq<char>>,
}

impl TrafficFilterView {
    /// The list that belongs to the current mode.
    pub open spec fn active_list(self) -> Seq<Seq<char>> {
        match self.mode {
            TrafficFilterType::Allow => self.allow_exclusions,
            TrafficFilterType::Deny => self.deny_exclusions,
        }
    }

    /// The list that belongs to the other mode.
    pub open spec fn inactive_list(self) -> Seq<Seq<char>> {
        match self.mode {
            TrafficFilterType::Allow => self.deny_exclusions,
            TrafficFilterType::Deny => self.allow_exclusions,
        }
    }

    /// The same filter with `list` in place of the active list.
    pub open spec fn with_active_list(self, list: Seq<Seq<char>>) -> TrafficFilterView {
        match self.mode {
            TrafficFilterType::Allow => TrafficFilterView { allow_exclusions: list, ..self },
            TrafficFilterType::Deny => TrafficFilterView { deny_exclusions: list, ..self },
        }
    }

    /// The filter after `value` has been toggled in the active list.
    pub open spec fn updated(self, value: Seq<char>) -> TrafficFilterView {
        self.with_active_list(toggled(self.active_list(), value))
    }

    /// The same filter in the other mode; both lists stay as they are.
    pub open spec fn switched(self) -> TrafficFilterView {
        TrafficFilterView { mode: self.mode.opposite(), ..self }
    }

    /// Some entry of the active list matches `uri`.
    pub open spec fn in_filter_list(self, uri: Seq<char>) -> bool {
        list_matches(self.active_list(), uri)
    }

    /// The authorization rule: a disabled filter blocks nothing; in `Allow` mode the
    /// matched targets are rejected, in `Deny` mode the unmatched ones.
    pub open spec fn blocks(self, uri: Seq<char>) -> bool {
        self.enabled && match self.mode {
            TrafficFilterType::Allow => self.in_filter_list(uri),
            TrafficFilterType::Deny => !self.in_filter_list(uri),
        }
    }
}

/// A copy of a list of strings.
pub fn clone_strings(list: &Vec<String>) -> (copy: Vec<String>)
    ensures
        copy.deep_view() == list.deep_view(),
{
    let mut copy: Vec<String> = Vec::new();
    let mut i: usize = 0;
    while i < list.len()
        invariant
            i <= list.len(),
            copy.len() == i,
            forall|k: int| 0 <= k < i ==> copy@[k]@ == list@[k]@,
        decreases list.len() - i,
    {
        copy.push(list[i].clone());
        i += 1;
    }
    assert(copy.deep_view() =~= list.deep_view());
    copy
}

/// Whether some entry of `list` matches `uri`, either one containing the other.
pub fn list_matches_uri(list: &Vec<String>, uri: &str) -> (found: bool)
    ensures
        found == list_matches(list.deep_view(), uri@),
{
    let mut i: usize = 0;
    while i < list.len()
        invariant
            i <= list.len(),
            forall|k: int| 0 <= k < i ==> !entry_matches(#[trigger] list.deep_view()[k], uri@),
        decreases list.len() - i,
    {
        let entry = list[i].as_str();
        assert(list.deep_view()[i as int] == entry@);
        if contains(uri, entry) || contains(entry, uri) {
            return true;
        }
        i += 1;
    }
    false
}

/// The entries of `list` that differ from `value`, in their order.
pub fn remove_equal(list: &Vec<String>, value: &String) -> (kept: Vec<String>)
    ensures
        kept.deep_view() == without(list.deep_view(), value@),
{
    let mut kept: Vec<String> = Vec::new();
    let mut i: usize = 0;
    assert(list.deep_view().take(0) =~= Seq::<Seq<char>>::empty());
    while i < list.len()
        invariant
            i <= list.len(),
            kept.deep_view() == without(list.deep_view().take(i as int), value@),
        decreases list.len() - i,
    {
        let ghost before = kept.deep_view();
        let ghost prefix = list.deep_view().take(i as int);
        let ghost keep = |entry: Seq<char>| entry != value@;
        proof {
            let next = list.deep_view().take(i + 1);
            assert(next.drop_last() =~= prefix);
            assert(next.last() == list@[i as int]@);
            reveal(Seq::filter);
            assert(next.filter(keep) == if keep(next.last()) {
                prefix.filter(keep).push(next.last())
            } else {
                prefix.filter(keep)
            });
        }
        if list[i] != *value {
            kept.push(list[i].clone());
            assert(kept.deep_view() =~= before.push(list@[i as int]@));
        }
        i += 1;
    }
    assert(list.deep_view().take(list.len() as int) =~= list.deep_view());
    kept
}

/// The filter state: whether filtering is on, the mode, and one exclusion list per mode.
/// Exactly one list is active at a time, chosen by the mode; the other is kept untouched.
#[derive(Debug)]
pub struct TrafficFilter {
    filter_enabled: bool,
    filter_type: TrafficFilterType,
    filter_list: TrafficFilterList,
}

impl View for TrafficFilter {
    type V = TrafficFilterView;

    closed spec fn view(&self) -> TrafficFilterView {
        TrafficFilterView {
            enabled: self.filter_enabled,
            mode: self.filter_type,
            allow_exclusions: self.filter_list.allow_exclusions.deep_view(),
            deny_exclusions: self.filter_list.deny_exclusions.deep_view(),
        }
    }
}

impl Clone for TrafficFilter {
    fn clone(&self) -> (copy: Self)
        ensures
            copy@ == self@,
    {
        TrafficFilter {
            filter_enabled: self.filter_enabled,
            filter_type: self.filter_type,
            filter_list: TrafficFilterList {
                allow_exclusions: clone_strings(&self.filter_list.allow_exclusions),
                deny_exclusions: clone_strings(&self.filter_list.deny_exclusions),
            },
        }
    }
}

impl Default for TrafficFilter {
    fn default() -> (filter: Self)
        ensures
            filter@ == (TrafficFilterView {
                enabled: false,
                mode: TrafficFilterType::Allow,
                allow_exclusions: Seq::empty(),
                deny_exclusions: Seq::empty(),
            }),
    {
        TrafficFilter::default()
    }
}

impl TrafficFilter {
    /// A disabled filter in `Allow` mode with both lists empty.
    pub fn default() -> (filter: Self)
        ensures
            filter@ == (TrafficFilterView {
                enabled: false,
                mode: TrafficFilterType::Allow,
                allow_exclusions: Seq::empty(),
                deny_exclusions: Seq::empty(),
            }),
    {
        let filter = TrafficFilter {
            filter_enabled: false,
            filter_type: TrafficFilterType::Allow,
            filter_list: TrafficFilterList { allow_exclusions: Vec::new(), deny_exclusions: Vec::new() },
        };
        assert(filter.filter_list.allow_exclusions.deep_view() =~= Seq::<Seq<char>>::empty());
        assert(filter.filter_list.deny_exclusions.deep_view() =~= Seq::<Seq<char>>::empty());
        filter
    }

    /// Whether filtering is on.
    pub fn get_enabled(&self) -> (enabled: bool)
        ensures
            enabled == self@.enabled,
    {
        self.filter_enabled
    }

    /// Turns filtering on or off; mode and lists stay.
    pub fn set_enabled(&mut self, active: bool)
        ensures
            final(self)@ == (TrafficFilterView { enabled: active, ..old(self)@ }),
    {
        self.filter_enabled = active
    }

    /// The current mode.
    pub fn get_filter_type(&self) -> (mode: TrafficFilterType)
        ensures
            mode == self@.mode,
    {
        self.filter_type
    }

    /// Sets the mode, which selects the active list; both lists stay.
    pub fn set_filter_type(&mut self, filter_type: TrafficFilterType)
        ensures
            final(self)@ == (TrafficFilterView { mode: filter_type, ..old(self)@ }),
    {
        self.filter_type = filter_type;
    }

    /// The mode that is not the current one.
    pub fn get_opposing_filter_type(&self) -> (mode: TrafficFilterType)
        ensures
            mode == self@.mode.opposite(),
    {
        match self.get_filter_type() {
            TrafficFilterType::Allow => TrafficFilterType::Deny,
            TrafficFilterType::Deny => TrafficFilterType::Allow,
        }
    }

    /// A copy of the active list.
    pub fn get_filter_list(&self) -> (list: Vec<String>)
        ensures
            list.deep_view() == self@.active_list(),
    {
        match self.get_filter_type() {
            TrafficFilterType::Allow => clone_strings(&self.filter_list.allow_exclusions),
            TrafficFilterType::Deny => clone_strings(&self.filter_list.deny_exclusions),
        }
    }

    /// The active list itself, for changes in place.
    pub fn get_filter_list_mut(&mut self) -> (list: &mut Vec<String>)
        ensures
            list.deep_view() == old(self)@.active_list(),
            final(self)@ == old(self)@.with_active_list(final(list).deep_view()),
    {
        match self.filter_type {
            TrafficFilterType::Allow => &mut self.filter_list.allow_exclusions,
            TrafficFilterType::Deny => &mut self.filter_list.deny_exclusions,
        }
    }

    /// Replaces the active list wholesale.
    pub fn set_filter_list(&mut self, list: Vec<String>)
        ensures
            final(self)@ == old(self)@.with_active_list(list.deep_view()),
    {
        match self.get_filter_type() {
            TrafficFilterType::Allow => self.filter_list.allow_exclusions = list,
            TrafficFilterType::Deny => self.filter_list.deny_exclusions = list,
        }
    }

    /// Whether some entry of the active list matches `uri`.
    pub fn in_filter_list(&self, uri: &String) -> (found: bool)
        ensures
            found == self@.in_filter_list(uri@),
    {
        match self.filter_type {
            TrafficFilterType::Allow => list_matches_uri(
                &self.filter_list.allow_exclusions,
                uri.as_str(),
            ),
            TrafficFilterType::Deny => list_matches_uri(
                &self.filter_list.deny_exclusions,
                uri.as_str(),
            ),
        }
    }

    /// Toggles membership of `value` in the active list: where some entry matches
    /// `value`, the entries equal to it leave; where none does, `value` joins at the end.
    pub fn update_filter_list(&mut self, value: String)
        ensures
            final(self)@ == old(self)@.updated(value@),
    {
        if self.in_filter_list(&value) {
            match self.filter_type {
                TrafficFilterType::Allow => {
                    let kept = remove_equal(&self.filter_list.allow_exclusions, &value);
                    self.filter_list.allow_exclusions = kept;
                },
                TrafficFilterType::Deny => {
                    let kept = remove_equal(&self.filter_list.deny_exclusions, &value);
                    self.filter_list.deny_exclusions = kept;
                },
            }
        } else {
            let ghost before = self@.active_list();
            match self.filter_type {
                TrafficFilterType::Allow => {
                    self.filter_list.allow_exclusions.push(value);
                    assert(self.filter_list.allow_exclusions.deep_view() =~= before.push(value@));
                },
                TrafficFilterType::Deny => {
                    self.filter_list.deny_exclusions.push(value);
                    assert(self.filter_list.deny_exclusions.deep_view() =~= before.push(value@));
                },
            }
        }
    }

    /// Overwrites the entry at `index` of the active list with `value`.
    pub fn update_filter_list_item(&mut self, index: usize, value: String)
        requires
            index < old(self)@.active_list().len(),
        ensures
            final(self)@ == old(self)@.with_active_list(
                old(self)@.active_list().update(index as int, value@),
            ),
    {
        let ghost before = self@.active_list();
        match self.filter_type {
            TrafficFilterType::Allow => {
                self.filter_list.allow_exclusions[index] = value;
                assert(self.filter_list.allow_exclusions.deep_view() =~= before.update(
                    index as int,
                    value@,
                ));
            },
            TrafficFilterType::Deny => {
                self.filter_list.deny_exclusions[index] = value;
                assert(self.filter_list.deny_exclusions.deep_view() =~= before.update(
                    index as int,
                    value@,
                ));
            },
        }
    }

    /// The authorization decision for one request target.
    pub fn is_blocked(&self, uri: &String) -> (blocked: bool)
        ensures
            blocked == self@.blocks(uri@),
    {
        if !self.get_enabled() {
            return false;
        }
        let excluded = self.in_filter_list(uri);
        let blocking = self.is_blocking();
        (excluded && !blocking) || (!excluded && blocking)
    }

    /// Whether the default policy rejects: true in `Deny` mode only.
    pub fn is_blocking(&self) -> (blocking: bool)
        ensures
            blocking == (self@.mode == TrafficFilterType::Deny),
    {
        match self.get_filter_type() {
            TrafficFilterType::Allow => false,
            TrafficFilterType::Deny => true,
        }
    }
}

} // verus!
