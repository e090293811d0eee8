//! The selection policy: preference first, declared order otherwise.

use vstd::prelude::*;
use crate::descriptor::{DescriptorView, ProgramDescriptor};
use crate::availability::{
    available, available_among, AvailabilityMap, AvailabilityView, SelectionResult, SelectionView,
};

verus! {

/// No candidate of a family resolved on the search path.
#[derive(Debug)]
pub struct NoProgramAvailable {
    /// The family that was being resolved.
    pub family: String,
}

impl View for NoProgramAvailable {
    type V = Seq<char>;

    open spec fn view(&self) -> Seq<char> {
        self.family@
    }
}

impl NoProgramAvailable {
    /// The failure as a sentence that names the family.
    pub fn message(&self) -> (text: String)
        ensures
            text@ == "No available "@ + self@ + " found"@,
    {
        let text = String::from_str("No available ");
        let text = text.concat(self.family.as_str());
        text.concat(" found")
    }
}

/// Mathematical model of a [`Selection`].
pub enum SelectionPlan {
    Single(SelectionView),
    Both(SelectionView, SelectionView),
}

/// What the policy decided to run: one program, or two programs one after
/// the other.
#[derive(Debug)]
pub enum Selection {
    /// A single program.
    Single(SelectionResult),
    /// Two independent programs, to be run in this order.
    Both(SelectionResult, SelectionResult),
}

impl View for Selection {
    type V = SelectionPlan;

    open spec fn view(&self) -> SelectionPlan {
        match self {
            Selection::Single(only) => SelectionPlan::Single(only@),
            Selection::Both(first, second) => SelectionPlan::Both(first@, second@),
        }
    }
}

impl Clone for Selection {
    fn clone(&self) -> (copy: Selection)
        ensures
            copy@ == self@,
    {
        match self {
            Selection::Single(only) => Selection::Single(only.clone()),
            Selection::Both(first, second) => Selection::Both(first.clone(), second.clone()),
        }
    }
}

/// Whether some entry is for exactly the descriptor `wanted`.
pub open spec fn is_present(entries: Seq<SelectionView>, wanted: DescriptorView) -> bool {
    exists|i: int| 0 <= i < entries.len() && #[trigger] entries[i].descriptor == wanted
}

/// Whether `index` is the position of the first entry for `wanted`.
pub open spec fn is_first_entry_for(
    entries: Seq<SelectionView>,
    wanted: DescriptorView,
    index: int,
) -> bool {
    &&& 0 <= index < entries.len()
    &&& entries[index].descriptor == wanted
    &&& forall|j: int| 0 <= j < index ==> #[trigger] entries[j].descriptor != wanted
}

/// The entry that the policy picks from a non-empty list: the first entry for
/// the preferred descriptor where that descriptor is present, the first entry
/// of the list otherwise.
pub open spec fn selected(
    entries: Seq<SelectionView>,
    preferred: Option<DescriptorView>,
) -> SelectionView
    recommends
        entries.len() > 0,
{
    match preferred {
        Some(wanted) => if is_present(entries, wanted) {
            entries[choose|index: int| is_first_entry_for(entries, wanted, index)]
        } else {
            entries[0]
        },
        None => entries[0],
    }
}

/// The outcome of the policy on a whole availability map.
pub open spec fn select_spec(
    available: AvailabilityView,
    preferred: Option<DescriptorView>,
) -> Result<SelectionView, Seq<char>> {
    if available.entries.len() == 0 {
        Err(available.family)
    } else {
        Ok(selected(available.entries, preferred))
    }
}

/// What to do when a preferred descriptor is not available.
#[derive(Debug, Clone, Copy, PartialEq, Eq, Structural)]
pub enum PreferencePolicy {
    /// Fall back to the first available entry, silently.
    FallBack,
    /// Fail rather than run another program than the preferred one.
    Insist,
}

/// The outcome of the selection under a policy for preferences that are not
/// available. Where the caller insists on a preference that is not present,
/// the selection fails and names the family; in every other case the policy
/// makes no difference.
pub open spec fn select_under_spec(
    available: AvailabilityView,
    preferred: Option<DescriptorView>,
    policy: PreferencePolicy,
) -> Result<SelectionView, Seq<char>> {
    if policy == PreferencePolicy::Insist && preferred is Some && !is_present(
        available.entries,
        preferred->Some_0,
    ) {
        Err(available.family)
    } else {
        select_spec(available, preferred)
    }
}

/// The outcome of the policy on a pair of maps that are to be run together:
/// both picks where both maps have an entry, the one pick where only one map
/// has, and a failure that names the first family where neither has.
pub open spec fn select_both_spec(
    first: AvailabilityView,
    first_preferred: Option<DescriptorView>,
    second: AvailabilityView,
    second_preferred: Option<DescriptorView>,
) -> Result<SelectionPlan, Seq<char>> {
    if first.entries.len() > 0 && second.entries.len() > 0 {
        Ok(
            SelectionPlan::Both(
                selected(first.entries, first_preferred),
                selected(second.entries, second_preferred),
            ),
        )
    } else if first.entries.len() > 0 {
        Ok(SelectionPlan::Single(selected(first.entries, first_preferred)))
    } else if second.entries.len() > 0 {
        Ok(SelectionPlan::Single(selected(second.entries, second_preferred)))
    } else {
        Err(first.family)
    }
}

/// The model of an optional reference to a descriptor.
pub open spec fn preference(preferred: Option<&ProgramDescriptor>) -> Option<DescriptorView> {
    match preferred {
        Some(wanted) => Some(wanted@),
        None => None,
    }
}

/// The model of the result of a selection.
pub open spec fn outcome_view(
    outcome: Result<SelectionResult, NoProgramAvailable>,
) -> Result<SelectionView, Seq<char>> {
    match outcome {
        Ok(selection) => Ok(selection@),
        Err(failure) => Err(failure@),
    }
}

/// The model of the result of a combined selection.
pub open spec fn plan_view(outcome: Result<Selection, NoProgramAvailable>) -> Result<
    SelectionPlan,
    Seq<char>,
> {
    match outcome {
        Ok(selection) => Ok(selection@),
        Err(failure) => Err(failure@),
    }
}

/// Picks exactly one program from `available`: the preferred descriptor if it
/// is present, otherwise the first entry in declared order. Fails, naming the
/// family, exactly when nothing is available.
pub fn select(available: &AvailabilityMap, preferred: Option<&ProgramDescriptor>) -> (outcome:
    Result<SelectionResult, NoProgramAvailable>)
    ensures
        outcome is Err <==> available@.entries.len() == 0,
        outcome_view(outcome) == select_spec(available@, preference(preferred)),
{
    if let Some(wanted) = preferred {
        if let Some(index) = available.position(wanted) {
            if let Some(entry) = available.get(index) {
                proof {
                    lemma_first_entry_is_unique(available@.entries, wanted@, index as int);
                }
                return Ok(entry.clone());
            }
        }
    }
    match available.get(0) {
        Some(entry) => Ok(entry.clone()),
        None => Err(NoProgramAvailable { family: available.family().clone() }),
    }
}

/// Picks exactly one program from `available` as [`select`] does, but under
/// `policy`: a caller that insists gets the preferred descriptor or a failure.
pub fn select_under(
    available: &AvailabilityMap,
    preferred: Option<&ProgramDescriptor>,
    policy: PreferencePolicy,
) -> (outcome: Result<SelectionResult, NoProgramAvailable>)
    ensures
        outcome_view(outcome) == select_under_spec(available@, preference(preferred), policy),
{
    match policy {
        PreferencePolicy::FallBack => select(available, preferred),
        PreferencePolicy::Insist => {
            if let Some(wanted) = preferred {
                if available.position(wanted).is_none() {
                    return Err(NoProgramAvailable { family: available.family().clone() });
                }
            }
            select(available, preferred)
        },
    }
}

/// Picks from two maps whose programs are to be run one after the other.
pub fn select_both(
    first: &AvailabilityMap,
    first_preferred: Option<&ProgramDescriptor>,
    second: &AvailabilityMap,
    second_preferred: Option<&ProgramDescriptor>,
) -> (outcome: Result<Selection, NoProgramAvailable>)
    ensures
        plan_view(outcome) == select_both_spec(
            first@,
            preference(first_preferred),
            second@,
            preference(second_preferred),
        ),
{
    match select(first, first_preferred) {
        Ok(one) => match select(second, second_preferred) {
            Ok(other) => Ok(Selection::Both(one, other)),
            Err(_) => Ok(Selection::Single(one)),
        },
        Err(failure) => match select(second, second_preferred) {
            Ok(other) => Ok(Selection::Single(other)),
            Err(_) => Err(failure),
        },
    }
}

/// Order stability: without a preference the first available entry is
/// selected.
pub proof fn lemma_first_available_is_selected(available: AvailabilityView)
    requires
        available.entries.len() > 0,
    ensures
        select_spec(available, None) == Ok::<SelectionView, Seq<char>>(available.entries[0]),
{
}

/// Order stability, from the table: without a preference the descriptor that
/// is selected is the first-declared one that resolved, with its path.
pub proof fn lemma_first_declared_available_is_selected(
    family: Seq<char>,
    descriptors: Seq<DescriptorView>,
    resolutions: Seq<Option<Seq<char>>>,
    first: int,
)
    requires
        resolutions.len() == descriptors.len(),
        0 <= first < descriptors.len(),
        resolutions[first] is Some,
        forall|j: int| 0 <= j < first ==> resolutions[j] is None,
    ensures
        select_spec(
            AvailabilityView { family, entries: available(descriptors, resolutions) },
            None,
        ) == Ok::<SelectionView, Seq<char>>(
            SelectionView { descriptor: descriptors[first], path: resolutions[first]->Some_0 },
        ),
{
    lemma_first_resolved_leads(descriptors, resolutions, first, descriptors.len());
}

/// The entries of the first `count` descriptors start with the first one that
/// resolved, once `count` reaches past it.
proof fn lemma_first_resolved_leads(
    descriptors: Seq<DescriptorView>,
    resolutions: Seq<Option<Seq<char>>>,
    first: int,
    count: nat,
)
    requires
        resolutions.len() == descriptors.len(),
        0 <= first < descriptors.len(),
        resolutions[first] is Some,
        forall|j: int| 0 <= j < first ==> resolutions[j] is None,
        count <= descriptors.len(),
    ensures
        count <= first ==> available_among(descriptors, resolutions, count).len() == 0,
        count > first ==> available_among(descriptors, resolutions, count).len() > 0
            && available_among(descriptors, resolutions, count)[0] == (SelectionView {
            descriptor: descriptors[first],
            path: resolutions[first]->Some_0,
        }),
    decreases count,
{
    if count > 0 {
        lemma_first_resolved_leads(descriptors, resolutions, first, (count - 1) as nat);
    }
}

/// Every descriptor that resolved has an entry.
pub proof fn lemma_resolved_is_present(
    descriptors: Seq<DescriptorView>,
    resolutions: Seq<Option<Seq<char>>>,
    index: int,
)
    requires
        resolutions.len() == descriptors.len(),
        0 <= index < descriptors.len(),
        resolutions[index] is Some,
    ensures
        is_present(available(descriptors, resolutions), descriptors[index]),
{
    lemma_resolved_stays_present(descriptors, resolutions, index, descriptors.len());
}

/// A descriptor that resolved has an entry among the first `count`, once
/// `count` reaches past it.
proof fn lemma_resolved_stays_present(
    descriptors: Seq<DescriptorView>,
    resolutions: Seq<Option<Seq<char>>>,
    index: int,
    count: nat,
)
    requires
        resolutions.len() == descriptors.len(),
        0 <= index < descriptors.len(),
        resolutions[index] is Some,
        index < count <= descriptors.len(),
    ensures
        is_present(available_among(descriptors, resolutions, count), descriptors[index]),
    decreases count,
{
    let entries = available_among(descriptors, resolutions, count);
    let before = available_among(descriptors, resolutions, (count - 1) as nat);
    if count - 1 == index {
        assert(entries == before.push(
            SelectionView { descriptor: descriptors[index], path: resolutions[index]->Some_0 },
        ));
        assert(entries[before.len() as int].descriptor == descriptors[index]);
    } else {
        lemma_resolved_stays_present(descriptors, resolutions, index, (count - 1) as nat);
        let at = choose|i: int|
            0 <= i < before.len() && #[trigger] before[i].descriptor == descriptors[index];
        assert(entries[at] == before[at]);
        assert(entries[at].descriptor == descriptors[index]);
    }
}

/// Preference override: a preferred descriptor that is present is the one
/// selected, wherever it stands in the declared order.
pub proof fn lemma_present_preference_is_selected(
    available: AvailabilityView,
    wanted: DescriptorView,
)
    requires
        is_present(available.entries, wanted),
    ensures
        select_spec(available, Some(wanted)) is Ok,
        select_spec(available, Some(wanted))->Ok_0.descriptor == wanted,
        available.entries.contains(select_spec(available, Some(wanted))->Ok_0),
{
    let at = choose|i: int|
        0 <= i < available.entries.len() && #[trigger] available.entries[i].descriptor == wanted;
    lemma_first_entry_exists(available.entries, wanted, at);
    let first = choose|index: int| is_first_entry_for(available.entries, wanted, index);
    assert(available.entries[first] == selected(available.entries, Some(wanted)));
}

/// Preference override, from the table: a preferred descriptor of the table
/// that resolved is the one selected, whatever was declared before it.
pub proof fn lemma_resolved_preference_is_selected(
    family: Seq<char>,
    descriptors: Seq<DescriptorView>,
    resolutions: Seq<Option<Seq<char>>>,
    index: int,
)
    requires
        resolutions.len() == descriptors.len(),
        0 <= index < descriptors.len(),
        resolutions[index] is Some,
    ensures
        select_spec(
            AvailabilityView { family, entries: available(descriptors, resolutions) },
            Some(descriptors[index]),
        ) is Ok,
        select_spec(
            AvailabilityView { family, entries: available(descriptors, resolutions) },
            Some(descriptors[index]),
        )->Ok_0.descriptor == descriptors[index],
{
    lemma_resolved_is_present(descriptors, resolutions, index);
    lemma_present_preference_is_selected(
        AvailabilityView { family, entries: available(descriptors, resolutions) },
        descriptors[index],
    );
}

/// A preference that is not present counts for nothing: the selection is the
/// one that is made without a preference.
pub proof fn lemma_absent_preference_falls_back(available: AvailabilityView, wanted: DescriptorView)
    requires
        !is_present(available.entries, wanted),
    ensures
        select_spec(available, Some(wanted)) == select_spec(available, None),
{
}

/// Under the policy to insist, a preference is either selected or the
/// selection fails: no other program is ever chosen in its place.
pub proof fn lemma_insisting_never_substitutes(
    available: AvailabilityView,
    wanted: DescriptorView,
)
    ensures
        match select_under_spec(available, Some(wanted), PreferencePolicy::Insist) {
            Ok(chosen) => chosen.descriptor == wanted,
            Err(family) => family == available.family && !is_present(available.entries, wanted),
        },
{
    if is_present(available.entries, wanted) {
        lemma_present_preference_is_selected(available, wanted);
    }
}

/// With nothing available the selection fails and names the family, whatever
/// the preference.
pub proof fn lemma_nothing_available_fails(
    available: AvailabilityView,
    preferred: Option<DescriptorView>,
)
    requires
        available.entries.len() == 0,
    ensures
        select_spec(available, preferred) == Err::<SelectionView, Seq<char>>(available.family),
{
}

/// Where some entry is for `wanted`, one of them is the first.
proof fn lemma_first_entry_exists(entries: Seq<SelectionView>, wanted: DescriptorView, at: int)
    requires
        0 <= at < entries.len(),
        entries[at].descriptor == wanted,
    ensures
        exists|index: int| is_first_entry_for(entries, wanted, index),
    decreases at,
{
    if exists|j: int| 0 <= j < at && #[trigger] entries[j].descriptor == wanted {
        let earlier = choose|j: int| 0 <= j < at && #[trigger] entries[j].descriptor == wanted;
        lemma_first_entry_exists(entries, wanted, earlier);
    } else {
        assert(is_first_entry_for(entries, wanted, at));
    }
}

/// A descriptor has at most one first entry, so naming one names the choice.
pub proof fn lemma_first_entry_is_unique(
    entries: Seq<SelectionView>,
    wanted: DescriptorView,
    index: int,
)
    requires
        is_first_entry_for(entries, wanted, index),
    ensures
        is_present(entries, wanted),
        (choose|other: int| is_first_entry_for(entries, wanted, other)) == index,
{
    let other = choose|other: int| is_first_entry_for(entries, wanted, other);
    assert(is_first_entry_for(entries, wanted, other));
    if other < index {
        assert(entries[other].descriptor != wanted);
    }
    if index < other {
        assert(entries[index].descriptor != wanted);
    }
}

} // verus!
