//! The availability prober: which candidates of a table are installed.

use vstd::prelude::*;
use crate::descriptor::{DescriptorView, ProgramDescriptor};

verus! {

/// Mathematical model of a [`ProgramTable`].
pub struct TableView {
    pub family: Seq<char>,
    pub descriptors: Seq<DescriptorView>,
}

/// The candidate programs of one family, in priority order: the program
/// declared first is the one chosen when nothing else decides.
#[derive(Debug)]
pub struct ProgramTable {
    /// What the table is for, such as `AUR helper`. Names the family in
    /// failure reports.
    pub family: String,
    /// The candidates, first-declared first.
    pub descriptors: Vec<ProgramDescriptor>,
}

impl View for ProgramTable {
    type V = TableView;

    open spec fn view(&self) -> TableView {
        TableView { family: self.family@, descriptors: self.descriptors.deep_view() }
    }
}

impl DeepView for ProgramTable {
    type V = TableView;

    open spec fn deep_view(&self) -> TableView {
        self@
    }
}

/// Mathematical model of a [`SelectionResult`].
pub struct SelectionView {
    pub descriptor: DescriptorView,
    pub path: Seq<char>,
}

/// A descriptor together with the path its executable resolved to.
#[derive(Debug)]
pub struct SelectionResult {
    pub descriptor: ProgramDescriptor,
    pub path: String,
}

impl View for SelectionResult {
    type V = SelectionView;

    open spec fn view(&self) -> SelectionView {
        SelectionView { descriptor: self.descriptor@, path: self.path@ }
    }
}

impl DeepView for SelectionResult {
    type V = SelectionView;

    open spec fn deep_view(&self) -> SelectionView {
        self@
    }
}

impl Clone for SelectionResult {
    fn clone(&self) -> (copy: SelectionResult)
        ensures
            copy@ == self@,
    {
        SelectionResult { descriptor: self.descriptor.clone(), path: self.path.clone() }
    }
}

/// Mathematical model of an [`AvailabilityMap`].
pub struct AvailabilityView {
    pub family: Seq<char>,
    pub entries: Seq<SelectionView>,
}

/// The descriptors of a table that resolved, each with its path, in the
/// table's declared order.
#[derive(Debug)]
pub struct AvailabilityMap {
    family: String,
    entries: Vec<SelectionResult>,
}

impl View for AvailabilityMap {
    type V = AvailabilityView;

    closed spec fn view(&self) -> AvailabilityView {
        AvailabilityView { family: self.family@, entries: self.entries.deep_view() }
    }
}

/// The entries that the first `count` descriptors of a table yield when
/// `resolutions[i]` is what the search path gave for `descriptors[i]`: the
/// resolved ones with their paths, in declared order. A descriptor without a
/// resolution counts as unresolved.
pub open spec fn available_among(
    descriptors: Seq<DescriptorView>,
    resolutions: Seq<Option<Seq<char>>>,
    count: nat,
) -> Seq<SelectionView>
    decreases count,
{
    if count == 0 {
        Seq::empty()
    } else {
        let rest = available_among(descriptors, resolutions, (count - 1) as nat);
        if count <= descriptors.len() && count <= resolutions.len() && resolutions[count
            - 1] is Some {
            rest.push(
                SelectionView {
                    descriptor: descriptors[count - 1],
                    path: resolutions[count - 1]->Some_0,
                },
            )
        } else {
            rest
        }
    }
}

/// The entries that a whole table yields under the given resolutions.
pub open spec fn available(
    descriptors: Seq<DescriptorView>,
    resolutions: Seq<Option<Seq<char>>>,
) -> Seq<SelectionView> {
    available_among(descriptors, resolutions, descriptors.len())
}

/// Whether `resolutions` is what the search path gives for the descriptors of
/// a table when `environment` maps the names of the installed executables to
/// their paths.
pub open spec fn reflects(
    resolutions: Seq<Option<Seq<char>>>,
    descriptors: Seq<DescriptorView>,
    environment: Map<Seq<char>, Seq<char>>,
) -> bool {
    &&& resolutions.len() == descriptors.len()
    &&& forall|i: int|
        0 <= i < descriptors.len() ==> #[trigger] resolutions[i] == (if environment.dom().contains(
            descriptors[i].executable_name,
        ) {
            Some(environment[descriptors[i].executable_name])
        } else {
            None
        })
}

/// The first descriptor at or after `start` whose executable is called `name`.
pub open spec fn first_named_from(
    descriptors: Seq<DescriptorView>,
    name: Seq<char>,
    start: int,
) -> Option<DescriptorView>
    decreases descriptors.len() - start,
{
    if start < 0 || start >= descriptors.len() {
        None
    } else if descriptors[start].executable_name == name {
        Some(descriptors[start])
    } else {
        first_named_from(descriptors, name, start + 1)
    }
}

/// The first descriptor whose executable is called `name`, if there is one.
pub open spec fn first_named(descriptors: Seq<DescriptorView>, name: Seq<char>) -> Option<
    DescriptorView,
> {
    first_named_from(descriptors, name, 0)
}

/// Whether `map` is what probing `table` can yield: the family is the table's
/// and the entries are the table's resolved descriptors under some outcome of
/// the lookups, one per descriptor.
pub open spec fn is_probe_of(map: AvailabilityView, table: TableView) -> bool {
    &&& map.family == table.family
    &&& exists|resolutions: Seq<Option<Seq<char>>>|
        resolutions.len() == table.descriptors.len() && map.entries == #[trigger] available(
            table.descriptors,
            resolutions,
        )
}

/// Only the first `count` resolutions and descriptors matter to
/// `available_among`.
proof fn lemma_available_among_prefix(
    descriptors: Seq<DescriptorView>,
    resolutions: Seq<Option<Seq<char>>>,
    other_descriptors: Seq<DescriptorView>,
    other_resolutions: Seq<Option<Seq<char>>>,
    count: nat,
)
    requires
        count <= descriptors.len(),
        count <= other_descriptors.len(),
        count <= resolutions.len(),
        count <= other_resolutions.len(),
        forall|i: int| 0 <= i < count ==> descriptors[i] == other_descriptors[i],
        forall|i: int| 0 <= i < count ==> resolutions[i] == other_resolutions[i],
    ensures
        available_among(descriptors, resolutions, count) == available_among(
            other_descriptors,
            other_resolutions,
            count,
        ),
    decreases count,
{
    if count > 0 {
        lemma_available_among_prefix(
            descriptors,
            resolutions,
            other_descriptors,
            other_resolutions,
            (count - 1) as nat,
        );
    }
}

/// The positions in the table of the descriptors that resolved among the
/// first `count`, in rising order.
pub open spec fn resolved_positions(
    descriptors: Seq<DescriptorView>,
    resolutions: Seq<Option<Seq<char>>>,
    count: nat,
) -> Seq<int>
    decreases count,
{
    if count == 0 {
        Seq::empty()
    } else {
        let rest = resolved_positions(descriptors, resolutions, (count - 1) as nat);
        if count <= descriptors.len() && count <= resolutions.len() && resolutions[count
            - 1] is Some {
            rest.push(count - 1)
        } else {
            rest
        }
    }
}

/// The entries of a table are its resolved descriptors and nothing else, each
/// with the path it resolved to, in the table's declared order: entry `k`
/// stands for the descriptor at the `k`-th resolved position, and the
/// positions rise.
pub proof fn lemma_entries_follow_declared_order(
    descriptors: Seq<DescriptorView>,
    resolutions: Seq<Option<Seq<char>>>,
    count: nat,
)
    ensures
        ({
            let entries = available_among(descriptors, resolutions, count);
            let positions = resolved_positions(descriptors, resolutions, count);
            &&& positions.len() == entries.len()
            &&& forall|k: int|
                0 <= k < positions.len() ==> {
                    &&& 0 <= #[trigger] positions[k] < count
                    &&& positions[k] < descriptors.len()
                    &&& positions[k] < resolutions.len()
                    &&& resolutions[positions[k]] is Some
                    &&& entries[k] == (SelectionView {
                        descriptor: descriptors[positions[k]],
                        path: resolutions[positions[k]]->Some_0,
                    })
                }
            &&& forall|j: int, k: int|
                0 <= j < k < positions.len() ==> #[trigger] positions[j] < #[trigger] positions[k]
        }),
    decreases count,
{
    if count > 0 {
        lemma_entries_follow_declared_order(descriptors, resolutions, (count - 1) as nat);
    }
}

/// Probing is idempotent: two probes of one table in one environment yield
/// identical entries.
pub proof fn lemma_probe_idempotent(
    descriptors: Seq<DescriptorView>,
    environment: Map<Seq<char>, Seq<char>>,
    first: Seq<Option<Seq<char>>>,
    second: Seq<Option<Seq<char>>>,
)
    requires
        reflects(first, descriptors, environment),
        reflects(second, descriptors, environment),
    ensures
        available(descriptors, first) == available(descriptors, second),
{
    assert(first =~= second);
}

/// The error of the `which` crate, carried through unopened.
#[verifier::external_type_specification]
#[verifier::external_body]
pub struct ExWhichError(which::Error);

/// Looks `name` up with `which::which`: on the executable search path of the
/// process, as a shell would. Hands back the path that was found, or the
/// crate's error. The answer depends on the environment and the file system,
/// so nothing is claimed about it.
#[verifier::external_body]
fn find_executable(name: &str) -> (found: Result<String, which::Error>) {
    match which::which(name) {
        Ok(path) => Ok(path.to_string_lossy().into_owned()),
        Err(error) => Err(error),
    }
}

impl ProgramTable {
    /// A table for `family` with the given candidates.
    pub fn new(family: &str, descriptors: Vec<ProgramDescriptor>) -> (table: ProgramTable)
        ensures
            table@ == (TableView { family: family@, descriptors: descriptors.deep_view() }),
    {
        ProgramTable { family: String::from_str(family), descriptors }
    }

    /// Whether the table has no candidate at all.
    pub fn is_empty(&self) -> (empty: bool)
        ensures
            empty == (self@.descriptors.len() == 0),
    {
        self.descriptors.len() == 0
    }

    /// The first descriptor whose executable is called `name`, if there is one.
    pub fn find_by_name(&self, name: &str) -> (found: Option<&ProgramDescriptor>)
        ensures
            found.deep_view() == first_named(self@.descriptors, name@),
    {
        let wanted = String::from_str(name);
        let mut i: usize = 0;
        while i < self.descriptors.len()
            invariant
                i <= self.descriptors.len(),
                wanted@ == name@,
                first_named(self@.descriptors, name@) == first_named_from(
                    self@.descriptors,
                    name@,
                    i as int,
                ),
            decreases self.descriptors.len() - i,
        {
            assert(self@.descriptors[i as int] == self.descriptors[i as int]@);
            if self.descriptors[i].executable_name == wanted {
                return Some(&self.descriptors[i]);
            }
            i += 1;
        }
        None
    }
}

impl Clone for ProgramTable {
    fn clone(&self) -> (copy: ProgramTable)
        ensures
            copy@ == self@,
    {
        let mut descriptors: Vec<ProgramDescriptor> = Vec::new();
        let mut i: usize = 0;
        while i < self.descriptors.len()
            invariant
                i <= self.descriptors.len(),
                descriptors.len() == i,
                forall|j: int| 0 <= j < i ==> descriptors[j]@ == self.descriptors[j]@,
            decreases self.descriptors.len() - i,
        {
            descriptors.push(self.descriptors[i].clone());
            i += 1;
        }
        assert(descriptors.deep_view() =~= self.descriptors.deep_view());
        ProgramTable { family: self.family.clone(), descriptors }
    }
}

impl AvailabilityMap {
    /// An empty map for `family`.
    pub fn new(family: &str) -> (map: AvailabilityMap)
        ensures
            map@ == (AvailabilityView { family: family@, entries: Seq::empty() }),
    {
        let map = AvailabilityMap { family: String::from_str(family), entries: Vec::new() };
        assert(map.entries.deep_view() =~= Seq::empty());
        map
    }

    /// Records the outcome of resolving `descriptor`: with a path it becomes
    /// the last entry of the map, without one the map stays as it is.
    pub fn record(&mut self, descriptor: &ProgramDescriptor, resolution: Option<String>)
        ensures
            final(self)@.family == old(self)@.family,
            final(self)@.entries == match resolution {
                Some(path) => old(self)@.entries.push(
                    SelectionView { descriptor: descriptor@, path: path@ },
                ),
                None => old(self)@.entries,
            },
    {
        match resolution {
            Some(path) => {
                let ghost before = self.entries.deep_view();
                self.entries.push(SelectionResult { descriptor: descriptor.clone(), path });
                assert(self.entries.deep_view() =~= before.push(
                    SelectionView { descriptor: descriptor@, path: path@ },
                ));
            },
            None => {},
        }
    }

    /// The family that was probed.
    pub fn family(&self) -> (family: &String)
        ensures
            family@ == self@.family,
    {
        &self.family
    }

    /// How many descriptors resolved.
    pub fn len(&self) -> (count: usize)
        ensures
            count == self@.entries.len(),
    {
        self.entries.len()
    }

    /// Whether no descriptor resolved.
    pub fn is_empty(&self) -> (empty: bool)
        ensures
            empty == (self@.entries.len() == 0),
    {
        self.entries.len() == 0
    }

    /// The entry at `index` in declared order, if there are that many.
    pub fn get(&self, index: usize) -> (entry: Option<&SelectionResult>)
        ensures
            match entry {
                Some(found) => index < self@.entries.len() && found@ == self@.entries[index as int],
                None => index >= self@.entries.len(),
            },
    {
        if index < self.entries.len() {
            Some(&self.entries[index])
        } else {
            None
        }
    }

    /// The position of the first entry for `descriptor`, if it resolved.
    pub fn position(&self, descriptor: &ProgramDescriptor) -> (found: Option<usize>)
        ensures
            match found {
                Some(index) => index < self@.entries.len() && self@.entries[index as int].descriptor
                    == descriptor@ && forall|j: int|
                    0 <= j < index ==> self@.entries[j].descriptor != descriptor@,
                None => forall|j: int|
                    0 <= j < self@.entries.len() ==> self@.entries[j].descriptor != descriptor@,
            },
    {
        let mut i: usize = 0;
        while i < self.entries.len()
            invariant
                i <= self.entries.len(),
                forall|j: int| 0 <= j < i ==> self@.entries[j].descriptor != descriptor@,
            decreases self.entries.len() - i,
        {
            if self.entries[i].descriptor.same_as(descriptor) {
                return Some(i);
            }
            i += 1;
        }
        None
    }
}

/// Resolves every descriptor of `table` against the executable search path
/// and collects those that resolved, in declared order. A descriptor that does
/// not resolve is left out and the rest is still probed.
pub fn probe(table: &ProgramTable) -> (map: AvailabilityMap)
    ensures
        is_probe_of(map@, table@),
{
    let mut map = AvailabilityMap::new(table.family.as_str());
    let ghost mut resolutions: Seq<Option<Seq<char>>> = Seq::empty();
    let mut i: usize = 0;
    while i < table.descriptors.len()
        invariant
            i <= table.descriptors.len(),
            resolutions.len() == i,
            map@.family == table@.family,
            map@.entries == available_among(table@.descriptors, resolutions, i as nat),
        decreases table.descriptors.len() - i,
    {
        let descriptor = &table.descriptors[i];
        let resolution = match find_executable(descriptor.executable_name.as_str()) {
            Ok(path) => Some(path),
            Err(_) => None,
        };
        proof {
            let extended = resolutions.push(resolution.deep_view());
            lemma_available_among_prefix(
                table@.descriptors,
                resolutions,
                table@.descriptors,
                extended,
                i as nat,
            );
            resolutions = extended;
        }
        map.record(descriptor, resolution);
        i += 1;
    }
    assert(map@.entries == available(table@.descriptors, resolutions));
    map
}

} // verus!
