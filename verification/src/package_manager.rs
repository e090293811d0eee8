//! Families whose programs are the variants of an enumeration.
//!
//! Such a family names its programs by an enum and describes each of them by
//! a [`ProgramDescriptor`]; probing, selection and execution then work on the
//! descriptors alone.

use vstd::prelude::*;
use crate::descriptor::{DescriptorView, ProgramDescriptor};
use crate::availability::{is_probe_of, probe, ProgramTable, SelectionResult, TableView};
use crate::selection::{outcome_view, select, select_spec, NoProgramAvailable};
use crate::router::{FamilyRequest, RequestView};

verus! {

/// A program that updates packages with one fixed instruction.
pub trait PackageManager: Sized + Copy {
    /// The model of the program's descriptor.
    spec fn described(&self) -> DescriptorView;

    /// The name of the program's executable.
    fn executable_name(&self) -> (name: String)
        ensures
            name@ == self.described().executable_name,
    ;

    /// The arguments that make the program update everything, as the one
    /// argument that is handed to it.
    fn update_instruction(&self) -> (instruction: String)
        ensures
            self.described().update_args == seq![instruction@],
    ;

    /// The program's descriptor.
    fn descriptor(&self) -> (descriptor: ProgramDescriptor)
        ensures
            descriptor@ == self.described(),
    ;
}

/// A family whose programs can be listed and looked up on the search path.
pub trait Available: PackageManager {
    /// The name of the family.
    spec fn family_name() -> Seq<char>;

    /// The programs of the family, in priority order.
    spec fn every() -> Seq<Self>;

    /// The name of the family, as it stands in failure reports.
    fn available_name() -> (name: String)
        ensures
            name@ == Self::family_name(),
    ;

    /// The programs of the family, in priority order.
    fn all() -> (programs: Vec<Self>)
        ensures
            programs@ == Self::every(),
    ;

    /// The descriptor table of the family: one descriptor per program, in
    /// priority order.
    fn table() -> (table: ProgramTable)
        ensures
            table@ == candidates(Self::family_name(), Self::every()),
    {
        let programs = Self::all();
        let mut descriptors: Vec<ProgramDescriptor> = Vec::new();
        let mut i: usize = 0;
        while i < programs.len()
            invariant
                i <= programs.len(),
                programs@ == Self::every(),
                descriptors.len() == i,
                forall|j: int| 0 <= j < i ==> descriptors[j]@ == Self::every()[j].described(),
            decreases programs.len() - i,
        {
            descriptors.push(programs[i].descriptor());
            i += 1;
        }
        let name = Self::available_name();
        assert(descriptors.deep_view() =~= candidates(
            Self::family_name(),
            Self::every(),
        ).descriptors);
        ProgramTable::new(name.as_str(), descriptors)
    }

    /// Probes the family and picks one program: `preferred` if it is
    /// installed, otherwise the first that is. Fails, naming the family, when
    /// none is installed.
    fn available(preferred: Option<Self>) -> (outcome: Result<SelectionResult, NoProgramAvailable>)
        ensures
            exists|map: crate::availability::AvailabilityView|
                is_probe_of(map, candidates(Self::family_name(), Self::every()))
                    && outcome_view(outcome) == #[trigger] select_spec(
                    map,
                    preferred_of(preferred),
                ),
    {
        let table = Self::table();
        let map = probe(&table);
        match preferred {
            Some(program) => {
                let wanted = program.descriptor();
                select(&map, Some(&wanted))
            },
            None => select(&map, None),
        }
    }
}

/// The model of the descriptor table of a family with the given name and
/// programs: one descriptor per program, in priority order.
pub open spec fn candidates<M: PackageManager>(family: Seq<char>, programs: Seq<M>) -> TableView {
    TableView { family, descriptors: Seq::new(programs.len(), |i: int| programs[i].described()) }
}

/// The model of an optional preferred program.
pub open spec fn preferred_of<M: PackageManager>(preferred: Option<M>) -> Option<DescriptorView> {
    match preferred {
        Some(program) => Some(program.described()),
        None => None,
    }
}

/// Something that knows which families it wants updated.
pub trait UpdateRoutine {
    /// The model of the requests that the routine makes.
    spec fn requested(&self) -> Seq<RequestView>;

    /// The requests to hand to the router, in the order in which they are to
    /// be attempted.
    fn update(&self) -> (requests: Vec<FamilyRequest>)
        ensures
            requests.deep_view() == self.requested(),
    ;
}

} // verus!
