//! Debian and its derivatives.

use vstd::prelude::*;
use crate::descriptor::{described, one_argument, DescriptorView, ProgramDescriptor};
use crate::package_manager::{candidates, preferred_of, Available, PackageManager, UpdateRoutine};
use crate::router::{FamilyRequest, RequestView};
use crate::selection::PreferencePolicy;

verus! {

/// The programs that update the packages of a Debian system.
#[derive(Debug, Copy, Clone, PartialEq, Eq, Hash, Structural)]
pub enum DebPackageManager {
    Apt,
    Aptitude,
}

impl PackageManager for DebPackageManager {
    open spec fn described(&self) -> DescriptorView {
        match self {
            DebPackageManager::Apt => described("Apt", "apt", seq!["update"@], true),
            DebPackageManager::Aptitude => described("Aptitude", "aptitude", seq!["update"@], true),
        }
    }

    fn executable_name(&self) -> (name: String) {
        match self {
            DebPackageManager::Apt => String::from_str("apt"),
            DebPackageManager::Aptitude => String::from_str("aptitude"),
        }
    }

    fn update_instruction(&self) -> (instruction: String) {
        String::from_str("update")
    }

    fn descriptor(&self) -> (descriptor: ProgramDescriptor) {
        match self {
            DebPackageManager::Apt => ProgramDescriptor::new(
                "Apt",
                "apt",
                one_argument("update"),
                true,
            ),
            DebPackageManager::Aptitude => ProgramDescriptor::new(
                "Aptitude",
                "aptitude",
                one_argument("update"),
                true,
            ),
        }
    }
}

impl Available for DebPackageManager {
    open spec fn family_name() -> Seq<char> {
        "apt package manager"@
    }

    open spec fn every() -> Seq<DebPackageManager> {
        seq![DebPackageManager::Apt, DebPackageManager::Aptitude]
    }

    fn available_name() -> (name: String) {
        String::from_str("apt package manager")
    }

    fn all() -> (programs: Vec<DebPackageManager>) {
        let mut programs: Vec<DebPackageManager> = Vec::new();
        programs.push(DebPackageManager::Apt);
        programs.push(DebPackageManager::Aptitude);
        assert(programs@ =~= Self::every());
        programs
    }
}

impl DebPackageManager {
    /// The family's name as it starts a sentence.
    pub fn up_case_name() -> (name: String)
        ensures
            name@ == "Apt"@,
    {
        String::from_str("Apt")
    }
}

/// What to update on a Debian system: its packages, always.
#[derive(Debug, Clone, Copy, PartialEq, Eq, Structural)]
pub struct Deb;

impl Deb {
    /// The program that is preferred where the configuration names none.
    pub fn preferred_package_manager() -> (preferred: Option<DebPackageManager>)
        ensures
            preferred == Some(DebPackageManager::Apt),
    {
        Some(DebPackageManager::Apt)
    }
}

/// The model of the request of a Debian system.
pub open spec fn deb_request() -> RequestView {
    RequestView::Single {
        table: candidates(DebPackageManager::family_name(), DebPackageManager::every()),
        preferred: preferred_of(Some(DebPackageManager::Apt)),
        policy: PreferencePolicy::FallBack,
    }
}

impl UpdateRoutine for Deb {
    open spec fn requested(&self) -> Seq<RequestView> {
        seq![deb_request()]
    }

    fn update(&self) -> (requests: Vec<FamilyRequest>) {
        let request = FamilyRequest::Single {
            table: DebPackageManager::table(),
            preferred: match Deb::preferred_package_manager() {
                Some(program) => Some(program.descriptor()),
                None => None,
            },
            policy: PreferencePolicy::FallBack,
        };
        let mut requests: Vec<FamilyRequest> = Vec::new();
        requests.push(request);
        assert(requests.deep_view() =~= seq![request@]);
        requests
    }
}

} // verus!
