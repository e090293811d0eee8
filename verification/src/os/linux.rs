//! Linux distributions and their package families.

use vstd::prelude::*;
use crate::os::linux::arch::Arch;
use crate::os::linux::deb::Deb;
use crate::package_manager::UpdateRoutine;
use crate::router::{request_for, FamilyRequest, RequestView};
use crate::descriptor::{described, one_argument, two_arguments, ProgramDescriptor};
use crate::availability::{ProgramTable, TableView};
use crate::config::{ArchConfig, ArchConfigView, DebConfig};

pub mod arch;
pub mod deb;

verus! {

/// The packaging family of the running Linux system.
#[derive(Debug, Clone, Copy, PartialEq, Eq, Structural)]
pub enum LinuxPackageManager {
    Arch(Arch),
    Deb(Deb),
    Unsupported,
}

/// The model of the one request that reports an ecosystem as unsupported.
pub open spec fn unsupported(family: &str) -> Seq<RequestView> {
    seq![RequestView::Unsupported { family: family@ }]
}

/// The one request that reports an ecosystem as unsupported.
pub fn report_unsupported(family: &str) -> (requests: Vec<FamilyRequest>)
    ensures
        requests.deep_view() == unsupported(family),
{
    let request = FamilyRequest::Unsupported { family: String::from_str(family) };
    let mut requests: Vec<FamilyRequest> = Vec::new();
    requests.push(request);
    assert(requests.deep_view() =~= seq![request@]);
    requests
}

impl LinuxPackageManager {
    /// The model of the requests of the system.
    pub open spec fn requested(&self) -> Seq<RequestView> {
        match self {
            LinuxPackageManager::Arch(arch) => arch.requested(),
            LinuxPackageManager::Deb(deb) => deb.requested(),
            LinuxPackageManager::Unsupported => unsupported("linux package manager"),
        }
    }

    /// The requests that update the system: those of its packaging family,
    /// or one that reports that no family is supported.
    pub fn update(&self) -> (requests: Vec<FamilyRequest>)
        ensures
            requests.deep_view() == self.requested(),
    {
        match self {
            LinuxPackageManager::Arch(arch) => arch.update(),
            LinuxPackageManager::Deb(deb) => deb.update(),
            LinuxPackageManager::Unsupported => report_unsupported("linux package manager"),
        }
    }
}

/// The model of the table of the programs that update the official
/// repositories and the user repository of an Arch system in one go.
pub open spec fn arch_combined_table() -> TableView {
    TableView {
        family: "Arch"@,
        descriptors: seq![
            described("Pamac", "pamac", seq!["upgrade"@, "--aur --devel"@], false),
            described("Yay", "yay", seq!["-Syu"@], false),
            described("Paru", "paru", seq!["-Syu"@], false),
        ],
    }
}

/// The model of the table for the official repositories of an Arch system.
pub open spec fn arch_official_table() -> TableView {
    TableView {
        family: "Arch official repositories"@,
        descriptors: seq![
            described("Pacman", "pacman", seq!["-Syu"@], true),
            described("Pamac", "pamac", seq!["upgrade"@], true),
        ],
    }
}

/// The model of the table for the user repository of an Arch system.
pub open spec fn arch_aur_table() -> TableView {
    TableView {
        family: "Arch user repository"@,
        descriptors: seq![
            described("Yay", "yay", seq!["-Sua"@], false),
            described("Paru", "paru", seq!["-Sua"@], false),
        ],
    }
}

/// The model of the table for a Debian system.
pub open spec fn deb_table() -> TableView {
    TableView {
        family: "Deb"@,
        descriptors: seq![
            described("Apt", "apt", seq!["upgrade"@], true),
            described("Aptitude", "aptitude", seq!["upgrade"@], true),
        ],
    }
}

/// The model of the requests that an Arch configuration makes.
///
/// Where both the official repositories and the user repository are switched
/// on, one program updates both and the preference for the user repository
/// decides. Otherwise each of the two that is switched on is a family of its
/// own, the official repositories first.
pub open spec fn arch_requests(config: ArchConfigView) -> Seq<RequestView> {
    if config.official && config.aur {
        seq![request_for(arch_combined_table(), config.preferred_program_aur)]
    } else if config.official {
        seq![request_for(arch_official_table(), config.preferred_program_official)]
    } else if config.aur {
        seq![request_for(arch_aur_table(), config.preferred_program_aur)]
    } else {
        Seq::empty()
    }
}

/// The model of the requests that a Debian configuration makes.
pub open spec fn deb_requests(preferred: Option<Seq<char>>) -> Seq<RequestView> {
    seq![request_for(deb_table(), preferred)]
}

/// A list of the one request.
pub fn one_request(request: FamilyRequest) -> (requests: Vec<FamilyRequest>)
    ensures
        requests.deep_view() == seq![request@],
{
    let mut requests: Vec<FamilyRequest> = Vec::new();
    requests.push(request);
    assert(requests.deep_view() =~= seq![request@]);
    requests
}

/// The requests that update an Arch system as `config` asks.
pub fn update_arch(config: ArchConfig) -> (requests: Vec<FamilyRequest>)
    ensures
        requests.deep_view() == arch_requests(config@),
{
    if config.official && config.aur {
        let mut descriptors: Vec<ProgramDescriptor> = Vec::new();
        descriptors.push(
            ProgramDescriptor::new(
                "Pamac",
                "pamac",
                two_arguments("upgrade", "--aur --devel"),
                false,
            ),
        );
        descriptors.push(ProgramDescriptor::new("Yay", "yay", one_argument("-Syu"), false));
        descriptors.push(ProgramDescriptor::new("Paru", "paru", one_argument("-Syu"), false));
        assert(descriptors.deep_view() =~= arch_combined_table().descriptors);
        one_request(
            FamilyRequest::single(
                ProgramTable::new("Arch", descriptors),
                &config.preferred_program_aur,
            ),
        )
    } else if config.official {
        let mut descriptors: Vec<ProgramDescriptor> = Vec::new();
        descriptors.push(ProgramDescriptor::new("Pacman", "pacman", one_argument("-Syu"), true));
        descriptors.push(ProgramDescriptor::new("Pamac", "pamac", one_argument("upgrade"), true));
        assert(descriptors.deep_view() =~= arch_official_table().descriptors);
        one_request(
            FamilyRequest::single(
                ProgramTable::new("Arch official repositories", descriptors),
                &config.preferred_program_official,
            ),
        )
    } else if config.aur {
        let mut descriptors: Vec<ProgramDescriptor> = Vec::new();
        descriptors.push(ProgramDescriptor::new("Yay", "yay", one_argument("-Sua"), false));
        descriptors.push(ProgramDescriptor::new("Paru", "paru", one_argument("-Sua"), false));
        assert(descriptors.deep_view() =~= arch_aur_table().descriptors);
        one_request(
            FamilyRequest::single(
                ProgramTable::new("Arch user repository", descriptors),
                &config.preferred_program_aur,
            ),
        )
    } else {
        let requests: Vec<FamilyRequest> = Vec::new();
        assert(requests.deep_view() =~= Seq::empty());
        requests
    }
}

/// The requests that update a Debian system as `config` asks.
pub fn update_deb(config: DebConfig) -> (requests: Vec<FamilyRequest>)
    ensures
        requests.deep_view() == deb_requests(config@),
{
    let mut descriptors: Vec<ProgramDescriptor> = Vec::new();
    descriptors.push(ProgramDescriptor::new("Apt", "apt", one_argument("upgrade"), true));
    descriptors.push(ProgramDescriptor::new("Aptitude", "aptitude", one_argument("upgrade"), true));
    assert(descriptors.deep_view() =~= deb_table().descriptors);
    one_request(
        FamilyRequest::single(ProgramTable::new("Deb", descriptors), &config.preferred_program),
    )
}

/// A Linux system as far as it can be updated.
#[derive(Debug, Clone, Copy, PartialEq, Eq, Structural)]
pub enum Linux {
    Arch(Arch),
    Unsupported,
}

impl UpdateRoutine for Linux {
    open spec fn requested(&self) -> Seq<RequestView> {
        match self {
            Linux::Arch(arch) => arch.requested(),
            Linux::Unsupported => unsupported("linux system"),
        }
    }

    fn update(&self) -> (requests: Vec<FamilyRequest>) {
        match self {
            Linux::Arch(arch) => arch.update(),
            Linux::Unsupported => report_unsupported("linux system"),
        }
    }
}

} // verus!
