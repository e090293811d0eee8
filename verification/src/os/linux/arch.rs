//! Arch Linux: the official repositories and the user repository.

use vstd::prelude::*;
use crate::descriptor::{described, one_argument, DescriptorView, ProgramDescriptor};
use crate::availability::{ProgramTable, TableView};
use crate::package_manager::{candidates, preferred_of, Available, PackageManager, UpdateRoutine};
use crate::router::{only, FamilyRequest, RequestView};
use crate::selection::PreferencePolicy;

verus! {

/// The helpers that update packages of the Arch user repository.
#[derive(Debug, Copy, Clone, PartialEq, Eq, Hash, Structural)]
pub enum AurPackageManager {
    Yay,
    AurUtils,
    Pikaur,
    Paru,
    Pamac,
}

impl PackageManager for AurPackageManager {
    open spec fn described(&self) -> DescriptorView {
        match self {
            AurPackageManager::Yay => described("Yay", "yay", seq!["-Syu --aur"@], false),
            AurPackageManager::AurUtils => described("Aurutils", "aur", seq!["sync -u"@], false),
            AurPackageManager::Pikaur => described("Pikaur", "pikaur", seq!["-Sua"@], false),
            AurPackageManager::Paru => described("Paru", "paru", seq!["-Sua"@], false),
            AurPackageManager::Pamac => described("Pamac", "pamac", seq!["upgrade"@], false),
        }
    }

    fn executable_name(&self) -> (name: String) {
        match self {
            AurPackageManager::Yay => String::from_str("yay"),
            AurPackageManager::AurUtils => String::from_str("aur"),
            AurPackageManager::Pikaur => String::from_str("pikaur"),
            AurPackageManager::Paru => String::from_str("paru"),
            AurPackageManager::Pamac => String::from_str("pamac"),
        }
    }

    fn update_instruction(&self) -> (instruction: String) {
        match self {
            AurPackageManager::Yay => String::from_str("-Syu --aur"),
            AurPackageManager::AurUtils => String::from_str("sync -u"),
            AurPackageManager::Pikaur | AurPackageManager::Paru => String::from_str("-Sua"),
            AurPackageManager::Pamac => String::from_str("upgrade"),
        }
    }

    fn descriptor(&self) -> (descriptor: ProgramDescriptor) {
        match self {
            AurPackageManager::Yay => ProgramDescriptor::new(
                "Yay",
                "yay",
                one_argument("-Syu --aur"),
                false,
            ),
            AurPackageManager::AurUtils => ProgramDescriptor::new(
                "Aurutils",
                "aur",
                one_argument("sync -u"),
                false,
            ),
            AurPackageManager::Pikaur => ProgramDescriptor::new(
                "Pikaur",
                "pikaur",
                one_argument("-Sua"),
                false,
            ),
            AurPackageManager::Paru => ProgramDescriptor::new(
                "Paru",
                "paru",
                one_argument("-Sua"),
                false,
            ),
            AurPackageManager::Pamac => ProgramDescriptor::new(
                "Pamac",
                "pamac",
                one_argument("upgrade"),
                false,
            ),
        }
    }
}

impl Available for AurPackageManager {
    open spec fn family_name() -> Seq<char> {
        "aur package manager"@
    }

    open spec fn every() -> Seq<AurPackageManager> {
        seq![
            AurPackageManager::Yay,
            AurPackageManager::AurUtils,
            AurPackageManager::Pikaur,
            AurPackageManager::Paru,
            AurPackageManager::Pamac,
        ]
    }

    fn available_name() -> (name: String) {
        String::from_str("aur package manager")
    }

    fn all() -> (programs: Vec<AurPackageManager>) {
        let mut programs: Vec<AurPackageManager> = Vec::new();
        programs.push(AurPackageManager::Yay);
        programs.push(AurPackageManager::AurUtils);
        programs.push(AurPackageManager::Pikaur);
        programs.push(AurPackageManager::Paru);
        programs.push(AurPackageManager::Pamac);
        assert(programs@ =~= Self::every());
        programs
    }
}

impl AurPackageManager {
    /// The family's name as it starts a sentence.
    pub fn up_case_name() -> (name: String)
        ensures
            name@ == "Aur"@,
    {
        String::from_str("Aur")
    }

    /// The helper that is preferred where the configuration names none.
    pub fn preferred_package_manager() -> (preferred: Option<AurPackageManager>)
        ensures
            preferred == Some(AurPackageManager::Paru),
    {
        Some(AurPackageManager::Paru)
    }
}

/// The model of the table for the official repositories: `pacman`, elevated.
pub open spec fn pacman_table() -> TableView {
    TableView {
        family: "arch package manager"@,
        descriptors: seq![described("Pacman", "pacman", seq!["-Syu"@], true)],
    }
}

/// Mathematical model of an [`Arch`].
pub struct ArchView {
    pub pacman: bool,
    pub aur: bool,
    pub preferred_aur_package_manager: Option<AurPackageManager>,
}

/// What to update on an Arch system.
#[derive(Debug, Clone, Copy, PartialEq, Eq, Structural)]
pub struct Arch {
    pacman: bool,
    aur: bool,
    preferred_aur_package_manager: Option<AurPackageManager>,
}

impl View for Arch {
    type V = ArchView;

    closed spec fn view(&self) -> ArchView {
        ArchView {
            pacman: self.pacman,
            aur: self.aur,
            preferred_aur_package_manager: self.preferred_aur_package_manager,
        }
    }
}

impl Arch {
    /// Whether the official repositories are updated.
    pub fn pacman(&self) -> (pacman: bool)
        ensures
            pacman == self@.pacman,
    {
        self.pacman
    }

    /// Whether the user repository is updated.
    pub fn aur(&self) -> (aur: bool)
        ensures
            aur == self@.aur,
    {
        self.aur
    }

    /// The helper to prefer for the user repository.
    pub fn preferred_aur_package_manager(&self) -> (preferred: Option<AurPackageManager>)
        ensures
            preferred == self@.preferred_aur_package_manager,
    {
        self.preferred_aur_package_manager
    }

    /// The request that updates the official repositories.
    pub fn update_pacman() -> (request: FamilyRequest)
        ensures
            request@ == only(pacman_table()),
    {
        let mut descriptors: Vec<ProgramDescriptor> = Vec::new();
        descriptors.push(ProgramDescriptor::new("Pacman", "pacman", one_argument("-Syu"), true));
        assert(descriptors.deep_view() =~= pacman_table().descriptors);
        FamilyRequest::only(ProgramTable::new("arch package manager", descriptors))
    }

    /// The request that updates the user repository with one of its helpers,
    /// `preferred` if it is installed.
    pub fn update_aur(preferred: Option<AurPackageManager>) -> (request: FamilyRequest)
        ensures
            request@ == aur_request(preferred),
    {
        FamilyRequest::Single {
            table: AurPackageManager::table(),
            preferred: match preferred {
                Some(program) => Some(program.descriptor()),
                None => None,
            },
            policy: PreferencePolicy::FallBack,
        }
    }
}

/// The model of the request for the user repository.
pub open spec fn aur_request(preferred: Option<AurPackageManager>) -> RequestView {
    RequestView::Single {
        table: candidates(AurPackageManager::family_name(), AurPackageManager::every()),
        preferred: preferred_of(preferred),
        policy: PreferencePolicy::FallBack,
    }
}

/// The model of the requests of an Arch system: the official repositories
/// first, then the user repository, each where it is switched on.
pub open spec fn arch_routine(
    pacman: bool,
    aur: bool,
    preferred: Option<AurPackageManager>,
) -> Seq<RequestView> {
    let official = if pacman {
        seq![only(pacman_table())]
    } else {
        Seq::empty()
    };
    if aur {
        official.push(aur_request(preferred))
    } else {
        official
    }
}

impl Default for Arch {
    fn default() -> (arch: Arch)
        ensures
            arch@ == (ArchView { pacman: true, aur: true, preferred_aur_package_manager: None }),
    {
        Arch { pacman: true, aur: true, preferred_aur_package_manager: None }
    }
}

impl UpdateRoutine for Arch {
    open spec fn requested(&self) -> Seq<RequestView> {
        arch_routine(self@.pacman, self@.aur, self@.preferred_aur_package_manager)
    }

    fn update(&self) -> (requests: Vec<FamilyRequest>) {
        let mut requests: Vec<FamilyRequest> = Vec::new();
        assert(requests.deep_view() =~= Seq::empty());
        if self.pacman {
            let request = Arch::update_pacman();
            requests.push(request);
            assert(requests.deep_view() =~= seq![request@]);
        }
        if self.aur {
            let ghost before = requests.deep_view();
            let request = Arch::update_aur(self.preferred_aur_package_manager);
            requests.push(request);
            assert(requests.deep_view() =~= before.push(request@));
        }
        requests
    }
}

/// The settings of an Arch system that a builder lacks.
#[derive(Debug, Clone, Copy, PartialEq, Eq, Structural)]
pub enum ArchField {
    Pacman,
    Aur,
    PreferredAurPackageManager,
}

/// Why a builder could not build.
#[derive(Debug, Clone, Copy, PartialEq, Eq, Structural)]
pub enum ArchBuilderError {
    /// This setting was never given.
    UninitializedField(ArchField),
}

/// Collects the settings of an [`Arch`] one by one.
#[derive(Debug, Clone, Copy, PartialEq, Eq, Structural)]
pub struct ArchBuilder {
    pub pacman: Option<bool>,
    pub aur: Option<bool>,
    pub preferred_aur_package_manager: Option<Option<AurPackageManager>>,
}

impl Default for ArchBuilder {
    fn default() -> (builder: ArchBuilder)
        ensures
            builder == (ArchBuilder {
                pacman: None,
                aur: None,
                preferred_aur_package_manager: None,
            }),
    {
        ArchBuilder { pacman: None, aur: None, preferred_aur_package_manager: None }
    }
}

/// What a builder builds: the settings when all three were given, otherwise
/// the first that is missing, in the order pacman, aur, preferred helper.
pub open spec fn built(builder: ArchBuilder) -> Result<ArchView, ArchBuilderError> {
    match builder.pacman {
        None => Err(ArchBuilderError::UninitializedField(ArchField::Pacman)),
        Some(pacman) => match builder.aur {
            None => Err(ArchBuilderError::UninitializedField(ArchField::Aur)),
            Some(aur) => match builder.preferred_aur_package_manager {
                None => Err(
                    ArchBuilderError::UninitializedField(ArchField::PreferredAurPackageManager),
                ),
                Some(preferred) => Ok(
                    ArchView { pacman, aur, preferred_aur_package_manager: preferred },
                ),
            },
        },
    }
}

impl ArchBuilder {
    /// Sets whether the official repositories are updated.
    pub fn pacman(self, value: bool) -> (builder: ArchBuilder)
        ensures
            builder == (ArchBuilder { pacman: Some(value), ..self }),
    {
        ArchBuilder { pacman: Some(value), ..self }
    }

    /// Sets whether the user repository is updated.
    pub fn aur(self, value: bool) -> (builder: ArchBuilder)
        ensures
            builder == (ArchBuilder { aur: Some(value), ..self }),
    {
        ArchBuilder { aur: Some(value), ..self }
    }

    /// Sets the helper to prefer for the user repository.
    pub fn preferred_aur_package_manager(self, value: Option<AurPackageManager>) -> (builder:
        ArchBuilder)
        ensures
            builder == (ArchBuilder { preferred_aur_package_manager: Some(value), ..self }),
    {
        ArchBuilder { preferred_aur_package_manager: Some(value), ..self }
    }

    /// Builds the settings, or names the first one that was never given.
    pub fn build(&self) -> (outcome: Result<Arch, ArchBuilderError>)
        ensures
            match outcome {
                Ok(arch) => built(*self) == Ok::<ArchView, ArchBuilderError>(arch@),
                Err(error) => built(*self) == Err::<ArchView, ArchBuilderError>(error),
            },
    {
        let pacman = match self.pacman {
            Some(value) => value,
            None => {
                return Err(ArchBuilderError::UninitializedField(ArchField::Pacman));
            },
        };
        let aur = match self.aur {
            Some(value) => value,
            None => {
                return Err(ArchBuilderError::UninitializedField(ArchField::Aur));
            },
        };
        let preferred_aur_package_manager = match self.preferred_aur_package_manager {
            Some(value) => value,
            None => {
                return Err(
                    ArchBuilderError::UninitializedField(ArchField::PreferredAurPackageManager),
                );
            },
        };
        Ok(Arch { pacman, aur, preferred_aur_package_manager })
    }
}

} // verus!
