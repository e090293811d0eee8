use software_updater::config::{
    ArchConfig, Config, DebConfig, JSConfig, LanguageConfig, LinuxConfig, MacOsConfig, OsConfig,
    PythonConfig, RpmConfig, RustConfig, WindowsConfig,
};
use software_updater::descriptor::ProgramDescriptor;
use software_updater::engine::{update, update_languages, update_linux, update_os, OsType};
use software_updater::language::{update_flutter, update_js, update_rust};
use software_updater::os::linux::arch::{
    Arch, ArchBuilder, ArchBuilderError, ArchField, AurPackageManager,
};
use software_updater::os::linux::deb::{Deb, DebPackageManager};
use software_updater::os::linux::{update_arch, update_deb, Linux, LinuxPackageManager};
use software_updater::os::Os;
use software_updater::package_manager::{Available, PackageManager, UpdateRoutine};
use software_updater::router::{Action, FamilyRequest};

fn text(value: &str) -> String {
    value.to_string()
}

fn describe(request: &FamilyRequest) -> String {
    match request {
        FamilyRequest::Unsupported { family } => format!("unsupported {}", family),
        FamilyRequest::Single { table, preferred, .. } => format!(
            "{}: {} prefer {}",
            table.family,
            table
                .descriptors
                .iter()
                .map(|d| format!(
                    "{}{} {}",
                    if d.requires_elevation { "sudo " } else { "" },
                    d.executable_name,
                    d.update_args.join(",")
                ))
                .collect::<Vec<_>>()
                .join(" | "),
            preferred.as_ref().map(|d| d.executable_name.clone()).unwrap_or(text("-")),
        ),
        FamilyRequest::Both { family, first, second } => format!(
            "{}: {} then {}",
            family,
            first
                .descriptors
                .iter()
                .map(|d| format!("{} {}", d.executable_name, d.update_args.join(",")))
                .collect::<Vec<_>>()
                .join(" | "),
            second
                .descriptors
                .iter()
                .map(|d| format!("{} {}", d.executable_name, d.update_args.join(",")))
                .collect::<Vec<_>>()
                .join(" | "),
        ),
    }
}

fn described(requests: &[FamilyRequest]) -> Vec<String> {
    requests.iter().map(describe).collect()
}

#[test]
fn default_config_switches_everything_on() {
    let config = Config::default();
    let os = config.os.unwrap();
    let linux = os.linux.unwrap();
    let arch = linux.arch.unwrap();
    assert!(arch.official && arch.aur);
    assert_eq!(arch.preferred_program_official, Some(text("pacman")));
    assert_eq!(arch.preferred_program_aur, Some(text("paru")));
    assert_eq!(linux.deb.unwrap().preferred_program, Some(text("apt")));
    assert_eq!(linux.rpm.unwrap().preferred_program, Some(text("dnf")));
    assert!(linux.portage && linux.eopkg && linux.nix_channel && linux.apk);
    assert!(linux.snap && linux.flatpak && linux.brew);
    assert_eq!(os.windows, Some(WindowsConfig { choco: true, winget: true }));
    assert_eq!(os.macos, Some(MacOsConfig { brew: true }));
    let language = config.language.unwrap();
    assert_eq!(language.rust, Some(RustConfig { rustup: true, cargo: true }));
    assert!(language.dart);
    assert_eq!(language.js, Some(JSConfig { npm: true, yarn: true }));
    assert_eq!(PythonConfig::default(), PythonConfig { pip2: true, pip3: true });
    assert_eq!(LanguageConfig::default(), language);
    assert_eq!(OsConfig::default().windows, Some(WindowsConfig::default()));
    assert_eq!(RpmConfig::default().preferred_program, Some(text("dnf")));
    assert_eq!(DebConfig::default().preferred_program, Some(text("apt")));
    assert_eq!(LinuxConfig::default().arch.unwrap().preferred_program_aur, Some(text("paru")));
}

#[test]
fn arch_with_both_uses_one_program_for_both() {
    let requests = update_arch(ArchConfig::default());
    assert_eq!(
        described(&requests),
        vec![text("Arch: pamac upgrade,--aur --devel | yay -Syu | paru -Syu prefer paru")]
    );
}

#[test]
fn arch_official_only_uses_elevated_programs() {
    let requests = update_arch(ArchConfig {
        official: true,
        aur: false,
        preferred_program_official: Some(text("pamac")),
        preferred_program_aur: Some(text("paru")),
    });
    assert_eq!(
        described(&requests),
        vec![text("Arch official repositories: sudo pacman -Syu | sudo pamac upgrade prefer pamac")]
    );
}

#[test]
fn arch_aur_only_uses_the_helpers() {
    let requests = update_arch(ArchConfig {
        official: false,
        aur: true,
        preferred_program_official: None,
        preferred_program_aur: None,
    });
    assert_eq!(described(&requests), vec![text("Arch user repository: yay -Sua | paru -Sua prefer -")]);
}

#[test]
fn arch_with_nothing_switched_on_asks_for_nothing() {
    let requests = update_arch(ArchConfig {
        official: false,
        aur: false,
        preferred_program_official: Some(text("pacman")),
        preferred_program_aur: Some(text("paru")),
    });
    assert!(requests.is_empty());
}

#[test]
fn unknown_preference_is_no_preference() {
    let requests = update_deb(DebConfig { preferred_program: Some(text("dpkg")) });
    assert_eq!(
        described(&requests),
        vec![text("Deb: sudo apt upgrade | sudo aptitude upgrade prefer -")]
    );
    let requests = update_deb(DebConfig { preferred_program: Some(text("aptitude")) });
    assert_eq!(
        described(&requests),
        vec![text("Deb: sudo apt upgrade | sudo aptitude upgrade prefer aptitude")]
    );
}

#[test]
fn rust_runs_both_when_both_are_configured() {
    assert_eq!(
        described(&update_rust(RustConfig { rustup: true, cargo: true })),
        vec![text("Rust: rustup update then cargo install-update,-a")]
    );
    assert_eq!(
        described(&update_rust(RustConfig { rustup: true, cargo: false })),
        vec![text("rustup: rustup update prefer -")]
    );
    assert_eq!(
        described(&update_rust(RustConfig { rustup: false, cargo: true })),
        vec![text("cargo: cargo install-update,-a prefer -")]
    );
    assert!(update_rust(RustConfig { rustup: false, cargo: false }).is_empty());
}

#[test]
fn js_elevates_npm_only() {
    assert_eq!(
        described(&update_js(JSConfig { npm: true, yarn: true })),
        vec![text("JavaScript: npm -g,upgrade then yarn global,upgrade")]
    );
    assert_eq!(
        described(&update_js(JSConfig { npm: true, yarn: false })),
        vec![text("npm: sudo npm -g,upgrade prefer -")]
    );
    assert_eq!(
        described(&update_js(JSConfig { npm: false, yarn: true })),
        vec![text("yarn: yarn global,upgrade prefer -")]
    );
}

#[test]
fn flutter_upgrades_then_updates_packages() {
    assert_eq!(
        described(&update_flutter(true)),
        vec![text("Flutter: flutter upgrade then flutter update-packages")]
    );
    assert!(update_flutter(false).is_empty());
}

#[test]
fn linux_routes_by_distribution() {
    for os in [OsType::Arch, OsType::EndeavourOS, OsType::Manjaro, OsType::Garuda] {
        let requests = update_linux(LinuxConfig::default(), os, "Arch Linux");
        assert_eq!(
            described(&requests),
            vec![
                text("Arch: pamac upgrade,--aur --devel | yay -Syu | paru -Syu prefer paru"),
                text("unsupported Snap"),
                text("unsupported Flatpak"),
                text("unsupported Brew"),
            ]
        );
    }
    for os in [OsType::Debian, OsType::Mint, OsType::Pop, OsType::Raspbian, OsType::Ubuntu] {
        let mut config = LinuxConfig::default();
        config.snap = false;
        config.brew = false;
        let requests = update_linux(config, os, "Ubuntu");
        assert_eq!(
            described(&requests),
            vec![
                text("Deb: sudo apt upgrade | sudo aptitude upgrade prefer apt"),
                text("unsupported Flatpak"),
            ]
        );
    }
}

fn quiet_linux() -> LinuxConfig {
    let mut config = LinuxConfig::default();
    config.snap = false;
    config.flatpak = false;
    config.brew = false;
    config
}

#[test]
fn unsupported_distributions_are_reported_by_package_system() {
    let cases = [
        (OsType::Fedora, "Dnf/Yum"),
        (OsType::CentOS, "Dnf/Yum"),
        (OsType::OracleLinux, "Dnf/Yum"),
        (OsType::Redhat, "Dnf/Yum"),
        (OsType::RedHatEnterprise, "Dnf/Yum"),
        (OsType::OpenSUSE, "Zypper"),
        (OsType::SUSE, "Zypper"),
        (OsType::Gentoo, "Portage"),
        (OsType::Solus, "Eopkg"),
        (OsType::NixOS, "Nix-channel"),
        (OsType::Alpine, "Apk"),
        (OsType::Other, "Void Linux"),
    ];
    for (os, family) in cases {
        let requests = update_linux(quiet_linux(), os, "Void Linux");
        assert_eq!(described(&requests), vec![format!("unsupported {}", family)]);
    }
}

#[test]
fn switched_off_families_ask_for_nothing() {
    let mut config = quiet_linux();
    config.arch = None;
    config.deb = None;
    config.rpm = None;
    config.portage = false;
    config.eopkg = false;
    config.nix_channel = false;
    config.apk = false;
    for os in [
        OsType::Arch,
        OsType::Ubuntu,
        OsType::Fedora,
        OsType::SUSE,
        OsType::Gentoo,
        OsType::Solus,
        OsType::NixOS,
        OsType::Alpine,
    ] {
        let copy = LinuxConfig {
            arch: None,
            deb: None,
            rpm: None,
            portage: config.portage,
            eopkg: config.eopkg,
            nix_channel: config.nix_channel,
            apk: config.apk,
            snap: config.snap,
            flatpak: config.flatpak,
            brew: config.brew,
        };
        assert!(update_linux(copy, os, "Linux").is_empty());
    }
}

#[test]
fn os_config_counts_only_for_its_own_system() {
    assert_eq!(
        described(&update_os(OsConfig::default(), OsType::Windows, "Windows")),
        vec![text("unsupported Windows")]
    );
    assert_eq!(
        described(&update_os(OsConfig::default(), OsType::Macos, "Mac OS")),
        vec![text("unsupported MacOS")]
    );
    let no_windows = OsConfig { linux: None, windows: None, macos: None };
    assert!(update_os(no_windows, OsType::Windows, "Windows").is_empty());
    let no_linux = OsConfig { linux: None, windows: Some(WindowsConfig::default()), macos: None };
    assert!(update_os(no_linux, OsType::Arch, "Arch Linux").is_empty());
}

#[test]
fn languages_come_in_fixed_order() {
    assert_eq!(
        described(&update_languages(LanguageConfig::default())),
        vec![
            text("Rust: rustup update then cargo install-update,-a"),
            text("Flutter: flutter upgrade then flutter update-packages"),
            text("JavaScript: npm -g,upgrade then yarn global,upgrade"),
        ]
    );
    let only_js = LanguageConfig {
        rust: None,
        dart: false,
        js: Some(JSConfig { npm: false, yarn: true }),
    };
    assert_eq!(described(&update_languages(only_js)), vec![text("yarn: yarn global,upgrade prefer -")]);
}

#[test]
fn update_builds_a_router_for_the_whole_configuration() {
    let config = Config {
        os: Some(OsConfig {
            linux: Some(LinuxConfig {
                arch: None,
                deb: None,
                rpm: Some(RpmConfig::default()),
                portage: false,
                eopkg: false,
                nix_channel: false,
                apk: false,
                snap: true,
                flatpak: false,
                brew: false,
            }),
            windows: None,
            macos: None,
        }),
        language: None,
    };
    let mut router = update(config, OsType::Fedora, "Fedora");
    assert!(matches!(router.step(None), Action::Resolve));
    assert!(matches!(router.step(None), Action::Done));
    let reports = router.into_reports();
    assert_eq!(reports.len(), 2);
    assert_eq!(reports[0].family, "Dnf/Yum");
    assert_eq!(reports[1].family, "Snap");
    let nothing = update(Config { os: None, language: None }, OsType::Arch, "Arch Linux");
    assert!(nothing.is_done());
}

#[test]
fn aur_helpers_have_their_names_and_instructions() {
    let all = AurPackageManager::all();
    assert_eq!(
        all,
        vec![
            AurPackageManager::Yay,
            AurPackageManager::AurUtils,
            AurPackageManager::Pikaur,
            AurPackageManager::Paru,
            AurPackageManager::Pamac,
        ]
    );
    let names: Vec<String> = all.iter().map(|m| m.executable_name()).collect();
    assert_eq!(names, vec!["yay", "aur", "pikaur", "paru", "pamac"]);
    let instructions: Vec<String> = all.iter().map(|m| m.update_instruction()).collect();
    assert_eq!(instructions, vec!["-Syu --aur", "sync -u", "-Sua", "-Sua", "upgrade"]);
    assert_eq!(AurPackageManager::available_name(), "aur package manager");
    assert_eq!(AurPackageManager::up_case_name(), "Aur");
    assert_eq!(AurPackageManager::preferred_package_manager(), Some(AurPackageManager::Paru));
    assert_eq!(
        AurPackageManager::Paru.descriptor(),
        ProgramDescriptor::new("Paru", "paru", vec![text("-Sua")], false)
    );
    let table = AurPackageManager::table();
    assert_eq!(table.family, "aur package manager");
    assert_eq!(table.descriptors.len(), 5);
    for (program, descriptor) in all.iter().zip(table.descriptors.iter()) {
        assert_eq!(&program.descriptor(), descriptor);
        assert_eq!(descriptor.update_args, vec![program.update_instruction()]);
        assert_eq!(descriptor.executable_name, program.executable_name());
    }
}

#[test]
fn deb_programs_have_their_names_and_instructions() {
    assert_eq!(DebPackageManager::all(), vec![DebPackageManager::Apt, DebPackageManager::Aptitude]);
    assert_eq!(DebPackageManager::Apt.executable_name(), "apt");
    assert_eq!(DebPackageManager::Aptitude.executable_name(), "aptitude");
    assert_eq!(DebPackageManager::Apt.update_instruction(), "update");
    assert_eq!(DebPackageManager::available_name(), "apt package manager");
    assert_eq!(DebPackageManager::up_case_name(), "Apt");
    assert_eq!(Deb::preferred_package_manager(), Some(DebPackageManager::Apt));
    assert_eq!(
        described(&Deb.update()),
        vec![text("apt package manager: sudo apt update | sudo aptitude update prefer apt")]
    );
}

#[test]
fn enumerated_family_without_installed_program_fails_by_name() {
    match DebPackageManager::available(None) {
        Ok(chosen) => assert!(chosen.path.starts_with('/')),
        Err(failure) => assert_eq!(failure.message(), "No available apt package manager found"),
    }
}

#[test]
fn arch_builder_needs_every_setting() {
    let arch = ArchBuilder::default()
        .pacman(true)
        .aur(false)
        .preferred_aur_package_manager(Some(AurPackageManager::Paru))
        .build()
        .unwrap();
    assert!(arch.pacman());
    assert!(!arch.aur());
    assert_eq!(arch.preferred_aur_package_manager(), Some(AurPackageManager::Paru));
    assert_eq!(
        ArchBuilder::default().build(),
        Err(ArchBuilderError::UninitializedField(ArchField::Pacman))
    );
    assert_eq!(
        ArchBuilder::default().pacman(true).preferred_aur_package_manager(None).build(),
        Err(ArchBuilderError::UninitializedField(ArchField::Aur))
    );
    assert_eq!(
        ArchBuilder::default().pacman(false).aur(true).build(),
        Err(ArchBuilderError::UninitializedField(ArchField::PreferredAurPackageManager))
    );
}

#[test]
fn arch_routine_updates_pacman_then_aur() {
    let arch = Arch::default();
    assert!(arch.pacman() && arch.aur());
    assert_eq!(arch.preferred_aur_package_manager(), None);
    assert_eq!(
        described(&arch.update()),
        vec![
            text("arch package manager: sudo pacman -Syu prefer -"),
            text(
                "aur package manager: yay -Syu --aur | aur sync -u | pikaur -Sua | paru -Sua | pamac upgrade prefer -"
            ),
        ]
    );
    let pacman_only = ArchBuilder::default()
        .pacman(true)
        .aur(false)
        .preferred_aur_package_manager(Some(AurPackageManager::Paru))
        .build()
        .unwrap();
    assert_eq!(
        described(&pacman_only.update()),
        vec![text("arch package manager: sudo pacman -Syu prefer -")]
    );
    assert_eq!(
        describe(&Arch::update_aur(Some(AurPackageManager::Pikaur))),
        "aur package manager: yay -Syu --aur | aur sync -u | pikaur -Sua | paru -Sua | pamac upgrade prefer pikaur"
    );
    assert_eq!(describe(&Arch::update_pacman()), "arch package manager: sudo pacman -Syu prefer -");
}

#[test]
fn linux_routes_to_its_packaging_family() {
    let os = Os { linux: LinuxPackageManager::Deb(Deb) };
    assert_eq!(described(&os.linux.update()), described(&Deb.update()));
    let arch = LinuxPackageManager::Arch(Arch::default());
    assert_eq!(described(&arch.update()), described(&Arch::default().update()));
    assert_eq!(
        described(&LinuxPackageManager::Unsupported.update()),
        vec![text("unsupported linux package manager")]
    );
    assert_eq!(described(&Linux::Arch(Arch::default()).update()).len(), 2);
    assert_eq!(described(&Linux::Unsupported.update()), vec![text("unsupported linux system")]);
}
