//! The entry points: from a configuration and a detected system to a router,
//! and from a table to the program to run.

use vstd::prelude::*;
use crate::descriptor::ProgramDescriptor;
use crate::availability::{is_probe_of, probe, AvailabilityView, ProgramTable, SelectionResult};
use crate::selection::{outcome_view, preference, select, select_spec, NoProgramAvailable};
use crate::config::{
    Config, ConfigView, LanguageConfig, LinuxConfig, LinuxConfigView, OsConfig, OsConfigView,
};
use crate::router::{initial, FamilyRequest, RequestView, Router};
use crate::os::linux::{
    arch_requests, deb_requests, report_unsupported, unsupported, update_arch, update_deb,
};
use crate::language::{
    flutter_requests, js_requests, rust_requests, update_flutter, update_js, update_rust,
};

verus! {

/// The system that was detected, as far as the router tells systems apart.
#[derive(Debug, Clone, Copy, PartialEq, Eq, Hash, Structural)]
pub enum OsType {
    Alpine,
    Arch,
    CentOS,
    Debian,
    EndeavourOS,
    Fedora,
    Garuda,
    Gentoo,
    Manjaro,
    Mint,
    NixOS,
    OpenSUSE,
    OracleLinux,
    Pop,
    Raspbian,
    Redhat,
    RedHatEnterprise,
    Solus,
    SUSE,
    Ubuntu,
    Macos,
    Windows,
    /// Any other system.
    Other,
}

/// The model of the one request that reports the ecosystem `family` as
/// unsupported where `wanted` is set, and of no request where it is not.
pub open spec fn unsupported_if(wanted: bool, family: &str) -> Seq<RequestView> {
    if wanted {
        unsupported(family)
    } else {
        Seq::empty()
    }
}

/// The model of the requests for the packages of the detected distribution.
pub open spec fn distribution_requests(
    linux: LinuxConfigView,
    os: OsType,
    os_name: Seq<char>,
) -> Seq<RequestView> {
    match os {
        OsType::Arch | OsType::EndeavourOS | OsType::Manjaro | OsType::Garuda => match linux.arch {
            Some(arch) => arch_requests(arch),
            None => Seq::empty(),
        },
        OsType::Debian
        | OsType::Mint
        | OsType::Pop
        | OsType::Raspbian
        | OsType::Ubuntu => match linux.deb {
            Some(deb) => deb_requests(deb),
            None => Seq::empty(),
        },
        OsType::Fedora
        | OsType::CentOS
        | OsType::OracleLinux
        | OsType::Redhat
        | OsType::RedHatEnterprise => unsupported_if(linux.rpm is Some, "Dnf/Yum"),
        OsType::OpenSUSE | OsType::SUSE => unsupported_if(linux.rpm is Some, "Zypper"),
        OsType::Gentoo => unsupported_if(linux.portage, "Portage"),
        OsType::Solus => unsupported_if(linux.eopkg, "Eopkg"),
        OsType::NixOS => unsupported_if(linux.nix_channel, "Nix-channel"),
        OsType::Alpine => unsupported_if(linux.apk, "Apk"),
        OsType::Other | OsType::Macos | OsType::Windows => seq![
            RequestView::Unsupported { family: os_name },
        ],
    }
}

/// The model of the requests of a Linux configuration on the detected
/// distribution: its own packages, then the distribution-independent package
/// systems that are switched on.
pub open spec fn linux_requests(linux: LinuxConfigView, os: OsType, os_name: Seq<char>) -> Seq<
    RequestView,
> {
    distribution_requests(linux, os, os_name) + unsupported_if(linux.snap, "Snap")
        + unsupported_if(linux.flatpak, "Flatpak") + unsupported_if(linux.brew, "Brew")
}

/// The model of the requests of a system configuration on the detected
/// system. Only the part of the configuration that is for that system counts.
pub open spec fn os_requests(config: OsConfigView, os: OsType, os_name: Seq<char>) -> Seq<
    RequestView,
> {
    match os {
        OsType::Windows => unsupported_if(config.windows is Some, "Windows"),
        OsType::Macos => unsupported_if(config.macos is Some, "MacOS"),
        _ => match config.linux {
            Some(linux) => linux_requests(linux, os, os_name),
            None => Seq::empty(),
        },
    }
}

/// The model of the requests of a language configuration: Rust, Flutter,
/// JavaScript, in this order.
pub open spec fn language_requests(config: LanguageConfig) -> Seq<RequestView> {
    (match config.rust {
        Some(rust) => rust_requests(rust),
        None => Seq::empty(),
    }) + flutter_requests(config.dart) + (match config.js {
        Some(js) => js_requests(js),
        None => Seq::empty(),
    })
}

/// The model of the requests of a whole configuration on the detected system:
/// the system's packages first, the language toolchains after.
pub open spec fn requests_for(config: ConfigView, os: OsType, os_name: Seq<char>) -> Seq<
    RequestView,
> {
    (match config.os {
        Some(os_config) => os_requests(os_config, os, os_name),
        None => Seq::empty(),
    }) + (match config.language {
        Some(language) => language_requests(language),
        None => Seq::empty(),
    })
}

/// Appends `more` to `requests`.
fn extend(requests: &mut Vec<FamilyRequest>, more: Vec<FamilyRequest>)
    ensures
        final(requests).deep_view() == old(requests).deep_view() + more.deep_view(),
{
    let mut more = more;
    let ghost added = more.deep_view();
    requests.append(&mut more);
    assert(requests.deep_view() =~= old(requests).deep_view() + added);
}

/// The one request that reports `family` as unsupported where `wanted` is
/// set, and no request where it is not.
fn report_unsupported_if(wanted: bool, family: &str) -> (requests: Vec<FamilyRequest>)
    ensures
        requests.deep_view() == unsupported_if(wanted, family),
{
    if wanted {
        report_unsupported(family)
    } else {
        let requests: Vec<FamilyRequest> = Vec::new();
        assert(requests.deep_view() =~= Seq::empty());
        requests
    }
}

/// No request.
fn no_request() -> (requests: Vec<FamilyRequest>)
    ensures
        requests.deep_view() == Seq::<RequestView>::empty(),
{
    let requests: Vec<FamilyRequest> = Vec::new();
    assert(requests.deep_view() =~= Seq::empty());
    requests
}

/// The requests of a Linux configuration on the detected distribution.
pub fn update_linux(config: LinuxConfig, os: OsType, os_name: &str) -> (requests: Vec<
    FamilyRequest,
>)
    ensures
        requests.deep_view() == linux_requests(config@, os, os_name@),
{
    let LinuxConfig { arch, deb, rpm, portage, eopkg, nix_channel, apk, snap, flatpak, brew } =
        config;
    let mut requests = match os {
        OsType::Arch | OsType::EndeavourOS | OsType::Manjaro | OsType::Garuda => match arch {
            Some(arch) => update_arch(arch),
            None => no_request(),
        },
        OsType::Debian
        | OsType::Mint
        | OsType::Pop
        | OsType::Raspbian
        | OsType::Ubuntu => match deb {
            Some(deb) => update_deb(deb),
            None => no_request(),
        },
        OsType::Fedora
        | OsType::CentOS
        | OsType::OracleLinux
        | OsType::Redhat
        | OsType::RedHatEnterprise => report_unsupported_if(rpm.is_some(), "Dnf/Yum"),
        OsType::OpenSUSE | OsType::SUSE => report_unsupported_if(rpm.is_some(), "Zypper"),
        OsType::Gentoo => report_unsupported_if(portage, "Portage"),
        OsType::Solus => report_unsupported_if(eopkg, "Eopkg"),
        OsType::NixOS => report_unsupported_if(nix_channel, "Nix-channel"),
        OsType::Alpine => report_unsupported_if(apk, "Apk"),
        OsType::Other | OsType::Macos | OsType::Windows => report_unsupported(os_name),
    };
    extend(&mut requests, report_unsupported_if(snap, "Snap"));
    extend(&mut requests, report_unsupported_if(flatpak, "Flatpak"));
    extend(&mut requests, report_unsupported_if(brew, "Brew"));
    requests
}

/// The requests of a system configuration on the detected system.
pub fn update_os(config: OsConfig, os: OsType, os_name: &str) -> (requests: Vec<FamilyRequest>)
    ensures
        requests.deep_view() == os_requests(config@, os, os_name@),
{
    let OsConfig { linux, windows, macos } = config;
    match os {
        OsType::Windows => report_unsupported_if(windows.is_some(), "Windows"),
        OsType::Macos => report_unsupported_if(macos.is_some(), "MacOS"),
        _ => match linux {
            Some(linux) => update_linux(linux, os, os_name),
            None => no_request(),
        },
    }
}

/// The requests of a language configuration.
pub fn update_languages(config: LanguageConfig) -> (requests: Vec<FamilyRequest>)
    ensures
        requests.deep_view() == language_requests(config),
{
    let mut requests = match config.rust {
        Some(rust) => update_rust(rust),
        None => no_request(),
    };
    extend(&mut requests, update_flutter(config.dart));
    extend(
        &mut requests,
        match config.js {
            Some(js) => update_js(js),
            None => no_request(),
        },
    );
    requests
}

/// A router for everything that `config` asks for on the detected system,
/// with nothing attempted yet. `os_name` is the name under which a system
/// without a descriptor table is reported.
///
/// The caller drives the router: it calls [`Router::step`], runs what the
/// action names and hands the outcome to the next call, until the router is
/// done.
pub fn update(config: Config, os: OsType, os_name: &str) -> (router: Router)
    ensures
        router@ == initial(requests_for(config@, os, os_name@)),
{
    let Config { os: os_config, language } = config;
    let mut requests = match os_config {
        Some(os_config) => update_os(os_config, os, os_name),
        None => no_request(),
    };
    extend(
        &mut requests,
        match language {
            Some(language) => update_languages(language),
            None => no_request(),
        },
    );
    Router::new(requests)
}

/// Probes `table` and picks the program to run: `preferred` if it is
/// installed, otherwise the first candidate that is. Fails, naming the
/// family, when no candidate is installed.
pub fn available_program(table: &ProgramTable, preferred: Option<&ProgramDescriptor>) -> (outcome:
    Result<SelectionResult, NoProgramAvailable>)
    ensures
        exists|map: AvailabilityView|
            is_probe_of(map, table@) && outcome_view(outcome) == #[trigger] select_spec(
                map,
                preference(preferred),
            ),
{
    let map = probe(table);
    select(&map, preferred)
}

} // verus!
