//! The configuration that a run consumes: which families to update and which
//! program to prefer for each. The structure is read, never validated or
//! stored here.

use vstd::prelude::*;

verus! {

/// The model of an optional program name.
pub open spec fn name_view(name: Option<String>) -> Option<Seq<char>> {
    match name {
        Some(text) => Some(text@),
        None => None,
    }
}

/// Settings for the Windows package managers.
#[derive(Debug, Clone, Copy, PartialEq, Eq, Structural)]
pub struct WindowsConfig {
    pub choco: bool,
    pub winget: bool,
}

impl Default for WindowsConfig {
    fn default() -> (config: WindowsConfig)
        ensures
            config == (WindowsConfig { choco: true, winget: true }),
    {
        WindowsConfig { choco: true, winget: true }
    }
}

/// Settings for the macOS package managers.
#[derive(Debug, Clone, Copy, PartialEq, Eq, Structural)]
pub struct MacOsConfig {
    pub brew: bool,
}

impl Default for MacOsConfig {
    fn default() -> (config: MacOsConfig)
        ensures
            config == (MacOsConfig { brew: true }),
    {
        MacOsConfig { brew: true }
    }
}

/// Settings for the Rust toolchain.
#[derive(Debug, Clone, Copy, PartialEq, Eq, Structural)]
pub struct RustConfig {
    pub rustup: bool,
    pub cargo: bool,
}

impl Default for RustConfig {
    fn default() -> (config: RustConfig)
        ensures
            config == (RustConfig { rustup: true, cargo: true }),
    {
        RustConfig { rustup: true, cargo: true }
    }
}

/// Settings for the Python package managers.
#[derive(Debug, Clone, Copy, PartialEq, Eq, Structural)]
pub struct PythonConfig {
    pub pip2: bool,
    pub pip3: bool,
}

impl Default for PythonConfig {
    fn default() -> (config: PythonConfig)
        ensures
            config == (PythonConfig { pip2: true, pip3: true }),
    {
        PythonConfig { pip2: true, pip3: true }
    }
}

/// Settings for the JavaScript package managers.
#[derive(Debug, Clone, Copy, PartialEq, Eq, Structural)]
pub struct JSConfig {
    pub npm: bool,
    pub yarn: bool,
}

impl Default for JSConfig {
    fn default() -> (config: JSConfig)
        ensures
            config == (JSConfig { npm: true, yarn: true }),
    {
        JSConfig { npm: true, yarn: true }
    }
}

/// Settings for the language toolchains.
#[derive(Debug, Clone, Copy, PartialEq, Eq, Structural)]
pub struct LanguageConfig {
    pub rust: Option<RustConfig>,
    pub dart: bool,
    pub js: Option<JSConfig>,
}

/// The language settings of a fresh configuration: everything switched on.
pub open spec fn default_language() -> LanguageConfig {
    LanguageConfig {
        rust: Some(RustConfig { rustup: true, cargo: true }),
        dart: true,
        js: Some(JSConfig { npm: true, yarn: true }),
    }
}

impl Default for LanguageConfig {
    fn default() -> (config: LanguageConfig)
        ensures
            config == default_language(),
    {
        LanguageConfig {
            rust: Some(RustConfig::default()),
            dart: true,
            js: Some(JSConfig::default()),
        }
    }
}

/// Mathematical model of an [`ArchConfig`].
pub struct ArchConfigView {
    pub official: bool,
    pub aur: bool,
    pub preferred_program_official: Option<Seq<char>>,
    pub preferred_program_aur: Option<Seq<char>>,
}

/// Settings for Arch Linux and its derivatives.
#[derive(Debug)]
pub struct ArchConfig {
    /// Whether to update the packages of the official repositories.
    pub official: bool,
    /// Whether to update the packages of the user repository.
    pub aur: bool,
    pub preferred_program_official: Option<String>,
    pub preferred_program_aur: Option<String>,
}

impl View for ArchConfig {
    type V = ArchConfigView;

    open spec fn view(&self) -> ArchConfigView {
        ArchConfigView {
            official: self.official,
            aur: self.aur,
            preferred_program_official: name_view(self.preferred_program_official),
            preferred_program_aur: name_view(self.preferred_program_aur),
        }
    }
}

/// The Arch settings of a fresh configuration.
pub open spec fn default_arch() -> ArchConfigView {
    ArchConfigView {
        official: true,
        aur: true,
        preferred_program_official: Some("pacman"@),
        preferred_program_aur: Some("paru"@),
    }
}

impl Default for ArchConfig {
    fn default() -> (config: ArchConfig)
        ensures
            config@ == default_arch(),
    {
        ArchConfig {
            official: true,
            aur: true,
            preferred_program_official: Some(String::from_str("pacman")),
            preferred_program_aur: Some(String::from_str("paru")),
        }
    }
}

/// Settings for Debian and its derivatives.
#[derive(Debug)]
pub struct DebConfig {
    pub preferred_program: Option<String>,
}

impl View for DebConfig {
    type V = Option<Seq<char>>;

    open spec fn view(&self) -> Option<Seq<char>> {
        name_view(self.preferred_program)
    }
}

impl Default for DebConfig {
    fn default() -> (config: DebConfig)
        ensures
            config@ == Some("apt"@),
    {
        DebConfig { preferred_program: Some(String::from_str("apt")) }
    }
}

/// Settings for the distributions that package with RPM.
#[derive(Debug)]
pub struct RpmConfig {
    pub preferred_program: Option<String>,
}

impl View for RpmConfig {
    type V = Option<Seq<char>>;

    open spec fn view(&self) -> Option<Seq<char>> {
        name_view(self.preferred_program)
    }
}

impl Default for RpmConfig {
    fn default() -> (config: RpmConfig)
        ensures
            config@ == Some("dnf"@),
    {
        RpmConfig { preferred_program: Some(String::from_str("dnf")) }
    }
}

/// Mathematical model of a [`LinuxConfig`].
pub struct LinuxConfigView {
    pub arch: Option<ArchConfigView>,
    pub deb: Option<Option<Seq<char>>>,
    pub rpm: Option<Option<Seq<char>>>,
    pub portage: bool,
    pub eopkg: bool,
    pub nix_channel: bool,
    pub apk: bool,
    pub snap: bool,
    pub flatpak: bool,
    pub brew: bool,
}

/// Settings for Linux: one entry per packaging family.
#[derive(Debug)]
pub struct LinuxConfig {
    pub arch: Option<ArchConfig>,
    pub deb: Option<DebConfig>,
    pub rpm: Option<RpmConfig>,
    pub portage: bool,
    pub eopkg: bool,
    pub nix_channel: bool,
    pub apk: bool,
    pub snap: bool,
    pub flatpak: bool,
    pub brew: bool,
}

impl View for LinuxConfig {
    type V = LinuxConfigView;

    open spec fn view(&self) -> LinuxConfigView {
        LinuxConfigView {
            arch: match self.arch {
                Some(arch) => Some(arch@),
                None => None,
            },
            deb: match self.deb {
                Some(deb) => Some(deb@),
                None => None,
            },
            rpm: match self.rpm {
                Some(rpm) => Some(rpm@),
                None => None,
            },
            portage: self.portage,
            eopkg: self.eopkg,
            nix_channel: self.nix_channel,
            apk: self.apk,
            snap: self.snap,
            flatpak: self.flatpak,
            brew: self.brew,
        }
    }
}

/// The Linux settings of a fresh configuration: everything switched on.
pub open spec fn default_linux() -> LinuxConfigView {
    LinuxConfigView {
        arch: Some(default_arch()),
        deb: Some(Some("apt"@)),
        rpm: Some(Some("dnf"@)),
        portage: true,
        eopkg: true,
        nix_channel: true,
        apk: true,
        snap: true,
        flatpak: true,
        brew: true,
    }
}

impl Default for LinuxConfig {
    fn default() -> (config: LinuxConfig)
        ensures
            config@ == default_linux(),
    {
        LinuxConfig {
            arch: Some(ArchConfig::default()),
            deb: Some(DebConfig::default()),
            rpm: Some(RpmConfig::default()),
            portage: true,
            eopkg: true,
            nix_channel: true,
            apk: true,
            snap: true,
            flatpak: true,
            brew: true,
        }
    }
}

/// Mathematical model of an [`OsConfig`].
pub struct OsConfigView {
    pub linux: Option<LinuxConfigView>,
    pub windows: Option<WindowsConfig>,
    pub macos: Option<MacOsConfig>,
}

/// Settings for the operating system's own packages.
#[derive(Debug)]
pub struct OsConfig {
    pub linux: Option<LinuxConfig>,
    pub windows: Option<WindowsConfig>,
    pub macos: Option<MacOsConfig>,
}

impl View for OsConfig {
    type V = OsConfigView;

    open spec fn view(&self) -> OsConfigView {
        OsConfigView {
            linux: match self.linux {
                Some(linux) => Some(linux@),
                None => None,
            },
            windows: self.windows,
            macos: self.macos,
        }
    }
}

/// The system settings of a fresh configuration: everything switched on.
pub open spec fn default_os() -> OsConfigView {
    OsConfigView {
        linux: Some(default_linux()),
        windows: Some(WindowsConfig { choco: true, winget: true }),
        macos: Some(MacOsConfig { brew: true }),
    }
}

impl Default for OsConfig {
    fn default() -> (config: OsConfig)
        ensures
            config@ == default_os(),
    {
        OsConfig {
            linux: Some(LinuxConfig::default()),
            windows: Some(WindowsConfig::default()),
            macos: Some(MacOsConfig::default()),
        }
    }
}

/// Mathematical model of a [`Config`].
pub struct ConfigView {
    pub os: Option<OsConfigView>,
    pub language: Option<LanguageConfig>,
}

/// The whole configuration of a run.
#[derive(Debug)]
pub struct Config {
    pub os: Option<OsConfig>,
    pub language: Option<LanguageConfig>,
}

impl View for Config {
    type V = ConfigView;

    open spec fn view(&self) -> ConfigView {
        ConfigView {
            os: match self.os {
                Some(os) => Some(os@),
                None => None,
            },
            language: self.language,
        }
    }
}

/// A fresh configuration: every family switched on, with the customary
/// program preferred.
pub open spec fn default_config() -> ConfigView {
    ConfigView { os: Some(default_os()), language: Some(default_language()) }
}

impl Default for Config {
    fn default() -> (config: Config)
        ensures
            config@ == default_config(),
    {
        Config { os: Some(OsConfig::default()), language: Some(LanguageConfig::default()) }
    }
}

} // verus!
