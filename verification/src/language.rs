//! Language toolchains and their package managers.

use vstd::prelude::*;
use crate::descriptor::{described, one_argument, two_arguments, ProgramDescriptor};
use crate::availability::{ProgramTable, TableView};
use crate::config::{JSConfig, RustConfig};
use crate::router::{only, FamilyRequest, RequestView};
use crate::os::linux::one_request;

verus! {

/// The model of the table with the one program described.
pub open spec fn sole(
    display_name: &str,
    executable_name: &str,
    update_args: Seq<Seq<char>>,
    requires_elevation: bool,
) -> TableView {
    TableView {
        family: executable_name@,
        descriptors: seq![
            described(display_name, executable_name, update_args, requires_elevation),
        ],
    }
}

/// The table with the one program described, named after its executable.
pub fn sole_table(
    display_name: &str,
    executable_name: &str,
    update_args: Vec<String>,
    requires_elevation: bool,
) -> (table: ProgramTable)
    ensures
        table@ == sole(
            display_name,
            executable_name,
            update_args.deep_view(),
            requires_elevation,
        ),
{
    let mut descriptors: Vec<ProgramDescriptor> = Vec::new();
    descriptors.push(
        ProgramDescriptor::new(display_name, executable_name, update_args, requires_elevation),
    );
    assert(descriptors.deep_view() =~= seq![
        described(display_name, executable_name, update_args.deep_view(), requires_elevation),
    ]);
    ProgramTable::new(executable_name, descriptors)
}

/// The model of the request of a family that is served by up to two
/// independent programs: both tables together where both are switched on, the
/// one table where one is, and nothing where none is.
pub open spec fn paired(
    family: &str,
    first_on: bool,
    first: TableView,
    second_on: bool,
    second: TableView,
) -> Seq<RequestView> {
    if first_on && second_on {
        seq![RequestView::Both { family: family@, first, second }]
    } else if first_on {
        seq![only(first)]
    } else if second_on {
        seq![only(second)]
    } else {
        Seq::empty()
    }
}

/// The request of a family that is served by up to two independent programs.
pub fn pair(
    family: &str,
    first_on: bool,
    first: ProgramTable,
    second_on: bool,
    second: ProgramTable,
) -> (requests: Vec<FamilyRequest>)
    ensures
        requests.deep_view() == paired(family, first_on, first@, second_on, second@),
{
    if first_on && second_on {
        one_request(FamilyRequest::Both { family: String::from_str(family), first, second })
    } else if first_on {
        one_request(FamilyRequest::only(first))
    } else if second_on {
        one_request(FamilyRequest::only(second))
    } else {
        let requests: Vec<FamilyRequest> = Vec::new();
        assert(requests.deep_view() =~= Seq::empty());
        requests
    }
}

/// The model of the requests that a Rust configuration makes: the toolchain
/// manager, then the updater of installed crates.
pub open spec fn rust_requests(config: RustConfig) -> Seq<RequestView> {
    paired(
        "Rust",
        config.rustup,
        sole("Rustup", "rustup", seq!["update"@], false),
        config.cargo,
        sole("Cargo", "cargo", seq!["install-update"@, "-a"@], false),
    )
}

/// The requests that update the Rust toolchain as `config` asks.
pub fn update_rust(config: RustConfig) -> (requests: Vec<FamilyRequest>)
    ensures
        requests.deep_view() == rust_requests(config),
{
    pair(
        "Rust",
        config.rustup,
        sole_table("Rustup", "rustup", one_argument("update"), false),
        config.cargo,
        sole_table("Cargo", "cargo", two_arguments("install-update", "-a"), false),
    )
}

/// The model of the requests that a JavaScript configuration makes.
pub open spec fn js_requests(config: JSConfig) -> Seq<RequestView> {
    paired(
        "JavaScript",
        config.npm,
        sole("Npm", "npm", seq!["-g"@, "upgrade"@], true),
        config.yarn,
        sole("Yarn", "yarn", seq!["global"@, "upgrade"@], false),
    )
}

/// The requests that update the global JavaScript packages as `config` asks.
pub fn update_js(config: JSConfig) -> (requests: Vec<FamilyRequest>)
    ensures
        requests.deep_view() == js_requests(config),
{
    pair(
        "JavaScript",
        config.npm,
        sole_table("Npm", "npm", two_arguments("-g", "upgrade"), true),
        config.yarn,
        sole_table("Yarn", "yarn", two_arguments("global", "upgrade"), false),
    )
}

/// The model of the requests for Flutter: the framework, then its packages.
pub open spec fn flutter_requests(dart: bool) -> Seq<RequestView> {
    paired(
        "Flutter",
        dart,
        sole("Flutter", "flutter", seq!["upgrade"@], false),
        dart,
        sole("Flutter", "flutter", seq!["update-packages"@], false),
    )
}

/// The requests that update Flutter where `dart` is switched on.
pub fn update_flutter(dart: bool) -> (requests: Vec<FamilyRequest>)
    ensures
        requests.deep_view() == flutter_requests(dart),
{
    pair(
        "Flutter",
        dart,
        sole_table("Flutter", "flutter", one_argument("upgrade"), false),
        dart,
        sole_table("Flutter", "flutter", one_argument("update-packages"), false),
    )
}

} // verus!
