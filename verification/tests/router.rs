use software_updater::availability::{AvailabilityMap, ProgramTable};
use software_updater::descriptor::ProgramDescriptor;
use software_updater::execution::{ExecutionResult, ExitStatus, Launcher, SpawnFailure};
use software_updater::report::{FamilyOutcome, FamilyUpdateReport};
use software_updater::router::{Action, FamilyRequest, Router};
use software_updater::selection::PreferencePolicy;

fn text(value: &str) -> String {
    value.to_string()
}

fn program(name: &str, elevated: bool) -> ProgramDescriptor {
    ProgramDescriptor::new(name, name, vec![text("-Syu")], elevated)
}

fn single(family: &str, names: &[&str]) -> FamilyRequest {
    FamilyRequest::Single {
        table: ProgramTable::new(
            family,
            names.iter().map(|name| program(name, false)).collect(),
        ),
        preferred: None,
        policy: PreferencePolicy::FallBack,
    }
}

fn found(family: &str, names: &[&str]) -> AvailabilityMap {
    let mut map = AvailabilityMap::new(family);
    for name in names {
        map.record(&program(name, false), Some(format!("/usr/bin/{}", name)));
    }
    map
}

fn exited(code: i32) -> Result<ExecutionResult, SpawnFailure> {
    Ok(ExecutionResult::from_exit(Some(code), None))
}

fn run_program(action: Action) -> String {
    match action {
        Action::Run(invocation) => invocation.program,
        other => panic!("expected a program to run, got {:?}", other),
    }
}

fn runs_of(report: &FamilyUpdateReport) -> Vec<(String, Option<ExitStatus>)> {
    match &report.outcome {
        FamilyOutcome::Ran(runs) => runs
            .iter()
            .map(|run| {
                (
                    run.program.path.clone(),
                    run.result.as_ref().ok().map(|execution| execution.status),
                )
            })
            .collect(),
        other => panic!("expected runs, got {:?}", other),
    }
}

#[test]
fn new_router_waits_for_the_first_family() {
    let router = Router::new(vec![single("Arch", &["pacman"])]);
    assert!(matches!(router.pending(), Action::Resolve));
    assert!(!router.is_done());
    assert!(router.reports().is_empty());
    let empty = Router::new(vec![]);
    assert!(matches!(empty.pending(), Action::Done));
    assert!(empty.is_done());
}

#[test]
fn second_family_failing_does_not_stop_the_third() {
    let mut router = Router::new(vec![
        single("Arch", &["pacman"]),
        single("AUR", &["yay", "paru"]),
        single("Deb", &["apt"]),
    ]);
    let nothing = AvailabilityMap::new("");

    router.resolve_with(&found("Arch", &["pacman"]), &nothing);
    assert_eq!(run_program(router.pending()), "/usr/bin/pacman");
    router.conclude(exited(0));
    assert!(matches!(router.pending(), Action::Resolve));

    router.resolve_with(&AvailabilityMap::new("AUR"), &nothing);
    assert!(matches!(router.pending(), Action::Resolve));
    assert_eq!(router.reports().len(), 2);

    router.resolve_with(&found("Deb", &["apt"]), &nothing);
    assert_eq!(run_program(router.pending()), "/usr/bin/apt");
    router.conclude(exited(100));
    assert!(matches!(router.pending(), Action::Done));
    assert!(router.is_done());

    let reports = router.into_reports();
    assert_eq!(reports.len(), 3);
    assert_eq!(reports[0].family, "Arch");
    assert_eq!(runs_of(&reports[0]), vec![(text("/usr/bin/pacman"), Some(ExitStatus::Success))]);
    assert_eq!(reports[1].family, "AUR");
    assert!(matches!(reports[1].outcome, FamilyOutcome::NoProgramAvailable));
    assert_eq!(reports[2].family, "Deb");
    assert_eq!(runs_of(&reports[2]), vec![(text("/usr/bin/apt"), Some(ExitStatus::Failure(100)))]);
}

#[test]
fn spawn_failure_is_reported_and_the_run_goes_on() {
    let mut router = Router::new(vec![single("Arch", &["pacman"]), single("Deb", &["apt"])]);
    let nothing = AvailabilityMap::new("");
    router.resolve_with(&found("Arch", &["pacman"]), &nothing);
    router.conclude(Err(SpawnFailure::ElevationUnavailable));
    router.resolve_with(&found("Deb", &["apt"]), &nothing);
    router.conclude(exited(0));
    let reports = router.into_reports();
    assert_eq!(reports.len(), 2);
    match &reports[0].outcome {
        FamilyOutcome::Ran(runs) => {
            assert_eq!(runs.len(), 1);
            assert_eq!(runs[0].result.as_ref().err(), Some(&SpawnFailure::ElevationUnavailable));
            assert_eq!(runs[0].program.path, "/usr/bin/pacman");
        }
        other => panic!("expected a run, got {:?}", other),
    }
    assert!(!reports[0].succeeded());
    assert!(reports[1].succeeded());
}

#[test]
fn empty_table_is_passed_over_without_a_report() {
    let mut router = Router::new(vec![single("Arch", &[]), single("Deb", &["apt"])]);
    let nothing = AvailabilityMap::new("");
    router.resolve_with(&found("Arch", &["pacman"]), &nothing);
    assert!(matches!(router.pending(), Action::Resolve));
    assert!(router.reports().is_empty());
    router.resolve_with(&found("Deb", &["apt"]), &nothing);
    assert_eq!(run_program(router.pending()), "/usr/bin/apt");
    router.conclude(exited(0));
    let reports = router.into_reports();
    assert_eq!(reports.len(), 1);
    assert_eq!(reports[0].family, "Deb");
}

#[test]
fn step_passes_over_an_empty_table_without_probing() {
    let mut router = Router::new(vec![single("Arch", &[])]);
    assert!(matches!(router.step(None), Action::Done));
    assert!(router.reports().is_empty());
    let both_empty = FamilyRequest::Both {
        family: text("Rust"),
        first: ProgramTable::new("rustup", vec![]),
        second: ProgramTable::new("cargo", vec![]),
    };
    let mut router = Router::new(vec![both_empty]);
    assert!(matches!(router.step(None), Action::Done));
    assert!(router.into_reports().is_empty());
}

#[test]
fn unsupported_ecosystem_is_reported() {
    let mut router = Router::new(vec![
        FamilyRequest::Unsupported { family: text("Snap") },
        single("Deb", &["apt"]),
    ]);
    assert!(matches!(router.step(None), Action::Resolve));
    assert_eq!(router.reports().len(), 1);
    assert_eq!(router.reports()[0].family, "Snap");
    assert!(matches!(router.reports()[0].outcome, FamilyOutcome::UnsupportedEcosystem));
}

#[test]
fn preferred_program_is_run_when_available() {
    let request = FamilyRequest::Single {
        table: ProgramTable::new("AUR", vec![program("yay", false), program("paru", false)]),
        preferred: Some(program("paru", false)),
        policy: PreferencePolicy::FallBack,
    };
    let mut router = Router::new(vec![request]);
    router.resolve_with(&found("AUR", &["yay", "paru"]), &AvailabilityMap::new(""));
    assert_eq!(run_program(router.pending()), "/usr/bin/paru");
}

#[test]
fn elevation_follows_the_descriptor() {
    let request = FamilyRequest::Single {
        table: ProgramTable::new("Arch", vec![program("paru", false), program("pacman", true)]),
        preferred: None,
        policy: PreferencePolicy::FallBack,
    };
    let mut router = Router::new(vec![request]);
    let mut map = AvailabilityMap::new("Arch");
    map.record(&program("paru", false), None);
    map.record(&program("pacman", true), Some(text("/usr/bin/pacman")));
    router.resolve_with(&map, &AvailabilityMap::new(""));
    match router.pending() {
        Action::Run(invocation) => {
            assert_eq!(invocation.launcher, Launcher::Elevated);
            assert_eq!(invocation.program, "/usr/bin/pacman");
            assert_eq!(invocation.args, vec![text("-Syu")]);
        }
        other => panic!("expected a program to run, got {:?}", other),
    }
    router.conclude(exited(42));
    let reports = router.into_reports();
    assert_eq!(runs_of(&reports[0]), vec![(text("/usr/bin/pacman"), Some(ExitStatus::Failure(42)))]);
}

fn rust_request() -> FamilyRequest {
    FamilyRequest::Both {
        family: text("Rust"),
        first: ProgramTable::new("rustup", vec![program("rustup", false)]),
        second: ProgramTable::new("cargo", vec![program("cargo", false)]),
    }
}

#[test]
fn both_programs_run_in_order_and_share_a_report() {
    let mut router = Router::new(vec![rust_request()]);
    router.resolve_with(&found("rustup", &["rustup"]), &found("cargo", &["cargo"]));
    assert_eq!(run_program(router.pending()), "/usr/bin/rustup");
    router.conclude(exited(1));
    assert!(router.reports().is_empty());
    assert_eq!(run_program(router.pending()), "/usr/bin/cargo");
    router.conclude(exited(0));
    assert!(router.is_done());
    let reports = router.into_reports();
    assert_eq!(reports.len(), 1);
    assert_eq!(reports[0].family, "Rust");
    assert_eq!(
        runs_of(&reports[0]),
        vec![
            (text("/usr/bin/rustup"), Some(ExitStatus::Failure(1))),
            (text("/usr/bin/cargo"), Some(ExitStatus::Success)),
        ]
    );
}

#[test]
fn both_falls_back_to_the_program_that_is_installed() {
    let mut router = Router::new(vec![rust_request()]);
    router.resolve_with(&AvailabilityMap::new("rustup"), &found("cargo", &["cargo"]));
    assert_eq!(run_program(router.pending()), "/usr/bin/cargo");
    router.conclude(exited(0));
    let reports = router.into_reports();
    assert_eq!(runs_of(&reports[0]), vec![(text("/usr/bin/cargo"), Some(ExitStatus::Success))]);
}

#[test]
fn both_missing_is_one_failure_report() {
    let mut router = Router::new(vec![rust_request()]);
    router.resolve_with(&AvailabilityMap::new("rustup"), &AvailabilityMap::new("cargo"));
    assert!(router.is_done());
    let reports = router.into_reports();
    assert_eq!(reports.len(), 1);
    assert_eq!(reports[0].family, "Rust");
    assert!(matches!(reports[0].outcome, FamilyOutcome::NoProgramAvailable));
}

#[test]
fn stray_outcome_and_repeated_resolution_change_nothing() {
    let mut router = Router::new(vec![single("Arch", &["pacman"])]);
    router.conclude(exited(0));
    assert!(router.reports().is_empty());
    assert!(matches!(router.pending(), Action::Resolve));
    let nothing = AvailabilityMap::new("");
    router.resolve_with(&found("Arch", &["pacman"]), &nothing);
    router.resolve_with(&AvailabilityMap::new("Arch"), &nothing);
    assert_eq!(run_program(router.pending()), "/usr/bin/pacman");
    assert_eq!(run_program(router.pending()), "/usr/bin/pacman");
    router.conclude(exited(0));
    router.conclude(exited(9));
    router.resolve_with(&found("Arch", &["pacman"]), &nothing);
    let reports = router.into_reports();
    assert_eq!(reports.len(), 1);
    assert_eq!(runs_of(&reports[0]), vec![(text("/usr/bin/pacman"), Some(ExitStatus::Success))]);
}

#[test]
fn step_drives_a_whole_run_against_the_real_search_path() {
    let shell = FamilyRequest::Single {
        table: ProgramTable::new(
            "shell",
            vec![program("no-such-update-program-a1b2c3", false), program("sh", false)],
        ),
        preferred: None,
        policy: PreferencePolicy::FallBack,
    };
    let ghost = single("ghost", &["no-such-update-program-d4e5f6"]);
    let mut router = Router::new(vec![ghost, shell, FamilyRequest::Unsupported { family: text("Brew") }]);
    let mut outcome = None;
    let mut started = Vec::new();
    loop {
        match router.step(outcome.take()) {
            Action::Run(invocation) => {
                started.push(invocation.program);
                outcome = Some(exited(0));
            }
            Action::Resolve => {}
            Action::Done => break,
        }
    }
    assert_eq!(started.len(), 1);
    assert!(started[0].starts_with('/'));
    assert!(started[0].ends_with("sh"));
    let reports = router.into_reports();
    assert_eq!(reports.len(), 3);
    assert!(matches!(reports[0].outcome, FamilyOutcome::NoProgramAvailable));
    assert_eq!(reports[0].family, "ghost");
    assert!(reports[1].succeeded());
    assert!(matches!(reports[2].outcome, FamilyOutcome::UnsupportedEcosystem));
}

#[test]
fn request_knows_its_family_and_whether_it_is_disabled() {
    assert_eq!(single("Arch", &["pacman"]).family(), "Arch");
    assert!(!single("Arch", &["pacman"]).is_disabled());
    assert!(single("Arch", &[]).is_disabled());
    assert_eq!(rust_request().family(), "Rust");
    assert!(!rust_request().is_disabled());
    let unsupported = FamilyRequest::Unsupported { family: text("Snap") };
    assert_eq!(unsupported.family(), "Snap");
    assert!(!unsupported.is_disabled());
    let by_name = FamilyRequest::single(
        ProgramTable::new("AUR", vec![program("yay", false), program("paru", false)]),
        &Some(text("paru")),
    );
    match by_name {
        FamilyRequest::Single { preferred, policy, .. } => {
            assert_eq!(preferred, Some(program("paru", false)));
            assert_eq!(policy, PreferencePolicy::FallBack);
        }
        other => panic!("expected a single table, got {:?}", other),
    }
    let unknown = FamilyRequest::single(
        ProgramTable::new("AUR", vec![program("yay", false)]),
        &Some(text("pikaur")),
    );
    match unknown {
        FamilyRequest::Single { preferred, .. } => assert_eq!(preferred, None),
        other => panic!("expected a single table, got {:?}", other),
    }
}

#[test]
fn insisting_on_a_missing_preference_fails_the_family() {
    let request = |policy| FamilyRequest::Single {
        table: ProgramTable::new("AUR", vec![program("yay", false), program("paru", false)]),
        preferred: Some(program("paru", false)),
        policy,
    };
    let nothing = AvailabilityMap::new("");
    let mut strict = Router::new(vec![request(PreferencePolicy::Insist)]);
    strict.resolve_with(&found("AUR", &["yay"]), &nothing);
    assert!(strict.is_done());
    let reports = strict.into_reports();
    assert_eq!(reports.len(), 1);
    assert!(matches!(reports[0].outcome, FamilyOutcome::NoProgramAvailable));
    let mut lenient = Router::new(vec![request(PreferencePolicy::FallBack)]);
    lenient.resolve_with(&found("AUR", &["yay"]), &nothing);
    assert_eq!(run_program(lenient.pending()), "/usr/bin/yay");
    let mut satisfied = Router::new(vec![request(PreferencePolicy::Insist)]);
    satisfied.resolve_with(&found("AUR", &["yay", "paru"]), &nothing);
    assert_eq!(run_program(satisfied.pending()), "/usr/bin/paru");
}

#[test]
fn preferred_paru_runs_without_elevation() {
    let request = FamilyRequest::Single {
        table: ProgramTable::new("Arch", vec![program("paru", false), program("pacman", true)]),
        preferred: Some(program("paru", false)),
        policy: PreferencePolicy::FallBack,
    };
    let mut router = Router::new(vec![request]);
    let mut map = AvailabilityMap::new("Arch");
    map.record(&program("paru", false), Some(text("/usr/bin/paru")));
    map.record(&program("pacman", true), Some(text("/usr/bin/pacman")));
    router.resolve_with(&map, &AvailabilityMap::new(""));
    match router.pending() {
        Action::Run(invocation) => {
            assert_eq!(invocation.launcher, Launcher::Direct);
            assert_eq!(invocation.program, "/usr/bin/paru");
            assert_eq!(invocation.args, vec![text("-Syu")]);
        }
        other => panic!("expected a program to run, got {:?}", other),
    }
}
