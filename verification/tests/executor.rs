use radon::command::{Exit, Invocation};
use radon::executor::{verdict, BuildAction, BuildEvent, BuildJob, BuildPhase, BuildStep, BuildVerdict};
use radon::kind::BuildKind;

fn job(kind: BuildKind) -> BuildJob {
    BuildJob {
        kind,
        dir: "/w".to_string(),
        makefile: None,
        flags: vec!["-x".to_string(), "-y".to_string()],
    }
}

fn run_of(step: Option<BuildStep>, phase: BuildPhase) -> Invocation {
    let step = step.expect("a step");
    assert_eq!(step.phase, phase);
    match step.action {
        BuildAction::Run(r) => r,
        _ => panic!("a run was expected"),
    }
}

fn end_of(step: Option<BuildStep>) -> BuildVerdict {
    let step = step.expect("a step");
    assert_eq!(step.phase, BuildPhase::Done);
    match step.action {
        BuildAction::Finish(v) => v,
        _ => panic!("the end was expected"),
    }
}

fn dir_of(step: Option<BuildStep>) -> String {
    let step = step.expect("a step");
    assert_eq!(step.phase, BuildPhase::Preparing);
    match step.action {
        BuildAction::CreateDir(d) => d,
        _ => panic!("a directory was expected"),
    }
}

#[test]
fn make_is_one_run_with_the_makefile() {
    let mut j = job(BuildKind::Make);
    j.makefile = Some("GNUMakefile".to_string());
    let r = run_of(j.step(BuildPhase::Start, BuildEvent::Begin), BuildPhase::Building);
    assert_eq!(r.program, "make");
    assert_eq!(r.args, vec!["-f", "GNUMakefile", "-x", "-y"]);
    assert_eq!(r.dir, Some("/w".to_string()));
    assert!(r.quiet);
    let d = job(BuildKind::Make);
    let r = run_of(d.step(BuildPhase::Start, BuildEvent::Begin), BuildPhase::Building);
    assert_eq!(r.args, vec!["-f", "Makefile", "-x", "-y"]);
}

#[test]
fn the_last_run_decides() {
    for k in [BuildKind::Make, BuildKind::Cargo, BuildKind::Ninja, BuildKind::Nimble, BuildKind::Stack,
        BuildKind::Autotools, BuildKind::Meson]
    {
        let j = job(k);
        assert_eq!(
            end_of(j.step(BuildPhase::Building, BuildEvent::Exited(Exit::Success))),
            BuildVerdict::Built
        );
        assert_eq!(
            end_of(j.step(BuildPhase::Building, BuildEvent::Exited(Exit::Failure))),
            BuildVerdict::BuildFailed
        );
        assert_eq!(
            end_of(j.step(BuildPhase::Building, BuildEvent::Exited(Exit::Unavailable))),
            BuildVerdict::Unavailable
        );
    }
}

#[test]
fn verdicts_of_exits() {
    assert_eq!(verdict(Exit::Success), BuildVerdict::Built);
    assert_eq!(verdict(Exit::Failure), BuildVerdict::BuildFailed);
    assert_eq!(verdict(Exit::Unavailable), BuildVerdict::Unavailable);
}

#[test]
fn autotools_configures_and_then_makes() {
    let j = job(BuildKind::Autotools);
    let c = run_of(j.step(BuildPhase::Start, BuildEvent::Begin), BuildPhase::Configuring);
    assert_eq!(c.program, "./configure");
    assert_eq!(c.args, vec!["-x", "-y"]);
    assert_eq!(c.dir, Some("/w".to_string()));
    assert!(!c.quiet);
    let m = run_of(
        j.step(BuildPhase::Configuring, BuildEvent::Exited(Exit::Success)),
        BuildPhase::Building,
    );
    assert_eq!(m.program, "make");
    assert_eq!(m.args, Vec::<String>::new());
    assert_eq!(m.dir, Some("/w".to_string()));
    assert!(m.quiet);
}

#[test]
fn a_failed_configure_stops_before_make() {
    let j = job(BuildKind::Autotools);
    assert_eq!(
        end_of(j.step(BuildPhase::Configuring, BuildEvent::Exited(Exit::Failure))),
        BuildVerdict::ConfigureFailed
    );
    assert_eq!(
        end_of(j.step(BuildPhase::Configuring, BuildEvent::Exited(Exit::Unavailable))),
        BuildVerdict::Unavailable
    );
}

#[test]
fn cargo_builds_for_release_into_the_workspace() {
    let j = job(BuildKind::Cargo);
    let r = run_of(j.step(BuildPhase::Start, BuildEvent::Begin), BuildPhase::Building);
    assert_eq!(r.program, "cargo");
    assert_eq!(
        r.args,
        vec![
            "build",
            "--release",
            "-x",
            "-y",
            "--manifest-path",
            "/w/Cargo.toml",
            "--target-dir",
            "/w/target"
        ]
    );
    assert_eq!(r.dir, Some("/w".to_string()));
    assert!(r.quiet);
}

#[test]
fn cmake_configures_for_release_and_retries_without() {
    let j = job(BuildKind::Cmake);
    assert_eq!(dir_of(j.step(BuildPhase::Start, BuildEvent::Begin)), "/w/build");
    let c = run_of(j.step(BuildPhase::Preparing, BuildEvent::DirCreated), BuildPhase::Configuring);
    assert_eq!(c.program, "cmake");
    assert_eq!(c.args, vec!["-DCMAKE_BUILD_TYPE=Release", "-x", "-y", ".."]);
    assert_eq!(c.dir, Some("/w/build".to_string()));
    assert!(c.quiet);
    assert_eq!(
        end_of(j.step(BuildPhase::Configuring, BuildEvent::Exited(Exit::Success))),
        BuildVerdict::Built
    );
    for e in [Exit::Failure, Exit::Unavailable] {
        let r = run_of(j.step(BuildPhase::Configuring, BuildEvent::Exited(e)), BuildPhase::Retrying);
        assert_eq!(r.program, "cmake");
        assert_eq!(r.args, vec!["-x", "-y", ".."]);
        assert_eq!(r.dir, Some("/w/build".to_string()));
    }
    assert_eq!(
        end_of(j.step(BuildPhase::Retrying, BuildEvent::Exited(Exit::Success))),
        BuildVerdict::Built
    );
    assert_eq!(
        end_of(j.step(BuildPhase::Retrying, BuildEvent::Exited(Exit::Failure))),
        BuildVerdict::BuildFailed
    );
    assert!(j.step(BuildPhase::Building, BuildEvent::Exited(Exit::Success)).is_none());
}

#[test]
fn meson_sets_up_retries_in_the_old_form_and_runs_ninja() {
    let j = job(BuildKind::Meson);
    assert_eq!(dir_of(j.step(BuildPhase::Start, BuildEvent::Begin)), "/w/build");
    let s = run_of(j.step(BuildPhase::Preparing, BuildEvent::DirCreated), BuildPhase::Configuring);
    assert_eq!(s.program, "meson");
    assert_eq!(s.args, vec!["setup", "-x", "-y", "/w/build"]);
    assert_eq!(s.dir, Some("/w".to_string()));
    let n = run_of(
        j.step(BuildPhase::Configuring, BuildEvent::Exited(Exit::Success)),
        BuildPhase::Building,
    );
    assert_eq!(n.program, "ninja");
    assert_eq!(n.args, vec!["-C", "/w/build"]);
    assert_eq!(n.dir, None);
    let r = run_of(
        j.step(BuildPhase::Configuring, BuildEvent::Exited(Exit::Failure)),
        BuildPhase::Retrying,
    );
    assert_eq!(r.program, "meson");
    assert_eq!(r.args, vec!["/w/build"]);
    assert_eq!(r.dir, Some("/w".to_string()));
    for e in [Exit::Success, Exit::Failure] {
        let n = run_of(j.step(BuildPhase::Retrying, BuildEvent::Exited(e)), BuildPhase::Building);
        assert_eq!(n.args, vec!["-C", "/w/build"]);
    }
    assert_eq!(
        end_of(j.step(BuildPhase::Retrying, BuildEvent::Exited(Exit::Unavailable))),
        BuildVerdict::Unavailable
    );
}

#[test]
fn ninja_nimble_and_stack_are_one_run() {
    let n = run_of(job(BuildKind::Ninja).step(BuildPhase::Start, BuildEvent::Begin), BuildPhase::Building);
    assert_eq!(n.program, "ninja");
    assert_eq!(n.args, vec!["-x", "-y"]);
    let m = run_of(job(BuildKind::Nimble).step(BuildPhase::Start, BuildEvent::Begin), BuildPhase::Building);
    assert_eq!(m.program, "nimble");
    assert_eq!(m.args, vec!["build", "-x", "-y"]);
    let s = run_of(job(BuildKind::Stack).step(BuildPhase::Start, BuildEvent::Begin), BuildPhase::Building);
    assert_eq!(s.program, "stack");
    assert_eq!(s.args, vec!["install", "-x", "-y", "--local-bin-path", "/w/bin"]);
    for r in [n, m, s] {
        assert_eq!(r.dir, Some("/w".to_string()));
        assert!(r.quiet);
    }
}

#[test]
fn events_out_of_turn_have_no_step() {
    let j = job(BuildKind::Make);
    assert!(j.step(BuildPhase::Start, BuildEvent::DirCreated).is_none());
    assert!(j.step(BuildPhase::Start, BuildEvent::Exited(Exit::Success)).is_none());
    assert!(j.step(BuildPhase::Preparing, BuildEvent::DirCreated).is_none());
    assert!(j.step(BuildPhase::Configuring, BuildEvent::Exited(Exit::Success)).is_none());
    assert!(j.step(BuildPhase::Retrying, BuildEvent::Exited(Exit::Success)).is_none());
    assert!(j.step(BuildPhase::Building, BuildEvent::Begin).is_none());
    assert!(j.step(BuildPhase::Done, BuildEvent::Begin).is_none());
    assert!(j.step(BuildPhase::Done, BuildEvent::Exited(Exit::Success)).is_none());
    assert!(job(BuildKind::Autotools).step(BuildPhase::Retrying, BuildEvent::Exited(Exit::Failure)).is_none());
}
