use cargo_apk::coordinator::{BuildEvent, BuildPhase, BuildSession};
use cargo_apk::error::Error;
use cargo_apk::targets::{resolve_build_targets, Target};

#[test]
fn a_failure_on_one_target_aborts_before_the_next_begins() {
    let mut s = BuildSession::new(3);
    assert_eq!(s.phase, BuildPhase::Compile { idx: 0 });
    s.step(BuildEvent::CompileSucceeded);
    assert_eq!(s.phase, BuildPhase::AddLibraries { idx: 0 });
    s.step(BuildEvent::LibrariesAdded);
    assert_eq!(s.phase, BuildPhase::Compile { idx: 1 });
    s.step(BuildEvent::CompileFailed);
    assert_eq!(s.phase, BuildPhase::Aborted { idx: 1 });
}

#[test]
fn a_library_failure_also_aborts() {
    let mut s = BuildSession::new(2);
    s.step(BuildEvent::CompileSucceeded);
    s.step(BuildEvent::LibrariesFailed);
    assert_eq!(s.phase, BuildPhase::Aborted { idx: 0 });
}

#[test]
fn all_targets_succeeding_completes_the_package() {
    let mut s = BuildSession::new(2);
    s.step(BuildEvent::CompileSucceeded);
    s.step(BuildEvent::LibrariesAdded);
    assert_eq!(s.phase, BuildPhase::Compile { idx: 1 });
    s.step(BuildEvent::CompileSucceeded);
    s.step(BuildEvent::LibrariesAdded);
    assert_eq!(s.phase, BuildPhase::Finalize);
    s.step(BuildEvent::Finalized);
    assert_eq!(s.phase, BuildPhase::Complete);
}

#[test]
fn explicit_target_overrides_everything() {
    let declared = vec![Target::X86, Target::X86_64];
    let r = resolve_build_targets(Some(Target::ArmV7a), &declared, Some(Target::Arm64V8a));
    assert_eq!(r, vec![Target::ArmV7a]);
}

#[test]
fn declared_targets_win_over_detection() {
    let declared = vec![Target::X86, Target::X86_64];
    let r = resolve_build_targets(None, &declared, Some(Target::Arm64V8a));
    assert_eq!(r, declared);
}

#[test]
fn detected_abi_is_used_when_nothing_is_declared() {
    let r = resolve_build_targets(None, &Vec::new(), Some(Target::X86));
    assert_eq!(r, vec![Target::X86]);
}

#[test]
fn the_global_fallback_is_64_bit_arm() {
    let r = resolve_build_targets(None, &Vec::new(), None);
    assert_eq!(r, vec![Target::Arm64V8a]);
}

#[test]
fn triples_round_trip() {
    for t in [Target::ArmV7a, Target::Arm64V8a, Target::X86, Target::X86_64] {
        assert_eq!(Target::from_rust_triple(t.rust_triple()), Ok(t));
    }
    assert_eq!(Target::ArmV7a.rust_triple(), "armv7-linux-androideabi");
    assert_eq!(Target::Arm64V8a.rust_triple(), "aarch64-linux-android");
    assert_eq!(Target::X86.rust_triple(), "i686-linux-android");
    assert_eq!(Target::X86_64.rust_triple(), "x86_64-linux-android");
}

#[test]
fn unknown_triples_are_rejected() {
    assert_eq!(
        Target::from_rust_triple("riscv64-linux-android"),
        Err(Error::UnsupportedTarget("riscv64-linux-android".to_string()))
    );
}
