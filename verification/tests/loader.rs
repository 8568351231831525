//! The module loader state machine: staleness detection, versioned
//! artifact names, and the build-identifier gate.

use bonk_kernel::GameplayLib;
use bonk_kernel::LoadError;
use bonk_kernel::artifact_filename;
use bonk_kernel::check_build_id;
use bonk_kernel::u64_to_dec;
use bonk_kernel::versioned_filename;

#[test]
fn artifact_name_joins_prefix_and_suffix() {
    assert_eq!(artifact_filename("lib", "demo_platformer", ".so"), "libdemo_platformer.so");
    assert_eq!(artifact_filename("", "demo_platformer", ".dll"), "demo_platformer.dll");
}

#[test]
fn versioned_name_embeds_the_counter() {
    assert_eq!(versioned_filename("lib", "demo", 1, ".so"), "libdemo_1.so");
    assert_eq!(versioned_filename("lib", "demo", 42, ".so"), "libdemo_42.so");
    assert_eq!(versioned_filename("", "gui", 0, ".dll"), "gui_0.dll");
}

#[test]
fn decimal_rendering_is_exact() {
    assert_eq!(u64_to_dec(0), "0");
    assert_eq!(u64_to_dec(10), "10");
    assert_eq!(u64_to_dec(907), "907");
    assert_eq!(u64_to_dec(u64::MAX), "18446744073709551615");
}

#[test]
fn unchanged_artifact_never_reloads() {
    let module = GameplayLib::new((), "demo".to_string(), "target/debug".to_string(), 1000);
    assert!(!module.check_reload(1000));
    assert!(!module.check_reload(1000));
    assert_eq!(module.version(), 0);
    assert_eq!(module.last_modified(), 1000);
}

#[test]
fn changed_artifact_triggers_reload() {
    let mut module = GameplayLib::new((), "demo".to_string(), "target/debug".to_string(), 1000);
    assert!(module.check_reload(1500));
    assert_eq!(module.next_version(), 1);
    module.commit_reload((), 1500);
    assert_eq!(module.version(), 1);
    assert_eq!(module.last_modified(), 1500);
    assert_eq!(module.lib_name(), "demo");
    assert_eq!(module.lib_path(), "target/debug");
    assert!(!module.check_reload(1500));
}

#[test]
fn build_id_gate_accepts_exact_match_only() {
    assert!(check_build_id("rev-abc123", "rev-abc123").is_ok());
    assert!(matches!(
        check_build_id("rev-abc123", "rev-def456"),
        Err(LoadError::AbiMismatch)
    ));
    assert!(matches!(check_build_id("rev-abc123", ""), Err(LoadError::AbiMismatch)));
}

#[test]
fn mismatched_build_id_leaves_module_active() {
    let mut module = GameplayLib::new(7u32, "demo".to_string(), "target".to_string(), 1000);
    let refused = module.try_commit_reload(8u32, 2000, "rev-abc", "rev-xyz");
    assert!(matches!(refused, Err(LoadError::AbiMismatch)));
    assert_eq!(*module.lib(), 7);
    assert_eq!(module.version(), 0);
    assert_eq!(module.last_modified(), 1000);

    let accepted = module.try_commit_reload(8u32, 2000, "rev-abc", "rev-abc");
    assert!(accepted.is_ok());
    assert_eq!(*module.lib(), 8);
    assert_eq!(module.version(), 1);
    assert_eq!(module.last_modified(), 2000);
}
