//! The tick scheduler: registration order, the partial-failure policy,
//! deferred command draining, and state survival across re-registration.

use bonk_kernel::Engine;
use bonk_kernel::EngineError;
use bonk_kernel::GameplayLib;
use bonk_kernel::SystemError;
use bonk_kernel::SystemFn;
use bonk_kernel::TickData;

struct Counter(i32);

fn fail(message: &str) -> SystemError {
    SystemError { message: message.to_string() }
}

fn bump(td: &mut TickData, name: &'static str) {
    let slot = td.get_state::<u64>(name);
    if let Ok(v) = slot {
        *v += 1;
    }
}

#[test]
fn tick_runs_registered_systems_in_order() {
    let mut engine = Engine::new();
    engine.insert_state(0u64);
    engine.register_system(
        "inc".to_string(),
        SystemFn::new(|td: &mut TickData| {
            bump(td, "u64");
            Ok(())
        }),
    );
    let report = engine.tick();
    assert!(report.failure.is_none());
    assert_eq!(report.ran, vec!["inc".to_string()]);
    assert_eq!(*engine.get_state::<u64>("u64").unwrap(), 1);

    let report = engine.tick();
    assert!(report.failure.is_none());
    assert_eq!(*engine.get_state::<u64>("u64").unwrap(), 2);
}

struct FailOnce(bool);
struct ARuns(u64);
struct BRuns(u64);

#[test]
fn failure_skips_later_systems_until_next_tick() {
    let mut engine = Engine::new();
    engine.insert_state(FailOnce(true));
    engine.insert_state(ARuns(0));
    engine.insert_state(BRuns(0));
    engine.register_system(
        "a".to_string(),
        SystemFn::new(|td: &mut TickData| {
            td.get_state::<ARuns>("ARuns").map_err(|_| fail("no ARuns"))?.0 += 1;
            let pending = td.get_state::<FailOnce>("FailOnce").map_err(|_| fail("no FailOnce"))?;
            if pending.0 {
                pending.0 = false;
                return Err(fail("a broke"));
            }
            Ok(())
        }),
    );
    engine.register_system(
        "b".to_string(),
        SystemFn::new(|td: &mut TickData| {
            td.get_state::<BRuns>("BRuns").map_err(|_| fail("no BRuns"))?.0 += 1;
            Ok(())
        }),
    );

    let report = engine.tick();
    let failure = report.failure.expect("first tick must fail");
    assert_eq!(failure.system, "a");
    assert_eq!(failure.cause.message, "a broke");
    assert_eq!(report.ran, Vec::<String>::new());
    assert_eq!(engine.get_state::<ARuns>("ARuns").unwrap().0, 1);
    assert_eq!(engine.get_state::<BRuns>("BRuns").unwrap().0, 0);

    let report = engine.tick();
    assert!(report.failure.is_none());
    assert_eq!(report.ran, vec!["a".to_string(), "b".to_string()]);
    assert_eq!(engine.get_state::<ARuns>("ARuns").unwrap().0, 2);
    assert_eq!(engine.get_state::<BRuns>("BRuns").unwrap().0, 1);
}

#[test]
fn commands_queued_before_failure_still_apply() {
    let mut engine = Engine::new();
    engine.register_system(
        "spawner".to_string(),
        SystemFn::new(|td: &mut TickData| {
            td.command_buffer.spawn((7u32,));
            Ok(())
        }),
    );
    engine.register_system(
        "boom".to_string(),
        SystemFn::new(|_td: &mut TickData| Err(fail("boom"))),
    );
    let report = engine.tick();
    assert_eq!(report.failure.expect("tick must fail").system, "boom");
    assert_eq!(engine.world_mut().len(), 1);
}

#[test]
fn commands_apply_only_at_end_of_tick() {
    let mut engine = Engine::new();
    engine.register_system(
        "spawner".to_string(),
        SystemFn::new(|td: &mut TickData| {
            td.command_buffer.spawn((1u32,));
            Ok(())
        }),
    );
    engine.register_system(
        "observer".to_string(),
        SystemFn::new(|td: &mut TickData| {
            // The spawn the previous system queued must not be visible
            // within the same tick.
            if td.world.len() != 0 {
                return Err(fail("world mutated mid-tick"));
            }
            td.command_buffer.spawn((2u32,));
            Ok(())
        }),
    );
    let report = engine.tick();
    assert!(report.failure.is_none());
    assert_eq!(engine.world_mut().len(), 2);
}

#[test]
fn reregistering_a_name_replaces_its_behavior() {
    let mut engine = Engine::new();
    engine.insert_state(0u64);
    engine.register_system(
        "x".to_string(),
        SystemFn::new(|td: &mut TickData| {
            if let Ok(v) = td.get_state::<u64>("u64") {
                *v = 1;
            }
            Ok(())
        }),
    );
    engine.register_system(
        "x".to_string(),
        SystemFn::new(|td: &mut TickData| {
            if let Ok(v) = td.get_state::<u64>("u64") {
                *v = 2;
            }
            Ok(())
        }),
    );
    let report = engine.tick();
    assert!(report.failure.is_none());
    assert_eq!(report.ran, vec!["x".to_string()]);
    assert_eq!(*engine.get_state::<u64>("u64").unwrap(), 2);
}

#[test]
fn reload_preserves_state_store_contents() {
    let mut engine = Engine::new();
    engine.insert_state(Counter(42));
    engine.register_system(
        "noop".to_string(),
        SystemFn::new(|_td: &mut TickData| Ok(())),
    );

    // A reload only swaps the module handle and re-registers systems; it
    // does not touch the store.
    let mut module = GameplayLib::new((), "demo".to_string(), "target".to_string(), 100);
    assert!(module.check_reload(200));
    module.commit_reload((), 200);
    engine.register_system(
        "noop".to_string(),
        SystemFn::new(|_td: &mut TickData| Ok(())),
    );

    assert_eq!(module.version(), 1);
    assert_eq!(engine.get_state::<Counter>("Counter").unwrap().0, 42);
}

#[test]
fn tick_headless_can_hold_systems() {
    let mut engine = Engine::new();
    engine.insert_state(0u64);
    engine.register_system(
        "inc".to_string(),
        SystemFn::new(|td: &mut TickData| {
            bump(td, "u64");
            Ok(())
        }),
    );
    let report = engine.tick_headless(false);
    assert!(report.failure.is_none());
    assert_eq!(report.ran, Vec::<String>::new());
    assert_eq!(*engine.get_state::<u64>("u64").unwrap(), 0);

    let report = engine.tick_headless(true);
    assert_eq!(report.ran, vec!["inc".to_string()]);
    assert_eq!(*engine.get_state::<u64>("u64").unwrap(), 1);
}

#[test]
fn split_tick_presents_before_commands_apply() {
    let mut engine = Engine::new();
    engine.register_system(
        "spawner".to_string(),
        SystemFn::new(|td: &mut TickData| {
            td.command_buffer.spawn((9u32,));
            Ok(())
        }),
    );
    let (pending, report) = engine.run_tick_systems(true);
    assert!(report.failure.is_none());
    // Presentation would happen here, against the pre-mutation world.
    assert_eq!(engine.world_mut().len(), 0);
    engine.apply_commands(pending);
    assert_eq!(engine.world_mut().len(), 1);
}

#[test]
fn absent_engine_handle_is_refused() {
    let mut engine = Engine::new();
    assert!(Engine::from_handle(Some(&mut engine)).is_ok());
    assert!(matches!(Engine::from_handle(None), Err(EngineError::BadPointer)));
}

#[test]
fn report_lists_systems_in_registration_order() {
    let mut engine = Engine::new();
    engine.register_system("one".to_string(), SystemFn::new(|_td: &mut TickData| Ok(())));
    engine.register_system("two".to_string(), SystemFn::new(|_td: &mut TickData| Ok(())));
    engine.register_system("three".to_string(), SystemFn::new(|_td: &mut TickData| Ok(())));
    let report = engine.tick();
    assert!(report.failure.is_none());
    assert_eq!(
        report.ran,
        vec!["one".to_string(), "two".to_string(), "three".to_string()]
    );
}
