use yara::native::ERROR_SUCCESS;
use yara::{Engine, Yara, YaraError};

#[test]
fn new_engine_has_no_handle_out() {
    let engine = Engine::new();
    assert_eq!(engine.live_handles(), 0);
    assert!(engine.needs_initialize());
}

#[test]
fn first_handle_needs_a_successful_initialization() {
    let mut engine = Engine::new();
    assert_eq!(Yara::create(&mut engine, 1).err(), Some(YaraError::InitializationFailed));
    assert_eq!(engine.live_handles(), 0);
    assert!(engine.needs_initialize());
    assert_eq!(Yara::create(&mut engine, -1).err(), Some(YaraError::InitializationFailed));
    assert_eq!(engine.live_handles(), 0);

    let handle = Yara::create(&mut engine, ERROR_SUCCESS);
    assert!(handle.is_ok());
    assert_eq!(engine.live_handles(), 1);
    assert!(!engine.needs_initialize());
}

#[test]
fn later_handles_do_not_look_at_the_status() {
    let mut engine = Engine::new();
    let first = Yara::create(&mut engine, ERROR_SUCCESS).unwrap();
    let second = Yara::create(&mut engine, 31).unwrap();
    let third = Yara::create(&mut engine, ERROR_SUCCESS).unwrap();
    assert_eq!(engine.live_handles(), 3);
    assert!(!engine.release(second));
    assert!(!engine.release(first));
    assert_eq!(engine.live_handles(), 1);
    assert!(engine.release(third));
    assert_eq!(engine.live_handles(), 0);
}

#[test]
fn engine_is_initialized_once_between_first_and_last_handle() {
    let mut engine = Engine::new();
    let mut initializations = 0;
    let mut finalizations = 0;
    let mut out: Vec<Yara> = Vec::new();
    // true asks for a handle, false gives one back
    let steps = [true, true, false, true, true, false, false, true, false, false];
    for acquire in steps {
        if acquire {
            if engine.needs_initialize() {
                initializations += 1;
            }
            out.push(Yara::create(&mut engine, ERROR_SUCCESS).unwrap());
        } else if engine.release(out.pop().unwrap()) {
            finalizations += 1;
        }
        assert_eq!(engine.live_handles(), out.len() as u64);
        assert_eq!(initializations - finalizations, if out.is_empty() { 0 } else { 1 });
    }
    assert_eq!(engine.live_handles(), 0);
    assert_eq!(initializations, 1);
    assert_eq!(finalizations, 1);
}

#[test]
fn engine_is_initialized_again_after_the_last_handle_has_gone() {
    let mut engine = Engine::new();
    let first = Yara::create(&mut engine, ERROR_SUCCESS).unwrap();
    assert!(engine.release(first));
    assert!(engine.needs_initialize());
    assert_eq!(Yara::create(&mut engine, 1).err(), Some(YaraError::InitializationFailed));
    let second = Yara::create(&mut engine, ERROR_SUCCESS).unwrap();
    assert!(!engine.needs_initialize());
    assert!(engine.release(second));
}

#[test]
fn release_on_an_empty_engine_changes_nothing() {
    let mut lender = Engine::new();
    let mut other = Engine::new();
    let handle = Yara::create(&mut lender, ERROR_SUCCESS).unwrap();
    assert!(!other.release(handle));
    assert_eq!(other.live_handles(), 0);
    assert_eq!(lender.live_handles(), 1);
}

#[test]
fn failed_finalization_is_fatal() {
    assert_eq!(Engine::finalized(ERROR_SUCCESS), Ok(()));
    assert_eq!(Engine::finalized(31), Err(YaraError::FatalFinalizationFailure));
    assert_eq!(Engine::finalized(-7), Err(YaraError::FatalFinalizationFailure));
}

#[test]
fn new_compiler_follows_the_status() {
    let mut engine = Engine::new();
    let mut yara = Yara::create(&mut engine, ERROR_SUCCESS).unwrap();
    assert_eq!(yara.new_compiler(1, 0).err(), Some(YaraError::CompilerCreationFailed));
    let compiler = yara.new_compiler(ERROR_SUCCESS, 0xc0de).unwrap();
    assert_eq!(compiler.handle(), 0xc0de);
    assert!(compiler.accepts_rules());
    assert!(!compiler.is_ready());
    assert!(compiler.fragments().is_empty());
}

#[test]
fn load_rules_follows_the_status() {
    let mut engine = Engine::new();
    let mut yara = Yara::create(&mut engine, ERROR_SUCCESS).unwrap();
    assert_eq!(yara.load_rules(3, 0).err(), Some(YaraError::RuleSetLoadFailed { cause: 3 }));
    assert_eq!(yara.load_rules(8, 0x77).err(), Some(YaraError::RuleSetLoadFailed { cause: 8 }));
    let rules = yara.load_rules(ERROR_SUCCESS, 0x77).unwrap();
    assert_eq!(rules.handle(), 0x77);
}
