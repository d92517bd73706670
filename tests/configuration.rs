use web_render_rs::cell::StateCell;
use web_render_rs::error::ConfigError;
use web_render_rs::listeners::ListenerSet;
use web_render_rs::resize::{backing_size, client_size, viewport};
use web_render_rs::slot::OnceSlot;

#[test]
fn second_callback_is_refused_and_first_kept() {
    let mut slot: OnceSlot<u32> = OnceSlot::new();
    assert!(!slot.is_set());
    assert_eq!(slot.get(), None);
    assert_eq!(slot.set(1), Ok(()));
    assert_eq!(slot.set(2), Err(ConfigError::AlreadyConfigured));
    assert_eq!(slot.set(3), Err(ConfigError::AlreadyConfigured));
    assert_eq!(slot.get(), Some(&1));
    assert!(slot.is_set());
}

#[test]
fn events_before_start_are_dropped() {
    let mut cell: StateCell<String> = StateCell::new();
    assert!(!cell.accepts_events());
    assert_eq!(cell.set(String::from("state")), Ok(()));
    assert!(cell.accepts_events());
    assert_eq!(cell.set(String::from("other")), Err(ConfigError::AlreadyStarted));
    match cell {
        StateCell::Ready(s) => assert_eq!(s, "state"),
        StateCell::Uninitialized => panic!("state missing"),
    }
}

#[test]
fn teardown_hands_back_every_listener() {
    let mut set: ListenerSet<&str> = ListenerSet::new();
    assert_eq!(set.register("keydown"), None);
    assert_eq!(set.register("click"), None);
    assert_eq!(set.len(), 2);
    assert_eq!(set.close(), vec!["keydown", "click"]);
    assert_eq!(set.len(), 0);
    assert!(set.is_closed());
    assert_eq!(set.register("keydown"), Some("keydown"));
    assert_eq!(set.len(), 0);
    assert_eq!(set.close(), Vec::<&str>::new());
}

#[test]
fn resize_uses_client_size_or_hook() {
    assert_eq!(client_size(640, 480), (640, 480));
    assert_eq!(client_size(-3, 10), (0, 10));
    assert_eq!(backing_size((640, 480), None), (640, 480));
    assert_eq!(backing_size((640, 480), Some((64, 48))), (64, 48));
    assert_eq!(viewport((64, 48)), (64, 48));
    assert_eq!(viewport((u32::MAX, 7)), (i32::MAX, 7));
}

#[test]
fn error_variants_carry_diagnostics() {
    let e = ConfigError::ShaderCompile(String::from("vertex shader: bad"));
    assert_ne!(e, ConfigError::ProgramLink(String::from("vertex shader: bad")));
    assert_ne!(ConfigError::ListenerRegistration(String::new()), ConfigError::AlreadyStarted);
}
