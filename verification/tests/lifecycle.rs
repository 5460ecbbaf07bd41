use sessionlock_core::manager::{Action, SessionManager, SessionPhase};
use sessionlock_core::message::Message;
use sessionlock_core::registry::SurfaceRegistry;
use sessionlock_core::surface::SurfaceState;

#[test]
fn open_then_counter_tally() {
    let mut mgr = SessionManager::new();
    assert_eq!(mgr.dispatch(Message::SurfaceOpened(1)), Action::Continue);
    assert_eq!(mgr.dispatch(Message::IncrementRequested(1)), Action::Continue);
    assert_eq!(mgr.dispatch(Message::IncrementRequested(1)), Action::Continue);
    assert_eq!(mgr.dispatch(Message::IncrementRequested(1)), Action::Continue);
    assert_eq!(mgr.dispatch(Message::DecrementRequested(1)), Action::Continue);
    let s = mgr.render(1).expect("surface 1 is open");
    assert_eq!(s.counter, 2);
    assert_eq!(s.text, "");
}

#[test]
fn interleaved_tally() {
    let mut mgr = SessionManager::new();
    mgr.dispatch(Message::SurfaceOpened(4));
    mgr.dispatch(Message::DecrementRequested(4));
    mgr.dispatch(Message::IncrementRequested(4));
    mgr.dispatch(Message::DecrementRequested(4));
    mgr.dispatch(Message::DecrementRequested(4));
    mgr.dispatch(Message::IncrementRequested(4));
    let s = mgr.render(4).expect("surface 4 is open");
    assert_eq!(s.counter, -1);
}

#[test]
fn distinct_surfaces_are_isolated() {
    let mut mgr = SessionManager::new();
    mgr.dispatch(Message::SurfaceOpened(1));
    mgr.dispatch(Message::SurfaceOpened(2));
    mgr.dispatch(Message::IncrementRequested(2));
    mgr.dispatch(Message::TextChanged(2, String::from("before")));
    mgr.dispatch(Message::IncrementRequested(1));
    mgr.dispatch(Message::IncrementRequested(1));
    mgr.dispatch(Message::DecrementRequested(1));
    mgr.dispatch(Message::TextChanged(1, String::from("only on one")));
    let b = mgr.render(2).expect("surface 2 is open");
    assert_eq!(b.counter, 1);
    assert_eq!(b.text, "before");
    let a = mgr.render(1).expect("surface 1 is open");
    assert_eq!(a.counter, 1);
    assert_eq!(a.text, "only on one");
}

#[test]
fn text_last_write_wins() {
    let mut mgr = SessionManager::new();
    mgr.dispatch(Message::SurfaceOpened(3));
    mgr.dispatch(Message::TextChanged(3, String::from("first")));
    mgr.dispatch(Message::TextChanged(3, String::from("second")));
    let s = mgr.render(3).expect("surface 3 is open");
    assert_eq!(s.text, "second");
    assert_eq!(s.counter, 0);
}

#[test]
fn text_not_coalesced_across_ids() {
    let mut mgr = SessionManager::new();
    mgr.dispatch(Message::SurfaceOpened(1));
    mgr.dispatch(Message::SurfaceOpened(2));
    mgr.dispatch(Message::TextChanged(1, String::from("one")));
    mgr.dispatch(Message::TextChanged(2, String::from("two")));
    assert_eq!(mgr.render(1).expect("open").text, "one");
    assert_eq!(mgr.render(2).expect("open").text, "two");
}

#[test]
fn open_is_idempotent() {
    let mut once = SurfaceRegistry::new();
    once.open_surface(5);
    let mut twice = SurfaceRegistry::new();
    twice.open_surface(5);
    twice.open_surface(5);
    let a = once.get(5).expect("open");
    let b = twice.get(5).expect("open");
    assert_eq!(a.counter, b.counter);
    assert_eq!(a.text, b.text);
}

#[test]
fn reopen_keeps_existing_state() {
    let mut reg = SurfaceRegistry::new();
    reg.open_surface(5);
    reg.increment(5);
    reg.set_text(5, String::from("kept"));
    reg.open_surface(5);
    let s = reg.get(5).expect("open");
    assert_eq!(s.counter, 1);
    assert_eq!(s.text, "kept");
}

#[test]
fn mutation_before_open_creates_default_first() {
    let mut mgr = SessionManager::new();
    assert!(mgr.render(9).is_none());
    mgr.dispatch(Message::IncrementRequested(9));
    let s = mgr.render(9).expect("created on mutate");
    assert_eq!(s.counter, 1);
    assert_eq!(s.text, "");

    let mut mgr2 = SessionManager::new();
    mgr2.dispatch(Message::DecrementRequested(9));
    let s2 = mgr2.render(9).expect("created on mutate");
    assert_eq!(s2.counter, -1);

    let mut mgr3 = SessionManager::new();
    mgr3.dispatch(Message::TextChanged(9, String::from("early input")));
    let s3 = mgr3.render(9).expect("created on mutate");
    assert_eq!(s3.counter, 0);
    assert_eq!(s3.text, "early input");
}

#[test]
fn get_unknown_id_is_absent() {
    let mgr = SessionManager::new();
    assert!(mgr.render(42).is_none());
    let reg = SurfaceRegistry::new();
    assert!(reg.get(42).is_none());
}

#[test]
fn raw_event_changes_nothing() {
    let mut mgr = SessionManager::new();
    mgr.dispatch(Message::SurfaceOpened(1));
    mgr.dispatch(Message::IncrementRequested(1));
    assert_eq!(mgr.dispatch(Message::RawHostEvent), Action::Continue);
    assert_eq!(mgr.phase(), SessionPhase::Running);
    let s = mgr.render(1).expect("open");
    assert_eq!(s.counter, 1);
}

#[test]
fn counter_saturates_at_bounds() {
    let mut s = SurfaceState::new();
    s.counter = i64::MAX;
    s.increment();
    assert_eq!(s.counter, i64::MAX);
    s.decrement();
    assert_eq!(s.counter, i64::MAX - 1);

    let mut t = SurfaceState::new();
    t.counter = i64::MIN;
    t.decrement();
    assert_eq!(t.counter, i64::MIN);
    t.increment();
    assert_eq!(t.counter, i64::MIN + 1);
}
