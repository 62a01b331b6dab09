use alfredgf::driver::mainloop_tick;
use alfredgf::driver::AFFrameDriver;
use alfredgf::driver::AFLoopPhase;
use alfredgf::driver::AFMainloop;
use alfredgf::driver::AFMainloopInputEvent;
use alfredgf::driver::AFMainloopState;
use alfredgf::events::classify_event;
use alfredgf::events::classify_events;
use alfredgf::events::AFWindowEvent;
use alfredgf::state::AFError;
use alfredgf::state::AFFrameState;

const KEY_A: u32 = 65;
const KEY_B: u32 = 66;

fn plain_instruction() -> AFMainloop {
    AFMainloop { destroy: false, update_surface: false }
}

#[test]
fn key_down_then_up_is_clean() {
    let mut state = AFFrameState::new(640, 480);
    state.record_key_down(KEY_A);
    let released = state.record_key_up(KEY_A);
    assert_eq!(released, Ok(()));
    assert!(!state.pressed_keys.contains(&KEY_A));
}

#[test]
fn unmatched_key_up_is_a_violation() {
    let mut state = AFFrameState::new(640, 480);
    state.record_key_down(KEY_B);
    let released = state.record_key_up(KEY_A);
    assert_eq!(released, Err(AFError::InvariantViolation));
    assert_eq!(state.pressed_keys, vec![KEY_B]);
}

#[test]
fn unmatched_key_up_after_other_events_is_a_violation() {
    let mut state = AFFrameState::new(640, 480);
    let events = vec![
        AFWindowEvent::KeyPressed(KEY_B),
        AFWindowEvent::Resized(800, 600),
        AFWindowEvent::KeyReleased(KEY_B),
        AFWindowEvent::KeyReleased(KEY_A),
    ];
    let outcome = classify_events(&mut state, events);
    assert_eq!(outcome, Err(AFError::InvariantViolation));
    assert_eq!(state.size.width, 800);
    assert!(state.pressed_keys.is_empty());
}

#[test]
fn repeated_key_down_does_not_duplicate() {
    let mut state = AFFrameState::new(640, 480);
    state.record_key_down(KEY_A);
    state.record_key_down(KEY_A);
    assert_eq!(state.pressed_keys, vec![KEY_A]);
    assert_eq!(state.clicked_keys, vec![KEY_A]);
    assert_eq!(state.record_key_up(KEY_A), Ok(()));
    assert!(state.pressed_keys.is_empty());
}

#[test]
fn file_drop_ends_hover_and_queues_path() {
    let mut state = AFFrameState::new(640, 480);
    state.record_file_hover(String::from("a.png"));
    state.record_file_hover(String::from("b.png"));
    state.record_file_drop(String::from("b.png"));
    assert!(state.hover_files.is_empty());
    assert_eq!(state.dropped_files.last(), Some(&String::from("b.png")));
}

#[test]
fn hover_cancel_clears_hover_list() {
    let mut state = AFFrameState::new(640, 480);
    state.record_file_hover(String::from("a.png"));
    state.record_file_hover_cancel();
    assert!(state.hover_files.is_empty());
}

#[test]
fn close_request_is_idempotent() {
    let mut state = AFFrameState::new(640, 480);
    state.record_close_request();
    state.record_close_request();
    assert!(state.close_requested);
}

#[test]
fn focus_overwrites() {
    let mut state = AFFrameState::new(640, 480);
    state.record_focus(true);
    assert!(state.focused);
    state.record_focus(false);
    assert!(!state.focused);
}

#[test]
fn unhandled_events_change_nothing() {
    let mut state = AFFrameState::new(640, 480);
    let untouched = AFFrameState::new(640, 480);
    assert_eq!(classify_event(&mut state, AFWindowEvent::Unhandled), Ok(()));
    assert_eq!(state.size, untouched.size);
    assert_eq!(state.pressed_keys, untouched.pressed_keys);
    assert_eq!(state.dropped_files, untouched.dropped_files);
}

#[test]
fn two_drops_in_one_tick_arrive_in_order_then_clear() {
    let mut driver = AFFrameDriver::new(640, 480);
    driver.handle_event(AFWindowEvent::DroppedFile(String::from("a.png"))).unwrap();
    driver.handle_event(AFWindowEvent::DroppedFile(String::from("b.png"))).unwrap();
    let snapshot = driver.begin_redraw();
    assert_eq!(
        snapshot.events,
        vec![
            AFMainloopInputEvent::FileDropped(String::from("a.png")),
            AFMainloopInputEvent::FileDropped(String::from("b.png")),
        ]
    );
    driver.finish_redraw(plain_instruction());
    let next = driver.begin_redraw();
    assert!(next.events.is_empty());
}

#[test]
fn press_a_press_b_release_a_within_one_tick() {
    let mut driver = AFFrameDriver::new(640, 480);
    driver.handle_event(AFWindowEvent::KeyPressed(KEY_A)).unwrap();
    driver.handle_event(AFWindowEvent::KeyPressed(KEY_B)).unwrap();
    driver.handle_event(AFWindowEvent::KeyReleased(KEY_A)).unwrap();
    let snapshot = driver.begin_redraw();
    assert_eq!(snapshot.pressed, vec![KEY_B]);
    assert_eq!(snapshot.clicked, vec![KEY_A, KEY_B]);
}

#[test]
fn clicked_and_dropped_are_empty_after_any_tick() {
    let mut driver = AFFrameDriver::new(640, 480);
    driver.handle_event(AFWindowEvent::KeyPressed(KEY_A)).unwrap();
    driver.handle_event(AFWindowEvent::DroppedFile(String::from("a.png"))).unwrap();
    driver.finish_redraw(AFMainloop { destroy: false, update_surface: true });
    assert!(driver.state.clicked_keys.is_empty());
    assert!(driver.state.dropped_files.is_empty());
    assert_eq!(driver.state.pressed_keys, vec![KEY_A]);
    driver.finish_redraw(plain_instruction());
    assert!(driver.state.clicked_keys.is_empty());
    assert!(driver.state.dropped_files.is_empty());
}

#[test]
fn resized_flag_lasts_exactly_one_tick() {
    let mut driver = AFFrameDriver::new(640, 480);
    driver.handle_event(AFWindowEvent::Resized(800, 600)).unwrap();
    let snapshot = driver.begin_redraw();
    assert!(snapshot.was_resized);
    assert_eq!(snapshot.size.width, 800);
    assert_eq!(snapshot.size.height, 600);
    driver.finish_redraw(AFMainloop { destroy: false, update_surface: true });
    let next = driver.begin_redraw();
    assert!(!next.was_resized);
    assert_eq!(next.size.width, 800);
}

#[test]
fn destroy_instruction_terminates_with_one_teardown() {
    let mut driver = AFFrameDriver::new(640, 480);
    driver.handle_event(AFWindowEvent::CloseRequested).unwrap();
    let snapshot = driver.begin_redraw();
    assert!(snapshot.close_requested);
    driver.finish_redraw(AFMainloop { destroy: true, update_surface: false });
    assert!(!driver.is_running());
    assert_eq!(driver.phase, AFLoopPhase::Exiting);
    let teardown = driver.on_loop_destroyed();
    assert!(teardown);
    assert_eq!(driver.phase, AFLoopPhase::Terminated);
    let again = driver.on_loop_destroyed();
    assert!(!again);
    assert_eq!(driver.phase, AFLoopPhase::Terminated);
}

#[test]
fn mainloop_tick_runs_callback_on_snapshot() {
    let mut driver = AFFrameDriver::new(640, 480);
    let events = vec![
        AFWindowEvent::Resized(1024, 768),
        AFWindowEvent::KeyPressed(KEY_A),
    ];
    let frame = |snapshot: &AFMainloopState| AFMainloop {
        destroy: snapshot.close_requested,
        update_surface: snapshot.was_resized,
    };
    let (snapshot, instruction) = mainloop_tick(&mut driver, events, &frame).unwrap();
    assert!(snapshot.was_resized);
    assert!(!snapshot.close_requested);
    assert_eq!(snapshot.pressed, vec![KEY_A]);
    assert_eq!(instruction, AFMainloop { destroy: false, update_surface: true });
    assert!(driver.is_running());
    assert!(driver.state.clicked_keys.is_empty());

    let (next, next_instruction) = mainloop_tick(&mut driver, vec![], &frame).unwrap();
    assert!(!next.was_resized);
    assert_eq!(next.size.width, 1024);
    assert_eq!(next_instruction, AFMainloop { destroy: false, update_surface: false });
}

#[test]
fn mainloop_tick_destroy_leaves_running_phase() {
    let mut driver = AFFrameDriver::new(320, 200);
    let frame = |_snapshot: &AFMainloopState| AFMainloop { destroy: true, update_surface: false };
    let (_, instruction) =
        mainloop_tick(&mut driver, vec![AFWindowEvent::CloseRequested], &frame).unwrap();
    assert!(instruction.destroy);
    assert!(!driver.is_running());
    assert!(driver.on_loop_destroyed());
    assert!(!driver.on_loop_destroyed());
}

#[test]
fn mainloop_tick_reports_violation() {
    let mut driver = AFFrameDriver::new(320, 200);
    let frame = |_snapshot: &AFMainloopState| AFMainloop { destroy: false, update_surface: false };
    let outcome = mainloop_tick(&mut driver, vec![AFWindowEvent::KeyReleased(KEY_A)], &frame);
    assert_eq!(outcome, Err(AFError::InvariantViolation));
}

#[test]
fn snapshot_copies_do_not_alias_the_store() {
    let mut driver = AFFrameDriver::new(640, 480);
    driver.handle_event(AFWindowEvent::HoveredFile(String::from("h.png"))).unwrap();
    let snapshot = driver.begin_redraw();
    assert_eq!(snapshot.file_hovered, vec![String::from("h.png")]);
    driver.handle_event(AFWindowEvent::HoveredFileCancelled).unwrap();
    assert_eq!(snapshot.file_hovered, vec![String::from("h.png")]);
    assert!(driver.state.hover_files.is_empty());
}
