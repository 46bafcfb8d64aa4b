use druid_shell::idle::IdleQueue;
use druid_shell::keys::{hardware_keycode_to_keyval, key_press_repeat, make_key_event, KeymapKey};
use druid_shell::input::KeyModifiers;
use druid_shell::window::{run_idle, WindowBuilder, WindowHandle, WindowSystem};
use druid_shell::Error;

type Sys = WindowSystem<&'static str, u32>;

fn built(sys: &mut Sys) -> WindowHandle {
    let mut b: WindowBuilder<&'static str> = WindowBuilder::new();
    b.set_handler("handler");
    b.build(sys).expect("a window with a handler builds")
}

#[test]
fn build_without_handler_is_a_configuration_error() {
    let mut sys: Sys = WindowSystem::new();
    let b: WindowBuilder<&'static str> = WindowBuilder::new();
    let r = b.build(&mut sys);
    assert_eq!(r, Err(Error::NoHandler));
    // Nothing was allocated before the error.
    assert_eq!(sys.windows.len(), 0);
}

#[test]
fn build_wires_the_initial_window_state() {
    let mut sys: Sys = WindowSystem::new();
    let mut b: WindowBuilder<&'static str> = WindowBuilder::new();
    b.set_handler("handler");
    b.set_title(String::from("hello"));
    b.set_menu(druid_shell::window::Menu {});
    let h = b.build(&mut sys).expect("builds");
    assert_eq!(h.id, Some(0));
    assert!(sys.is_live(&h));
    let w = sys.windows[0].as_ref().expect("slot holds the state");
    assert_eq!(w.title, "hello");
    assert_eq!(w.handler, Some("handler"));
    assert!(w.menu.is_some());
    assert!(!w.visible);
    assert!(!w.pending_paint);
    assert_eq!(w.current_keyval, None);
    assert_eq!(w.last_size, (0, 0));
    assert_eq!(w.idle.tasks.len(), 0);
    assert!(!w.idle.scheduled);
    assert_eq!(w.dpi, 96);
}

#[test]
fn show_and_invalidate_mark_the_live_window() {
    let mut sys: Sys = WindowSystem::new();
    let h = built(&mut sys);
    assert!(!h.is_visible(&sys));
    h.show(&mut sys);
    assert!(h.is_visible(&sys));
    assert!(!h.has_pending_paint(&sys));
    h.invalidate(&mut sys);
    assert!(h.has_pending_paint(&sys));
}

#[test]
fn idle_queue_runs_tasks_once_in_fifo_order() {
    let mut q: IdleQueue<&'static str> = IdleQueue::new();
    assert!(q.enqueue("A"));
    assert!(!q.enqueue("B"));
    let first = q.drain();
    assert_eq!(first, vec!["A", "B"]);
    let second = q.drain();
    assert!(second.is_empty());
    // After a drain the queue is empty again, so the next enqueue must
    // arrange a fresh native registration.
    assert!(q.enqueue("C"));
    assert_eq!(q.drain(), vec!["C"]);
}

#[test]
fn tasks_enqueued_after_a_drain_wait_for_the_next_one() {
    let mut sys: Sys = WindowSystem::new();
    let h = built(&mut sys);
    let ih = h.get_idle_handle(&sys).expect("live window yields a handle");
    assert!(ih.add_idle(&mut sys, 1));
    assert!(!ih.add_idle(&mut sys, 2));
    let first = run_idle(&mut sys, &ih);
    // Tasks enqueued while the first drain's tasks run are deferred.
    assert!(ih.add_idle(&mut sys, 3));
    assert_eq!(first, vec![1, 2]);
    let second = run_idle(&mut sys, &ih);
    assert_eq!(second, vec![3]);
}

#[test]
fn destroy_releases_the_state_and_returns_the_handler() {
    let mut sys: Sys = WindowSystem::new();
    let h = built(&mut sys);
    let taken = h.destroy(&mut sys);
    assert_eq!(taken, Some("handler"));
    assert!(!sys.is_live(&h));
    // Destroying again is a silent no-op.
    assert_eq!(h.destroy(&mut sys), None);
}

#[test]
fn every_operation_through_a_stale_handle_is_a_no_op() {
    let mut sys: Sys = WindowSystem::new();
    let h = built(&mut sys);
    let ih = h.get_idle_handle(&sys).expect("live window yields a handle");
    let (token, _) = sys.request_timer(500, 0);
    h.destroy(&mut sys);

    h.show(&mut sys);
    assert!(!h.is_visible(&sys));
    h.invalidate(&mut sys);
    assert!(!h.has_pending_paint(&sys));
    assert!(!h.close(&sys));
    assert_eq!(h.get_idle_handle(&sys), None);
    assert_eq!(h.file_dialog(&sys), Err(Error::Null));
    assert_eq!(h.get_dpi(&sys), 96);
    assert_eq!(h.borrow_handler(&mut sys), None);
    assert_eq!(h.note_key_press(&mut sys, 9), None);
    assert!(!h.note_key_release(&mut sys));
    assert!(!h.update_size(&mut sys, 10, 10));
    assert!(!ih.add_idle(&mut sys, 5));
    assert!(run_idle(&mut sys, &ih).is_empty());
    assert_eq!(h.timer_fired(&sys, token), None);
    assert!(sys.windows[0].is_none());
}

#[test]
fn destroyed_window_never_redraws_after_invalidate() {
    let mut sys: Sys = WindowSystem::new();
    let h = built(&mut sys);
    h.show(&mut sys);
    h.destroy(&mut sys);
    h.invalidate(&mut sys);
    assert!(!h.has_pending_paint(&sys));
}

#[test]
fn default_handle_resolves_to_nothing() {
    let mut sys: Sys = WindowSystem::new();
    built(&mut sys);
    let h = WindowHandle::default();
    assert!(!sys.is_live(&h));
    h.show(&mut sys);
    assert!(!h.is_visible(&sys));
}

#[test]
fn handler_checkout_fails_fast_on_reentry() {
    let mut sys: Sys = WindowSystem::new();
    let h = built(&mut sys);
    let taken = h.borrow_handler(&mut sys);
    assert_eq!(taken, Some("handler"));
    // A second take while the object is out is the fail-fast signal.
    assert_eq!(h.borrow_handler(&mut sys), None);
    h.restore_handler(&mut sys, "handler");
    assert_eq!(h.borrow_handler(&mut sys), Some("handler"));
}

#[test]
fn key_repeat_follows_the_recorded_key() {
    let mut sys: Sys = WindowSystem::new();
    let h = built(&mut sys);
    assert_eq!(h.note_key_press(&mut sys, 5), Some(false));
    assert_eq!(h.note_key_press(&mut sys, 5), Some(true));
    assert_eq!(h.note_key_press(&mut sys, 6), Some(false));
    assert!(h.note_key_release(&mut sys));
    assert_eq!(h.note_key_press(&mut sys, 6), Some(false));
}

#[test]
fn size_hook_runs_only_when_the_size_changes() {
    let mut sys: Sys = WindowSystem::new();
    let h = built(&mut sys);
    assert!(h.update_size(&mut sys, 100, 50));
    assert!(!h.update_size(&mut sys, 100, 50));
    assert!(h.update_size(&mut sys, 100, 51));
}

#[test]
fn requested_timer_fires_with_its_token_exactly_while_live() {
    let mut sys: Sys = WindowSystem::new();
    let h = built(&mut sys);
    let now: u64 = 1_000;
    let (t1, wait) = sys.request_timer(now + 500, now);
    assert_eq!(wait, 500);
    assert_eq!(t1.id, 1);
    // The simulated 500 ms elapse and the one-shot timeout fires once.
    assert_eq!(h.timer_fired(&sys, t1), Some(t1));
    // A second, independent timer gets a fresh, larger token.
    let (t2, _) = sys.request_timer(now + 200, now);
    assert!(t2.id > t1.id);
    h.destroy(&mut sys);
    assert_eq!(h.timer_fired(&sys, t2), None);
}

#[test]
fn dpi_reads_fall_back_to_the_nominal_value() {
    let mut sys: Sys = WindowSystem::new();
    let h = built(&mut sys);
    assert_eq!(h.get_dpi(&sys), 96);
    h.set_dpi(&mut sys, 192);
    assert_eq!(h.get_dpi(&sys), 192);
    h.set_dpi(&mut sys, 0);
    assert_eq!(h.get_dpi(&sys), 96);
}

#[test]
fn handle_conversions_use_the_window_resolution() {
    let mut sys: Sys = WindowSystem::new();
    let h = built(&mut sys);
    // At the nominal resolution the round trip is exact.
    assert_eq!(h.px_to_pixels(&sys, 10), 10);
    assert_eq!(h.pixels_to_px(&sys, h.px_to_pixels(&sys, 10)), 10);
    h.set_dpi(&mut sys, 192);
    assert_eq!(h.px_to_pixels(&sys, 10), 20);
    assert_eq!(h.pixels_to_px(&sys, 20), 10);
    assert_eq!(h.px_to_pixels_xy(&sys, 10, -5), (20, -10));
    assert_eq!(h.pixels_to_px_xy(&sys, 20, -10), (10, -5));
    // A stale handle converts at the nominal resolution.
    h.destroy(&mut sys);
    assert_eq!(h.px_to_pixels(&sys, 10), 10);
}

#[test]
fn keymap_resolution_picks_the_first_primary_entry() {
    let keys = vec![
        KeymapKey { group: 1, level: 0, keyval: 10 },
        KeymapKey { group: 0, level: 1, keyval: 20 },
        KeymapKey { group: 0, level: 0, keyval: 42 },
        KeymapKey { group: 0, level: 0, keyval: 43 },
    ];
    assert_eq!(hardware_keycode_to_keyval(&keys), Some(42));
    let no_primary = vec![KeymapKey { group: 0, level: 2, keyval: 10 }];
    assert_eq!(hardware_keycode_to_keyval(&no_primary), None);
    assert_eq!(hardware_keycode_to_keyval(&Vec::new()), None);
}

#[test]
fn key_event_falls_back_to_the_reported_keyval() {
    let mods = KeyModifiers { shift: false, alt: false, ctrl: false, meta: false };
    let keys = vec![KeymapKey { group: 0, level: 0, keyval: 97 }];
    let ev = make_key_event(120, &keys, false, mods, Some('a'));
    assert_eq!(ev.key_code, 97);
    assert_eq!(ev.text, Some('a'));
    assert_eq!(ev.unmodified_text, Some('a'));
    let ev2 = make_key_event(120, &Vec::new(), true, mods, None);
    assert_eq!(ev2.key_code, 120);
    assert!(ev2.is_repeat);
}

#[test]
fn pure_repeat_detection_matches_the_recorded_value() {
    assert_eq!(key_press_repeat(None, 7), (false, Some(7)));
    assert_eq!(key_press_repeat(Some(7), 7), (true, Some(7)));
    assert_eq!(key_press_repeat(Some(7), 8), (false, Some(8)));
}
