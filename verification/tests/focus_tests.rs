use focus_shell::focus::{plan_restore, FocusTracker, RestoreAction, NO_WINDOW};

#[test]
fn fresh_tracker_restores_nothing() {
    let t = FocusTracker::new();
    assert_eq!(t.restore_target(), None);
}

#[test]
fn fresh_plan_makes_no_os_calls() {
    assert_eq!(plan_restore(NO_WINDOW, 3, 4), RestoreAction::Skip);
    assert_eq!(plan_restore(NO_WINDOW, 0, 0), RestoreAction::Skip);
}

#[test]
fn save_then_restore_targets_saved_handle() {
    let mut t = FocusTracker::new();
    t.save(42);
    assert_eq!(t.restore_target(), Some(42));
}

#[test]
fn sentinel_save_preserves_previous_handle() {
    let mut t = FocusTracker::new();
    t.save(42);
    t.save(0);
    assert_eq!(t.restore_target(), Some(42));
}

#[test]
fn latest_real_save_wins() {
    let mut t = FocusTracker::new();
    t.save(7);
    t.save(0);
    t.save(99);
    t.save(0);
    assert_eq!(t.restore_target(), Some(99));
}

#[test]
fn restore_is_idempotent_without_intervening_save() {
    let mut t = FocusTracker::new();
    t.save(11);
    let first = t.restore_target();
    let second = t.restore_target();
    assert_eq!(first, second);
    assert_eq!(first, Some(11));
}

#[test]
fn plan_attaches_when_both_threads_known() {
    assert_eq!(
        plan_restore(42, 3, 4),
        RestoreAction::AttachSetDetach { hwnd: 42, cur_thread: 4, fg_thread: 3 }
    );
}

#[test]
fn plan_falls_back_to_direct_set_when_a_thread_is_unknown() {
    assert_eq!(plan_restore(42, 0, 4), RestoreAction::SetDirect { hwnd: 42 });
    assert_eq!(plan_restore(42, 3, 0), RestoreAction::SetDirect { hwnd: 42 });
    assert_eq!(plan_restore(42, 0, 0), RestoreAction::SetDirect { hwnd: 42 });
}
