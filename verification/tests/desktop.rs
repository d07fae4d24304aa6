use mac_spaces::desktop::enter_fullscreen_space;
use mac_spaces::desktop::exit_fullscreen_space;
use mac_spaces::desktop::handle_window_closed;
use mac_spaces::desktop::switch_left;
use mac_spaces::desktop::switch_right;
use mac_spaces::desktop::toggle_fullscreen;
use mac_spaces::desktop::Action;
use mac_spaces::desktop::FULLSCREEN_TOGGLE_DELAY_MS;
use mac_spaces::desktop::SETTLE_SHORT_MS;
use mac_spaces::desktop::SWITCH_DELAY_MS;
use mac_spaces::registry::SpaceRegistry;
use mac_spaces::registry::WindowId;

fn wid(raw: usize) -> WindowId {
    WindowId { raw }
}

/// Desktop count after a plan runs, as the provider would see it.
fn count_after(mut count: i64, plan: &[Action]) -> i64 {
    for a in plan {
        match a {
            Action::CreateDesktop => count += 1,
            Action::RemoveDesktop { .. } => count -= 1,
            _ => {}
        }
    }
    count
}

/// Visible desktop after a plan runs, as the provider would see it.
fn current_after(mut current: i64, plan: &[Action]) -> i64 {
    for a in plan {
        match a {
            Action::SwitchDesktop { index } => current = *index as i64,
            Action::RemoveDesktop { index, fallback } => {
                if current == *index as i64 {
                    current = *fallback as i64;
                } else if current > *index as i64 {
                    current -= 1;
                }
            }
            _ => {}
        }
    }
    current
}

#[test]
fn switch_left_rejected_at_first_desktop() {
    assert_eq!(switch_left(0), None);
    assert_eq!(switch_left(1), Some(0));
    assert_eq!(switch_left(5), Some(4));
}

#[test]
fn switch_right_rejected_at_last_desktop() {
    assert_eq!(switch_right(3, 4), None);
    assert_eq!(switch_right(2, 4), Some(3));
    assert_eq!(switch_right(0, 1), None);
    assert_eq!(switch_right(0, 0), None);
}

#[test]
fn enter_plan_for_unmaximized_window() {
    let mut reg = SpaceRegistry::new();
    let w = wid(10);
    let plan = enter_fullscreen_space(&mut reg, w, 1, 3, false);
    assert_eq!(
        plan,
        vec![
            Action::CreateDesktop,
            Action::Settle { ms: SETTLE_SHORT_MS },
            Action::MoveWindow { window: w, index: 3 },
            Action::Settle { ms: SETTLE_SHORT_MS },
            Action::SwitchDesktop { index: 3 },
            Action::Settle { ms: SWITCH_DELAY_MS },
            Action::MaximizeWindow { window: w },
            Action::Settle { ms: FULLSCREEN_TOGGLE_DELAY_MS },
            Action::ToggleNativeFullscreen,
        ]
    );
    let info = reg.get(w).unwrap();
    assert_eq!(info.original_desktop, 1);
    assert_eq!(info.created_desktop, 3);
}

#[test]
fn enter_plan_restores_a_maximized_window_first() {
    let mut reg = SpaceRegistry::new();
    let w = wid(10);
    let plan = enter_fullscreen_space(&mut reg, w, 0, 2, true);
    assert_eq!(plan[0], Action::RestoreWindow { window: w });
    assert_eq!(plan[1], Action::Settle { ms: SETTLE_SHORT_MS });
    assert_eq!(plan[2], Action::CreateDesktop);
    assert_eq!(plan.len(), 11);
}

#[test]
fn exit_plan_returns_window_and_removes_desktop() {
    let mut reg = SpaceRegistry::new();
    let w = wid(10);
    reg.register(w, 1, 3);
    let plan = exit_fullscreen_space(&mut reg, w, 4);
    assert_eq!(
        plan,
        vec![
            Action::ToggleNativeFullscreen,
            Action::Settle { ms: FULLSCREEN_TOGGLE_DELAY_MS },
            Action::RestoreWindow { window: w },
            Action::Settle { ms: SETTLE_SHORT_MS },
            Action::MoveWindow { window: w, index: 1 },
            Action::Settle { ms: SETTLE_SHORT_MS },
            Action::SwitchDesktop { index: 1 },
            Action::Settle { ms: SWITCH_DELAY_MS },
            Action::RemoveDesktop { index: 3, fallback: 2 },
        ]
    );
    assert!(reg.is_empty());
}

#[test]
fn exit_keeps_last_desktop() {
    let mut reg = SpaceRegistry::new();
    let w = wid(10);
    reg.register(w, 0, 0);
    let plan = exit_fullscreen_space(&mut reg, w, 1);
    assert!(plan
        .iter()
        .all(|a| !matches!(a, Action::RemoveDesktop { .. })));
    assert!(reg.is_empty());
}

#[test]
fn exit_unregistered_window_is_a_no_op() {
    let mut reg = SpaceRegistry::new();
    reg.register(wid(20), 1, 2);
    let plan = exit_fullscreen_space(&mut reg, wid(10), 3);
    assert!(plan.is_empty());
    assert_eq!(reg.len(), 1);
}

#[test]
fn exit_renumbers_other_records() {
    let mut reg = SpaceRegistry::new();
    reg.register(wid(1), 0, 2);
    reg.register(wid(2), 1, 5);
    exit_fullscreen_space(&mut reg, wid(1), 3);
    let other = reg.get(wid(2)).unwrap();
    assert_eq!(other.original_desktop, 1);
    assert_eq!(other.created_desktop, 4);
    assert!(!reg.contains(wid(1)));
}

#[test]
fn close_while_active_switches_away_first() {
    // The visible desktop is the closed window's dedicated desktop: the plan
    // switches away before removing it, and ends on created - 1.
    let mut reg = SpaceRegistry::new();
    let w = wid(10);
    reg.register(w, 1, 3);
    let plan = handle_window_closed(&mut reg, w, 3, 4);
    assert_eq!(
        plan,
        vec![
            Action::SwitchDesktop { index: 2 },
            Action::Settle { ms: SWITCH_DELAY_MS },
            Action::RemoveDesktop { index: 3, fallback: 2 },
        ]
    );
    assert_eq!(current_after(3, &plan), 2);
    assert!(!reg.contains(w));
    assert!(reg.is_empty());
}

#[test]
fn close_while_active_clamps_at_desktop_zero() {
    let mut reg = SpaceRegistry::new();
    let w = wid(10);
    reg.register(w, 0, 0);
    let plan = handle_window_closed(&mut reg, w, 0, 2);
    assert_eq!(plan[0], Action::SwitchDesktop { index: 0 });
    assert_eq!(current_after(0, &plan), 0);
    assert!(reg.is_empty());
}

#[test]
fn close_elsewhere_removes_desktop_silently() {
    let mut reg = SpaceRegistry::new();
    let w = wid(10);
    reg.register(w, 0, 3);
    let plan = handle_window_closed(&mut reg, w, 1, 4);
    assert_eq!(plan, vec![Action::RemoveDesktop { index: 3, fallback: 2 }]);
    assert!(reg.is_empty());
}

#[test]
fn close_of_untracked_window_is_a_no_op() {
    let mut reg = SpaceRegistry::new();
    let plan = handle_window_closed(&mut reg, wid(10), 0, 2);
    assert!(plan.is_empty());
    assert!(reg.is_empty());
}

#[test]
fn toggle_round_trip_restores_count_and_empties_registry() {
    // Enter then exit with no other space registered: the registry ends
    // empty and the desktop count ends at its pre-enter value.
    let mut reg = SpaceRegistry::new();
    let w = wid(10);
    let start_count: i64 = 3;
    let enter = toggle_fullscreen(&mut reg, w, 1, start_count as u32, false);
    let count = count_after(start_count, &enter);
    assert_eq!(count, start_count + 1);
    assert!(reg.contains(w));
    let exit = toggle_fullscreen(&mut reg, w, 3, count as u32, true);
    assert_eq!(count_after(count, &exit), start_count);
    assert!(reg.is_empty());
}
