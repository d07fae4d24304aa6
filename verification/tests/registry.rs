use mac_spaces::registry::decimal_string;
use mac_spaces::registry::SpaceRegistry;
use mac_spaces::registry::WindowId;

fn wid(raw: usize) -> WindowId {
    WindowId { raw }
}

#[test]
fn register_get_contains() {
    let mut reg = SpaceRegistry::new();
    assert!(reg.is_empty());
    assert_eq!(reg.len(), 0);
    reg.register(wid(10), 2, 5);
    assert!(reg.contains(wid(10)));
    assert!(reg.is_fullscreen_space(wid(10)));
    assert!(!reg.contains(wid(11)));
    let info = reg.get(wid(10)).unwrap();
    assert_eq!(info.hwnd, wid(10));
    assert_eq!(info.original_desktop, 2);
    assert_eq!(info.created_desktop, 5);
    assert_eq!(reg.len(), 1);
    assert!(!reg.is_empty());
}

#[test]
fn register_overwrites_last_write_wins() {
    let mut reg = SpaceRegistry::new();
    reg.register(wid(10), 2, 5);
    reg.register(wid(10), 1, 3);
    assert_eq!(reg.len(), 1);
    let info = reg.get(wid(10)).unwrap();
    assert_eq!(info.original_desktop, 1);
    assert_eq!(info.created_desktop, 3);
}

#[test]
fn remove_returns_prior_record() {
    let mut reg = SpaceRegistry::new();
    reg.register(wid(10), 2, 5);
    reg.register(wid(20), 0, 3);
    let removed = reg.remove(wid(10)).unwrap();
    assert_eq!(removed.original_desktop, 2);
    assert_eq!(removed.created_desktop, 5);
    assert_eq!(reg.len(), 1);
    assert!(reg.contains(wid(20)));
    assert!(!reg.contains(wid(10)));
}

#[test]
fn absent_window_behaves_like_just_removed() {
    // A never-registered window and a just-removed one answer identically.
    let mut never = SpaceRegistry::new();
    let mut removed = SpaceRegistry::new();
    removed.register(wid(7), 1, 2);
    assert!(removed.remove(wid(7)).is_some());

    assert_eq!(never.remove(wid(7)), None);
    assert_eq!(removed.remove(wid(7)), None);
    assert_eq!(never.get(wid(7)), None);
    assert_eq!(removed.get(wid(7)), None);
    assert_eq!(never.contains(wid(7)), false);
    assert_eq!(removed.contains(wid(7)), false);
}

#[test]
fn update_indices_shifts_higher_indices_only() {
    let mut reg = SpaceRegistry::new();
    reg.register(wid(1), 0, 2);
    reg.register(wid(2), 3, 7);
    reg.register(wid(3), 4, 1);
    reg.update_indices_after_delete(3);
    let a = reg.get(wid(1)).unwrap();
    assert_eq!((a.original_desktop, a.created_desktop), (0, 2));
    let b = reg.get(wid(2)).unwrap();
    assert_eq!((b.original_desktop, b.created_desktop), (3, 6));
    let c = reg.get(wid(3)).unwrap();
    assert_eq!((c.original_desktop, c.created_desktop), (3, 1));
}

#[test]
fn renumber_after_partner_already_removed() {
    // One window at (original 2, created 5) remains after another space's
    // record was already removed; renumbering for the removal of desktop 3
    // decrements only the index above 3: original 2 stays, created 5
    // becomes 4.
    let mut reg = SpaceRegistry::new();
    reg.register(wid(100), 2, 5);
    reg.update_indices_after_delete(3);
    let info = reg.get(wid(100)).unwrap();
    assert_eq!(info.original_desktop, 2);
    assert_eq!(info.created_desktop, 4);
    assert_eq!(reg.len(), 1);
}

#[test]
fn update_indices_for_first_desktop() {
    // Removing desktop 0 shifts every positive index down; zero stays zero.
    let mut reg = SpaceRegistry::new();
    reg.register(wid(1), 1, 2);
    reg.register(wid(2), 0, 5);
    reg.update_indices_after_delete(0);
    let a = reg.get(wid(1)).unwrap();
    assert_eq!((a.original_desktop, a.created_desktop), (0, 1));
    let b = reg.get(wid(2)).unwrap();
    assert_eq!((b.original_desktop, b.created_desktop), (0, 4));
}

#[test]
fn all_hwnds_lists_each_window_once() {
    let mut reg = SpaceRegistry::new();
    reg.register(wid(1), 0, 1);
    reg.register(wid(2), 0, 2);
    reg.register(wid(3), 0, 3);
    reg.remove(wid(2));
    let mut handles: Vec<usize> = reg.all_hwnds().into_iter().map(|w| w.raw).collect();
    handles.sort();
    assert_eq!(handles, vec![1, 3]);
}

#[test]
fn default_is_empty() {
    let reg = SpaceRegistry::default();
    assert!(reg.is_empty());
    assert_eq!(reg.len(), 0);
}

#[test]
fn decimal_rendering() {
    assert_eq!(decimal_string(0), "0");
    assert_eq!(decimal_string(7), "7");
    assert_eq!(decimal_string(10), "10");
    assert_eq!(decimal_string(12345), "12345");
    assert_eq!(decimal_string(u64::MAX), "18446744073709551615");
}

#[test]
fn debug_info_reflects_state() {
    let mut reg = SpaceRegistry::new();
    assert_eq!(reg.debug_info(), "no fullscreen space registered");
    reg.register(wid(42), 2, 5);
    assert_eq!(
        reg.debug_info(),
        "registered 1 fullscreen space(s):\n  - hwnd=42, original desktop=2, created desktop=5\n"
    );
}
