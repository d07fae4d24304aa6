//! Transition coordinator for fullscreen spaces.
//!
//! Entering and leaving a space is a fixed sequence of calls against the
//! virtual-desktop provider and the window-state provider, interleaved with
//! settle delays and with registry bookkeeping. The host process takes a
//! snapshot of the outside state (current desktop, desktop count, window
//! maximized or not), hands it to the functions here, and receives the
//! ordered list of provider actions to perform together with the registry
//! already brought up to date. Every decision is made here, over plain
//! values; every outside effect is named by an [`Action`] and performed by
//! the host.

use vstd::prelude::*;

use crate::registry::shifted_info;
use crate::registry::SpaceInfo;
use crate::registry::SpaceRegistry;
use crate::registry::WindowId;

verus! {

/// Settle delay after restoring a window, creating a desktop or moving a
/// window, in milliseconds.
pub const SETTLE_SHORT_MS: u64 = 50;

/// Settle delay after a desktop switch, long enough for the switch animation
/// to complete, in milliseconds.
pub const SWITCH_DELAY_MS: u64 = 150;

/// Settle delay around the native-fullscreen toggle, in milliseconds.
pub const FULLSCREEN_TOGGLE_DELAY_MS: u64 = 100;

/// One outside effect that the host performs on the coordinator's behalf.
/// The provider calls are fire-and-forget; a settle delay is a fixed pause
/// that lets the OS apply the preceding change.
#[derive(Clone, Copy, PartialEq, Eq, Structural, Debug)]
pub enum Action {
    /// Make the desktop at this index the visible one.
    SwitchDesktop { index: u32 },
    /// Append a new desktop at the end of the desktop list.
    CreateDesktop,
    /// Remove the desktop at `index`; any stray window on it moves to
    /// `fallback`.
    RemoveDesktop { index: u32, fallback: u32 },
    /// Move the window onto the desktop at this index.
    MoveWindow { window: WindowId, index: u32 },
    /// Maximize the window.
    MaximizeWindow { window: WindowId },
    /// Restore the window from its maximized state.
    RestoreWindow { window: WindowId },
    /// Toggle the application's own native fullscreen presentation.
    ToggleNativeFullscreen,
    /// Pause for this many milliseconds before the next action.
    Settle { ms: u64 },
}

/// Target desktop for anything that must leave the removed desktop `created`:
/// the desktop just below it, clamped to zero.
pub open spec fn fallback_index(created: u32) -> u32 {
    if created > 0 {
        (created - 1) as u32
    } else {
        0
    }
}

/// The action sequence that promotes a window into a fresh fullscreen space.
/// `new_desktop` is the desktop count before creation: a created desktop is
/// appended at the end of the desktop list, so that count is its index.
pub open spec fn enter_plan(window: WindowId, new_desktop: u32, was_maximized: bool) -> Seq<
    Action,
> {
    (if was_maximized {
        seq![
            Action::RestoreWindow { window },
            Action::Settle { ms: SETTLE_SHORT_MS },
        ]
    } else {
        Seq::empty()
    }) + seq![
        Action::CreateDesktop,
        Action::Settle { ms: SETTLE_SHORT_MS },
        Action::MoveWindow { window, index: new_desktop },
        Action::Settle { ms: SETTLE_SHORT_MS },
        Action::SwitchDesktop { index: new_desktop },
        Action::Settle { ms: SWITCH_DELAY_MS },
        Action::MaximizeWindow { window },
        Action::Settle { ms: FULLSCREEN_TOGGLE_DELAY_MS },
        Action::ToggleNativeFullscreen,
    ]
}

/// The action sequence that returns a promoted window to its original
/// desktop and retires its dedicated desktop. The dedicated desktop is
/// removed only while more than one desktop remains.
pub open spec fn exit_plan(info: SpaceInfo, desktop_count: u32) -> Seq<Action> {
    seq![
        Action::ToggleNativeFullscreen,
        Action::Settle { ms: FULLSCREEN_TOGGLE_DELAY_MS },
        Action::RestoreWindow { window: info.hwnd },
        Action::Settle { ms: SETTLE_SHORT_MS },
        Action::MoveWindow { window: info.hwnd, index: info.original_desktop },
        Action::Settle { ms: SETTLE_SHORT_MS },
        Action::SwitchDesktop { index: info.original_desktop },
        Action::Settle { ms: SWITCH_DELAY_MS },
    ] + (if desktop_count > 1 {
        seq![
            Action::RemoveDesktop {
                index: info.created_desktop,
                fallback: fallback_index(info.created_desktop),
            },
        ]
    } else {
        Seq::empty()
    })
}

/// The action sequence that reconciles the registry after a tracked window
/// was destroyed externally: switch away from the doomed desktop if it is
/// the visible one, then retire it. No action touches the dead window.
pub open spec fn close_plan(info: SpaceInfo, current_desktop: u32, desktop_count: u32) -> Seq<
    Action,
> {
    (if current_desktop == info.created_desktop {
        seq![
            Action::SwitchDesktop { index: fallback_index(info.created_desktop) },
            Action::Settle { ms: SWITCH_DELAY_MS },
        ]
    } else {
        Seq::empty()
    }) + (if desktop_count > 1 {
        seq![
            Action::RemoveDesktop {
                index: info.created_desktop,
                fallback: fallback_index(info.created_desktop),
            },
        ]
    } else {
        Seq::empty()
    })
}

/// The registry contents after a window's space has been released: its own
/// record is gone, and when the dedicated desktop was actually removed
/// (more than one desktop remained), every other record is renumbered for
/// that removal.
pub open spec fn registry_after_release(
    m: Map<WindowId, SpaceInfo>,
    window: WindowId,
    desktop_count: u32,
) -> Map<WindowId, SpaceInfo> {
    if desktop_count > 1 {
        m.remove(window).map_values(|r: SpaceInfo| shifted_info(r, m[window].created_desktop))
    } else {
        m.remove(window)
    }
}

/// The desktop count after the host performs one action: creating a desktop
/// raises it by one, removing one lowers it by one, nothing else touches it.
pub open spec fn count_after_action(count: int, a: Action) -> int {
    match a {
        Action::CreateDesktop => count + 1,
        Action::RemoveDesktop { .. } => count - 1,
        _ => count,
    }
}

/// The desktop count after the host performs a whole plan, in order.
pub open spec fn count_after_plan(count: int, plan: Seq<Action>) -> int
    decreases plan.len(),
{
    if plan.len() == 0 {
        count
    } else {
        count_after_action(count_after_plan(count, plan.drop_last()), plan.last())
    }
}

/// The visible desktop after the host performs one action: a switch makes
/// its target visible; removing the visible desktop lands on the removal's
/// fallback, and removing a lower desktop shifts the visible index down.
pub open spec fn current_after_action(current: int, a: Action) -> int {
    match a {
        Action::SwitchDesktop { index } => index as int,
        Action::RemoveDesktop { index, fallback } => if current == index {
            fallback as int
        } else if current > index {
            current - 1
        } else {
            current
        },
        _ => current,
    }
}

/// The visible desktop after the host performs a whole plan, in order.
pub open spec fn current_after_plan(current: int, plan: Seq<Action>) -> int
    decreases plan.len(),
{
    if plan.len() == 0 {
        current
    } else {
        current_after_action(current_after_plan(current, plan.drop_last()), plan.last())
    }
}

/// The enter plan creates exactly one desktop, whatever the starting count.
pub proof fn lemma_enter_plan_count(
    count: int,
    window: WindowId,
    new_desktop: u32,
    was_maximized: bool,
)
    ensures
        count_after_plan(count, enter_plan(window, new_desktop, was_maximized)) == count + 1,
{
    reveal_with_fuel(count_after_plan, 12);
}

/// The exit plan removes exactly one desktop when more than one remains, and
/// none otherwise, whatever the starting count.
pub proof fn lemma_exit_plan_count(count: int, info: SpaceInfo, desktop_count: u32)
    ensures
        desktop_count > 1 ==> count_after_plan(count, exit_plan(info, desktop_count)) == count
            - 1,
        desktop_count <= 1 ==> count_after_plan(count, exit_plan(info, desktop_count)) == count,
{
    reveal_with_fuel(count_after_plan, 12);
}

/// Round trip: entering a fullscreen space and then exiting it, with no
/// other space registered, leaves the registry empty and brings the desktop
/// count back to its pre-enter value. (At least one desktop exists while a
/// desktop is visible, so after the enter at least two exist and the exit
/// really removes the dedicated one.)
pub proof fn lemma_enter_exit_round_trip(
    window: WindowId,
    original_desktop: u32,
    desktop_count: u32,
    was_maximized: bool,
)
    requires
        1 <= desktop_count < u32::MAX,
    ensures
        ({
            let info = SpaceInfo {
                hwnd: window,
                original_desktop,
                created_desktop: desktop_count,
            };
            let after_enter = Map::<WindowId, SpaceInfo>::empty().insert(window, info);
            &&& count_after_plan(
                desktop_count as int,
                enter_plan(window, desktop_count, was_maximized),
            ) == desktop_count as int + 1
            &&& count_after_plan(
                desktop_count as int + 1,
                exit_plan(info, (desktop_count + 1) as u32),
            ) == desktop_count as int
            &&& registry_after_release(after_enter, window, (desktop_count + 1) as u32)
                == Map::<WindowId, SpaceInfo>::empty()
        }),
{
    let info = SpaceInfo { hwnd: window, original_desktop, created_desktop: desktop_count };
    let after_enter = Map::<WindowId, SpaceInfo>::empty().insert(window, info);
    lemma_enter_plan_count(desktop_count as int, window, desktop_count, was_maximized);
    lemma_exit_plan_count(desktop_count as int + 1, info, (desktop_count + 1) as u32);
    assert(after_enter.remove(window) =~= Map::<WindowId, SpaceInfo>::empty());
    assert(registry_after_release(after_enter, window, (desktop_count + 1) as u32)
        =~= Map::<WindowId, SpaceInfo>::empty());
}

/// Close while active: when the visible desktop is the dedicated desktop of
/// the window being reconciled, the close plan switches away before removing
/// it, and the host ends on the desktop just below the dedicated one,
/// clamped to zero; the window's record is gone from the registry.
pub proof fn lemma_close_while_active(
    m: Map<WindowId, SpaceInfo>,
    window: WindowId,
    desktop_count: u32,
)
    requires
        m.contains_key(window),
    ensures
        current_after_plan(
            m[window].created_desktop as int,
            close_plan(m[window], m[window].created_desktop, desktop_count),
        ) == fallback_index(m[window].created_desktop) as int,
        !registry_after_release(m, window, desktop_count).contains_key(window),
{
    reveal_with_fuel(current_after_plan, 6);
}

/// Whether an action operates on the given window.
pub open spec fn action_touches_window(a: Action, w: WindowId) -> bool {
    match a {
        Action::MoveWindow { window, .. } => window == w,
        Action::MaximizeWindow { window } => window == w,
        Action::RestoreWindow { window } => window == w,
        _ => false,
    }
}

/// Reconciling an externally destroyed window is safe even though the
/// window is gone: no action of the close plan references the dead window
/// handle.
pub proof fn lemma_close_plan_avoids_window(
    info: SpaceInfo,
    current_desktop: u32,
    desktop_count: u32,
)
    ensures
        forall|i: int|
            0 <= i < close_plan(info, current_desktop, desktop_count).len()
                ==> !action_touches_window(
                close_plan(info, current_desktop, desktop_count)[i],
                info.hwnd,
            ),
{
}

/// Target of a switch one desktop to the left, or `None` when the current
/// desktop is already the first: the boundary case is rejected before any
/// provider call is made.
pub fn switch_left(current_desktop: u32) -> (target: Option<u32>)
    ensures
        current_desktop == 0 ==> target is None,
        current_desktop > 0 ==> target == Some((current_desktop - 1) as u32),
{
    if current_desktop > 0 {
        Some(current_desktop - 1)
    } else {
        None
    }
}

/// Target of a switch one desktop to the right, or `None` when the current
/// desktop is already the last: the boundary case is rejected before any
/// provider call is made.
pub fn switch_right(current_desktop: u32, desktop_count: u32) -> (target: Option<u32>)
    ensures
        current_desktop as int + 1 < desktop_count as int ==> target == Some(
            (current_desktop + 1) as u32,
        ),
        current_desktop as int + 1 >= desktop_count as int ==> target is None,
{
    if desktop_count > 0 && current_desktop < desktop_count - 1 {
        Some(current_desktop + 1)
    } else {
        None
    }
}

/// Promotes the window into a fresh fullscreen space: registers the record
/// and returns the actions that carry the promotion out. `original_desktop`
/// is the currently visible desktop, `desktop_count` the desktop count
/// before creation; the appended desktop will sit at index `desktop_count`.
pub fn enter_fullscreen_space(
    registry: &mut SpaceRegistry,
    window: WindowId,
    original_desktop: u32,
    desktop_count: u32,
    was_maximized: bool,
) -> (plan: Vec<Action>)
    requires
        old(registry).wf(),
        !old(registry)@.contains_key(window),
    ensures
        final(registry).wf(),
        final(registry)@ == old(registry)@.insert(
            window,
            SpaceInfo { hwnd: window, original_desktop, created_desktop: desktop_count },
        ),
        plan@ == enter_plan(window, desktop_count, was_maximized),
{
    let mut plan: Vec<Action> = Vec::new();
    if was_maximized {
        plan.push(Action::RestoreWindow { window });
        plan.push(Action::Settle { ms: SETTLE_SHORT_MS });
    }
    plan.push(Action::CreateDesktop);
    plan.push(Action::Settle { ms: SETTLE_SHORT_MS });
    plan.push(Action::MoveWindow { window, index: desktop_count });
    plan.push(Action::Settle { ms: SETTLE_SHORT_MS });
    plan.push(Action::SwitchDesktop { index: desktop_count });
    plan.push(Action::Settle { ms: SWITCH_DELAY_MS });
    plan.push(Action::MaximizeWindow { window });
    plan.push(Action::Settle { ms: FULLSCREEN_TOGGLE_DELAY_MS });
    plan.push(Action::ToggleNativeFullscreen);
    registry.register(window, original_desktop, desktop_count);
    proof {
        assert(plan@ =~= enter_plan(window, desktop_count, was_maximized));
    }
    plan
}

/// Returns a promoted window to its original desktop: drops its record,
/// renumbers the remaining records when the dedicated desktop is removed,
/// and returns the actions that carry the exit out. A window that is not
/// registered is a no-op, not an error.
pub fn exit_fullscreen_space(
    registry: &mut SpaceRegistry,
    window: WindowId,
    desktop_count: u32,
) -> (plan: Vec<Action>)
    requires
        old(registry).wf(),
    ensures
        final(registry).wf(),
        old(registry)@.contains_key(window) ==> plan@ == exit_plan(
            old(registry)@[window],
            desktop_count,
        ),
        old(registry)@.contains_key(window) ==> final(registry)@ == registry_after_release(
            old(registry)@,
            window,
            desktop_count,
        ),
        !old(registry)@.contains_key(window) ==> plan@ == Seq::<Action>::empty()
            && final(registry)@ == old(registry)@,
{
    let info = match registry.get(window) {
        Some(info) => info,
        None => {
            return Vec::new();
        },
    };
    let mut plan: Vec<Action> = Vec::new();
    plan.push(Action::ToggleNativeFullscreen);
    plan.push(Action::Settle { ms: FULLSCREEN_TOGGLE_DELAY_MS });
    plan.push(Action::RestoreWindow { window });
    plan.push(Action::Settle { ms: SETTLE_SHORT_MS });
    plan.push(Action::MoveWindow { window, index: info.original_desktop });
    plan.push(Action::Settle { ms: SETTLE_SHORT_MS });
    plan.push(Action::SwitchDesktop { index: info.original_desktop });
    plan.push(Action::Settle { ms: SWITCH_DELAY_MS });
    if desktop_count > 1 {
        plan.push(
            Action::RemoveDesktop {
                index: info.created_desktop,
                fallback: if info.created_desktop > 0 {
                    info.created_desktop - 1
                } else {
                    0
                },
            },
        );
        registry.update_indices_after_delete(info.created_desktop);
    }
    registry.remove(window);
    proof {
        assert(plan@ =~= exit_plan(info, desktop_count));
        if desktop_count > 1 {
            let f = |r: SpaceInfo| shifted_info(r, info.created_desktop);
            assert(old(registry)@.map_values(f).remove(window) =~= old(registry)@.remove(
                window,
            ).map_values(f));
        }
    }
    plan
}

/// Reconciles an externally destroyed window: if it owned a space, retires
/// its dedicated desktop (switching away from it first when it is the
/// visible one), renumbers the remaining records, and drops the record. A
/// window that is not registered is a no-op.
pub fn handle_window_closed(
    registry: &mut SpaceRegistry,
    window: WindowId,
    current_desktop: u32,
    desktop_count: u32,
) -> (plan: Vec<Action>)
    requires
        old(registry).wf(),
    ensures
        final(registry).wf(),
        old(registry)@.contains_key(window) ==> plan@ == close_plan(
            old(registry)@[window],
            current_desktop,
            desktop_count,
        ),
        old(registry)@.contains_key(window) ==> final(registry)@ == registry_after_release(
            old(registry)@,
            window,
            desktop_count,
        ),
        !old(registry)@.contains_key(window) ==> plan@ == Seq::<Action>::empty()
            && final(registry)@ == old(registry)@,
{
    if !registry.contains(window) {
        return Vec::new();
    }
    let info = match registry.get(window) {
        Some(info) => info,
        None => {
            return Vec::new();
        },
    };
    let fallback = if info.created_desktop > 0 {
        info.created_desktop - 1
    } else {
        0
    };
    let mut plan: Vec<Action> = Vec::new();
    if current_desktop == info.created_desktop {
        plan.push(Action::SwitchDesktop { index: fallback });
        plan.push(Action::Settle { ms: SWITCH_DELAY_MS });
    }
    if desktop_count > 1 {
        plan.push(Action::RemoveDesktop { index: info.created_desktop, fallback });
        registry.update_indices_after_delete(info.created_desktop);
    }
    registry.remove(window);
    proof {
        assert(plan@ =~= close_plan(info, current_desktop, desktop_count));
        if desktop_count > 1 {
            let f = |r: SpaceInfo| shifted_info(r, info.created_desktop);
            assert(old(registry)@.map_values(f).remove(window) =~= old(registry)@.remove(
                window,
            ).map_values(f));
        }
    }
    plan
}

/// Enters or exits a fullscreen space for the window, whichever applies: a
/// registered window exits, an unregistered one enters. The host checks that
/// the window is valid before calling; an invalid window is skipped there
/// and never reaches the coordinator.
pub fn toggle_fullscreen(
    registry: &mut SpaceRegistry,
    window: WindowId,
    current_desktop: u32,
    desktop_count: u32,
    was_maximized: bool,
) -> (plan: Vec<Action>)
    requires
        old(registry).wf(),
    ensures
        final(registry).wf(),
        old(registry)@.contains_key(window) ==> plan@ == exit_plan(
            old(registry)@[window],
            desktop_count,
        ) && final(registry)@ == registry_after_release(old(registry)@, window, desktop_count),
        !old(registry)@.contains_key(window) ==> plan@ == enter_plan(
            window,
            desktop_count,
            was_maximized,
        ) && final(registry)@ == old(registry)@.insert(
            window,
            SpaceInfo { hwnd: window, original_desktop: current_desktop, created_desktop: desktop_count },
        ),
{
    if registry.contains(window) {
        exit_fullscreen_space(registry, window, desktop_count)
    } else {
        enter_fullscreen_space(registry, window, current_desktop, desktop_count, was_maximized)
    }
}

} // verus!
