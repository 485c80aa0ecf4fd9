//! The composition root: resolves the key combos for the current platform,
//! records their registrations, and dispatches each shortcut activation to
//! the window controller and the bridge.
//!
//! Startup has no degraded mode: if either registration fails the whole
//! wiring fails, and the caller aborts the process with the error.

use vstd::prelude::*;

use crate::bridge::EventBridge;
use crate::registry::OsHookOutcome;
use crate::registry::RegistrationError;
use crate::registry::ShortcutRegistry;
use crate::registry::register_outcome;
use crate::resolver::LogicalAction;
use crate::resolver::Platform;
use crate::resolver::combo_spec;
use crate::resolver::lemma_resolver_combos_distinct;
use crate::resolver::resolve;
use crate::window::WindowAction;
use crate::window::WindowError;
use crate::window::WindowModel;
use crate::window::bring_spec;
use crate::window::toggle_spec;

verus! {

/// The result startup wiring must have: the visibility toggle is registered
/// first, and the first failure stops the wiring.
pub open spec fn wire_outcome(
    bound: Set<Seq<char>>,
    platform: Platform,
    toggle_os: OsHookOutcome,
    listening_os: OsHookOutcome,
) -> Result<(), RegistrationError> {
    let c1 = combo_spec(platform, LogicalAction::ToggleWindowVisibility);
    let c2 = combo_spec(platform, LogicalAction::ToggleListening);
    match register_outcome(bound.contains(c1), toggle_os) {
        Err(e) => Err(e),
        Ok(_) => register_outcome(bound.insert(c1).contains(c2), listening_os),
    }
}

/// The combos bound after startup wiring: none added on a first failure,
/// only the visibility toggle on a second failure, both on success.
pub open spec fn wire_bound_after(
    bound: Set<Seq<char>>,
    platform: Platform,
    toggle_os: OsHookOutcome,
    listening_os: OsHookOutcome,
) -> Set<Seq<char>> {
    let c1 = combo_spec(platform, LogicalAction::ToggleWindowVisibility);
    let c2 = combo_spec(platform, LogicalAction::ToggleListening);
    match register_outcome(bound.contains(c1), toggle_os) {
        Err(_) => bound,
        Ok(_) => match register_outcome(bound.insert(c1).contains(c2), listening_os) {
            Err(_) => bound.insert(c1),
            Ok(_) => bound.insert(c1).insert(c2),
        },
    }
}

/// Resolves both combos for `platform` and records their registrations.
/// `toggle_os` and `listening_os` are the outcomes of the OS-level hook
/// attempts made by the caller for the respective combos.
pub fn wire_shortcuts(
    registry: &mut ShortcutRegistry,
    platform: Platform,
    toggle_os: OsHookOutcome,
    listening_os: OsHookOutcome,
) -> (r: Result<(), RegistrationError>)
    requires
        old(registry).wf(),
    ensures
        final(registry).wf(),
        r == wire_outcome(old(registry).bound_set(), platform, toggle_os, listening_os),
        final(registry).bound_set() == wire_bound_after(
            old(registry).bound_set(),
            platform,
            toggle_os,
            listening_os,
        ),
{
    let toggle_combo = resolve(platform, LogicalAction::ToggleWindowVisibility);
    match registry.register(toggle_combo.to_owned(), toggle_os) {
        Err(e) => Err(e),
        Ok(_) => {
            let listening_combo = resolve(platform, LogicalAction::ToggleListening);
            match registry.register(listening_combo.to_owned(), listening_os) {
                Err(e) => Err(e),
                Ok(_) => Ok(()),
            }
        },
    }
}

/// On a registry with neither combo bound and both hooks accepted, wiring
/// succeeds and binds exactly the two resolved combos — which the resolver
/// guarantees are distinct.
pub proof fn lemma_wire_fresh_succeeds(
    bound: Set<Seq<char>>,
    platform: Platform,
)
    requires
        !bound.contains(combo_spec(platform, LogicalAction::ToggleWindowVisibility)),
        !bound.contains(combo_spec(platform, LogicalAction::ToggleListening)),
    ensures
        wire_outcome(bound, platform, OsHookOutcome::Accepted, OsHookOutcome::Accepted) == Ok::<
            (),
            RegistrationError,
        >(()),
        wire_bound_after(
            bound,
            platform,
            OsHookOutcome::Accepted,
            OsHookOutcome::Accepted,
        ) == bound.insert(
            combo_spec(platform, LogicalAction::ToggleWindowVisibility),
        ).insert(combo_spec(platform, LogicalAction::ToggleListening)),
{
    lemma_resolver_combos_distinct(platform);
}

/// Dispatches one shortcut activation: the visibility toggle flips the
/// window; the listening toggle brings the window to the front and then
/// emits `toggle-listening` to the UI. A destroyed window makes the
/// activation fail without touching the bridge.
pub fn on_shortcut(
    action: LogicalAction,
    window: &mut WindowModel,
    bridge: &mut EventBridge,
) -> (r: Result<WindowAction, WindowError>)
    requires
        old(window).wf(),
    ensures
        final(window).wf(),
        !old(window).available ==> r == Err::<WindowAction, WindowError>(
            WindowError::WindowUnavailable,
        ) && *final(window) == *old(window) && *final(bridge) == *old(bridge),
        action == LogicalAction::ToggleWindowVisibility && old(window).available ==> *final(window)
            == toggle_spec(*old(window)) && *final(bridge) == *old(bridge) && r == Ok::<
            WindowAction,
            WindowError,
        >(
            if old(window).visible {
                WindowAction::Hide
            } else {
                WindowAction::ShowAndFocus
            },
        ),
        action == LogicalAction::ToggleListening && old(window).available ==> *final(window)
            == bring_spec(*old(window)) && r == Ok::<WindowAction, WindowError>(
            WindowAction::ShowAndFocus,
        ) && final(bridge).spec_receiver_attached() == old(bridge).spec_receiver_attached() && (
        old(bridge).spec_receiver_attached() ==> final(bridge).delivered_names() == old(
            bridge,
        ).delivered_names().push("toggle-listening"@)) && (!old(bridge).spec_receiver_attached()
            ==> *final(bridge) == *old(bridge)),
    {
        match action {
            LogicalAction::ToggleWindowVisibility => window.toggle_visibility(),
            LogicalAction::ToggleListening => {
                match window.bring_to_front() {
                    Err(e) => Err(e),
                    Ok(a) => {
                        bridge.emit("toggle-listening");
                        Ok(a)
                    },
                }
            },
        }
    }

} // verus!
