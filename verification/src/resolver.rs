//! Maps each logical action to its canonical global key combo per platform.
//!
//! Resolution is a total function over the supported platform set: there are
//! no error conditions, and the bindings are fixed for the process lifetime.

use vstd::prelude::*;

verus! {

/// The build/runtime platform, fixed for the lifetime of the process.
#[derive(Clone, Copy, PartialEq, Eq, Structural, Debug)]
pub enum Platform {
    MacOs,
    Windows,
    Linux,
}

/// A logical application behaviour that a global shortcut can trigger.
#[derive(Clone, Copy, PartialEq, Eq, Structural, Debug)]
pub enum LogicalAction {
    ToggleWindowVisibility,
    ToggleListening,
}

/// The canonical key combo bound to `action` on `platform`.
pub open spec fn combo_spec(platform: Platform, action: LogicalAction) -> Seq<char> {
    match platform {
        Platform::MacOs => match action {
            LogicalAction::ToggleWindowVisibility => "Command+Shift+Space"@,
            LogicalAction::ToggleListening => "Command+L"@,
        },
        _ => match action {
            LogicalAction::ToggleWindowVisibility => "Ctrl+Shift+Space"@,
            LogicalAction::ToggleListening => "Ctrl+L"@,
        },
    }
}

/// Resolves the key combo for `action` on `platform`.
pub fn resolve(platform: Platform, action: LogicalAction) -> (combo: &'static str)
    ensures
        combo@ == combo_spec(platform, action),
{
    match platform {
        Platform::MacOs => match action {
            LogicalAction::ToggleWindowVisibility => "Command+Shift+Space",
            LogicalAction::ToggleListening => "Command+L",
        },
        _ => match action {
            LogicalAction::ToggleWindowVisibility => "Ctrl+Shift+Space",
            LogicalAction::ToggleListening => "Ctrl+L",
        },
    }
}

/// On every supported platform each logical action resolves to a non-empty
/// combo, and no two actions resolve to the same combo.
pub proof fn lemma_resolver_combos_distinct(platform: Platform)
    ensures
        combo_spec(platform, LogicalAction::ToggleWindowVisibility).len() > 0,
        combo_spec(platform, LogicalAction::ToggleListening).len() > 0,
        combo_spec(platform, LogicalAction::ToggleWindowVisibility)
            != combo_spec(platform, LogicalAction::ToggleListening),
{
    reveal_strlit("Command+Shift+Space");
    reveal_strlit("Command+L");
    reveal_strlit("Ctrl+Shift+Space");
    reveal_strlit("Ctrl+L");
}

} // verus!
