//! The slice of the application's configuration that hotkey registration
//! reads: three optional shortcut strings and the optional text-selection
//! switch. A missing field means "no hotkey" or "selection disabled".

use vstd::prelude::*;

verus! {

/// User configuration for the three global-shortcut slots and the
/// text-selection feature. Every field is optional; an absent field is
/// treated as empty or disabled.
pub struct ShortcutConfig {
    /// Key combination that opens the quick-ask prompt window.
    pub quick_ask_shortcut: Option<String>,
    /// Key combination that opens the search window.
    pub search_shortcut: Option<String>,
    /// Key combination that opens the chat window.
    pub chat_shortcut: Option<String>,
    /// Whether the text-selection listener is enabled.
    pub enable_select: Option<bool>,
}

/// The shortcut text a slot field carries, with a missing field reading as
/// the empty string.
pub open spec fn text_or_empty(field: Option<String>) -> Seq<char> {
    match field {
        Some(text) => text@,
        None => Seq::<char>::empty(),
    }
}

/// The switch a flag field carries, with a missing field reading as disabled.
pub open spec fn flag_or_disabled(field: Option<bool>) -> bool {
    match field {
        Some(value) => value,
        None => false,
    }
}

impl Default for ShortcutConfig {
    /// The all-disabled configuration: no shortcut bound, selection off.
    fn default() -> (config: Self)
        ensures
            config.quick_ask_shortcut is None,
            config.search_shortcut is None,
            config.chat_shortcut is None,
            config.enable_select is None,
    {
        ShortcutConfig {
            quick_ask_shortcut: None,
            search_shortcut: None,
            chat_shortcut: None,
            enable_select: None,
        }
    }
}

} // verus!
