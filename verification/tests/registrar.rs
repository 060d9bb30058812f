use shortcut_registrar::{Action, Event, Registrar, ShortcutConfig, Slot};

/// Runs a machine to its end, answering each action: fallible actions fail
/// when they equal `fail_on`, the window lookup answers `window_open`, and
/// everything else completes. Returns the finished machine and every action
/// it asked for, in order.
fn drive(mut registrar: Registrar, fail_on: Option<Action>, window_open: bool) -> (Registrar, Vec<Action>) {
    let mut issued: Vec<Action> = Vec::new();
    while let Some(action) = registrar.next_action() {
        issued.push(action);
        let event = match action {
            Action::UnregisterAll | Action::Register { .. } => {
                if fail_on == Some(action) {
                    Event::Failed
                } else {
                    Event::Completed
                }
            }
            Action::LookupSelectWindow => {
                if window_open {
                    Event::WindowFound
                } else {
                    Event::WindowNotFound
                }
            }
            Action::StoreSelectFlag { .. } | Action::CloseSelectWindow => Event::Completed,
        };
        registrar.step(event);
    }
    (registrar, issued)
}

fn empty_config() -> ShortcutConfig {
    ShortcutConfig {
        quick_ask_shortcut: None,
        search_shortcut: None,
        chat_shortcut: None,
        enable_select: None,
    }
}

#[test]
fn default_config_has_every_field_absent() {
    let config = ShortcutConfig::default();
    assert!(config.quick_ask_shortcut.is_none());
    assert!(config.search_shortcut.is_none());
    assert!(config.chat_shortcut.is_none());
    assert!(config.enable_select.is_none());
}

#[test]
fn all_disabled_config_registers_nothing() {
    let (registrar, issued) = drive(Registrar::new(ShortcutConfig::default(), true), None, false);
    assert!(registrar.succeeded());
    assert_eq!(
        issued,
        vec![
            Action::UnregisterAll,
            Action::StoreSelectFlag { enabled: false },
            Action::LookupSelectWindow,
        ]
    );
}

#[test]
fn all_disabled_without_clear_support_only_reconciles_selection() {
    let (registrar, issued) = drive(Registrar::new(ShortcutConfig::default(), false), None, false);
    assert!(registrar.succeeded());
    assert_eq!(
        issued,
        vec![
            Action::StoreSelectFlag { enabled: false },
            Action::LookupSelectWindow,
        ]
    );
}

#[test]
fn empty_string_slot_is_skipped_silently() {
    let config = ShortcutConfig {
        quick_ask_shortcut: Some(String::new()),
        search_shortcut: Some(String::new()),
        chat_shortcut: Some(String::new()),
        enable_select: Some(false),
    };
    let (registrar, issued) = drive(Registrar::new(config, true), None, false);
    assert!(registrar.succeeded());
    assert!(issued
        .iter()
        .all(|action| !matches!(action, Action::Register { .. })));
}

#[test]
fn single_quick_ask_slot_binds_exactly_once() {
    let mut config = empty_config();
    config.quick_ask_shortcut = Some("CmdOrCtrl+Shift+Q".to_string());
    let (registrar, issued) = drive(Registrar::new(config, true), None, false);
    assert!(registrar.succeeded());
    let bindings: Vec<Action> = issued
        .iter()
        .copied()
        .filter(|action| matches!(action, Action::Register { .. }))
        .collect();
    assert_eq!(bindings, vec![Action::Register { slot: Slot::QuickAsk }]);
}

#[test]
fn single_search_slot_binds_exactly_once() {
    let mut config = empty_config();
    config.search_shortcut = Some("Alt+Space".to_string());
    let (registrar, issued) = drive(Registrar::new(config, true), None, false);
    assert!(registrar.succeeded());
    let bindings: Vec<Action> = issued
        .iter()
        .copied()
        .filter(|action| matches!(action, Action::Register { .. }))
        .collect();
    assert_eq!(bindings, vec![Action::Register { slot: Slot::Search }]);
}

#[test]
fn single_chat_slot_binds_exactly_once() {
    let mut config = empty_config();
    config.chat_shortcut = Some("CmdOrCtrl+Shift+C".to_string());
    let (registrar, issued) = drive(Registrar::new(config, false), None, false);
    assert!(registrar.succeeded());
    let bindings: Vec<Action> = issued
        .iter()
        .copied()
        .filter(|action| matches!(action, Action::Register { .. }))
        .collect();
    assert_eq!(bindings, vec![Action::Register { slot: Slot::Chat }]);
}

#[test]
fn accelerator_reads_back_the_configured_text() {
    let config = ShortcutConfig {
        quick_ask_shortcut: Some("CmdOrCtrl+Shift+Q".to_string()),
        search_shortcut: Some("Alt+Space".to_string()),
        chat_shortcut: None,
        enable_select: None,
    };
    let registrar = Registrar::new(config, true);
    assert_eq!(registrar.accelerator(Slot::QuickAsk).as_str(), "CmdOrCtrl+Shift+Q");
    assert_eq!(registrar.accelerator(Slot::Search).as_str(), "Alt+Space");
    assert_eq!(registrar.accelerator(Slot::Chat).as_str(), "");
}

#[test]
fn clear_failure_stops_the_run_before_any_binding() {
    let config = ShortcutConfig {
        quick_ask_shortcut: Some("CmdOrCtrl+Shift+Q".to_string()),
        search_shortcut: Some("Alt+Space".to_string()),
        chat_shortcut: Some("CmdOrCtrl+Shift+C".to_string()),
        enable_select: Some(true),
    };
    let (registrar, issued) = drive(
        Registrar::new(config, true),
        Some(Action::UnregisterAll),
        false,
    );
    assert!(registrar.failed());
    assert_eq!(
        issued,
        vec![
            Action::UnregisterAll,
            Action::StoreSelectFlag { enabled: true },
        ]
    );
}

#[test]
fn quick_ask_failure_skips_later_bindings_but_stores_flag() {
    let config = ShortcutConfig {
        quick_ask_shortcut: Some("CmdOrCtrl+Shift+Q".to_string()),
        search_shortcut: Some("Alt+Space".to_string()),
        chat_shortcut: Some("CmdOrCtrl+Shift+C".to_string()),
        enable_select: Some(false),
    };
    let (registrar, issued) = drive(
        Registrar::new(config, true),
        Some(Action::Register { slot: Slot::QuickAsk }),
        true,
    );
    assert!(registrar.failed());
    assert_eq!(
        issued,
        vec![
            Action::UnregisterAll,
            Action::Register { slot: Slot::QuickAsk },
            Action::StoreSelectFlag { enabled: false },
        ]
    );
}

#[test]
fn search_failure_skips_chat_binding() {
    let config = ShortcutConfig {
        quick_ask_shortcut: Some("CmdOrCtrl+Shift+Q".to_string()),
        search_shortcut: Some("Alt+Space".to_string()),
        chat_shortcut: Some("CmdOrCtrl+Shift+C".to_string()),
        enable_select: Some(false),
    };
    let (registrar, issued) = drive(
        Registrar::new(config, true),
        Some(Action::Register { slot: Slot::Search }),
        true,
    );
    assert!(registrar.failed());
    assert_eq!(
        issued,
        vec![
            Action::UnregisterAll,
            Action::Register { slot: Slot::QuickAsk },
            Action::Register { slot: Slot::Search },
            Action::StoreSelectFlag { enabled: false },
        ]
    );
}

#[test]
fn flag_is_stored_even_when_a_binding_fails() {
    let config = ShortcutConfig {
        quick_ask_shortcut: Some("CmdOrCtrl+Shift+Q".to_string()),
        search_shortcut: None,
        chat_shortcut: None,
        enable_select: Some(true),
    };
    let (registrar, issued) = drive(
        Registrar::new(config, false),
        Some(Action::Register { slot: Slot::QuickAsk }),
        false,
    );
    assert!(registrar.failed());
    assert_eq!(
        issued,
        vec![
            Action::Register { slot: Slot::QuickAsk },
            Action::StoreSelectFlag { enabled: true },
        ]
    );
}

#[test]
fn all_slots_bind_in_the_fixed_order() {
    let config = ShortcutConfig {
        quick_ask_shortcut: Some("CmdOrCtrl+Shift+Q".to_string()),
        search_shortcut: Some("Alt+Space".to_string()),
        chat_shortcut: Some("CmdOrCtrl+Shift+C".to_string()),
        enable_select: Some(false),
    };
    let (registrar, issued) = drive(Registrar::new(config, true), None, false);
    assert!(registrar.succeeded());
    assert_eq!(
        issued,
        vec![
            Action::UnregisterAll,
            Action::Register { slot: Slot::QuickAsk },
            Action::Register { slot: Slot::Search },
            Action::Register { slot: Slot::Chat },
            Action::StoreSelectFlag { enabled: false },
            Action::LookupSelectWindow,
        ]
    );
}

#[test]
fn enabled_selection_stores_flag_and_skips_window_work() {
    let mut config = empty_config();
    config.enable_select = Some(true);
    let registrar = Registrar::new(config, true);
    assert!(registrar.select_enabled());
    let (registrar, issued) = drive(registrar, None, true);
    assert!(registrar.succeeded());
    assert_eq!(
        issued,
        vec![
            Action::UnregisterAll,
            Action::StoreSelectFlag { enabled: true },
        ]
    );
}

#[test]
fn disabling_selection_closes_an_open_window_once() {
    let mut config = empty_config();
    config.enable_select = Some(false);
    let (registrar, issued) = drive(Registrar::new(config, true), None, true);
    assert!(registrar.succeeded());
    assert_eq!(
        issued,
        vec![
            Action::UnregisterAll,
            Action::StoreSelectFlag { enabled: false },
            Action::LookupSelectWindow,
            Action::CloseSelectWindow,
        ]
    );
    let closes = issued
        .iter()
        .filter(|action| matches!(action, Action::CloseSelectWindow))
        .count();
    assert_eq!(closes, 1);
}

#[test]
fn disabling_selection_without_a_window_requests_no_close() {
    let mut config = empty_config();
    config.enable_select = Some(false);
    let (registrar, issued) = drive(Registrar::new(config, true), None, false);
    assert!(registrar.succeeded());
    assert!(issued
        .iter()
        .all(|action| !matches!(action, Action::CloseSelectWindow)));
}

#[test]
fn run_reports_finished_only_at_the_end() {
    let registrar = Registrar::new(ShortcutConfig::default(), true);
    assert!(!registrar.is_finished());
    assert!(!registrar.succeeded());
    assert!(!registrar.failed());
    let (registrar, _) = drive(registrar, None, false);
    assert!(registrar.is_finished());
    assert!(registrar.succeeded());
    assert!(!registrar.failed());
}
