use keepmeawake::inhibitor::HoldGuard;
use keepmeawake::shortcuts::{
    app_shortcuts, EstablishStep, GlobalShortcutsSession, ListenerHandle, Shortcut, ShortcutInfo,
    ShortcutsError, MIN_CONFIGURE_VERSION,
};

fn shortcut(id: &str, description: &str, preferred: Option<&str>) -> Shortcut {
    Shortcut {
        id: id.to_string(),
        description: description.to_string(),
        preferred_trigger: preferred.map(str::to_string),
        actual_trigger_description: String::new(),
    }
}

/// Drives establishment to the bound state with the given negotiated
/// version and resource ids.
fn establish(
    session: &mut GlobalShortcutsSession,
    version: u32,
    listener: u64,
    keep_alive: u64,
) {
    assert_eq!(session.establish_begin(), EstablishStep::QueryVersion);
    assert!(session.on_version(Some(version)).is_ok());
    assert!(session
        .on_session_created(Some("/org/freedesktop/portal/session/1".to_string()))
        .is_ok());
    assert!(session
        .on_bound(Some((
            ListenerHandle::new(listener),
            HoldGuard::new(keep_alive)
        )))
        .is_ok());
    assert!(session.is_bound());
}

#[test]
fn version_below_minimum_binds_but_rejects_configure() {
    // P7: version 1 is below the reconfiguration minimum of 2; binding
    // still works, but configuration is rejected locally.
    assert_eq!(MIN_CONFIGURE_VERSION, 2);
    let mut session = GlobalShortcutsSession::new(app_shortcuts());
    establish(&mut session, 1, 1, 2);
    assert_eq!(session.negotiated_version(), Some(1));
    assert!(!session.can_configure());
    assert_eq!(
        session.configure_request(),
        Err(ShortcutsError::ConfigureFailed)
    );
}

#[test]
fn version_at_minimum_enables_configure() {
    let mut session = GlobalShortcutsSession::new(app_shortcuts());
    establish(&mut session, 2, 1, 2);
    assert!(session.can_configure());
    assert_eq!(
        session.configure_request(),
        Ok("/org/freedesktop/portal/session/1".to_string())
    );
}

#[test]
fn configure_rejected_before_establishment() {
    let session = GlobalShortcutsSession::new(app_shortcuts());
    assert_eq!(
        session.configure_request(),
        Err(ShortcutsError::ConfigureFailed)
    );
}

#[test]
fn bind_failure_then_clean_retry() {
    // P8: a failure at the binding step leaves no keep-alive token, and a
    // later establishment retries from the start.
    let mut session = GlobalShortcutsSession::new(app_shortcuts());
    assert_eq!(session.establish_begin(), EstablishStep::QueryVersion);
    assert!(session.on_version(Some(2)).is_ok());
    assert!(session.on_session_created(Some("/s1".to_string())).is_ok());
    assert_eq!(session.on_bound(None), Err(ShortcutsError::BindingFailed));
    assert!(!session.holds_keep_alive());
    assert!(!session.is_bound());

    establish(&mut session, 2, 5, 6);
    assert!(session.holds_keep_alive());
}

#[test]
fn negotiation_failures_fall_back() {
    let mut session = GlobalShortcutsSession::new(app_shortcuts());
    assert_eq!(session.establish_begin(), EstablishStep::QueryVersion);
    assert_eq!(
        session.on_version(None),
        Err(ShortcutsError::NegotiationFailed)
    );
    assert!(!session.is_bound());

    assert_eq!(session.establish_begin(), EstablishStep::QueryVersion);
    assert!(session.on_version(Some(3)).is_ok());
    assert_eq!(
        session.on_session_created(None),
        Err(ShortcutsError::NegotiationFailed)
    );
    assert!(!session.is_bound());
    assert!(!session.holds_keep_alive());
}

#[test]
fn establish_is_idempotent_when_bound() {
    let mut session = GlobalShortcutsSession::new(app_shortcuts());
    establish(&mut session, 2, 1, 2);
    assert_eq!(session.establish_begin(), EstablishStep::AlreadyBound);
    assert!(session.is_bound());
}

#[test]
fn teardown_twice_and_on_fresh_session() {
    // P4: teardown releases each resource exactly once; repeated calls and
    // calls on a never-established session hand nothing back.
    let mut session = GlobalShortcutsSession::new(app_shortcuts());
    establish(&mut session, 2, 10, 20);
    let first = session.teardown();
    assert_eq!(first.listener.map(|l| l.id()), Some(10));
    assert_eq!(first.keep_alive.map(|k| k.id()), Some(20));
    let second = session.teardown();
    assert!(second.listener.is_none());
    assert!(second.keep_alive.is_none());
    assert_eq!(session.establish_begin(), EstablishStep::Unavailable);

    let mut fresh = GlobalShortcutsSession::new(app_shortcuts());
    let r = fresh.teardown();
    assert!(r.listener.is_none());
    assert!(r.keep_alive.is_none());
}

#[test]
fn teardown_during_negotiation_holds_nothing() {
    let mut session = GlobalShortcutsSession::new(app_shortcuts());
    assert_eq!(session.establish_begin(), EstablishStep::QueryVersion);
    assert!(session.on_version(Some(2)).is_ok());
    let r = session.teardown();
    assert!(r.listener.is_none());
    assert!(r.keep_alive.is_none());
}

#[test]
fn activation_events_in_order() {
    // P5: events [a, b, c] emitted in that order reach the handler in that
    // order.
    let declared = vec![
        shortcut("a", "first", None),
        shortcut("b", "second", None),
        shortcut("c", "third", None),
    ];
    let session = GlobalShortcutsSession::new(declared);
    let events = vec!["a".to_string(), "b".to_string(), "c".to_string()];
    let handled = session.dispatch_all(&events);
    assert_eq!(handled, events);
}

#[test]
fn unknown_activation_ids_are_ignored() {
    let declared = vec![shortcut("a", "first", None), shortcut("b", "second", None)];
    let session = GlobalShortcutsSession::new(declared);
    assert_eq!(session.dispatch_activation(&"a".to_string()), Ok(0));
    assert_eq!(session.dispatch_activation(&"b".to_string()), Ok(1));
    assert_eq!(
        session.dispatch_activation(&"stray".to_string()),
        Err(ShortcutsError::ActivationStreamUnknownId)
    );

    let events = vec![
        "b".to_string(),
        "stray".to_string(),
        "a".to_string(),
        "b".to_string(),
    ];
    let handled = session.dispatch_all(&events);
    assert_eq!(
        handled,
        vec!["b".to_string(), "a".to_string(), "b".to_string()]
    );
}

#[test]
fn no_events_no_dispatch() {
    let session = GlobalShortcutsSession::new(app_shortcuts());
    let handled = session.dispatch_all(&Vec::new());
    assert!(handled.is_empty());
}

#[test]
fn toggle_shortcut_is_declared() {
    let declared = app_shortcuts();
    assert_eq!(declared.len(), 1);
    assert_eq!(declared[0].id, "keep-me-awake-toggle");
    assert_eq!(declared[0].description, "Toggle Keep me Awake");
    assert_eq!(declared[0].preferred_trigger.as_deref(), Some("LOGO+w"));
    assert_eq!(declared[0].actual_trigger_description, "");

    let session = GlobalShortcutsSession::new(declared);
    assert_eq!(
        session.dispatch_activation(&"keep-me-awake-toggle".to_string()),
        Ok(0)
    );
}

#[test]
fn resolve_triggers_joins_live_and_declared() {
    let session = GlobalShortcutsSession::new(app_shortcuts());
    let live = vec![
        ShortcutInfo {
            id: "keep-me-awake-toggle".to_string(),
            description: "Toggle Keep me Awake".to_string(),
            trigger_description: "Super+W".to_string(),
        },
        ShortcutInfo {
            id: "added-by-service".to_string(),
            description: "Unknown entry".to_string(),
            trigger_description: "Ctrl+X".to_string(),
        },
    ];
    let rows = session.resolve_triggers(&live);
    assert_eq!(rows.len(), 2);
    assert_eq!(rows[0].id, "keep-me-awake-toggle");
    assert_eq!(rows[0].description, "Toggle Keep me Awake");
    assert_eq!(rows[0].preferred_trigger.as_deref(), Some("LOGO+w"));
    assert_eq!(rows[0].actual_trigger_description, "Super+W");
    assert_eq!(rows[1].id, "added-by-service");
    assert_eq!(rows[1].preferred_trigger, None);
    assert_eq!(rows[1].actual_trigger_description, "Ctrl+X");
}

#[test]
fn resolve_triggers_of_empty_listing() {
    let session = GlobalShortcutsSession::new(app_shortcuts());
    let rows = session.resolve_triggers(&Vec::new());
    assert!(rows.is_empty());
}
