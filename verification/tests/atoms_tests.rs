use dockbar::atoms::{all_atom_names, AtomName, AtomTable, LazyAtom, ATOM_NONE};
use dockbar::error::Error;

#[test]
fn atom_names_on_the_wire() {
    assert_eq!(AtomName::WindowType.as_str(), "_NET_WM_WINDOW_TYPE");
    assert_eq!(AtomName::WindowTypeDock.as_str(), "_NET_WM_WINDOW_TYPE_DOCK");
    assert_eq!(AtomName::State.as_str(), "_NET_WM_STATE");
    assert_eq!(AtomName::StateSkipTaskbar.as_str(), "_NET_WM_STATE_SKIP_TASKBAR");
    assert_eq!(AtomName::StateBelow.as_str(), "_NET_WM_STATE_BELOW");
    assert_eq!(AtomName::StateSticky.as_str(), "_NET_WM_STATE_STICKY");
    assert_eq!(AtomName::Strut.as_str(), "_NET_WM_STRUT");
    assert_eq!(AtomName::StrutPartial.as_str(), "_NET_WM_STRUT_PARTIAL");
    assert_eq!(AtomName::Desktop.as_str(), "_NET_WM_DESKTOP");
    assert_eq!(AtomName::AllowedActions.as_str(), "_NET_WM_ALLOWED_ACTIONS");
}

#[test]
fn all_names_in_reply_order() {
    let names = all_atom_names();
    assert_eq!(names.len(), 10);
    for (i, n) in names.iter().enumerate() {
        assert_eq!(AtomName::from_index(i), *n);
    }
    assert_eq!(names[0], AtomName::WindowType);
    assert_eq!(names[9], AtomName::AllowedActions);
}

#[test]
fn resolution_is_idempotent() {
    // Resolving the same name twice returns the same identifier without a
    // second round trip.
    let mut cell = LazyAtom::pending(AtomName::Strut);
    assert!(cell.needs_round_trip());
    assert_eq!(cell.accept_reply(42).unwrap(), 42);
    assert!(!cell.needs_round_trip());
    // A second resolution ignores whatever the transport would now say.
    assert_eq!(cell.accept_reply(7).unwrap(), 42);
    assert_eq!(cell.accept_reply(ATOM_NONE).unwrap(), 42);
    assert!(!cell.needs_round_trip());
}

#[test]
fn missing_atom_is_an_error() {
    let mut cell = LazyAtom::pending(AtomName::Desktop);
    let r = cell.accept_reply(ATOM_NONE);
    assert!(matches!(r, Err(Error::MissingAtom(AtomName::Desktop))));
    // The failed cell still awaits a reply.
    assert!(cell.needs_round_trip());
}

#[test]
fn table_from_replies() {
    let replies = vec![11, 12, 13, 14, 15, 16, 17, 18, 19, 20];
    let t = AtomTable::from_replies(&replies).unwrap();
    assert_eq!(t.window_type, 11);
    assert_eq!(t.window_type_dock, 12);
    assert_eq!(t.state, 13);
    assert_eq!(t.state_skip_taskbar, 14);
    assert_eq!(t.state_below, 15);
    assert_eq!(t.state_sticky, 16);
    assert_eq!(t.strut, 17);
    assert_eq!(t.strut_partial, 18);
    assert_eq!(t.desktop, 19);
    assert_eq!(t.allowed_actions, 20);
    assert_eq!(t.get(AtomName::Strut), 17);
    assert_eq!(t.get(AtomName::AllowedActions), 20);
    // Looking a name up twice gives the same identifier.
    assert_eq!(t.get(AtomName::Desktop), t.get(AtomName::Desktop));
}

#[test]
fn table_reports_first_missing_atom() {
    let replies = vec![11, 12, 13, 0, 15, 16, 0, 18, 19, 20];
    let r = AtomTable::from_replies(&replies);
    assert!(matches!(r, Err(Error::MissingAtom(AtomName::StateSkipTaskbar))));
}

#[test]
fn table_rejects_wrong_reply_count() {
    let replies = vec![11, 12, 13];
    let r = AtomTable::from_replies(&replies);
    assert!(matches!(r, Err(Error::Protocol(_))));
}
