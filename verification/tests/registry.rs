use desktop_buddy::registry::SessionRegistry;
use desktop_buddy::session::ThreeDApp;
use desktop_buddy::shell::HostShell;
use std::cell::Cell;

#[test]
fn new_registry_holds_no_session() {
    let registry: SessionRegistry<String> = SessionRegistry::new();
    assert!(!registry.contains(0));
    assert!(!registry.contains(u64::MAX));
    assert_eq!(registry.get(7), None);
}

#[test]
fn first_resolve_makes_the_session() {
    let mut registry = SessionRegistry::new();
    let made = Cell::new(0);
    let session = registry.resolve(7, || {
        made.set(made.get() + 1);
        String::from("seven")
    });
    assert_eq!(session.as_str(), "seven");
    assert_eq!(made.get(), 1);
    assert!(registry.contains(7));
    assert_eq!(registry.get(7), Some(&String::from("seven")));
}

#[test]
fn second_resolve_hands_out_the_same_session() {
    let mut registry = SessionRegistry::new();
    let made = Cell::new(0);
    let first = format!("{:p}", registry.resolve(7, || {
        made.set(made.get() + 1);
        vec![1u8, 2, 3]
    }));
    let second = format!("{:p}", registry.resolve(7, || {
        made.set(made.get() + 1);
        vec![9u8]
    }));
    assert_eq!(first, second);
    assert_eq!(made.get(), 1);
    assert_eq!(registry.get(7), Some(&vec![1, 2, 3]));
}

#[test]
fn changes_made_through_resolve_are_kept() {
    let mut registry = SessionRegistry::new();
    registry.resolve(1, || 10u32);
    *registry.resolve(1, || 0) += 5;
    assert_eq!(*registry.resolve(1, || 0), 15);
    assert_eq!(registry.get(1), Some(&15));
}

#[test]
fn each_thread_has_its_own_session() {
    let mut registry = SessionRegistry::new();
    registry.resolve(1, || 'a');
    registry.resolve(2, || 'b');
    registry.resolve(u64::MAX, || 'c');
    *registry.resolve(2, || 'x') = 'B';
    assert_eq!(registry.get(1), Some(&'a'));
    assert_eq!(registry.get(2), Some(&'B'));
    assert_eq!(registry.get(u64::MAX), Some(&'c'));
    assert_eq!(registry.get(3), None);
    assert_eq!(*registry.resolve(1, || 'y'), 'a');
}

#[test]
fn registry_keeps_render_sessions() {
    let mut registry = SessionRegistry::new();
    let session = registry.resolve(42, || ThreeDApp::new(HostShell::Embedded, &[]));
    session.frame(
        desktop_buddy::viewport::FrameInput::new(&desktop_buddy::viewport::PaintInfo {
            viewport: desktop_buddy::viewport::LogicalRect { x: 0, y: 0, width: 2000, height: 2000 },
            clip_rect: desktop_buddy::viewport::LogicalRect { x: 0, y: 0, width: 2000, height: 2000 },
            pixels_per_point: 1000,
            screen_height_px: 2,
        }),
        &[],
    );
    let kept = registry.resolve(42, || ThreeDApp::new(HostShell::Embedded, &[]));
    assert_eq!(kept.viewport().width, 2);
}
