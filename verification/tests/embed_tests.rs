use dnclip::embed::{CreatePlan, EmbeddedWindow, Placement};

#[test]
fn new_window_is_inactive() {
    let w = EmbeddedWindow::new();
    assert!(!w.is_active());
    assert_eq!(w.reposition(0, 0, 10, 10), None);
    assert_eq!(w.hide_child(), None);
    assert_eq!(w.show(), None);
}

#[test]
fn create_needs_display_and_parent() {
    let mut w = EmbeddedWindow::new();
    assert_eq!(w.create(0, 0, 10, 10), None);
    assert!(w.init(77));
    assert_eq!(w.create(0, 0, 10, 10), None);
    w.display_opened(false);
    assert_eq!(w.create(0, 0, 10, 10), None);
    let mut w = EmbeddedWindow::new();
    w.display_opened(true);
    assert_eq!(w.create(0, 0, 10, 10), None);
}

#[test]
fn create_and_use_child_window() {
    let mut w = EmbeddedWindow::new();
    assert!(w.init(77));
    w.display_opened(true);
    let plan = w.create(5, 6, 0, 480).unwrap();
    assert_eq!(plan, CreatePlan { destroy: None, parent: 77, x: 5, y: 6, width: 1, height: 480 });
    assert!(!w.is_active());
    assert_eq!(w.created(0), None);
    assert!(!w.is_active());
    assert_eq!(w.created(1234), Some(1234));
    assert!(w.is_active());
    assert_eq!(
        w.reposition(1, 2, 640, 0),
        Some(Placement { child: 1234, x: 1, y: 2, width: 640, height: 1 })
    );
    assert_eq!(w.hide_child(), Some(1234));
    assert_eq!(w.show(), Some(1234));
    assert!(!w.init(99));
    let plan = w.create(0, 0, 100, 100).unwrap();
    assert_eq!(plan.destroy, Some(1234));
    assert_eq!(plan.parent, 77);
    assert!(!w.is_active());
}

#[test]
fn destroy_and_shutdown() {
    let mut w = EmbeddedWindow::new();
    w.init(1);
    w.display_opened(true);
    w.create(0, 0, 1, 1);
    w.created(9);
    assert_eq!(w.destroy(), Some(9));
    assert!(!w.is_active());
    assert_eq!(w.destroy(), None);
    w.create(0, 0, 1, 1);
    w.created(10);
    assert_eq!(w.shutdown(), (Some(10), true));
    assert_eq!(w.shutdown(), (None, false));
    assert_eq!(w.create(0, 0, 1, 1), None);
}
