use tao::{
    window_event_for, ActivationPolicy, AppLifecycle, AppNotification, AuxDelegateState, DeviceId,
    Event, EventLoopWindowTarget, NativeHandle, OsError, PlatformSpecificWindowBuilderAttributes,
    Window, WindowAttributes, WindowEvent, WindowId, WindowNotification,
};

fn aux() -> AuxDelegateState {
    AuxDelegateState { activation_policy: ActivationPolicy::Regular, activate_ignoring_other_apps: false }
}

fn target() -> EventLoopWindowTarget<u32> {
    EventLoopWindowTarget::new(aux())
}

fn pl() -> PlatformSpecificWindowBuilderAttributes {
    PlatformSpecificWindowBuilderAttributes {
        movable_by_window_background: false,
        titlebar_transparent: false,
    }
}

fn attrs(width: i64, height: i64, title: &str) -> WindowAttributes {
    WindowAttributes { width, height, title: title.to_string(), visible: true }
}

fn owned(t: &mut EventLoopWindowTarget<u32>, ptr: usize) -> Window {
    match Window::new(t, attrs(800, 600, "t"), pl(), Ok(NativeHandle(ptr))) {
        Ok(w) => w,
        Err(e) => panic!("creation failed: {:?}", e),
    }
}

fn resized(e: &Event<u32>, id: u64, width: i64, height: i64) -> bool {
    matches!(e, Event::WindowEvent { window_id, event: WindowEvent::Resized { width: w, height: h } }
        if *window_id == WindowId(id) && *w == width && *h == height)
}

fn user(e: &Event<u32>, v: u32) -> bool {
    matches!(e, Event::UserEvent(x) if *x == v)
}

#[test]
fn device_ids_all_equal() {
    let a = DeviceId::dummy();
    let b = DeviceId;
    assert_eq!(a, b);
    assert!(!(a < b) && !(b < a));
}

#[test]
fn create_query_and_zoom_delivers_one_resize() {
    let mut t = target();
    let r = Window::new(&mut t, attrs(800, 600, "t"), pl(), Ok(NativeHandle(0x1000)));
    let mut w = r.expect("window");
    assert_eq!(w.id().unwrap(), WindowId(0));
    assert_eq!(w.inner_size().unwrap(), (800, 600));
    assert_eq!(w.title().unwrap(), "t");
    assert!(t.is_registered(0));

    w.mark_is_checking_zoomed_in().unwrap();
    assert!(w.is_checking_zoomed_in());
    // the query's own echo arrives while the flag is set
    t.receive_window(&w, WindowNotification::Zoomed { width: 800, height: 600 }).unwrap();
    assert!(matches!(w.is_maximized(Ok(false)), Ok(false)));
    assert!(!w.is_checking_zoomed_in());
    assert_eq!(t.pending_events(), 0);

    t.receive_window(&w, WindowNotification::Zoomed { width: 1440, height: 900 }).unwrap();
    let events = t.take_events();
    assert_eq!(events.len(), 1);
    assert!(resized(&events[0], 0, 1440, 900));
    assert_eq!(t.pending_events(), 0);
}

#[test]
fn create_with_negative_size_fails_and_registers_nothing() {
    let mut t = target();
    let r = Window::new(&mut t, attrs(-1, 600, "t"), pl(), Ok(NativeHandle(0x1000)));
    assert!(matches!(r, Err(OsError::CreationError(_))));
    let r = Window::new(&mut t, attrs(800, -5, "t"), pl(), Ok(NativeHandle(0x1000)));
    assert!(matches!(r, Err(OsError::CreationError(_))));
    assert!(!t.is_registered(0));
    // the identifier was not used up
    let w = owned(&mut t, 0x2000);
    assert_eq!(w.id().unwrap(), WindowId(0));
}

#[test]
fn create_with_zero_size_succeeds() {
    let mut t = target();
    let r = Window::new(&mut t, attrs(0, 0, ""), pl(), Ok(NativeHandle(0x1000)));
    assert_eq!(r.unwrap().inner_size().unwrap(), (0, 0));
}

#[test]
fn create_reports_native_error_code() {
    let mut t = target();
    let r = Window::new(&mut t, attrs(800, 600, "t"), pl(), Err(1001));
    assert!(matches!(r, Err(OsError::CGError(1001))));
    assert!(!t.is_registered(0));
}

#[test]
fn create_with_null_native_window_fails() {
    let mut t = target();
    let r = Window::new(&mut t, attrs(800, 600, "t"), pl(), Ok(NativeHandle(0)));
    assert!(matches!(r, Err(OsError::CreationError(_))));
    assert!(!t.is_registered(0));
}

#[test]
fn windows_get_distinct_identifiers() {
    let mut t = target();
    let a = owned(&mut t, 0x1000);
    let b = owned(&mut t, 0x2000);
    assert_eq!(a.id().unwrap(), WindowId(0));
    assert_eq!(b.id().unwrap(), WindowId(1));
    assert_eq!(a.ns_window(), 0x1000);
    assert_eq!(b.ns_window(), 0x2000);
}

#[test]
fn raw_handle_round_trip() {
    for p in [0usize, 1, 0xdead_beef, usize::MAX] {
        let w = Window::from_raw_handle(NativeHandle(p));
        assert_eq!(w.ns_window(), p);
    }
}

#[test]
fn raw_handle_refuses_observer_operations() {
    let mut t = target();
    let mut w = Window::from_raw_handle(NativeHandle(0x42));
    assert!(matches!(w.mark_is_checking_zoomed_in(), Err(OsError::Unsupported(_))));
    assert!(matches!(w.is_maximized(Ok(true)), Err(OsError::Unsupported(_))));
    assert!(matches!(w.id(), Err(OsError::Unsupported(_))));
    assert!(matches!(w.inner_size(), Err(OsError::Unsupported(_))));
    assert!(matches!(w.title(), Err(OsError::Unsupported(_))));
    assert!(!w.is_checking_zoomed_in());
    let r = t.receive_window(&w, WindowNotification::CloseRequested);
    assert!(matches!(r, Err(OsError::Unsupported(_))));
    assert_eq!(t.pending_events(), 0);
}

#[test]
fn guard_cleared_when_native_query_fails() {
    let mut t = target();
    let mut w = owned(&mut t, 0x1000);
    w.mark_is_checking_zoomed_in().unwrap();
    assert!(matches!(w.is_maximized(Err(-1)), Err(OsError::CGError(-1))));
    assert!(!w.is_checking_zoomed_in());
    assert!(matches!(w.is_maximized(Ok(true)), Ok(true)));
    assert!(!w.is_checking_zoomed_in());
}

#[test]
fn zoom_during_query_is_not_delivered() {
    let mut t = target();
    let mut w = owned(&mut t, 0x1000);
    w.mark_is_checking_zoomed_in().unwrap();
    t.receive_window(&w, WindowNotification::Zoomed { width: 10, height: 20 }).unwrap();
    // other notifications still pass during a query
    t.receive_window(&w, WindowNotification::Resized { width: 30, height: 40 }).unwrap();
    w.is_maximized(Ok(true)).unwrap();
    let events = t.take_events();
    assert_eq!(events.len(), 1);
    assert!(resized(&events[0], 0, 30, 40));
}

#[test]
fn order_native_then_user_then_native() {
    let mut t = target();
    let w = owned(&mut t, 0x1000);
    t.receive_window(&w, WindowNotification::Resized { width: 1, height: 1 }).unwrap();
    t.send_event(7);
    t.receive_window(&w, WindowNotification::Resized { width: 2, height: 2 }).unwrap();
    let e = t.take_events();
    assert_eq!(e.len(), 3);
    assert!(resized(&e[0], 0, 1, 1));
    assert!(user(&e[1], 7));
    assert!(resized(&e[2], 0, 2, 2));
}

#[test]
fn order_user_then_native_then_user() {
    let mut t = target();
    let w = owned(&mut t, 0x1000);
    t.send_event(1);
    t.receive_window(&w, WindowNotification::Moved { x: 5, y: -5 }).unwrap();
    t.send_event(2);
    let e = t.take_events();
    assert_eq!(e.len(), 3);
    assert!(user(&e[0], 1));
    assert!(matches!(e[1], Event::WindowEvent { event: WindowEvent::Moved { x: 5, y: -5 }, .. }));
    assert!(user(&e[2], 2));
}

#[test]
fn order_app_native_user_across_two_drains() {
    let mut t = target();
    let w = owned(&mut t, 0x1000);
    t.receive_app(AppNotification::WillFinishLaunching);
    t.receive_app(AppNotification::DidFinishLaunching);
    t.send_event(3);
    let first = t.take_events();
    assert_eq!(first.len(), 2);
    assert!(matches!(first[0], Event::Resumed));
    assert!(user(&first[1], 3));
    t.receive_window(&w, WindowNotification::CloseRequested).unwrap();
    t.send_event(4);
    t.receive_app(AppNotification::WillTerminate);
    let second = t.take_events();
    assert_eq!(second.len(), 3);
    assert!(matches!(second[0], Event::WindowEvent { event: WindowEvent::CloseRequested, .. }));
    assert!(user(&second[1], 4));
    assert!(matches!(second[2], Event::LoopDestroyed));
}

#[test]
fn lifecycle_follows_notifications() {
    let mut t = target();
    assert_eq!(t.lifecycle(), AppLifecycle::NotLaunched);
    assert_eq!(t.aux_state(), None);
    // not applicable before launching: ignored
    t.receive_app(AppNotification::DidBecomeActive);
    assert_eq!(t.lifecycle(), AppLifecycle::NotLaunched);
    t.receive_app(AppNotification::WillFinishLaunching);
    assert_eq!(t.lifecycle(), AppLifecycle::Launching);
    assert_eq!(t.aux_state(), None);
    t.receive_app(AppNotification::DidFinishLaunching);
    assert_eq!(t.lifecycle(), AppLifecycle::Active);
    assert_eq!(t.aux_state(), Some(aux()));
    t.receive_app(AppNotification::DidResignActive);
    assert_eq!(t.lifecycle(), AppLifecycle::Inactive);
    t.receive_app(AppNotification::DidBecomeActive);
    assert_eq!(t.lifecycle(), AppLifecycle::Active);
    assert!(!t.should_exit());
    t.receive_app(AppNotification::WillTerminate);
    assert_eq!(t.lifecycle(), AppLifecycle::Terminating);
    assert!(t.should_exit());
    t.loop_exited();
    assert_eq!(t.lifecycle(), AppLifecycle::Terminated);
}

#[test]
fn aux_state_only_changes_after_launch() {
    let mut t = target();
    let other = AuxDelegateState { activation_policy: ActivationPolicy::Accessory, activate_ignoring_other_apps: true };
    assert!(!t.set_aux_state(other));
    assert_eq!(t.aux_state(), None);
    t.receive_app(AppNotification::WillFinishLaunching);
    t.receive_app(AppNotification::DidFinishLaunching);
    assert!(t.set_aux_state(other));
    assert_eq!(t.aux_state(), Some(other));
}

#[test]
fn exit_request_is_recorded() {
    let mut t = target();
    assert!(!t.should_exit());
    t.request_exit();
    assert!(t.should_exit());
}

#[test]
fn closed_window_stops_routing() {
    let mut t = target();
    let a = owned(&mut t, 0x1000);
    let b = owned(&mut t, 0x2000);
    t.receive_window(&a, WindowNotification::WillClose).unwrap();
    assert!(!t.is_registered(0));
    assert!(t.is_registered(1));
    t.receive_window(&a, WindowNotification::Resized { width: 1, height: 1 }).unwrap();
    t.receive_window(&b, WindowNotification::Focused(true)).unwrap();
    let e = t.take_events();
    assert_eq!(e.len(), 2);
    assert!(matches!(e[0], Event::WindowEvent { window_id: WindowId(0), event: WindowEvent::Destroyed }));
    assert!(matches!(e[1], Event::WindowEvent { window_id: WindowId(1), event: WindowEvent::Focused(true) }));
}

#[test]
fn modifiers_and_keys_are_tracked() {
    let mut t = target();
    let w = owned(&mut t, 0x1000);
    assert_eq!(t.modifiers(), 0);
    t.receive_window(&w, WindowNotification::ModifiersChanged(0b101)).unwrap();
    assert_eq!(t.modifiers(), 0b101);
    t.receive_window(&w, WindowNotification::KeyboardInput { key_code: 36, pressed: true }).unwrap();
    let e = t.take_events();
    assert_eq!(e.len(), 2);
    assert!(matches!(e[0], Event::WindowEvent { event: WindowEvent::ModifiersChanged(0b101), .. }));
    assert!(matches!(e[1], Event::WindowEvent {
        event: WindowEvent::KeyboardInput { device_id: DeviceId, key_code: 36, pressed: true }, .. }));
}

#[test]
fn window_notifications_translate() {
    assert_eq!(window_event_for(false, WindowNotification::Zoomed { width: 3, height: 4 }),
        Some(WindowEvent::Resized { width: 3, height: 4 }));
    assert_eq!(window_event_for(true, WindowNotification::Zoomed { width: 3, height: 4 }), None);
    assert_eq!(window_event_for(true, WindowNotification::Resized { width: 3, height: 4 }),
        Some(WindowEvent::Resized { width: 3, height: 4 }));
    assert_eq!(window_event_for(false, WindowNotification::Moved { x: -1, y: 2 }),
        Some(WindowEvent::Moved { x: -1, y: 2 }));
    assert_eq!(window_event_for(false, WindowNotification::CloseRequested), Some(WindowEvent::CloseRequested));
    assert_eq!(window_event_for(false, WindowNotification::WillClose), Some(WindowEvent::Destroyed));
    assert_eq!(window_event_for(true, WindowNotification::Focused(false)), Some(WindowEvent::Focused(false)));
}

#[test]
fn validate_attributes_rejects_negative() {
    assert!(tao::validate_attributes(&attrs(1, 1, "x")).is_ok());
    assert!(matches!(tao::validate_attributes(&attrs(-800, 600, "x")), Err(OsError::CreationError(_))));
}

#[test]
fn lifecycle_transitions_table() {
    assert_eq!(tao::next_lifecycle(AppLifecycle::Active, AppNotification::WillTerminate), Some(AppLifecycle::Terminating));
    assert_eq!(tao::next_lifecycle(AppLifecycle::Inactive, AppNotification::WillTerminate), Some(AppLifecycle::Terminating));
    assert_eq!(tao::next_lifecycle(AppLifecycle::Launching, AppNotification::WillTerminate), None);
    assert_eq!(tao::next_lifecycle(AppLifecycle::Terminated, AppNotification::WillFinishLaunching), None);
}

#[test]
fn platform_attributes_are_kept() {
    let mut t = target();
    let p = PlatformSpecificWindowBuilderAttributes {
        movable_by_window_background: true,
        titlebar_transparent: false,
    };
    let w = Window::new(&mut t, attrs(10, 20, "kept"), p, Ok(NativeHandle(0x10))).unwrap();
    assert_eq!(w.platform_attributes().unwrap(), p);
    assert_eq!(w.title().unwrap(), "kept");
    let raw = Window::from_raw_handle(NativeHandle(0x10));
    assert!(matches!(raw.platform_attributes(), Err(OsError::Unsupported(_))));
}
