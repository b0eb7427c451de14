use vstd::prelude::*;

use crate::device::DeviceId;
use crate::window::WindowId;

verus! {

/// A window notification as the native window server delivers it to the
/// window's observer.
#[derive(Debug, Clone, Copy, PartialEq, Eq, Structural)]
pub enum WindowNotification {
    Resized { width: i64, height: i64 },
    Moved { x: i64, y: i64 },
    /// The frame changed because the window was zoomed or unzoomed. The
    /// native server also sends this while the zoom state is being queried.
    Zoomed { width: i64, height: i64 },
    CloseRequested,
    WillClose,
    Focused(bool),
    KeyboardInput { key_code: u16, pressed: bool },
    ModifiersChanged(u32),
}

/// An application lifecycle notification.
#[derive(Debug, Clone, Copy, PartialEq, Eq, Structural)]
pub enum AppNotification {
    WillFinishLaunching,
    DidFinishLaunching,
    DidBecomeActive,
    DidResignActive,
    WillTerminate,
}

/// What happened to a window, as the application sees it.
#[derive(Debug, Clone, Copy, PartialEq, Eq, Structural)]
pub enum WindowEvent {
    Resized { width: i64, height: i64 },
    Moved { x: i64, y: i64 },
    CloseRequested,
    Destroyed,
    Focused(bool),
    KeyboardInput { device_id: DeviceId, key_code: u16, pressed: bool },
    ModifiersChanged(u32),
}

/// An event handed to the application's handler.
#[derive(Debug)]
pub enum Event<T> {
    WindowEvent { window_id: WindowId, event: WindowEvent },
    UserEvent(T),
    /// The application finished launching.
    Resumed,
    /// The application is terminating; no event follows.
    LoopDestroyed,
}

/// The event a window notification becomes, given whether the window's
/// observer is in the middle of a zoom-state query. A zoom notification seen
/// during such a query is the query's own echo and becomes nothing.
pub open spec fn window_event_of(checking_zoom: bool, n: WindowNotification) -> Option<WindowEvent> {
    match n {
        WindowNotification::Resized { width, height } => Some(WindowEvent::Resized { width, height }),
        WindowNotification::Moved { x, y } => Some(WindowEvent::Moved { x, y }),
        WindowNotification::Zoomed { width, height } => if checking_zoom {
            None
        } else {
            Some(WindowEvent::Resized { width, height })
        },
        WindowNotification::CloseRequested => Some(WindowEvent::CloseRequested),
        WindowNotification::WillClose => Some(WindowEvent::Destroyed),
        WindowNotification::Focused(f) => Some(WindowEvent::Focused(f)),
        WindowNotification::KeyboardInput { key_code, pressed } => Some(
            WindowEvent::KeyboardInput { device_id: DeviceId, key_code, pressed },
        ),
        WindowNotification::ModifiersChanged(m) => Some(WindowEvent::ModifiersChanged(m)),
    }
}

/// Translates one window notification.
pub fn window_event_for(checking_zoom: bool, n: WindowNotification) -> (r: Option<WindowEvent>)
    ensures
        r == window_event_of(checking_zoom, n),
{
    match n {
        WindowNotification::Resized { width, height } => Some(WindowEvent::Resized { width, height }),
        WindowNotification::Moved { x, y } => Some(WindowEvent::Moved { x, y }),
        WindowNotification::Zoomed { width, height } => {
            if checking_zoom {
                None
            } else {
                Some(WindowEvent::Resized { width, height })
            }
        },
        WindowNotification::CloseRequested => Some(WindowEvent::CloseRequested),
        WindowNotification::WillClose => Some(WindowEvent::Destroyed),
        WindowNotification::Focused(f) => Some(WindowEvent::Focused(f)),
        WindowNotification::KeyboardInput { key_code, pressed } => Some(
            WindowEvent::KeyboardInput { device_id: DeviceId::dummy(), key_code, pressed },
        ),
        WindowNotification::ModifiersChanged(m) => Some(WindowEvent::ModifiersChanged(m)),
    }
}

} // verus!
