use std::sync::Arc;

use vstd::prelude::*;

use crate::error::{CGError, OsError};
use crate::event_loop::EventLoopWindowTarget;

verus! {

/// Identifier of a window created by this backend.
#[derive(Debug, Clone, Copy, PartialEq, Eq, Structural, Hash)]
pub struct WindowId(pub u64);

/// Address of a native window object, as it crosses the host boundary.
#[derive(Debug, Clone, Copy, PartialEq, Eq, Structural)]
pub struct NativeHandle(pub usize);

/// What the application asks of a new window.
#[derive(Debug)]
pub struct WindowAttributes {
    pub width: i64,
    pub height: i64,
    pub title: String,
    pub visible: bool,
}

/// Settings of a new window that only this platform knows.
#[derive(Debug, Clone, Copy, PartialEq, Eq, Structural)]
pub struct PlatformSpecificWindowBuilderAttributes {
    pub movable_by_window_background: bool,
    pub titlebar_transparent: bool,
}

/// Whether a window of the given size can be created.
pub open spec fn size_valid(width: i64, height: i64) -> bool {
    width >= 0 && height >= 0
}

/// A window as this backend sees it.
pub enum WindowModel {
    /// Created by this backend, with its observer.
    Owned {
        id: WindowId,
        ns_window: usize,
        width: i64,
        height: i64,
        title: Seq<char>,
        pl_attribs: PlatformSpecificWindowBuilderAttributes,
        checking_zoom: bool,
    },
    /// Supplied by the host: only its address is known.
    Raw { handle: usize },
}

impl WindowModel {
    /// The address of the native window object.
    pub open spec fn native_pointer(self) -> usize {
        match self {
            WindowModel::Owned { ns_window, .. } => ns_window,
            WindowModel::Raw { handle } => handle,
        }
    }

    /// Whether a zoom-state query is in progress; never for a host window.
    pub open spec fn checking_zoom(self) -> bool {
        match self {
            WindowModel::Owned { checking_zoom, .. } => checking_zoom,
            WindowModel::Raw { .. } => false,
        }
    }

    /// The same window with the zoom-query flag set to `b`; a host window
    /// has no flag.
    pub open spec fn with_checking_zoom(self, b: bool) -> WindowModel {
        match self {
            WindowModel::Owned { id, ns_window, width, height, title, pl_attribs, .. } =>
                WindowModel::Owned {
                id,
                ns_window,
                width,
                height,
                title,
                pl_attribs,
                checking_zoom: b,
            },
            WindowModel::Raw { handle } => WindowModel::Raw { handle },
        }
    }
}

/// The native window object together with what this backend tracks of it.
pub struct UnownedWindow {
    id: WindowId,
    ns_window: NativeHandle,
    width: i64,
    height: i64,
    title: String,
    pl_attribs: PlatformSpecificWindowBuilderAttributes,
}

/// The callback target the native window reports to. It carries the flag
/// that marks a zoom-state query in progress.
pub struct WindowObserver {
    checking_zoom: bool,
}

struct OwnedWindow {
    window: Arc<UnownedWindow>,
    // Declared after `window`, so it is dropped after it: the native window
    // never outlives its callback target.
    delegate: WindowObserver,
}

enum WindowItem {
    Raw(NativeHandle),
    Unowned(OwnedWindow),
}

/// A window: one this backend created, or one the host supplied.
pub struct Window {
    item: WindowItem,
}

impl View for Window {
    type V = WindowModel;

    closed spec fn view(&self) -> WindowModel {
        match self.item {
            WindowItem::Raw(h) => WindowModel::Raw { handle: h.0 },
            WindowItem::Unowned(w) => WindowModel::Owned {
                id: w.window.id,
                ns_window: w.window.ns_window.0,
                width: w.window.width,
                height: w.window.height,
                title: w.window.title@,
                pl_attribs: w.window.pl_attribs,
                checking_zoom: w.delegate.checking_zoom,
            },
        }
    }
}

const RAW_UNSUPPORTED: &'static str = "operation needs a window created by this backend";

/// Checks a window's attributes before anything native is created.
pub fn validate_attributes(attributes: &WindowAttributes) -> (r: Result<(), OsError>)
    ensures
        r is Ok <==> size_valid(attributes.width, attributes.height),
        r is Err ==> r->Err_0 is CreationError,
{
    if attributes.width < 0 || attributes.height < 0 {
        Err(OsError::CreationError("window dimensions must not be negative"))
    } else {
        Ok(())
    }
}

impl Window {
    /// Creates a window from the result of creating its native object, and
    /// registers it with the loop. Nothing is registered on failure.
    pub fn new<T>(
        window_target: &mut EventLoopWindowTarget<T>,
        attributes: WindowAttributes,
        pl_attribs: PlatformSpecificWindowBuilderAttributes,
        native: Result<NativeHandle, CGError>,
    ) -> (r: Result<Window, OsError>)
        requires
            old(window_target).wf(),
        ensures
            final(window_target).wf(),
            r is Ok <==> {
                &&& size_valid(attributes.width, attributes.height)
                &&& old(window_target)@.next_id < u64::MAX
                &&& native is Ok
                &&& native->Ok_0.0 != 0
            },
            !size_valid(attributes.width, attributes.height) ==> r is Err && r->Err_0 is CreationError,
            size_valid(attributes.width, attributes.height) && native is Err ==> r == Err::<
                Window,
                OsError,
            >(OsError::CGError(native->Err_0)),
            r is Err ==> final(window_target)@ == old(window_target)@,
            r is Ok ==> {
                &&& r->Ok_0@ == (WindowModel::Owned {
                    id: WindowId(old(window_target)@.next_id),
                    ns_window: native->Ok_0.0,
                    width: attributes.width,
                    height: attributes.height,
                    title: attributes.title@,
                    pl_attribs,
                    checking_zoom: false,
                })
                &&& !old(window_target)@.registered.contains(old(window_target)@.next_id)
                &&& final(window_target)@ == old(window_target)@.with_window()
            },
    {
        match validate_attributes(&attributes) {
            Err(e) => return Err(e),
            Ok(()) => {},
        }
        let handle = match native {
            Err(code) => return Err(OsError::CGError(code)),
            Ok(h) => h,
        };
        if handle.0 == 0 {
            return Err(OsError::CreationError("native window creation returned no window"));
        }
        let id = match window_target.register_window() {
            None => return Err(OsError::CreationError("window identifiers are exhausted")),
            Some(id) => id,
        };
        let window = UnownedWindow {
            id,
            ns_window: handle,
            width: attributes.width,
            height: attributes.height,
            title: attributes.title,
            pl_attribs,
        };
        let delegate = WindowObserver { checking_zoom: false };
        Ok(Window { item: WindowItem::Unowned(OwnedWindow { window: Arc::new(window), delegate }) })
    }

    /// Wraps a native window supplied by the host. No observer is attached
    /// and nothing is registered.
    pub fn from_raw_handle(raw_window_handle: NativeHandle) -> (r: Self)
        ensures
            r@ == (WindowModel::Raw { handle: raw_window_handle.0 }),
    {
        Window { item: WindowItem::Raw(raw_window_handle) }
    }

    /// The address of the native window object, for either kind of window.
    pub fn ns_window(&self) -> (r: usize)
        ensures
            r == self@.native_pointer(),
    {
        match &self.item {
            WindowItem::Unowned(win) => win.window.ns_window.0,
            WindowItem::Raw(handle) => handle.0,
        }
    }

    /// The identifier and the zoom-query flag of the window's observer;
    /// `None` for a host window, which has no observer.
    pub fn observer_state(&self) -> (r: Option<(WindowId, bool)>)
        ensures
            self@ is Raw ==> r is None,
            self@ is Owned ==> r == Some((self@->id, self@->checking_zoom)),
    {
        match &self.item {
            WindowItem::Unowned(win) => Some((win.window.id, win.delegate.checking_zoom)),
            WindowItem::Raw(_) => None,
        }
    }

    /// Marks the start of a zoom-state query: until `is_maximized` returns,
    /// zoom notifications for this window are taken as the query's echo.
    pub fn mark_is_checking_zoomed_in(&mut self) -> (r: Result<(), OsError>)
        ensures
            old(self)@ is Raw ==> r is Err && r->Err_0 is Unsupported && final(self)@ == old(self)@,
            old(self)@ is Owned ==> r is Ok && final(self)@ == old(self)@.with_checking_zoom(true),
    {
        match &mut self.item {
            WindowItem::Unowned(win) => {
                win.delegate.checking_zoom = true;
                Ok(())
            },
            WindowItem::Raw(_) => Err(OsError::Unsupported(RAW_UNSUPPORTED)),
        }
    }

    /// Ends a zoom-state query with the native answer `zoomed` and returns
    /// it. The query flag is clear afterwards on every path, also when the
    /// native query failed.
    pub fn is_maximized(&mut self, zoomed: Result<bool, CGError>) -> (r: Result<bool, OsError>)
        ensures
            !final(self)@.checking_zoom(),
            old(self)@ is Raw ==> r is Err && r->Err_0 is Unsupported && final(self)@ == old(self)@,
            old(self)@ is Owned ==> {
                &&& final(self)@ == old(self)@.with_checking_zoom(false)
                &&& zoomed is Ok ==> r == Ok::<bool, OsError>(zoomed->Ok_0)
                &&& zoomed is Err ==> r == Err::<bool, OsError>(OsError::CGError(zoomed->Err_0))
            },
    {
        match &mut self.item {
            WindowItem::Unowned(win) => {
                win.delegate.checking_zoom = false;
                match zoomed {
                    Ok(z) => Ok(z),
                    Err(code) => Err(OsError::CGError(code)),
                }
            },
            WindowItem::Raw(_) => Err(OsError::Unsupported(RAW_UNSUPPORTED)),
        }
    }

    /// The window's identifier; a host window has none.
    pub fn id(&self) -> (r: Result<WindowId, OsError>)
        ensures
            self@ is Raw ==> r is Err && r->Err_0 is Unsupported,
            self@ is Owned ==> r == Ok::<WindowId, OsError>(self@->id),
    {
        match &self.item {
            WindowItem::Unowned(win) => Ok(win.window.id),
            WindowItem::Raw(_) => Err(OsError::Unsupported(RAW_UNSUPPORTED)),
        }
    }

    /// The window's width and height; unknown for a host window.
    pub fn inner_size(&self) -> (r: Result<(i64, i64), OsError>)
        ensures
            self@ is Raw ==> r is Err && r->Err_0 is Unsupported,
            self@ is Owned ==> r == Ok::<(i64, i64), OsError>((self@->width, self@->height)),
    {
        match &self.item {
            WindowItem::Unowned(win) => Ok((win.window.width, win.window.height)),
            WindowItem::Raw(_) => Err(OsError::Unsupported(RAW_UNSUPPORTED)),
        }
    }

    /// The window's title; unknown for a host window.
    pub fn title(&self) -> (r: Result<String, OsError>)
        ensures
            self@ is Raw ==> r is Err && r->Err_0 is Unsupported,
            self@ is Owned ==> r is Ok && r->Ok_0@ == self@->title,
    {
        match &self.item {
            WindowItem::Unowned(win) => Ok(win.window.title.clone()),
            WindowItem::Raw(_) => Err(OsError::Unsupported(RAW_UNSUPPORTED)),
        }
    }

    /// The platform settings the window was created with; none for a host
    /// window.
    pub fn platform_attributes(&self) -> (r: Result<PlatformSpecificWindowBuilderAttributes, OsError>)
        ensures
            self@ is Raw ==> r is Err && r->Err_0 is Unsupported,
            self@ is Owned ==> r == Ok::<PlatformSpecificWindowBuilderAttributes, OsError>(
                self@->pl_attribs,
            ),
    {
        match &self.item {
            WindowItem::Unowned(win) => Ok(win.window.pl_attribs),
            WindowItem::Raw(_) => Err(OsError::Unsupported(RAW_UNSUPPORTED)),
        }
    }

    /// Whether a zoom-state query is in progress on this window.
    pub fn is_checking_zoomed_in(&self) -> (r: bool)
        ensures
            r == self@.checking_zoom(),
    {
        match &self.item {
            WindowItem::Unowned(win) => win.delegate.checking_zoom,
            WindowItem::Raw(_) => false,
        }
    }
}

/// Wrapping a host pointer and reading it back gives the same pointer.
pub proof fn lemma_raw_round_trip(raw_window_handle: NativeHandle)
    ensures
        (WindowModel::Raw { handle: raw_window_handle.0 }).native_pointer() == raw_window_handle.0,
        !(WindowModel::Raw { handle: raw_window_handle.0 }).checking_zoom(),
{
}

} // verus!
