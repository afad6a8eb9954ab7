use vstd::prelude::*;

verus! {

/// The parent window that a host hands to the editor, one variant per platform.
/// Native pointers are carried as addresses.
#[derive(Clone, Copy, Debug, PartialEq, Eq, Structural)]
pub enum ParentWindowHandle {
    /// An X11 window id.
    X11Window(u32),
    /// The address of an AppKit `NSView`.
    AppKitNsView(usize),
    /// A Win32 `HWND`, as an address.
    Win32Hwnd(usize),
}

/// An XCB window, as the windowing library describes it.
#[derive(Clone, Copy, Debug, PartialEq, Eq, Structural)]
pub struct XcbWindowHandle {
    pub window: u32,
    pub visual_id: u32,
}

/// An AppKit window, as the windowing library describes it.
#[derive(Clone, Copy, Debug, PartialEq, Eq, Structural)]
pub struct AppKitWindowHandle {
    pub ns_window: usize,
    pub ns_view: usize,
}

/// A Win32 window, as the windowing library describes it.
#[derive(Clone, Copy, Debug, PartialEq, Eq, Structural)]
pub struct Win32WindowHandle {
    pub hwnd: usize,
    pub hinstance: usize,
}

/// The windowing library's own description of a parent window.
#[derive(Clone, Copy, Debug, PartialEq, Eq, Structural)]
pub enum RawWindowHandle {
    Xcb(XcbWindowHandle),
    AppKit(AppKitWindowHandle),
    Win32(Win32WindowHandle),
}

impl XcbWindowHandle {
    /// A handle with every field zero.
    pub fn empty() -> (r: XcbWindowHandle)
        ensures
            r == (XcbWindowHandle { window: 0, visual_id: 0 }),
    {
        XcbWindowHandle { window: 0, visual_id: 0 }
    }
}

impl AppKitWindowHandle {
    /// A handle with every field null.
    pub fn empty() -> (r: AppKitWindowHandle)
        ensures
            r == (AppKitWindowHandle { ns_window: 0, ns_view: 0 }),
    {
        AppKitWindowHandle { ns_window: 0, ns_view: 0 }
    }
}

impl Win32WindowHandle {
    /// A handle with every field null.
    pub fn empty() -> (r: Win32WindowHandle)
        ensures
            r == (Win32WindowHandle { hwnd: 0, hinstance: 0 }),
    {
        Win32WindowHandle { hwnd: 0, hinstance: 0 }
    }
}

/// The windowing library's handle for a host's parent window: the one platform
/// field is copied as it is and every other field is zero.
pub open spec fn translated(p: ParentWindowHandle) -> RawWindowHandle {
    match p {
        ParentWindowHandle::X11Window(window) => RawWindowHandle::Xcb(
            XcbWindowHandle { window, visual_id: 0 },
        ),
        ParentWindowHandle::AppKitNsView(ns_view) => RawWindowHandle::AppKit(
            AppKitWindowHandle { ns_window: 0, ns_view },
        ),
        ParentWindowHandle::Win32Hwnd(hwnd) => RawWindowHandle::Win32(
            Win32WindowHandle { hwnd, hinstance: 0 },
        ),
    }
}

/// Presents a host's parent window in the shape that the windowing library expects.
#[derive(Clone, Copy, Debug)]
pub struct ParentWindowHandleAdapter(pub ParentWindowHandle);

impl ParentWindowHandleAdapter {
    pub fn raw_window_handle(&self) -> (r: RawWindowHandle)
        ensures
            r == translated(self.0),
    {
        match self.0 {
            ParentWindowHandle::X11Window(window) => {
                let mut handle = XcbWindowHandle::empty();
                handle.window = window;
                RawWindowHandle::Xcb(handle)
            },
            ParentWindowHandle::AppKitNsView(ns_view) => {
                let mut handle = AppKitWindowHandle::empty();
                handle.ns_view = ns_view;
                RawWindowHandle::AppKit(handle)
            },
            ParentWindowHandle::Win32Hwnd(hwnd) => {
                let mut handle = Win32WindowHandle::empty();
                handle.hwnd = hwnd;
                RawWindowHandle::Win32(handle)
            },
        }
    }
}

/// Translation keeps the platform and is injective: two parent windows of the
/// same platform give handles of that platform that agree on every field but the
/// copied one, and differ there exactly when the parents differ.
pub proof fn lemma_translation_injective(a: ParentWindowHandle, b: ParentWindowHandle)
    ensures
        a != b ==> translated(a) != translated(b),
        a is X11Window && b is X11Window ==> {
            &&& translated(a) matches RawWindowHandle::Xcb(ha)
            &&& translated(b) matches RawWindowHandle::Xcb(hb)
            &&& ha.visual_id == 0 && hb.visual_id == 0
            &&& (ha.window == hb.window <==> a == b)
        },
        a is AppKitNsView && b is AppKitNsView ==> {
            &&& translated(a) matches RawWindowHandle::AppKit(ha)
            &&& translated(b) matches RawWindowHandle::AppKit(hb)
            &&& ha.ns_window == 0 && hb.ns_window == 0
            &&& (ha.ns_view == hb.ns_view <==> a == b)
        },
        a is Win32Hwnd && b is Win32Hwnd ==> {
            &&& translated(a) matches RawWindowHandle::Win32(ha)
            &&& translated(b) matches RawWindowHandle::Win32(hb)
            &&& ha.hinstance == 0 && hb.hinstance == 0
            &&& (ha.hwnd == hb.hwnd <==> a == b)
        },
{
}

} // verus!
