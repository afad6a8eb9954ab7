use baseview_editor::{
    create_baseview_editor, AppKitWindowHandle, BaseviewState, ParentWindowHandle,
    ParentWindowHandleAdapter, RawWindowHandle, Win32WindowHandle, WindowScalePolicy,
    XcbWindowHandle, UNIT_SCALE_BITS,
};

#[test]
fn size_after_construction() {
    for &(w, h) in &[(0u32, 0u32), (400, 300), (u32::MAX, 1), (1, u32::MAX)] {
        let state = BaseviewState::from_size(w, h);
        assert_eq!(state.size(), (w, h));
        assert!(!state.is_open());
    }
}

#[test]
fn open_after_spawn_for_every_platform() {
    let parents = [
        ParentWindowHandle::X11Window(7),
        ParentWindowHandle::AppKitNsView(0x1000),
        ParentWindowHandle::Win32Hwnd(0x2000),
    ];
    for parent in parents {
        let mut editor = create_baseview_editor(BaseviewState::from_size(640, 480), false);
        assert!(!editor.is_open());
        let options = editor.window_open_options(parent);
        assert_eq!(options.parent, ParentWindowHandleAdapter(parent).raw_window_handle());
        editor.spawned();
        assert!(editor.is_open());
        assert!(editor.state().is_open());
    }
}

#[test]
fn open_close_is_repeatable() {
    let mut editor = create_baseview_editor(BaseviewState::from_size(200, 100), true);
    for _ in 0..3 {
        editor.spawned();
        assert!(editor.is_open());
        editor.disposed();
        assert!(!editor.is_open());
        assert_eq!(editor.size(), (200, 100));
    }
}

#[test]
fn scale_factor_only_while_closed() {
    let mut editor = create_baseview_editor(BaseviewState::from_size(10, 10), false);
    assert_eq!(editor.scaling_factor(), Some(1.0f32.to_bits()));
    assert!(editor.set_scale_factor(1.5f32.to_bits()));
    assert_eq!(editor.scaling_factor(), Some(1.5f32.to_bits()));
    editor.spawned();
    assert!(!editor.set_scale_factor(3.0f32.to_bits()));
    assert_eq!(editor.scaling_factor(), Some(1.5f32.to_bits()));
    editor.disposed();
    assert!(editor.set_scale_factor(3.0f32.to_bits()));
    assert_eq!(editor.scaling_factor(), Some(3.0f32.to_bits()));
}

#[test]
fn initial_scale_policy() {
    let system = create_baseview_editor(BaseviewState::from_size(1, 1), true);
    assert_eq!(system.scaling_factor(), None);
    assert_eq!(system.scale_policy(), WindowScalePolicy::SystemScaleFactor);
    let fixed = create_baseview_editor(BaseviewState::from_size(1, 1), false);
    assert_eq!(UNIT_SCALE_BITS, 1.0f32.to_bits());
    assert_eq!(fixed.scale_policy(), WindowScalePolicy::ScaleFactor(1.0f32.to_bits()));
}

#[test]
fn translation_copies_the_platform_field() {
    let x = ParentWindowHandleAdapter(ParentWindowHandle::X11Window(0xabc)).raw_window_handle();
    assert_eq!(x, RawWindowHandle::Xcb(XcbWindowHandle { window: 0xabc, visual_id: 0 }));
    let a = ParentWindowHandleAdapter(ParentWindowHandle::AppKitNsView(0xdead0)).raw_window_handle();
    assert_eq!(a, RawWindowHandle::AppKit(AppKitWindowHandle { ns_window: 0, ns_view: 0xdead0 }));
    let w = ParentWindowHandleAdapter(ParentWindowHandle::Win32Hwnd(0xbeef0)).raw_window_handle();
    assert_eq!(w, RawWindowHandle::Win32(Win32WindowHandle { hwnd: 0xbeef0, hinstance: 0 }));
}

#[test]
fn translation_is_injective() {
    let a = ParentWindowHandleAdapter(ParentWindowHandle::X11Window(1)).raw_window_handle();
    let b = ParentWindowHandleAdapter(ParentWindowHandle::X11Window(2)).raw_window_handle();
    assert_ne!(a, b);
    let c = ParentWindowHandleAdapter(ParentWindowHandle::Win32Hwnd(1)).raw_window_handle();
    let d = ParentWindowHandleAdapter(ParentWindowHandle::Win32Hwnd(2)).raw_window_handle();
    assert_ne!(c, d);
    let e = ParentWindowHandleAdapter(ParentWindowHandle::AppKitNsView(1)).raw_window_handle();
    assert_ne!(c, e);
}

#[test]
fn empty_handles_are_zero() {
    assert_eq!(XcbWindowHandle::empty(), XcbWindowHandle { window: 0, visual_id: 0 });
    assert_eq!(AppKitWindowHandle::empty(), AppKitWindowHandle { ns_window: 0, ns_view: 0 });
    assert_eq!(Win32WindowHandle::empty(), Win32WindowHandle { hwnd: 0, hinstance: 0 });
}

#[test]
fn open_options_are_fixed() {
    let editor = create_baseview_editor(BaseviewState::from_size(400, 300), false);
    let options = editor.window_open_options(ParentWindowHandle::X11Window(5));
    assert_eq!(options.title, "baseview window");
    assert_eq!(options.size, (400, 300));
    let gl = options.gl_config.unwrap();
    assert_eq!(gl.version, (3, 2));
    assert_eq!((gl.red_bits, gl.green_bits, gl.blue_bits, gl.alpha_bits), (8, 8, 8, 8));
    assert_eq!(gl.depth_bits, 24);
    assert_eq!(gl.stencil_bits, 8);
    assert_eq!(gl.samples, None);
    assert!(gl.srgb && gl.double_buffer && gl.vsync);
}

#[test]
fn persist_round_trip() {
    let mut live = BaseviewState::from_size(800, 600);
    live.mark_open();
    let saved = live.persisted();
    assert_eq!(saved.size, (800, 600));
    let restored = BaseviewState::from_persisted(saved);
    assert_eq!(restored.size(), (800, 600));
    assert!(!restored.is_open());
}

#[test]
fn set_takes_only_the_size() {
    let mut live = BaseviewState::from_size(10, 20);
    live.mark_open();
    live.set(BaseviewState::from_size(30, 40));
    assert_eq!(live.size(), (30, 40));
    assert!(live.is_open());
    live.mark_closed();
    assert!(!live.is_open());
}

#[test]
fn x11_scenario() {
    let mut editor = create_baseview_editor(BaseviewState::from_size(400, 300), false);
    let options = editor.window_open_options(ParentWindowHandle::X11Window(0x1234));
    match options.parent {
        RawWindowHandle::Xcb(handle) => assert_eq!(handle.window, 0x1234),
        other => panic!("unexpected handle {:?}", other),
    }
    editor.spawned();
    assert!(editor.is_open());
    editor.disposed();
    assert!(!editor.is_open());
    assert!(editor.set_scale_factor(2.0f32.to_bits()));
    let again = editor.window_open_options(ParentWindowHandle::X11Window(0x1234));
    assert_eq!(again.scale, WindowScalePolicy::ScaleFactor(2.0f32.to_bits()));
    editor.spawned();
    assert!(editor.is_open());
}

#[test]
fn param_notifications_change_nothing() {
    let editor = create_baseview_editor(BaseviewState::from_size(3, 4), false);
    editor.param_value_changed("gain", 0.5f32.to_bits());
    editor.param_modulation_changed("gain", 0.1f32.to_bits());
    editor.param_values_changed();
    assert_eq!(editor.size(), (3, 4));
    assert!(!editor.is_open());
}
