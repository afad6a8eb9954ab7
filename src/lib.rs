pub mod editor;
pub mod handle;
pub mod state;

pub use editor::{
    create_baseview_editor, BaseviewEditor, EditorView, GlConfig, WindowOpenOptions,
    WindowScalePolicy, UNIT_SCALE_BITS,
};
pub use handle::{
    AppKitWindowHandle, ParentWindowHandle, ParentWindowHandleAdapter, RawWindowHandle,
    Win32WindowHandle, XcbWindowHandle,
};
pub use state::{BaseviewState, PersistedState, StateView};
