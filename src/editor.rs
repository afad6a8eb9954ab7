use vstd::prelude::*;

use crate::handle::{translated, ParentWindowHandle, ParentWindowHandleAdapter, RawWindowHandle};
use crate::state::{BaseviewState, StateView};

verus! {

/// The bit pattern of the scale factor 1.0 as an IEEE-754 single.
pub const UNIT_SCALE_BITS: u32 = 0x3f80_0000;

/// How the window is to be scaled. A scale factor is carried as the bit pattern
/// of the `f32` that the host reported; the editor never computes with it.
#[derive(Clone, Copy, Debug, PartialEq, Eq, Structural)]
pub enum WindowScalePolicy {
    /// Use the factor the host gave.
    ScaleFactor(u32),
    /// Let the windowing library ask the system.
    SystemScaleFactor,
}

/// The rendering surface that every editor window is created with.
#[derive(Clone, Copy, Debug)]
pub struct GlConfig {
    pub version: (u8, u8),
    pub red_bits: u8,
    pub blue_bits: u8,
    pub green_bits: u8,
    pub alpha_bits: u8,
    pub depth_bits: u8,
    pub stencil_bits: u8,
    pub samples: Option<u8>,
    pub srgb: bool,
    pub double_buffer: bool,
    pub vsync: bool,
}

/// Everything the windowing library needs to open an editor window.
#[derive(Debug)]
pub struct WindowOpenOptions {
    pub parent: RawWindowHandle,
    pub title: String,
    /// Logical size, before scaling.
    pub size: (u32, u32),
    pub scale: WindowScalePolicy,
    pub gl_config: Option<GlConfig>,
}

/// OpenGL 3.2, RGBA with 8 bits each, 24 bit depth, 8 bit stencil, no
/// multisampling, sRGB, double buffered, vsync on.
pub open spec fn fixed_gl_config() -> GlConfig {
    GlConfig {
        version: (3, 2),
        red_bits: 8,
        blue_bits: 8,
        green_bits: 8,
        alpha_bits: 8,
        depth_bits: 24,
        stencil_bits: 8,
        samples: None,
        srgb: true,
        double_buffer: true,
        vsync: true,
    }
}

/// A fixed factor where one was set, else the system's.
pub open spec fn scale_policy_of(scaling_factor: Option<u32>) -> WindowScalePolicy {
    match scaling_factor {
        Some(bits) => WindowScalePolicy::ScaleFactor(bits),
        None => WindowScalePolicy::SystemScaleFactor,
    }
}

/// The host-facing side of an editor: its shared state and the scale factor
/// that the host reported, if any.
#[derive(Clone, Copy, Debug)]
pub struct BaseviewEditor {
    baseview_state: BaseviewState,
    scaling_factor: Option<u32>,
}

/// The abstract value of a [`BaseviewEditor`].
pub struct EditorView {
    pub state: StateView,
    pub scaling_factor: Option<u32>,
}

impl View for BaseviewEditor {
    type V = EditorView;

    closed spec fn view(&self) -> EditorView {
        EditorView { state: self.baseview_state@, scaling_factor: self.scaling_factor }
    }
}

/// Create an editor over `baseview_state`. Where the system reports its own
/// scaling (`system_scaling`), no factor is set and the system's is used;
/// elsewhere the factor starts at 1.0.
pub fn create_baseview_editor(baseview_state: BaseviewState, system_scaling: bool) -> (r:
    BaseviewEditor)
    ensures
        r@.state == baseview_state@,
        r@.scaling_factor == (if system_scaling {
            None::<u32>
        } else {
            Some(UNIT_SCALE_BITS)
        }),
{
    let scaling_factor = if system_scaling {
        None
    } else {
        Some(UNIT_SCALE_BITS)
    };
    BaseviewEditor { baseview_state, scaling_factor }
}

fn gl_config() -> (r: GlConfig)
    ensures
        r == fixed_gl_config(),
{
    GlConfig {
        version: (3, 2),
        red_bits: 8,
        blue_bits: 8,
        green_bits: 8,
        alpha_bits: 8,
        depth_bits: 24,
        stencil_bits: 8,
        samples: None,
        srgb: true,
        double_buffer: true,
        vsync: true,
    }
}

impl BaseviewEditor {
    /// An editor from a state and a scale factor given as the bits of an `f32`.
    pub fn from_parts(baseview_state: BaseviewState, scaling_factor: Option<u32>) -> (r:
        BaseviewEditor)
        ensures
            r@.state == baseview_state@,
            r@.scaling_factor == scaling_factor,
    {
        BaseviewEditor { baseview_state, scaling_factor }
    }

    /// The editor's shared state.
    pub fn state(&self) -> (r: &BaseviewState)
        ensures
            r@ == self@.state,
    {
        &self.baseview_state
    }

    /// The editor's size in logical pixels, whether or not it is open.
    pub fn size(&self) -> (r: (u32, u32))
        ensures
            r == self@.state.size,
    {
        self.baseview_state.size()
    }

    /// Whether the editor's window is open.
    pub fn is_open(&self) -> (r: bool)
        ensures
            r == self@.state.open,
    {
        self.baseview_state.is_open()
    }

    /// The scale factor the host reported, if any, as the bits of an `f32`.
    pub fn scaling_factor(&self) -> (r: Option<u32>)
        ensures
            r == self@.scaling_factor,
    {
        self.scaling_factor
    }

    /// Store a scale factor given as the bits of an `f32`. Refused, with nothing
    /// changed, while the window is open.
    pub fn set_scale_factor(&mut self, factor: u32) -> (r: bool)
        ensures
            r == !old(self)@.state.open,
            final(self)@.state == old(self)@.state,
            final(self)@.scaling_factor == (if r {
                Some(factor)
            } else {
                old(self)@.scaling_factor
            }),
    {
        if self.baseview_state.is_open() {
            return false;
        }
        self.scaling_factor = Some(factor);
        true
    }

    /// The scale policy a window opened now would use.
    pub fn scale_policy(&self) -> (r: WindowScalePolicy)
        ensures
            r == scale_policy_of(self@.scaling_factor),
    {
        match self.scaling_factor {
            Some(bits) => WindowScalePolicy::ScaleFactor(bits),
            None => WindowScalePolicy::SystemScaleFactor,
        }
    }

    /// How to open the editor's window inside `parent`: the translated parent
    /// handle, the current size, the scale policy and the fixed surface.
    pub fn window_open_options(&self, parent: ParentWindowHandle) -> (r: WindowOpenOptions)
        ensures
            r.parent == translated(parent),
            r.title@ == "baseview window"@,
            r.size == self@.state.size,
            r.scale == scale_policy_of(self@.scaling_factor),
            r.gl_config == Some(fixed_gl_config()),
    {
        let (unscaled_width, unscaled_height) = self.baseview_state.size();
        WindowOpenOptions {
            parent: ParentWindowHandleAdapter(parent).raw_window_handle(),
            title: "baseview window".to_owned(),
            size: (unscaled_width, unscaled_height),
            scale: self.scale_policy(),
            gl_config: Some(gl_config()),
        }
    }

    /// Record that the window has been created. At most one window is open at a
    /// time.
    pub fn spawned(&mut self)
        requires
            !old(self)@.state.open,
        ensures
            final(self)@.state == old(self)@.state.opened(),
            final(self)@.scaling_factor == old(self)@.scaling_factor,
    {
        self.baseview_state.mark_open();
    }

    /// Record that the window's handle has been disposed of; the close request
    /// follows.
    pub fn disposed(&mut self)
        ensures
            final(self)@.state == old(self)@.state.closed(),
            final(self)@.scaling_factor == old(self)@.scaling_factor,
    {
        self.baseview_state.mark_closed();
    }

    /// A parameter's value changed: the window redraws on its own.
    pub fn param_value_changed(&self, _id: &str, _normalized_value_bits: u32) {
    }

    /// A parameter's modulation changed: the window redraws on its own.
    pub fn param_modulation_changed(&self, _id: &str, _modulation_offset_bits: u32) {
    }

    /// Several parameters changed: the window redraws on its own.
    pub fn param_values_changed(&self) {
    }
}

} // verus!
