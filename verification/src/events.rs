use vstd::prelude::*;

verus! {

/// Bit of a modifier set that marks the Shift key.
pub const SHIFT_MASK: u8 = 1;

/// Bit of a modifier set that marks the Ctrl key.
pub const CTRL_MASK: u8 = 2;

/// Bit of a modifier set that marks the Alt key.
pub const ALT_MASK: u8 = 4;

/// Bit of a modifier set that marks the Logo key.
pub const LOGO_MASK: u8 = 8;

/// A set over the four keyboard modifiers, packed into the low four bits of a
/// byte. A plain value with no identity: only equality and bit tests.
#[derive(Clone, Copy, Debug, PartialEq, Eq, Structural)]
pub struct Modifiers(pub u8);

impl Modifiers {
    /// The Shift bit of this set.
    pub open spec fn spec_shift(self) -> bool {
        self.0 & SHIFT_MASK != 0
    }

    /// The Ctrl bit of this set.
    pub open spec fn spec_ctrl(self) -> bool {
        self.0 & CTRL_MASK != 0
    }

    /// The Alt bit of this set.
    pub open spec fn spec_alt(self) -> bool {
        self.0 & ALT_MASK != 0
    }

    /// The Logo bit of this set.
    pub open spec fn spec_logo(self) -> bool {
        self.0 & LOGO_MASK != 0
    }

    /// True exactly when the Shift bit is set.
    pub fn shift(&self) -> (r: bool)
        ensures
            r == self.spec_shift(),
    {
        self.0 & SHIFT_MASK != 0
    }

    /// True exactly when the Ctrl bit is set.
    pub fn ctrl(&self) -> (r: bool)
        ensures
            r == self.spec_ctrl(),
    {
        self.0 & CTRL_MASK != 0
    }

    /// True exactly when the Alt bit is set.
    pub fn alt(&self) -> (r: bool)
        ensures
            r == self.spec_alt(),
    {
        self.0 & ALT_MASK != 0
    }

    /// True exactly when the Logo bit is set.
    pub fn logo(&self) -> (r: bool)
        ensures
            r == self.spec_logo(),
    {
        self.0 & LOGO_MASK != 0
    }
}

/// Each modifier accessor depends only on its own bit: two modifier sets that
/// agree on a bit agree on that accessor, whatever the other bits hold.
pub proof fn lemma_modifier_bits_independent(a: Modifiers, b: Modifiers)
    ensures
        a.0 & SHIFT_MASK == b.0 & SHIFT_MASK ==> a.spec_shift() == b.spec_shift(),
        a.0 & CTRL_MASK == b.0 & CTRL_MASK ==> a.spec_ctrl() == b.spec_ctrl(),
        a.0 & ALT_MASK == b.0 & ALT_MASK ==> a.spec_alt() == b.spec_alt(),
        a.0 & LOGO_MASK == b.0 & LOGO_MASK ==> a.spec_logo() == b.spec_logo(),
{
}

/// Whether the window gained or lost keyboard focus.
#[derive(Clone, Copy, Debug, PartialEq, Eq, Structural)]
pub enum FocusStatus {
    Lost,
    Gained,
}

/// A mouse event, with client-area coordinates.
#[derive(Clone, Copy, Debug, PartialEq, Eq, Structural)]
pub enum MouseEvent {
    MouseMoved { x: i32, y: i32 },
    LeftButtonDown { x: i32, y: i32 },
    LeftButtonUp { x: i32, y: i32 },
    RightButtonDown { x: i32, y: i32 },
    RightButtonUp { x: i32, y: i32 },
    Scroll { delta_x: i32, delta_y: i32 },
}

/// A keyboard event, carrying the raw key code and the modifier set.
#[derive(Clone, Copy, Debug, PartialEq, Eq, Structural)]
pub enum KeyEvent {
    KeyDown { keycode: u32, modifiers: Modifiers },
    KeyUp { keycode: u32, modifiers: Modifiers },
}

/// An input event: mouse or keyboard.
#[derive(Clone, Copy, Debug, PartialEq, Eq, Structural)]
pub enum InputEvent {
    MouseEvent(MouseEvent),
    KeyEvent(KeyEvent),
}

/// The full-fidelity event union delivered by the poll.
#[derive(Clone, Copy, Debug, PartialEq, Eq, Structural)]
pub enum WindowEvent {
    Close,
    Resize { w: u32, h: u32 },
    RequestRedraw,
    FocusChange(FocusStatus),
    Input(InputEvent),
}

/// The ergonomic projection of `WindowEvent`: the most essential events are
/// promoted to top-level variants, everything else is carried losslessly in
/// `Other`.
#[derive(Clone, Copy, Debug, PartialEq, Eq, Structural)]
pub enum FlatEvent {
    Close,
    RedrawRequested,
    Resize { w: u32, h: u32 },
    LeftMouseButtonDown { x: i32, y: i32 },
    LeftMouseButtonUp { x: i32, y: i32 },
    RightMouseButtonDown { x: i32, y: i32 },
    RightMouseButtonUp { x: i32, y: i32 },
    MouseMoved { x: i32, y: i32 },
    MouseWheel { delta_x: i32, delta_y: i32 },
    KeyDown { code: u32, modifiers: Modifiers },
    KeyUp { code: u32, modifiers: Modifiers },
    Other(WindowEvent),
}

/// The total projection from the full-fidelity union to the flat model. Every
/// variant has exactly one image; focus changes are the one case kept in the
/// lossless escape variant.
pub open spec fn spec_flatten(value: WindowEvent) -> FlatEvent {
    match value {
        WindowEvent::Close => FlatEvent::Close,
        WindowEvent::RequestRedraw => FlatEvent::RedrawRequested,
        WindowEvent::Resize { w, h } => FlatEvent::Resize { w, h },
        WindowEvent::FocusChange(_) => FlatEvent::Other(value),
        WindowEvent::Input(input_event) => match input_event {
            InputEvent::MouseEvent(mouse_event) => match mouse_event {
                MouseEvent::MouseMoved { x, y } => FlatEvent::MouseMoved { x, y },
                MouseEvent::LeftButtonDown { x, y } => FlatEvent::LeftMouseButtonDown { x, y },
                MouseEvent::LeftButtonUp { x, y } => FlatEvent::LeftMouseButtonUp { x, y },
                MouseEvent::RightButtonDown { x, y } => FlatEvent::RightMouseButtonDown { x, y },
                MouseEvent::RightButtonUp { x, y } => FlatEvent::RightMouseButtonUp { x, y },
                MouseEvent::Scroll { delta_x, delta_y } => FlatEvent::MouseWheel {
                    delta_x,
                    delta_y,
                },
            },
            InputEvent::KeyEvent(key_event) => match key_event {
                KeyEvent::KeyDown { keycode, modifiers } => FlatEvent::KeyDown {
                    code: keycode,
                    modifiers,
                },
                KeyEvent::KeyUp { keycode, modifiers } => FlatEvent::KeyUp {
                    code: keycode,
                    modifiers,
                },
            },
        },
    }
}

impl From<WindowEvent> for FlatEvent {
    /// The normalizer: project a full-fidelity event to its flat form.
    fn from(value: WindowEvent) -> (r: FlatEvent) {
        match value {
            WindowEvent::Close => FlatEvent::Close,
            WindowEvent::RequestRedraw => FlatEvent::RedrawRequested,
            WindowEvent::Resize { w, h } => FlatEvent::Resize { w, h },
            WindowEvent::FocusChange(_) => FlatEvent::Other(value),
            WindowEvent::Input(input_event) => match input_event {
                InputEvent::MouseEvent(mouse_event) => match mouse_event {
                    MouseEvent::MouseMoved { x, y } => FlatEvent::MouseMoved { x, y },
                    MouseEvent::LeftButtonDown { x, y } => FlatEvent::LeftMouseButtonDown { x, y },
                    MouseEvent::LeftButtonUp { x, y } => FlatEvent::LeftMouseButtonUp { x, y },
                    MouseEvent::RightButtonDown { x, y } => FlatEvent::RightMouseButtonDown {
                        x,
                        y,
                    },
                    MouseEvent::RightButtonUp { x, y } => FlatEvent::RightMouseButtonUp { x, y },
                    MouseEvent::Scroll { delta_x, delta_y } => FlatEvent::MouseWheel {
                        delta_x,
                        delta_y,
                    },
                },
                InputEvent::KeyEvent(key_event) => match key_event {
                    KeyEvent::KeyDown { keycode, modifiers } => FlatEvent::KeyDown {
                        code: keycode,
                        modifiers,
                    },
                    KeyEvent::KeyUp { keycode, modifiers } => FlatEvent::KeyUp {
                        code: keycode,
                        modifiers,
                    },
                },
            },
        }
    }
}

impl vstd::std_specs::convert::FromSpecImpl<WindowEvent> for FlatEvent {
    open spec fn obeys_from_spec() -> bool {
        true
    }

    open spec fn from_spec(value: WindowEvent) -> FlatEvent {
        spec_flatten(value)
    }
}

/// The normalizer is total and keeps its escape case lossless: every event
/// has exactly one image, an event lands in `Other` exactly when it is a
/// focus change, and `Other` then carries the original event unchanged.
pub proof fn lemma_flatten_lossless(e: WindowEvent)
    ensures
        spec_flatten(e) matches FlatEvent::Other(orig) ==> orig == e,
        spec_flatten(e) is Other <==> e is FocusChange,
{
}

} // verus!
