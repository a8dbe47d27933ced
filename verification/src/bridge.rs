use vstd::prelude::*;
use crate::events::{FocusStatus, InputEvent, KeyEvent, Modifiers, MouseEvent, WindowEvent};

verus! {

/// Native message number: the window should close.
pub const MSG_CLOSE: u32 = 0x0010;

/// Native message number: the client area was resized.
pub const MSG_SIZE: u32 = 0x0005;

/// Native message number: the window must be repainted.
pub const MSG_PAINT: u32 = 0x000F;

/// Native message number: keyboard focus was gained.
pub const MSG_SET_FOCUS: u32 = 0x0007;

/// Native message number: keyboard focus was lost.
pub const MSG_KILL_FOCUS: u32 = 0x0008;

/// Native message number: the mouse moved.
pub const MSG_MOUSE_MOVE: u32 = 0x0200;

/// Native message number: the left mouse button went down.
pub const MSG_LEFT_DOWN: u32 = 0x0201;

/// Native message number: the left mouse button went up.
pub const MSG_LEFT_UP: u32 = 0x0202;

/// Native message number: the right mouse button went down.
pub const MSG_RIGHT_DOWN: u32 = 0x0204;

/// Native message number: the right mouse button went up.
pub const MSG_RIGHT_UP: u32 = 0x0205;

/// Native message number: the mouse wheel turned.
pub const MSG_MOUSE_WHEEL: u32 = 0x020A;

/// Native message number: a key went down.
pub const MSG_KEY_DOWN: u32 = 0x0100;

/// Native message number: a key went up.
pub const MSG_KEY_UP: u32 = 0x0101;

/// The low 16 bits of a message's second packed parameter.
pub open spec fn spec_low_bits(l: i64) -> u64 {
    (l as u64) & 0xFFFF
}

/// Bits 16..32 of a message's second packed parameter.
pub open spec fn spec_high_bits(l: i64) -> u64 {
    ((l as u64) >> 16) & 0xFFFF
}

/// The low 16 bits read as a signed screen coordinate.
pub open spec fn spec_x_of(l: i64) -> int {
    if spec_low_bits(l) >= 0x8000 {
        spec_low_bits(l) - 0x10000
    } else {
        spec_low_bits(l) as int
    }
}

/// Bits 16..32 read as a signed screen coordinate.
pub open spec fn spec_y_of(l: i64) -> int {
    if spec_high_bits(l) >= 0x8000 {
        spec_high_bits(l) - 0x10000
    } else {
        spec_high_bits(l) as int
    }
}

/// Bits 16..32 of a message's first packed parameter, read as the signed
/// wheel rotation.
pub open spec fn spec_wheel_of(w: u64) -> int {
    let h = (w >> 16) & 0xFFFF;
    if h >= 0x8000 {
        h - 0x10000
    } else {
        h as int
    }
}

/// The low 32 bits of a message's first packed parameter: the raw key code.
pub open spec fn spec_key_of(w: u64) -> u64 {
    w & 0xFFFFFFFF
}

/// Extract the signed horizontal coordinate packed into the low 16 bits.
pub fn x_of(l: i64) -> (x: i32)
    ensures
        x as int == spec_x_of(l),
{
    let low: u64 = (l as u64) & 0xFFFF;
    proof {
        assert((l as u64) & 0xFFFF < 0x10000) by (bit_vector);
    }
    if low >= 0x8000 {
        (low as i32) - 0x10000
    } else {
        low as i32
    }
}

/// Extract the signed vertical coordinate packed into bits 16..32.
pub fn y_of(l: i64) -> (y: i32)
    ensures
        y as int == spec_y_of(l),
{
    let high: u64 = ((l as u64) >> 16) & 0xFFFF;
    proof {
        assert(((l as u64) >> 16) & 0xFFFF < 0x10000) by (bit_vector);
    }
    if high >= 0x8000 {
        (high as i32) - 0x10000
    } else {
        high as i32
    }
}

/// Extract the signed wheel rotation packed into bits 16..32 of the first
/// parameter.
pub fn wheel_of(w: u64) -> (d: i32)
    ensures
        d as int == spec_wheel_of(w),
{
    let high: u64 = (w >> 16) & 0xFFFF;
    proof {
        assert((w >> 16) & 0xFFFF < 0x10000) by (bit_vector);
    }
    if high >= 0x8000 {
        (high as i32) - 0x10000
    } else {
        high as i32
    }
}

/// Extract the raw key code from the low 32 bits of the first parameter.
pub fn key_of(w: u64) -> (k: u32)
    ensures
        k as u64 == spec_key_of(w),
{
    proof {
        assert(w & 0xFFFFFFFF <= 0xFFFFFFFFu64) by (bit_vector);
    }
    (w & 0xFFFFFFFF) as u32
}

/// The fixed classification table: which normalized event, if any, a native
/// message carries. Messages outside the table classify to nothing and are
/// left to the platform's default handling. Key events carry the modifier
/// set the caller sampled when the message arrived.
pub open spec fn spec_classify(msg: u32, w: u64, l: i64, mods: Modifiers) -> Option<WindowEvent> {
    if msg == MSG_CLOSE {
        Some(WindowEvent::Close)
    } else if msg == MSG_SIZE {
        Some(WindowEvent::Resize { w: spec_low_bits(l) as u32, h: spec_high_bits(l) as u32 })
    } else if msg == MSG_PAINT {
        Some(WindowEvent::RequestRedraw)
    } else if msg == MSG_SET_FOCUS {
        Some(WindowEvent::FocusChange(FocusStatus::Gained))
    } else if msg == MSG_KILL_FOCUS {
        Some(WindowEvent::FocusChange(FocusStatus::Lost))
    } else if msg == MSG_MOUSE_MOVE {
        Some(
            WindowEvent::Input(
                InputEvent::MouseEvent(
                    MouseEvent::MouseMoved { x: spec_x_of(l) as i32, y: spec_y_of(l) as i32 },
                ),
            ),
        )
    } else if msg == MSG_LEFT_DOWN {
        Some(
            WindowEvent::Input(
                InputEvent::MouseEvent(
                    MouseEvent::LeftButtonDown { x: spec_x_of(l) as i32, y: spec_y_of(l) as i32 },
                ),
            ),
        )
    } else if msg == MSG_LEFT_UP {
        Some(
            WindowEvent::Input(
                InputEvent::MouseEvent(
                    MouseEvent::LeftButtonUp { x: spec_x_of(l) as i32, y: spec_y_of(l) as i32 },
                ),
            ),
        )
    } else if msg == MSG_RIGHT_DOWN {
        Some(
            WindowEvent::Input(
                InputEvent::MouseEvent(
                    MouseEvent::RightButtonDown { x: spec_x_of(l) as i32, y: spec_y_of(l) as i32 },
                ),
            ),
        )
    } else if msg == MSG_RIGHT_UP {
        Some(
            WindowEvent::Input(
                InputEvent::MouseEvent(
                    MouseEvent::RightButtonUp { x: spec_x_of(l) as i32, y: spec_y_of(l) as i32 },
                ),
            ),
        )
    } else if msg == MSG_MOUSE_WHEEL {
        Some(
            WindowEvent::Input(
                InputEvent::MouseEvent(
                    MouseEvent::Scroll { delta_x: 0, delta_y: spec_wheel_of(w) as i32 },
                ),
            ),
        )
    } else if msg == MSG_KEY_DOWN {
        Some(
            WindowEvent::Input(
                InputEvent::KeyEvent(
                    KeyEvent::KeyDown { keycode: spec_key_of(w) as u32, modifiers: mods },
                ),
            ),
        )
    } else if msg == MSG_KEY_UP {
        Some(
            WindowEvent::Input(
                InputEvent::KeyEvent(
                    KeyEvent::KeyUp { keycode: spec_key_of(w) as u32, modifiers: mods },
                ),
            ),
        )
    } else {
        None
    }
}

/// Classify one native message against the fixed table, decoding the packed
/// coordinates, key code and wheel rotation from its two parameters.
pub fn classify_message(msg: u32, w: u64, l: i64, mods: Modifiers) -> (r: Option<WindowEvent>)
    ensures
        r == spec_classify(msg, w, l, mods),
{
    proof {
        assert((l as u64) & 0xFFFF < 0x10000) by (bit_vector);
        assert(((l as u64) >> 16) & 0xFFFF < 0x10000) by (bit_vector);
        assert((w >> 16) & 0xFFFF < 0x10000) by (bit_vector);
        assert(w & 0xFFFFFFFF <= 0xFFFFFFFFu64) by (bit_vector);
    }
    if msg == MSG_CLOSE {
        Some(WindowEvent::Close)
    } else if msg == MSG_SIZE {
        let low: u64 = (l as u64) & 0xFFFF;
        let high: u64 = ((l as u64) >> 16) & 0xFFFF;
        Some(WindowEvent::Resize { w: low as u32, h: high as u32 })
    } else if msg == MSG_PAINT {
        Some(WindowEvent::RequestRedraw)
    } else if msg == MSG_SET_FOCUS {
        Some(WindowEvent::FocusChange(FocusStatus::Gained))
    } else if msg == MSG_KILL_FOCUS {
        Some(WindowEvent::FocusChange(FocusStatus::Lost))
    } else if msg == MSG_MOUSE_MOVE {
        Some(
            WindowEvent::Input(
                InputEvent::MouseEvent(MouseEvent::MouseMoved { x: x_of(l), y: y_of(l) }),
            ),
        )
    } else if msg == MSG_LEFT_DOWN {
        Some(
            WindowEvent::Input(
                InputEvent::MouseEvent(MouseEvent::LeftButtonDown { x: x_of(l), y: y_of(l) }),
            ),
        )
    } else if msg == MSG_LEFT_UP {
        Some(
            WindowEvent::Input(
                InputEvent::MouseEvent(MouseEvent::LeftButtonUp { x: x_of(l), y: y_of(l) }),
            ),
        )
    } else if msg == MSG_RIGHT_DOWN {
        Some(
            WindowEvent::Input(
                InputEvent::MouseEvent(MouseEvent::RightButtonDown { x: x_of(l), y: y_of(l) }),
            ),
        )
    } else if msg == MSG_RIGHT_UP {
        Some(
            WindowEvent::Input(
                InputEvent::MouseEvent(MouseEvent::RightButtonUp { x: x_of(l), y: y_of(l) }),
            ),
        )
    } else if msg == MSG_MOUSE_WHEEL {
        Some(
            WindowEvent::Input(
                InputEvent::MouseEvent(MouseEvent::Scroll { delta_x: 0, delta_y: wheel_of(w) }),
            ),
        )
    } else if msg == MSG_KEY_DOWN {
        Some(
            WindowEvent::Input(
                InputEvent::KeyEvent(KeyEvent::KeyDown { keycode: key_of(w), modifiers: mods }),
            ),
        )
    } else if msg == MSG_KEY_UP {
        Some(
            WindowEvent::Input(
                InputEvent::KeyEvent(KeyEvent::KeyUp { keycode: key_of(w), modifiers: mods }),
            ),
        )
    } else {
        None
    }
}

/// What the message-pump callback decided for one message: the event to push
/// into the queue, if any, and whether the message still goes to the
/// platform's default handling.
pub struct BridgeDecision {
    pub event: Option<WindowEvent>,
    pub forward_default: bool,
}

/// The bridge's decision for one delivered message. When the shared state
/// could not be recovered (no association has been wired up yet), nothing is
/// pushed and the message is forwarded untouched; otherwise the fixed table
/// decides, and only messages outside the table are forwarded.
pub fn bridge_decision(associated: bool, msg: u32, w: u64, l: i64, mods: Modifiers) -> (d:
    BridgeDecision)
    ensures
        !associated ==> d.event is None && d.forward_default,
        associated ==> d.event == spec_classify(msg, w, l, mods),
        associated ==> (d.forward_default <==> spec_classify(msg, w, l, mods) is None),
{
    if !associated {
        BridgeDecision { event: None, forward_default: true }
    } else {
        let event = classify_message(msg, w, l, mods);
        let forward_default = event.is_none();
        BridgeDecision { event, forward_default }
    }
}

} // verus!
