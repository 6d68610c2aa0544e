//! Extended window style of the host window, and the click-through flag in it.
use vstd::prelude::*;

verus! {

/// Keeps the window on top of all non-topmost windows.
pub const WS_EX_TOPMOST: u32 = 0x0000_0008;

/// Lets mouse input pass through the window to what lies beneath it.
pub const WS_EX_TRANSPARENT: u32 = 0x0000_0020;

/// Shows the window in the task bar and the application switcher.
pub const WS_EX_APPWINDOW: u32 = 0x0004_0000;

/// Makes the window a layered window.
pub const WS_EX_LAYERED: u32 = 0x0008_0000;

/// Paints the window and its children bottom to top with double buffering.
pub const WS_EX_COMPOSITED: u32 = 0x0200_0000;

/// The style flags that every write of the extended style keeps set.
pub const BASE_STYLE: u32 = WS_EX_APPWINDOW | WS_EX_COMPOSITED | WS_EX_LAYERED | WS_EX_TOPMOST;

/// The extended style bitmask of a window.
#[derive(Clone, Copy, Debug, PartialEq, Eq, Structural)]
pub struct WindowStyle {
    pub bits: u32,
}

/// The bitmask written for a requested click-through state: the base style,
/// with the transparent flag exactly when it is requested.
pub open spec fn style_bits(transparent: bool) -> u32 {
    if transparent {
        BASE_STYLE | WS_EX_TRANSPARENT
    } else {
        BASE_STYLE
    }
}

impl WindowStyle {
    /// Whether the transparent flag is set in the bitmask.
    pub open spec fn transparent(self) -> bool {
        self.bits & WS_EX_TRANSPARENT != 0
    }

    /// The style that a write of the click-through state leaves on the window.
    pub open spec fn after_set(self, transparent: bool) -> WindowStyle {
        WindowStyle { bits: style_bits(transparent) }
    }

    /// The new style and new state that a toggle computes from this style.
    pub open spec fn toggled_spec(self) -> (WindowStyle, bool) {
        (self.after_set(!self.transparent()), !self.transparent())
    }

    /// Wraps a bitmask read from the window.
    pub fn from_bits(bits: u32) -> (r: WindowStyle)
        ensures
            r.bits == bits,
    {
        WindowStyle { bits }
    }

    /// The full style to write for a click-through state. The whole bitmask is
    /// rebuilt from the base flags on every write, whatever the window held.
    pub fn with_transparent(transparent: bool) -> (r: WindowStyle)
        ensures
            r.bits == style_bits(transparent),
            r.transparent() == transparent,
    {
        proof {
            lemma_style_bits_flag();
        }
        if transparent {
            WindowStyle { bits: BASE_STYLE | WS_EX_TRANSPARENT }
        } else {
            WindowStyle { bits: BASE_STYLE }
        }
    }

    /// Reads the transparent flag.
    pub fn is_transparent(&self) -> (r: bool)
        ensures
            r == self.transparent(),
    {
        self.bits & WS_EX_TRANSPARENT != 0
    }

    /// Flips the transparent flag: returns the style to write and the new state.
    pub fn toggled(&self) -> (r: (WindowStyle, bool))
        ensures
            r == self.toggled_spec(),
            r.1 == !self.transparent(),
            r.0.transparent() == r.1,
    {
        let now = !self.is_transparent();
        (WindowStyle::with_transparent(now), now)
    }
}

/// The transparent flag of the written bitmask is the requested state, and the
/// opaque bitmask is the base style alone.
pub proof fn lemma_style_bits_flag()
    ensures
        style_bits(true) & WS_EX_TRANSPARENT != 0,
        style_bits(false) & WS_EX_TRANSPARENT == 0,
        style_bits(false) == BASE_STYLE,
{
    assert((0x0004_0000u32 | 0x0200_0000u32 | 0x0008_0000u32 | 0x0000_0008u32 | 0x0000_0020u32)
        & 0x0000_0020u32 != 0) by (bit_vector);
    assert((0x0004_0000u32 | 0x0200_0000u32 | 0x0008_0000u32 | 0x0000_0008u32) & 0x0000_0020u32
        == 0) by (bit_vector);
}

/// Making a window click-through and then opaque again leaves exactly the base
/// style, with no transparent flag, whatever style the window had before; and
/// writing the same state twice gives the same bitmask as writing it once.
pub proof fn lemma_set_then_clear(before: WindowStyle, t: bool)
    ensures
        before.after_set(true).after_set(false).bits == BASE_STYLE,
        !before.after_set(true).after_set(false).transparent(),
        before.after_set(true).transparent(),
        before.after_set(t).after_set(t) == before.after_set(t),
{
    lemma_style_bits_flag();
}

/// A second toggle returns the state that the window had before the first.
pub proof fn lemma_toggle_twice(s: WindowStyle)
    ensures
        s.toggled_spec().0.toggled_spec().1 == s.transparent(),
        s.toggled_spec().0.toggled_spec().0.transparent() == s.transparent(),
{
    lemma_style_bits_flag();
}

} // verus!
