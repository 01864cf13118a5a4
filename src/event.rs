//! The normalized event model, independent of any platform.
use vstd::prelude::*;

verus! {

/// A mouse button.
#[derive(Debug, Clone, Copy, PartialEq, Eq, Structural)]
pub enum MouseButton {
    Left,
    Right,
    Middle,
    Other(u16),
}

/// The set of active modifier keys.
#[derive(Debug, Clone, Copy, PartialEq, Eq, Structural)]
pub struct Modifiers {
    pub shift: bool,
    pub control: bool,
    pub alt: bool,
    pub meta: bool,
}

impl Modifiers {
    pub open spec fn none() -> Modifiers {
        Modifiers { shift: false, control: false, alt: false, meta: false }
    }

    /// The empty modifier set.
    pub fn empty() -> (r: Modifiers)
        ensures
            r == Modifiers::none(),
    {
        Modifiers { shift: false, control: false, alt: false, meta: false }
    }

    /// Whether no modifier key is held.
    pub fn is_empty(&self) -> (r: bool)
        ensures
            r == (*self == Modifiers::none()),
    {
        !self.shift && !self.control && !self.alt && !self.meta
    }
}

/// A normalized input or lifecycle event. Positions are device pixels.
#[derive(Debug, Clone, Copy, PartialEq, Eq, Structural)]
pub enum Event {
    MouseDown { x: i32, y: i32, button: MouseButton, modifiers: Modifiers },
    MouseUp { x: i32, y: i32, button: MouseButton, modifiers: Modifiers },
    MouseMove { x: i32, y: i32, modifiers: Modifiers },
    /// `key` is `None` when the platform could not classify the physical key.
    KeyDown { key: Option<u32>, modifiers: Modifiers },
    KeyUp { key: Option<u32>, modifiers: Modifiers },
    CharInput(char),
    FocusGained,
    FocusLost,
    Resized { width: u32, height: u32 },
    RedrawRequested,
}

impl Event {
    /// The modifier set an event carries, if its kind carries one.
    pub open spec fn modifiers_of(self) -> Option<Modifiers> {
        match self {
            Event::MouseDown { modifiers, .. } => Some(modifiers),
            Event::MouseUp { modifiers, .. } => Some(modifiers),
            Event::MouseMove { modifiers, .. } => Some(modifiers),
            Event::KeyDown { modifiers, .. } => Some(modifiers),
            Event::KeyUp { modifiers, .. } => Some(modifiers),
            _ => None,
        }
    }

    /// The modifier set this event carries, if its kind carries one.
    pub fn modifiers(&self) -> (r: Option<Modifiers>)
        ensures
            r == self.modifiers_of(),
    {
        match self {
            Event::MouseDown { modifiers, .. } => Some(*modifiers),
            Event::MouseUp { modifiers, .. } => Some(*modifiers),
            Event::MouseMove { modifiers, .. } => Some(*modifiers),
            Event::KeyDown { modifiers, .. } => Some(*modifiers),
            Event::KeyUp { modifiers, .. } => Some(*modifiers),
            _ => None,
        }
    }
}

} // verus!
