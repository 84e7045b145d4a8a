use vstd::prelude::*;

verus! {

/// The keys the scene reacts to; every other key is `Other`.
#[derive(Clone, Copy, Debug, PartialEq, Eq, Structural)]
pub enum Key {
    Space,
    Other,
}

/// Whether a key went down or up.
#[derive(Clone, Copy, Debug, PartialEq, Eq, Structural)]
pub enum ElementState {
    Pressed,
    Released,
}

/// The modifier keys held while a key event happened.
#[derive(Clone, Copy, Debug, PartialEq, Eq, Structural)]
pub struct Modifiers {
    pub shift: bool,
    pub ctrl: bool,
    pub alt: bool,
    pub logo: bool,
}

impl Modifiers {
    pub open spec fn none_held(&self) -> bool {
        !self.shift && !self.ctrl && !self.alt && !self.logo
    }

    pub fn is_empty(&self) -> (r: bool)
        ensures
            r == self.none_held(),
    {
        !self.shift && !self.ctrl && !self.alt && !self.logo
    }
}

/// A key event as the window reports it. `key` is `None` where the
/// platform gives no virtual key code.
#[derive(Clone, Copy, Debug, PartialEq, Eq, Structural)]
pub struct KeyboardInput {
    pub key: Option<Key>,
    pub state: ElementState,
    pub modifiers: Modifiers,
    /// Set for events the platform made up, such as keys already held when
    /// the window gained focus.
    pub is_synthetic: bool,
}

/// The window events the scene reacts to; every other one is `Other`.
#[derive(Clone, Copy, Debug, PartialEq, Eq, Structural)]
pub enum WindowEvent {
    CloseRequested,
    Resized { width: u32, height: u32 },
    ScaleFactorChanged { width: u32, height: u32 },
    Keyboard(KeyboardInput),
    Other,
}

/// The event that asks for a new background color: a real press of space
/// with no modifier held.
pub open spec fn is_recolor_request(e: WindowEvent) -> bool {
    &&& e matches WindowEvent::Keyboard(k)
    &&& !k.is_synthetic
    &&& k.key == Some(Key::Space)
    &&& k.state == ElementState::Pressed
    &&& k.modifiers.none_held()
}

pub fn recolor_request(e: &WindowEvent) -> (r: bool)
    ensures
        r == is_recolor_request(*e),
{
    match e {
        WindowEvent::Keyboard(k) => {
            if k.is_synthetic {
                return false;
            }
            match k.key {
                Some(Key::Space) => {
                    match k.state {
                        ElementState::Pressed => k.modifiers.is_empty(),
                        ElementState::Released => false,
                    }
                },
                _ => false,
            }
        },
        _ => false,
    }
}

} // verus!
