//! One frame's worth of sampled input, as plain booleans.  The frame
//! driver samples the keyboard and hands the core one of these per tick;
//! `held` keys are level-triggered, `pressed` keys edge-triggered.

use vstd::prelude::*;

verus! {

#[derive(Clone, Copy, PartialEq, Eq, Structural, Debug, Default)]
pub struct InputFrame {
    /// Movement key, held.
    pub move_up: bool,
    /// Movement key, held.
    pub move_down: bool,
    /// Movement key, held.
    pub move_left: bool,
    /// Movement key, held.
    pub move_right: bool,
    /// Fire key, held; shoots along the current aim.
    pub fire: bool,
    /// Directional fire key, held; overrides the aim while held.
    pub fire_up: bool,
    /// Directional fire key, held.
    pub fire_down: bool,
    /// Directional fire key, held.
    pub fire_left: bool,
    /// Directional fire key, held.
    pub fire_right: bool,
    /// Melee key, held; currently inert.
    pub melee: bool,
    /// Colour-toggle key, pressed.
    pub toggle_color: bool,
    /// Menu navigation, pressed.
    pub menu_up: bool,
    /// Menu navigation, pressed.
    pub menu_down: bool,
    /// Menu navigation, pressed.
    pub menu_left: bool,
    /// Menu navigation, pressed.
    pub menu_right: bool,
    /// Menu confirm, pressed.
    pub confirm: bool,
    /// Escape key, pressed; abandons the current run.
    pub escape: bool,
}

impl InputFrame {
    /// A frame with no key active.
    pub fn none() -> (r: InputFrame)
        ensures
            r == InputFrame::none_spec(),
    {
        InputFrame {
            move_up: false,
            move_down: false,
            move_left: false,
            move_right: false,
            fire: false,
            fire_up: false,
            fire_down: false,
            fire_left: false,
            fire_right: false,
            melee: false,
            toggle_color: false,
            menu_up: false,
            menu_down: false,
            menu_left: false,
            menu_right: false,
            confirm: false,
            escape: false,
        }
    }

    /// The frame with no key active.
    pub open spec fn none_spec() -> InputFrame {
        InputFrame {
            move_up: false,
            move_down: false,
            move_left: false,
            move_right: false,
            fire: false,
            fire_up: false,
            fire_down: false,
            fire_left: false,
            fire_right: false,
            melee: false,
            toggle_color: false,
            menu_up: false,
            menu_down: false,
            menu_left: false,
            menu_right: false,
            confirm: false,
            escape: false,
        }
    }

    /// Whether a directional fire key is held.
    pub open spec fn aiming(self) -> bool {
        self.fire_up || self.fire_down || self.fire_left || self.fire_right
    }

    /// Whether the player wants to shoot this frame.
    pub open spec fn firing(self) -> bool {
        self.fire || self.aiming()
    }
}

} // verus!
