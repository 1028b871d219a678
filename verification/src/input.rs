//! The player's controls: which key drives which part of the input of a frame.
//! W/A/S/D move, Shift runs, Q/E and R/F spin, the arrows fine-tune the aim,
//! 1–7 select a stone, N restarts, the right mouse button charges, the left one
//! grabs the cursor and Escape releases it or quits.

use vstd::prelude::*;

verus! {

/// The keys the game reads; every other key is `Other`.
#[derive(Debug, Clone, Copy, PartialEq, Eq, Structural)]
pub enum Key {
    W,
    S,
    A,
    D,
    ShiftLeft,
    Q,
    E,
    R,
    F,
    ArrowUp,
    ArrowDown,
    ArrowLeft,
    ArrowRight,
    Digit1,
    Digit2,
    Digit3,
    Digit4,
    Digit5,
    Digit6,
    Digit7,
    N,
    Escape,
    Other,
}

/// Mouse buttons as the game reads them.
#[derive(Debug, Clone, Copy, PartialEq, Eq, Structural)]
pub enum MouseButton {
    Left,
    Right,
    Other,
}

/// What the window does after a key.
#[derive(Debug, Clone, Copy, PartialEq, Eq, Structural)]
pub enum WindowAction {
    Nothing,
    ReleaseCursor,
    GrabCursor,
    Exit,
}

/// The buttons held and the one-shot requests of the current frame.
#[derive(Debug, Clone, Copy, PartialEq, Eq, Structural)]
pub struct RockButtons {
    pub forward: bool,
    pub backward: bool,
    pub left: bool,
    pub right: bool,
    pub run: bool,
    pub charging: bool,
    pub spin_left: bool,
    pub spin_right: bool,
    pub spin_top: bool,
    pub spin_bottom: bool,
    pub pitch_up: bool,
    pub pitch_down: bool,
    pub yaw_left: bool,
    pub yaw_right: bool,
    pub stone_select: Option<usize>,
    pub restart: bool,
}

/// The stone a digit key selects.
pub open spec fn digit_stone(key: Key) -> Option<usize> {
    match key {
        Key::Digit1 => Some(0usize),
        Key::Digit2 => Some(1usize),
        Key::Digit3 => Some(2usize),
        Key::Digit4 => Some(3usize),
        Key::Digit5 => Some(4usize),
        Key::Digit6 => Some(5usize),
        Key::Digit7 => Some(6usize),
        _ => None,
    }
}

/// The buttons after `key` went down (`pressed`) or up: a held key follows its
/// state, a digit selects its stone and N asks for a restart when pressed.
pub open spec fn after_key(b: RockButtons, key: Key, pressed: bool) -> RockButtons {
    match key {
        Key::W => RockButtons { forward: pressed, ..b },
        Key::S => RockButtons { backward: pressed, ..b },
        Key::A => RockButtons { left: pressed, ..b },
        Key::D => RockButtons { right: pressed, ..b },
        Key::ShiftLeft => RockButtons { run: pressed, ..b },
        Key::Q => RockButtons { spin_left: pressed, ..b },
        Key::E => RockButtons { spin_right: pressed, ..b },
        Key::R => RockButtons { spin_top: pressed, ..b },
        Key::F => RockButtons { spin_bottom: pressed, ..b },
        Key::ArrowUp => RockButtons { pitch_up: pressed, ..b },
        Key::ArrowDown => RockButtons { pitch_down: pressed, ..b },
        Key::ArrowLeft => RockButtons { yaw_left: pressed, ..b },
        Key::ArrowRight => RockButtons { yaw_right: pressed, ..b },
        Key::N => if pressed { RockButtons { restart: true, ..b } } else { b },
        Key::Digit1 | Key::Digit2 | Key::Digit3 | Key::Digit4 | Key::Digit5 | Key::Digit6
        | Key::Digit7 => if pressed { RockButtons { stone_select: digit_stone(key), ..b } } else { b },
        Key::Escape | Key::Other => b,
    }
}

/// Each key drives its own control and no other: W forward, S backward, A left,
/// D right, Shift run, Q/E lateral spin, R/F top spin, the arrows the aim; N asks
/// for a restart and the digits 1–7 select stones 0–6 when pressed; the charge
/// button is not a key.
#[verifier::rlimit(40)]
pub proof fn lemma_key_drives_its_control(b: RockButtons, key: Key, pressed: bool)
    ensures
            after_key(b, key, pressed).forward == if key == Key::W { pressed } else { b.forward },
            after_key(b, key, pressed).backward == if key == Key::S { pressed } else { b.backward },
            after_key(b, key, pressed).left == if key == Key::A { pressed } else { b.left },
            after_key(b, key, pressed).right == if key == Key::D { pressed } else { b.right },
            after_key(b, key, pressed).run == if key == Key::ShiftLeft { pressed } else { b.run },
            after_key(b, key, pressed).spin_left == if key == Key::Q { pressed } else { b.spin_left },
            after_key(b, key, pressed).spin_right == if key == Key::E { pressed } else { b.spin_right },
            after_key(b, key, pressed).spin_top == if key == Key::R { pressed } else { b.spin_top },
            after_key(b, key, pressed).spin_bottom == if key == Key::F { pressed } else { b.spin_bottom },
            after_key(b, key, pressed).pitch_up == if key == Key::ArrowUp { pressed } else { b.pitch_up },
            after_key(b, key, pressed).pitch_down == if key == Key::ArrowDown { pressed } else { b.pitch_down },
            after_key(b, key, pressed).yaw_left == if key == Key::ArrowLeft { pressed } else { b.yaw_left },
            after_key(b, key, pressed).yaw_right == if key == Key::ArrowRight { pressed } else { b.yaw_right },
            after_key(b, key, pressed).charging == b.charging,
            after_key(b, key, pressed).restart == (b.restart || (key == Key::N && pressed)),
            after_key(b, key, pressed).stone_select == if !pressed {
                b.stone_select
            } else if key == Key::Digit1 {
                Some(0usize)
            } else if key == Key::Digit2 {
                Some(1usize)
            } else if key == Key::Digit3 {
                Some(2usize)
            } else if key == Key::Digit4 {
                Some(3usize)
            } else if key == Key::Digit5 {
                Some(4usize)
            } else if key == Key::Digit6 {
                Some(5usize)
            } else if key == Key::Digit7 {
                Some(6usize)
            } else {
                b.stone_select
            },
{
    match key {
        Key::W => {},
        Key::S => {},
        Key::A => {},
        Key::D => {},
        Key::ShiftLeft => {},
        Key::Q => {},
        Key::E => {},
        Key::R => {},
        Key::F => {},
        Key::ArrowUp => {},
        Key::ArrowDown => {},
        Key::ArrowLeft => {},
        Key::ArrowRight => {},
        Key::Digit1 => {},
        Key::Digit2 => {},
        Key::Digit3 => {},
        Key::Digit4 => {},
        Key::Digit5 => {},
        Key::Digit6 => {},
        Key::Digit7 => {},
        Key::N => {},
        Key::Escape => {},
        Key::Other => {},
    }
}

impl Default for RockButtons {
    /// Nothing held, nothing requested.
    fn default() -> (b: Self)
        ensures
            !b.forward && !b.backward && !b.left && !b.right && !b.run && !b.charging,
            !b.spin_left && !b.spin_right && !b.spin_top && !b.spin_bottom,
            !b.pitch_up && !b.pitch_down && !b.yaw_left && !b.yaw_right,
            b.stone_select is None && !b.restart,
    {
        RockButtons {
            forward: false,
            backward: false,
            left: false,
            right: false,
            run: false,
            charging: false,
            spin_left: false,
            spin_right: false,
            spin_top: false,
            spin_bottom: false,
            pitch_up: false,
            pitch_down: false,
            yaw_left: false,
            yaw_right: false,
            stone_select: None,
            restart: false,
        }
    }
}

impl RockButtons {
    /// A key went down or up. Escape, on either, releases a grabbed cursor and
    /// otherwise quits; no other key acts on the window.
    #[verifier::rlimit(20)]
    pub fn on_key(&mut self, key: Key, pressed: bool, cursor_grabbed: bool) -> (w: WindowAction)
        ensures
            *final(self) == after_key(*old(self), key, pressed),
            w == (if key == Key::Escape {
                if cursor_grabbed { WindowAction::ReleaseCursor } else { WindowAction::Exit }
            } else {
                WindowAction::Nothing
            }),
    {
        if key == Key::Escape {
            return if cursor_grabbed {
                WindowAction::ReleaseCursor
            } else {
                WindowAction::Exit
            };
        }
        let b = *self;
        *self = match key {
            Key::W => RockButtons { forward: pressed, ..b },
            Key::S => RockButtons { backward: pressed, ..b },
            Key::A => RockButtons { left: pressed, ..b },
            Key::D => RockButtons { right: pressed, ..b },
            Key::ShiftLeft => RockButtons { run: pressed, ..b },
            Key::Q => RockButtons { spin_left: pressed, ..b },
            Key::E => RockButtons { spin_right: pressed, ..b },
            Key::R => RockButtons { spin_top: pressed, ..b },
            Key::F => RockButtons { spin_bottom: pressed, ..b },
            Key::ArrowUp => RockButtons { pitch_up: pressed, ..b },
            Key::ArrowDown => RockButtons { pitch_down: pressed, ..b },
            Key::ArrowLeft => RockButtons { yaw_left: pressed, ..b },
            Key::ArrowRight => RockButtons { yaw_right: pressed, ..b },
            Key::N if pressed => RockButtons { restart: true, ..b },
            Key::Digit1 if pressed => RockButtons { stone_select: Some(0), ..b },
            Key::Digit2 if pressed => RockButtons { stone_select: Some(1), ..b },
            Key::Digit3 if pressed => RockButtons { stone_select: Some(2), ..b },
            Key::Digit4 if pressed => RockButtons { stone_select: Some(3), ..b },
            Key::Digit5 if pressed => RockButtons { stone_select: Some(4), ..b },
            Key::Digit6 if pressed => RockButtons { stone_select: Some(5), ..b },
            Key::Digit7 if pressed => RockButtons { stone_select: Some(6), ..b },
            _ => b,
        };
        WindowAction::Nothing
    }

    /// A mouse button went down or up: the right button holds the charge, and
    /// pressing the left one grabs the cursor when it is free.
    pub fn on_mouse_button(&mut self, button: MouseButton, pressed: bool, cursor_grabbed: bool) -> (w:
        WindowAction)
        ensures
            *final(self) == (if button == MouseButton::Right {
                RockButtons { charging: pressed, ..*old(self) }
            } else {
                *old(self)
            }),
            w == (if button == MouseButton::Left && pressed && !cursor_grabbed {
                WindowAction::GrabCursor
            } else {
                WindowAction::Nothing
            }),
    {
        match button {
            MouseButton::Right => {
                self.charging = pressed;
                WindowAction::Nothing
            },
            MouseButton::Left => {
                if pressed && !cursor_grabbed {
                    WindowAction::GrabCursor
                } else {
                    WindowAction::Nothing
                }
            },
            MouseButton::Other => WindowAction::Nothing,
        }
    }

    /// A restart was asked for: it is taken (and cleared) before the frame runs.
    pub fn take_restart(&mut self) -> (r: bool)
        ensures
            r == old(self).restart,
            *final(self) == (RockButtons { restart: false, ..*old(self) }),
    {
        let r = self.restart;
        self.restart = false;
        r
    }

    /// After a frame: the charge button and the stone selection count for one
    /// frame only.
    pub fn end_frame(&mut self)
        ensures
            *final(self) == (RockButtons { charging: false, stone_select: None, ..*old(self) }),
    {
        self.charging = false;
        self.stone_select = None;
    }
}

} // verus!
