//! Input symbols: keyboard keys, mouse buttons and modifier masks.
//!
//! Each symbol maps to the numeric value the display protocol uses for it:
//! keys to key symbols, buttons to button numbers, modifiers to mask bits.

use vstd::prelude::*;

verus! {

/// Keyboard keys a binding may name.
#[derive(Debug, Clone, Copy, PartialEq, Eq, Structural)]
pub enum Key {
    A,
    B,
    C,
    D,
    E,
    F,
    G,
    H,
    I,
    J,
    K,
    L,
    M,
    N,
    O,
    P,
    Q,
    R,
    S,
    T,
    U,
    V,
    W,
    X,
    Y,
    Z,
    ArrowUp,
    ArrowDown,
    ArrowRight,
    ArrowLeft,
}

/// Mouse buttons a binding may name.
#[derive(Debug, Clone, Copy, PartialEq, Eq, Structural)]
pub enum Button {
    Left,
    Middle,
    Right,
}

/// Modifier keys a binding may combine with its trigger.
#[derive(Debug, Clone, Copy, PartialEq, Eq, Structural)]
pub enum ModMask {
    Shift,
    CapsLock,
    Control,
    Mod1,
    Mod2,
    Mod3,
    Mod4,
}

/// Protocol key symbol for a key.
pub open spec fn spec_keysym(k: Key) -> u32 {
    match k {
        Key::A => 0x41,
        Key::B => 0x42,
        Key::C => 0x43,
        Key::D => 0x44,
        Key::E => 0x45,
        Key::F => 0x46,
        Key::G => 0x47,
        Key::H => 0x48,
        Key::I => 0x49,
        Key::J => 0x4a,
        Key::K => 0x4b,
        Key::L => 0x4c,
        Key::M => 0x4d,
        Key::N => 0x4e,
        Key::O => 0x4f,
        Key::P => 0x50,
        Key::Q => 0x51,
        Key::R => 0x52,
        Key::S => 0x53,
        Key::T => 0x54,
        Key::U => 0x55,
        Key::V => 0x56,
        Key::W => 0x57,
        Key::X => 0x58,
        Key::Y => 0x59,
        Key::Z => 0x5a,
        Key::ArrowUp => 0xff97,
        Key::ArrowDown => 0xff99,
        Key::ArrowRight => 0xff98,
        Key::ArrowLeft => 0xff96,
    }
}

/// Protocol button number for a mouse button.
pub open spec fn spec_button_number(b: Button) -> u8 {
    match b {
        Button::Left => 1,
        Button::Middle => 2,
        Button::Right => 3,
    }
}

/// Protocol mask bit for a modifier.
pub open spec fn spec_mod_bit(m: ModMask) -> u32 {
    match m {
        ModMask::Shift => 0x1,
        ModMask::CapsLock => 0x2,
        ModMask::Control => 0x4,
        ModMask::Mod1 => 0x8,
        ModMask::Mod2 => 0x10,
        ModMask::Mod3 => 0x20,
        ModMask::Mod4 => 0x40,
    }
}

impl Key {
    /// Numeric key symbol this key stands for on the wire.
    pub fn to_keysym(self) -> (r: u32)
        ensures
            r == spec_keysym(self),
    {
        match self {
            Key::A => 0x41,
            Key::B => 0x42,
            Key::C => 0x43,
            Key::D => 0x44,
            Key::E => 0x45,
            Key::F => 0x46,
            Key::G => 0x47,
            Key::H => 0x48,
            Key::I => 0x49,
            Key::J => 0x4a,
            Key::K => 0x4b,
            Key::L => 0x4c,
            Key::M => 0x4d,
            Key::N => 0x4e,
            Key::O => 0x4f,
            Key::P => 0x50,
            Key::Q => 0x51,
            Key::R => 0x52,
            Key::S => 0x53,
            Key::T => 0x54,
            Key::U => 0x55,
            Key::V => 0x56,
            Key::W => 0x57,
            Key::X => 0x58,
            Key::Y => 0x59,
            Key::Z => 0x5a,
            Key::ArrowUp => 0xff97,
            Key::ArrowDown => 0xff99,
            Key::ArrowRight => 0xff98,
            Key::ArrowLeft => 0xff96,
        }
    }
}

impl Button {
    /// Numeric button number this button stands for on the wire.
    pub fn to_number(self) -> (r: u8)
        ensures
            r == spec_button_number(self),
    {
        match self {
            Button::Left => 1,
            Button::Middle => 2,
            Button::Right => 3,
        }
    }
}

impl ModMask {
    /// Mask bit this modifier contributes to a modifier set.
    pub fn to_bit(self) -> (r: u32)
        ensures
            r == spec_mod_bit(self),
    {
        match self {
            ModMask::Shift => 0x1,
            ModMask::CapsLock => 0x2,
            ModMask::Control => 0x4,
            ModMask::Mod1 => 0x8,
            ModMask::Mod2 => 0x10,
            ModMask::Mod3 => 0x20,
            ModMask::Mod4 => 0x40,
        }
    }
}

/// Combined mask of a modifier list: the bitwise or of every entry's bit.
pub open spec fn spec_mask_of(mods: Seq<ModMask>) -> u32
    decreases mods.len(),
{
    if mods.len() == 0 {
        0u32
    } else {
        spec_mask_of(mods.drop_last()) | spec_mod_bit(mods.last())
    }
}

/// Fold a modifier list into one mask value.
pub fn mask_of(mods: &Vec<ModMask>) -> (r: u32)
    ensures
        r == spec_mask_of(mods@),
{
    let mut mask: u32 = 0;
    let mut i: usize = 0;
    while i < mods.len()
        invariant
            i <= mods@.len(),
            mask == spec_mask_of(mods@.take(i as int)),
        decreases mods@.len() - i,
    {
        proof {
            assert(mods@.take(i + 1).drop_last() =~= mods@.take(i as int));
            assert(mods@.take(i + 1).last() == mods@[i as int]);
        }
        mask = mask | mods[i].to_bit();
        i = i + 1;
    }
    proof {
        assert(mods@.take(mods@.len() as int) =~= mods@);
    }
    mask
}

} // verus!
