//! The control block the driver reads: its fields, the values they take and
//! the constructors that fill them.

use vstd::prelude::*;

verus! {

/// Keyboard flag: the key goes down.
pub const KEY_MAKE: u16 = 0;

/// Keyboard flag: the key goes up.
pub const KEY_BREAK: u16 = 1;

/// Keyboard flag: the scan code carries the E0 prefix.
pub const KEY_E0: u16 = 2;

/// Keyboard flag: the scan code carries the E1 prefix.
pub const KEY_E1: u16 = 4;

pub const L_BUTTON_DOWN: u16 = 0x0001;

pub const L_BUTTON_UP: u16 = 0x0002;

pub const R_BUTTON_DOWN: u16 = 0x0004;

pub const R_BUTTON_UP: u16 = 0x0008;

pub const M_BUTTON_DOWN: u16 = 0x0010;

pub const M_BUTTON_UP: u16 = 0x0020;

pub const X_BUTTON1_DOWN: u16 = 0x0040;

pub const X_BUTTON1_UP: u16 = 0x0080;

pub const X_BUTTON2_DOWN: u16 = 0x0100;

pub const X_BUTTON2_UP: u16 = 0x0200;

pub const WHEEL: u16 = 0x0400;

pub const H_WHEEL: u16 = 0x0800;

/// Largest magnitude of a mouse coordinate or delta.
pub const COORDINATE_LIMIT: i32 = 32767;

/// The button flags of a mouse block, one bit per flag.
#[derive(Debug, Clone, Copy, PartialEq, Eq, Structural)]
pub struct MouseButtons {
    pub flags: u16,
}

impl MouseButtons {
    /// Whether any bit of `mask` is set.
    pub open spec fn has(self, mask: u16) -> bool {
        self.flags & mask != 0
    }

    /// No flag set.
    pub fn new() -> (buttons: Self)
        ensures
            buttons.flags == 0,
    {
        MouseButtons { flags: 0 }
    }

    /// Sets the bits of `mask` where `value` is true and clears them where
    /// it is false; the other bits stay.
    pub fn set_flag(&mut self, mask: u16, value: bool)
        ensures
            value ==> final(self).flags == old(self).flags | mask,
            !value ==> final(self).flags == old(self).flags & !mask,
    {
        if value {
            self.flags = self.flags | mask;
        } else {
            self.flags = self.flags & !mask;
        }
    }

    /// Whether any bit of `mask` is set.
    pub fn check_flag(&self, mask: u16) -> (set: bool)
        ensures
            set == self.has(mask),
    {
        (self.flags & mask) != 0
    }
}

impl Default for MouseButtons {
    fn default() -> (buttons: Self)
        ensures
            buttons.flags == 0,
    {
        MouseButtons { flags: 0 }
    }
}

/// A fresh mask has no flag set.
pub proof fn lemma_new_mask_is_clear(mask: u16)
    ensures
        !(MouseButtons { flags: 0 }).has(mask),
{
    assert(0u16 & mask == 0) by (bit_vector);
}

/// After a mask is set, it is found set unless it is empty; after it is
/// cleared, it is found clear.
pub proof fn lemma_set_then_check(flags: u16, mask: u16)
    ensures
        mask != 0 ==> (MouseButtons { flags: flags | mask }).has(mask),
        !(MouseButtons { flags: flags & !mask }).has(mask),
{
    assert(mask != 0 ==> (flags | mask) & mask != 0) by (bit_vector);
    assert((flags & !mask) & mask == 0) by (bit_vector);
}

/// Setting or clearing a mask leaves every bit outside the mask as it was.
pub proof fn lemma_set_keeps_other_flags(flags: u16, mask: u16, other: u16)
    requires
        other & mask == 0,
    ensures
        (MouseButtons { flags: flags | mask }).has(other) == (MouseButtons { flags }).has(other),
        (MouseButtons { flags: flags & !mask }).has(other) == (MouseButtons { flags }).has(other),
{
    assert(other & mask == 0 ==> (flags | mask) & other == flags & other) by (bit_vector);
    assert(other & mask == 0 ==> (flags & !mask) & other == flags & other) by (bit_vector);
}

/// What a control block carries. The driver reads the tag as a 32-bit
/// number: 1 for a keyboard block, 2 for a mouse block.
#[derive(Debug, Clone, Copy, PartialEq, Eq, Structural)]
pub enum Type {
    Keyboard,
    Mouse,
}

impl Type {
    /// The tag as the driver reads it.
    pub open spec fn tag(self) -> u32 {
        match self {
            Type::Keyboard => 1,
            Type::Mouse => 2,
        }
    }

    /// The tag as the driver reads it.
    pub fn code(self) -> (tag: u32)
        ensures
            tag == self.tag(),
    {
        match self {
            Type::Keyboard => 1,
            Type::Mouse => 2,
        }
    }
}

/// The five buttons of a mouse.
#[derive(Debug, Clone, Copy, PartialEq, Eq, Structural)]
pub enum MouseButton {
    Left,
    Right,
    Middle,
    X1,
    X2,
}

/// The mouse arm of a control block.
#[derive(Debug, Clone, Copy, PartialEq, Eq, Structural)]
pub struct MouseInputData {
    /// 1 where `x` and `y` are absolute coordinates, 0 where they are deltas.
    pub absolute_coord: u32,
    pub button_flags: MouseButtons,
    /// 1 where the block carries a movement.
    pub movement: i16,
    pub unk1: u32,
    pub x: i32,
    pub y: i32,
    pub unk2: u32,
}

/// The keyboard arm of a control block.
#[derive(Debug, Clone, Copy, PartialEq, Eq, Structural)]
pub struct KeyboardInputData {
    /// Unused, 0.
    pub unit_id: u16,
    /// The hardware scan code of the key.
    pub make_code: u16,
    /// [`KEY_MAKE`] or [`KEY_BREAK`], joined with [`KEY_E0`] or [`KEY_E1`].
    pub flags: u16,
    /// 0.
    pub reserved: u16,
    /// Unused, 0.
    pub extra_information: u32,
}

/// The two arms of a control block. A block holds one of them, chosen when
/// it is made.
#[derive(Debug, Clone, Copy, PartialEq, Eq, Structural)]
pub enum InputData {
    Mouse(MouseInputData),
    Keyboard(KeyboardInputData),
}

/// One control block: what a single request hands to the driver.
#[derive(Debug, Clone, Copy, PartialEq, Eq, Structural)]
pub struct RzControl {
    pub unk1: u32,
    pub data: InputData,
}

/// The mouse arm with every field zero.
pub open spec fn zeroed_mouse() -> MouseInputData {
    MouseInputData {
        absolute_coord: 0,
        button_flags: MouseButtons { flags: 0 },
        movement: 0,
        unk1: 0,
        x: 0,
        y: 0,
        unk2: 0,
    }
}

/// The keyboard arm with every field zero.
pub open spec fn zeroed_keyboard() -> KeyboardInputData {
    KeyboardInputData { unit_id: 0, make_code: 0, flags: 0, reserved: 0, extra_information: 0 }
}

/// A coordinate brought into the range the driver accepts: values beyond
/// [`COORDINATE_LIMIT`] on either side become the limit of that side.
pub open spec fn clamped(v: int) -> int {
    if v > COORDINATE_LIMIT {
        COORDINATE_LIMIT as int
    } else if v < -COORDINATE_LIMIT {
        -COORDINATE_LIMIT
    } else {
        v
    }
}

/// The flag of a button edge: one bit for each of the five buttons going
/// down and one for each going up.
pub open spec fn button_flag(button: MouseButton, pressed: bool) -> u16 {
    match (button, pressed) {
        (MouseButton::Left, true) => L_BUTTON_DOWN,
        (MouseButton::Left, false) => L_BUTTON_UP,
        (MouseButton::Right, true) => R_BUTTON_DOWN,
        (MouseButton::Right, false) => R_BUTTON_UP,
        (MouseButton::Middle, true) => M_BUTTON_DOWN,
        (MouseButton::Middle, false) => M_BUTTON_UP,
        (MouseButton::X1, true) => X_BUTTON1_DOWN,
        (MouseButton::X1, false) => X_BUTTON1_UP,
        (MouseButton::X2, true) => X_BUTTON2_DOWN,
        (MouseButton::X2, false) => X_BUTTON2_UP,
    }
}

/// The flags of a key event: make or break, joined with E0 for an extended
/// key.
pub open spec fn key_flags(pressed: bool, extended: bool) -> u16 {
    (if pressed { KEY_MAKE } else { KEY_BREAK }) | (if extended { KEY_E0 } else { 0 })
}

/// The mouse block of a movement.
pub open spec fn mouse_move_block(dx: int, dy: int, absolute: bool) -> RzControl {
    RzControl {
        unk1: 0,
        data: InputData::Mouse(
            MouseInputData {
                absolute_coord: if absolute { 1 } else { 0 },
                button_flags: MouseButtons { flags: 0 },
                movement: 1,
                unk1: 0,
                x: clamped(dx) as i32,
                y: clamped(dy) as i32,
                unk2: 0,
            },
        ),
    }
}

/// The mouse block of a button edge.
pub open spec fn mouse_click_block(button: MouseButton, pressed: bool) -> RzControl {
    RzControl {
        unk1: 0,
        data: InputData::Mouse(
            MouseInputData {
                absolute_coord: 0,
                button_flags: MouseButtons { flags: button_flag(button, pressed) },
                movement: 0,
                unk1: 0,
                x: 0,
                y: 0,
                unk2: 0,
            },
        ),
    }
}

/// The keyboard block of a key event.
pub open spec fn key_event_block(make_code: u16, pressed: bool, extended: bool) -> RzControl {
    RzControl {
        unk1: 0,
        data: InputData::Keyboard(
            KeyboardInputData {
                unit_id: 0,
                make_code,
                flags: key_flags(pressed, extended),
                reserved: 0,
                extra_information: 0,
            },
        ),
    }
}

/// Brings a coordinate into the range the driver accepts.
pub fn clamp_coordinate(v: i32) -> (c: i32)
    ensures
        c == clamped(v as int),
        -COORDINATE_LIMIT <= c <= COORDINATE_LIMIT,
{
    if v > COORDINATE_LIMIT {
        COORDINATE_LIMIT
    } else if v < -COORDINATE_LIMIT {
        -COORDINATE_LIMIT
    } else {
        v
    }
}

impl RzControl {
    /// Which arm the block holds.
    pub open spec fn type_of(self) -> Type {
        match self.data {
            InputData::Mouse(_) => Type::Mouse,
            InputData::Keyboard(_) => Type::Keyboard,
        }
    }

    /// Whether the coordinates of a mouse block are within the range the
    /// driver accepts. A keyboard block has none.
    pub open spec fn in_range(self) -> bool {
        match self.data {
            InputData::Mouse(m) => {
                &&& -COORDINATE_LIMIT <= m.x <= COORDINATE_LIMIT
                &&& -COORDINATE_LIMIT <= m.y <= COORDINATE_LIMIT
            },
            InputData::Keyboard(_) => true,
        }
    }

    /// A block of the given type with every field zero.
    pub fn new(kind: Type) -> (block: Self)
        ensures
            block.unk1 == 0,
            block.type_of() == kind,
            kind == Type::Mouse ==> block.data == InputData::Mouse(zeroed_mouse()),
            kind == Type::Keyboard ==> block.data == InputData::Keyboard(zeroed_keyboard()),
    {
        match kind {
            Type::Mouse => RzControl {
                unk1: 0,
                data: InputData::Mouse(
                    MouseInputData {
                        absolute_coord: 0,
                        button_flags: MouseButtons::new(),
                        movement: 0,
                        unk1: 0,
                        x: 0,
                        y: 0,
                        unk2: 0,
                    },
                ),
            },
            Type::Keyboard => RzControl {
                unk1: 0,
                data: InputData::Keyboard(
                    KeyboardInputData {
                        unit_id: 0,
                        make_code: 0,
                        flags: 0,
                        reserved: 0,
                        extra_information: 0,
                    },
                ),
            },
        }
    }

    /// Which arm the block holds.
    pub fn kind(&self) -> (kind: Type)
        ensures
            kind == self.type_of(),
    {
        match self.data {
            InputData::Mouse(_) => Type::Mouse,
            InputData::Keyboard(_) => Type::Keyboard,
        }
    }

    /// The mouse arm, where the block holds it.
    pub fn mouse_data(&self) -> (data: Option<&MouseInputData>)
        ensures
            match self.data {
                InputData::Mouse(m) => data == Some(&m),
                InputData::Keyboard(_) => data.is_none(),
            },
    {
        match &self.data {
            InputData::Mouse(m) => Some(m),
            InputData::Keyboard(_) => None,
        }
    }

    /// The keyboard arm, where the block holds it.
    pub fn keyboard_data(&self) -> (data: Option<&KeyboardInputData>)
        ensures
            match self.data {
                InputData::Keyboard(k) => data == Some(&k),
                InputData::Mouse(_) => data.is_none(),
            },
    {
        match &self.data {
            InputData::Keyboard(k) => Some(k),
            InputData::Mouse(_) => None,
        }
    }

    /// The mouse arm for writing, where the block holds it. A keyboard block
    /// is left as it is.
    pub fn mouse_data_mut(&mut self) -> (data: Option<&mut MouseInputData>)
        ensures
            match old(self).data {
                InputData::Mouse(m) => {
                    &&& data matches Some(r)
                    &&& *r == m
                    &&& *final(self) == (RzControl {
                        unk1: old(self).unk1,
                        data: InputData::Mouse(*final(r)),
                    })
                },
                InputData::Keyboard(_) => data.is_none() && *final(self) == *old(self),
            },
    {
        match &mut self.data {
            InputData::Mouse(m) => Some(m),
            InputData::Keyboard(_) => None,
        }
    }

    /// The keyboard arm for writing, where the block holds it. A mouse block
    /// is left as it is.
    pub fn keyboard_data_mut(&mut self) -> (data: Option<&mut KeyboardInputData>)
        ensures
            match old(self).data {
                InputData::Keyboard(k) => {
                    &&& data matches Some(r)
                    &&& *r == k
                    &&& *final(self) == (RzControl {
                        unk1: old(self).unk1,
                        data: InputData::Keyboard(*final(r)),
                    })
                },
                InputData::Mouse(_) => data.is_none() && *final(self) == *old(self),
            },
    {
        match &mut self.data {
            InputData::Keyboard(k) => Some(k),
            InputData::Mouse(_) => None,
        }
    }

    /// The block of a mouse movement. Each coordinate is clamped to
    /// [`COORDINATE_LIMIT`] on either side; the movement flag is set and no
    /// button flag is.
    pub fn new_mouse_move(dx: i32, dy: i32, absolute: bool) -> (block: Self)
        ensures
            block == mouse_move_block(dx as int, dy as int, absolute),
            block.in_range(),
    {
        let mut block = RzControl::new(Type::Mouse);
        block.data = InputData::Mouse(
            MouseInputData {
                absolute_coord: if absolute { 1 } else { 0 },
                button_flags: MouseButtons::new(),
                movement: 1,
                unk1: 0,
                x: clamp_coordinate(dx),
                y: clamp_coordinate(dy),
                unk2: 0,
            },
        );
        block
    }

    /// The block of a button going down or up. It sets the one flag of that
    /// edge and carries no movement.
    pub fn new_mouse_click(button: MouseButton, pressed: bool) -> (block: Self)
        ensures
            block == mouse_click_block(button, pressed),
    {
        let mut buttons = MouseButtons::new();
        let mask: u16 = match (button, pressed) {
            (MouseButton::Left, true) => L_BUTTON_DOWN,
            (MouseButton::Left, false) => L_BUTTON_UP,
            (MouseButton::Right, true) => R_BUTTON_DOWN,
            (MouseButton::Right, false) => R_BUTTON_UP,
            (MouseButton::Middle, true) => M_BUTTON_DOWN,
            (MouseButton::Middle, false) => M_BUTTON_UP,
            (MouseButton::X1, true) => X_BUTTON1_DOWN,
            (MouseButton::X1, false) => X_BUTTON1_UP,
            (MouseButton::X2, true) => X_BUTTON2_DOWN,
            (MouseButton::X2, false) => X_BUTTON2_UP,
        };
        buttons.set_flag(mask, true);
        assert(0u16 | mask == mask) by (bit_vector);
        let mut block = RzControl::new(Type::Mouse);
        block.data = InputData::Mouse(
            MouseInputData {
                absolute_coord: 0,
                button_flags: buttons,
                movement: 0,
                unk1: 0,
                x: 0,
                y: 0,
                unk2: 0,
            },
        );
        block
    }

    /// The block of a key going down or up. The flags say break where the
    /// key is released and carry E0 where `extended` is set.
    pub fn new_key_event(make_code: u16, pressed: bool, extended: bool) -> (block: Self)
        ensures
            block == key_event_block(make_code, pressed, extended),
    {
        let mut flags: u16 = if pressed { KEY_MAKE } else { KEY_BREAK };
        if extended {
            flags = flags | KEY_E0;
        } else {
            assert(flags | 0 == flags) by (bit_vector);
        }
        let mut block = RzControl::new(Type::Keyboard);
        block.data = InputData::Keyboard(
            KeyboardInputData {
                unit_id: 0,
                make_code,
                flags,
                reserved: 0,
                extra_information: 0,
            },
        );
        block
    }
}

/// The flags of the four kinds of key event, as numbers.
pub proof fn lemma_key_flags_values()
    ensures
        key_flags(true, false) == 0,
        key_flags(false, false) == 1,
        key_flags(true, true) == 2,
        key_flags(false, true) == 3,
{
    assert(0u16 | 0u16 == 0) by (bit_vector);
    assert(1u16 | 0u16 == 1) by (bit_vector);
    assert(0u16 | 2u16 == 2) by (bit_vector);
    assert(1u16 | 2u16 == 3) by (bit_vector);
}

/// The flag of a button edge is a single bit, none of the two wheel bits,
/// and two different edges have different flags.
pub proof fn lemma_button_flags_exclusive(
    button: MouseButton,
    pressed: bool,
    other: MouseButton,
    other_pressed: bool,
)
    ensures
        button_flag(button, pressed) != 0,
        button_flag(button, pressed) & (WHEEL | H_WHEEL) == 0,
        (button, pressed) != (other, other_pressed) ==> button_flag(button, pressed) & button_flag(
            other,
            other_pressed,
        ) == 0,
        (button, pressed) == (other, other_pressed) ==> button_flag(button, pressed)
            == button_flag(other, other_pressed),
{
    let a = button_flag(button, pressed);
    let b = button_flag(other, other_pressed);
    assert(a == 1 || a == 2 || a == 4 || a == 8 || a == 16 || a == 32 || a == 64 || a == 128 || a
        == 256 || a == 512);
    assert(b == 1 || b == 2 || b == 4 || b == 8 || b == 16 || b == 32 || b == 64 || b == 128 || b
        == 256 || b == 512);
    assert((a == 1 || a == 2 || a == 4 || a == 8 || a == 16 || a == 32 || a == 64 || a == 128 || a
        == 256 || a == 512) ==> a & (0x0400u16 | 0x0800u16) == 0) by (bit_vector);
    assert((a == 1 || a == 2 || a == 4 || a == 8 || a == 16 || a == 32 || a == 64 || a == 128 || a
        == 256 || a == 512) && (b == 1 || b == 2 || b == 4 || b == 8 || b == 16 || b == 32 || b
        == 64 || b == 128 || b == 256 || b == 512) && a != b ==> a & b == 0) by (bit_vector);
}

/// Clamping is total and even-handed: a coordinate within the limit stays,
/// one beyond it becomes the limit of its side, and the negative of a
/// coordinate is clamped to the negative of what the coordinate is clamped
/// to. Clamping twice changes nothing more.
pub proof fn lemma_clamp(v: int)
    ensures
        -COORDINATE_LIMIT <= clamped(v) <= COORDINATE_LIMIT,
        -COORDINATE_LIMIT <= v <= COORDINATE_LIMIT ==> clamped(v) == v,
        v > COORDINATE_LIMIT ==> clamped(v) == COORDINATE_LIMIT,
        v < -COORDINATE_LIMIT ==> clamped(v) == -COORDINATE_LIMIT,
        clamped(-v) == -clamped(v),
        clamped(clamped(v)) == clamped(v),
{
}

/// The block of a movement carries the clamped coordinates, the movement
/// flag and no button flag, whatever the coordinates asked for.
pub proof fn lemma_mouse_move_block(dx: int, dy: int, absolute: bool)
    ensures
        mouse_move_block(dx, dy, absolute).type_of() == Type::Mouse,
        mouse_move_block(dx, dy, absolute).in_range(),
        mouse_move_block(dx, dy, absolute).data matches InputData::Mouse(m) && {
            &&& m.x == clamped(dx)
            &&& m.y == clamped(dy)
            &&& m.movement == 1
            &&& m.button_flags.flags == 0
            &&& m.absolute_coord == (if absolute { 1u32 } else { 0u32 })
        },
{
}

} // verus!
