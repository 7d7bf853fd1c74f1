//! The wire layout of a control block: 32 bytes, little-endian, read by the
//! driver at fixed offsets.
//!
//! | offset | size | field                                  |
//! |--------|------|----------------------------------------|
//! | 0      | 4    | `unk1`                                 |
//! | 4      | 4    | type tag                               |
//! | 8      | 24   | the mouse arm, or the keyboard arm     |
//!
//! The mouse arm fills its 24 bytes: `absolute_coord` (4), `button_flags`
//! (2), `movement` (2), `unk1` (4), `x` (4), `y` (4), `unk2` (4). The
//! keyboard arm takes 12: `unit_id` (2), `make_code` (2), `flags` (2),
//! `reserved` (2), `extra_information` (4); the 12 bytes behind it are zero.

use crate::le::{
    get_i16, get_i32, get_u16, get_u32, le16, le32, lemma_le16_reads_back, lemma_le16_writes_back,
    lemma_le32_reads_back, lemma_le32_writes_back,
    pattern16, pattern32, put_i16, put_i32, put_u16, put_u32, signed16, signed32, u16_at, u32_at,
};
use crate::types::{InputData, KeyboardInputData, MouseButtons, MouseInputData, RzControl, Type};
use vstd::prelude::*;

verus! {

/// Size of a control block on the wire, in bytes.
pub const CONTROL_BLOCK_SIZE: usize = 32;

/// Size of the button flags on the wire, in bytes.
pub const BUTTON_FLAGS_SIZE: usize = 2;

impl MouseButtons {
    /// The flags on the wire.
    pub open spec fn wire(self) -> Seq<u8> {
        le16(self.flags as int)
    }
}

impl MouseInputData {
    /// The mouse arm on the wire.
    pub open spec fn wire(self) -> Seq<u8> {
        le32(self.absolute_coord as int) + self.button_flags.wire() + le16(
            pattern16(self.movement as int),
        ) + le32(self.unk1 as int) + le32(pattern32(self.x as int)) + le32(
            pattern32(self.y as int),
        ) + le32(self.unk2 as int)
    }
}

impl KeyboardInputData {
    /// The keyboard arm on the wire, with the zero bytes behind it.
    pub open spec fn wire(self) -> Seq<u8> {
        le16(self.unit_id as int) + le16(self.make_code as int) + le16(self.flags as int) + le16(
            self.reserved as int,
        ) + le32(self.extra_information as int) + Seq::new(12, |i: int| 0u8)
    }
}

impl RzControl {
    /// The block on the wire.
    pub open spec fn wire(self) -> Seq<u8> {
        le32(self.unk1 as int) + le32(self.type_of().tag() as int) + match self.data {
            InputData::Mouse(m) => m.wire(),
            InputData::Keyboard(k) => k.wire(),
        }
    }
}

/// The mouse arm that 24 bytes at offset 8 stand for.
pub open spec fn mouse_at(s: Seq<u8>) -> MouseInputData {
    MouseInputData {
        absolute_coord: u32_at(s, 8) as u32,
        button_flags: MouseButtons { flags: u16_at(s, 12) as u16 },
        movement: signed16(u16_at(s, 14)) as i16,
        unk1: u32_at(s, 16) as u32,
        x: signed32(u32_at(s, 20)) as i32,
        y: signed32(u32_at(s, 24)) as i32,
        unk2: u32_at(s, 28) as u32,
    }
}

/// The keyboard arm that 12 bytes at offset 8 stand for.
pub open spec fn keyboard_at(s: Seq<u8>) -> KeyboardInputData {
    KeyboardInputData {
        unit_id: u16_at(s, 8) as u16,
        make_code: u16_at(s, 10) as u16,
        flags: u16_at(s, 12) as u16,
        reserved: u16_at(s, 14) as u16,
        extra_information: u32_at(s, 16) as u32,
    }
}

/// The block that a byte string stands for: none unless it has 32 bytes and
/// one of the two type tags. The 12 bytes behind a keyboard arm are not
/// read.
pub open spec fn parsed(s: Seq<u8>) -> Option<RzControl> {
    if s.len() != CONTROL_BLOCK_SIZE {
        None
    } else if u32_at(s, 4) == Type::Mouse.tag() {
        Some(RzControl { unk1: u32_at(s, 0) as u32, data: InputData::Mouse(mouse_at(s)) })
    } else if u32_at(s, 4) == Type::Keyboard.tag() {
        Some(RzControl { unk1: u32_at(s, 0) as u32, data: InputData::Keyboard(keyboard_at(s)) })
    } else {
        None
    }
}

impl RzControl {
    /// The block as the driver reads it: 32 bytes in the layout of this
    /// module.
    pub fn encode(&self) -> (bytes: Vec<u8>)
        ensures
            bytes@ == self.wire(),
            bytes@.len() == CONTROL_BLOCK_SIZE,
    {
        let mut out: Vec<u8> = Vec::new();
        put_u32(&mut out, self.unk1);
        put_u32(&mut out, self.kind().code());
        match self.data {
            InputData::Mouse(m) => {
                put_u32(&mut out, m.absolute_coord);
                put_u16(&mut out, m.button_flags.flags);
                put_i16(&mut out, m.movement);
                put_u32(&mut out, m.unk1);
                put_i32(&mut out, m.x);
                put_i32(&mut out, m.y);
                put_u32(&mut out, m.unk2);
                assert(out@ =~= self.wire());
            },
            InputData::Keyboard(k) => {
                put_u16(&mut out, k.unit_id);
                put_u16(&mut out, k.make_code);
                put_u16(&mut out, k.flags);
                put_u16(&mut out, k.reserved);
                put_u32(&mut out, k.extra_information);
                let ghost head = out@;
                let mut n: usize = 0;
                while n < 12
                    invariant
                        n <= 12,
                        out@ == head + Seq::new(n as nat, |i: int| 0u8),
                    decreases 12 - n,
                {
                    out.push(0);
                    n = n + 1;
                    assert(out@ =~= head + Seq::new(n as nat, |i: int| 0u8));
                }
                assert(out@ =~= self.wire());
            },
        }
        out
    }

    /// Reads a block from the bytes the driver would be given. There is a
    /// block exactly where there are 32 bytes and the type tag is 1 or 2.
    pub fn decode(bytes: &[u8]) -> (block: Option<Self>)
        ensures
            block == parsed(bytes@),
    {
        if bytes.len() != CONTROL_BLOCK_SIZE {
            return None;
        }
        let unk1 = get_u32(bytes, 0);
        let tag = get_u32(bytes, 4);
        if tag == Type::Mouse.code() {
            Some(
                RzControl {
                    unk1,
                    data: InputData::Mouse(
                        MouseInputData {
                            absolute_coord: get_u32(bytes, 8),
                            button_flags: MouseButtons { flags: get_u16(bytes, 12) },
                            movement: get_i16(bytes, 14),
                            unk1: get_u32(bytes, 16),
                            x: get_i32(bytes, 20),
                            y: get_i32(bytes, 24),
                            unk2: get_u32(bytes, 28),
                        },
                    ),
                },
            )
        } else if tag == Type::Keyboard.code() {
            Some(
                RzControl {
                    unk1,
                    data: InputData::Keyboard(
                        KeyboardInputData {
                            unit_id: get_u16(bytes, 8),
                            make_code: get_u16(bytes, 10),
                            flags: get_u16(bytes, 12),
                            reserved: get_u16(bytes, 14),
                            extra_information: get_u32(bytes, 16),
                        },
                    ),
                },
            )
        } else {
            None
        }
    }
}

/// Every block takes exactly 32 bytes on the wire, whichever arm it holds,
/// and the button flags take exactly 2.
pub proof fn lemma_wire_size(block: RzControl, buttons: MouseButtons)
    ensures
        block.wire().len() == CONTROL_BLOCK_SIZE,
        buttons.wire().len() == BUTTON_FLAGS_SIZE,
{
}

/// Reading back what was written gives the block that was written.
pub proof fn lemma_decode_encode(block: RzControl)
    ensures
        parsed(block.wire()) == Some(block),
{
    let s = block.wire();
    lemma_wire_size(block, MouseButtons { flags: 0 });
    assert(s.subrange(0, 4) =~= le32(block.unk1 as int));
    lemma_le32_reads_back(block.unk1 as int, s, 0);
    assert(s.subrange(4, 8) =~= le32(block.type_of().tag() as int));
    lemma_le32_reads_back(block.type_of().tag() as int, s, 4);
    match block.data {
        InputData::Mouse(m) => {
            assert(s.subrange(8, 12) =~= le32(m.absolute_coord as int));
            lemma_le32_reads_back(m.absolute_coord as int, s, 8);
            assert(s.subrange(12, 14) =~= le16(m.button_flags.flags as int));
            lemma_le16_reads_back(m.button_flags.flags as int, s, 12);
            assert(s.subrange(14, 16) =~= le16(pattern16(m.movement as int)));
            lemma_le16_reads_back(pattern16(m.movement as int), s, 14);
            assert(s.subrange(16, 20) =~= le32(m.unk1 as int));
            lemma_le32_reads_back(m.unk1 as int, s, 16);
            assert(s.subrange(20, 24) =~= le32(pattern32(m.x as int)));
            lemma_le32_reads_back(pattern32(m.x as int), s, 20);
            assert(s.subrange(24, 28) =~= le32(pattern32(m.y as int)));
            lemma_le32_reads_back(pattern32(m.y as int), s, 24);
            assert(s.subrange(28, 32) =~= le32(m.unk2 as int));
            lemma_le32_reads_back(m.unk2 as int, s, 28);
            assert(mouse_at(s) == m);
        },
        InputData::Keyboard(k) => {
            assert(s.subrange(8, 10) =~= le16(k.unit_id as int));
            lemma_le16_reads_back(k.unit_id as int, s, 8);
            assert(s.subrange(10, 12) =~= le16(k.make_code as int));
            lemma_le16_reads_back(k.make_code as int, s, 10);
            assert(s.subrange(12, 14) =~= le16(k.flags as int));
            lemma_le16_reads_back(k.flags as int, s, 12);
            assert(s.subrange(14, 16) =~= le16(k.reserved as int));
            lemma_le16_reads_back(k.reserved as int, s, 14);
            assert(s.subrange(16, 20) =~= le32(k.extra_information as int));
            lemma_le32_reads_back(k.extra_information as int, s, 16);
            assert(keyboard_at(s) == k);
        },
    }
}

/// Writing what was read gives the bytes that were read: all 32 for a
/// mouse block, and for a keyboard block the 20 that the keyboard arm takes,
/// followed by zeros.
pub proof fn lemma_encode_decode(s: Seq<u8>, block: RzControl)
    requires
        parsed(s) == Some(block),
    ensures
        block.data is Mouse ==> block.wire() == s,
        block.data is Keyboard ==> block.wire() == s.subrange(0, 20) + Seq::new(12, |i: int| 0u8),
{
    lemma_le32_writes_back(s, 0);
    lemma_le32_writes_back(s, 4);
    match block.data {
        InputData::Mouse(m) => {
            lemma_le32_writes_back(s, 8);
            lemma_le16_writes_back(s, 12);
            lemma_le16_writes_back(s, 14);
            lemma_le32_writes_back(s, 16);
            lemma_le32_writes_back(s, 20);
            lemma_le32_writes_back(s, 24);
            lemma_le32_writes_back(s, 28);
            assert(pattern16(m.movement as int) == u16_at(s, 14));
            assert(pattern32(m.x as int) == u32_at(s, 20));
            assert(pattern32(m.y as int) == u32_at(s, 24));
            assert(block.wire() =~= s.subrange(0, 4) + s.subrange(4, 8) + s.subrange(8, 12)
                + s.subrange(12, 14) + s.subrange(14, 16) + s.subrange(16, 20) + s.subrange(20, 24)
                + s.subrange(24, 28) + s.subrange(28, 32));
            assert(block.wire() =~= s);
        },
        InputData::Keyboard(k) => {
            lemma_le16_writes_back(s, 8);
            lemma_le16_writes_back(s, 10);
            lemma_le16_writes_back(s, 12);
            lemma_le16_writes_back(s, 14);
            lemma_le32_writes_back(s, 16);
            assert(block.wire() =~= s.subrange(0, 4) + s.subrange(4, 8) + s.subrange(8, 10)
                + s.subrange(10, 12) + s.subrange(12, 14) + s.subrange(14, 16) + s.subrange(16, 20)
                + Seq::new(12, |i: int| 0u8));
            assert(block.wire() =~= s.subrange(0, 20) + Seq::new(12, |i: int| 0u8));
        },
    }
}

} // verus!
