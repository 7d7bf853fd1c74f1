//! Translation of key identifiers: platform virtual-key codes to USB-HID
//! usage ids, and usage ids to the driver's make codes.

use vstd::prelude::*;

verus! {

/// Number of usage ids covered by the dense table.
pub const USAGE_ID_TABLE_LEN: u16 = 149;

/// Make code meaning "this usage id has no mapping".
pub const UNMAPPED: i16 = -1;

/// The dense table: the make code of each usage id below
/// [`USAGE_ID_TABLE_LEN`], in order.
pub open spec fn usage_id_table() -> Seq<int> {
    seq![
        -1int, 255, 252, -3, 30, 48, 46, 32, 18, 33, 34, 35, 23, 36, 37, 38, 50, 49,
        24, 25, 16, 19, 31, 20, 22, 47, 17, 45, 21, 44, 2, 3, 4, 5, 6, 7, 8, 9,
        10, 11, 28, 1, 14, 15, 57, 12, 13, 26, 27, 43, 43, 39, 40, 41, 51, 52, 53,
        58, 59, 60, 61, 62, 63, 64, 65, 66, 67, 68, 87, 88, 55, 70, 29, 82, 71, 73,
        83, 79, 81, 77, 75, 80, 72, 69, 53, 55, 74, 78, 28, 79, 80, 81, 75, 76, 77,
        71, 72, 73, 82, 83, 86, 93, 94, 89, 100, 101, 102, 103, 104, 105, 106, 107,
        108, 109, 110, 118, -3, -3, -3, -3, -3, -3, -3, -3, -3, -3, -3, -3, -3,
        94, 95, 99, -3, 126, -3, 115, 112, 125, 121, 123, 92, -3, -3, -3, 242,
        241, 120, 119, 118,
    ]
}

/// Make codes of the usage ids 181 to 183.
pub open spec fn media_table() -> Seq<int> {
    seq![25int, 16, 36]
}

/// Make codes of the usage ids 224 to 234, the modifier keys.
pub open spec fn modifier_table() -> Seq<int> {
    seq![29int, 42, 56, 91, 29, 54, 56, 92, -2, 48, 46]
}

/// The make code of a usage id: the dense table below its length, then the
/// three sparse ranges, and [`UNMAPPED`] everywhere else.
pub open spec fn make_code_of(usage_id: int) -> int {
    if 0 <= usage_id < USAGE_ID_TABLE_LEN {
        usage_id_table()[usage_id]
    } else if 181 <= usage_id <= 183 {
        media_table()[usage_id - 181]
    } else if usage_id == 205 {
        34
    } else if 224 <= usage_id <= 234 {
        modifier_table()[usage_id - 224]
    } else {
        -1
    }
}

/// Maps a USB-HID usage id to the driver's make code. A negative result is
/// no scan code: -1 says that the usage id is unmapped, the other negative
/// values are codes the driver reserves.
pub fn usage_id_to_make_code(usage_id: u16) -> (make_code: i16)
    ensures
        make_code == make_code_of(usage_id as int),
{
    if usage_id < USAGE_ID_TABLE_LEN {
        let table: [i16; 149] = [
            -1, 255, 252, -3, 30, 48, 46, 32, 18, 33, 34, 35, 23, 36, 37, 38, 50, 49,
            24, 25, 16, 19, 31, 20, 22, 47, 17, 45, 21, 44, 2, 3, 4, 5, 6, 7, 8, 9,
            10, 11, 28, 1, 14, 15, 57, 12, 13, 26, 27, 43, 43, 39, 40, 41, 51, 52, 53,
            58, 59, 60, 61, 62, 63, 64, 65, 66, 67, 68, 87, 88, 55, 70, 29, 82, 71, 73,
            83, 79, 81, 77, 75, 80, 72, 69, 53, 55, 74, 78, 28, 79, 80, 81, 75, 76, 77,
            71, 72, 73, 82, 83, 86, 93, 94, 89, 100, 101, 102, 103, 104, 105, 106, 107,
            108, 109, 110, 118, -3, -3, -3, -3, -3, -3, -3, -3, -3, -3, -3, -3, -3,
            94, 95, 99, -3, 126, -3, 115, 112, 125, 121, 123, 92, -3, -3, -3, 242,
            241, 120, 119, 118,
        ];
        table[usage_id as usize]
    } else if 181 <= usage_id && usage_id <= 183 {
        let table: [i16; 3] = [25, 16, 36];
        table[(usage_id - 181) as usize]
    } else if usage_id == 205 {
        34
    } else if 224 <= usage_id && usage_id <= 234 {
        let table: [i16; 11] = [29, 42, 56, 91, 29, 54, 56, 92, -2, 48, 46];
        table[(usage_id - 224) as usize]
    } else {
        UNMAPPED
    }
}

/// Whether a virtual-key code is one of the control, navigation, editing or
/// meta keys that are translated one by one.
pub open spec fn is_listed_key(vk: int) -> bool {
    listed_key_usage().dom().contains(vk)
}

/// The usage ids of the keys that are translated one by one.
pub open spec fn listed_key_usage() -> Map<int, int> {
    map![
        0x08 => 42,
        0x09 => 43,
        0x0D => 40,
        0x10 => 225,
        0x11 => 224,
        0x12 => 226,
        0x13 => 72,
        0x14 => 57,
        0x1B => 41,
        0x20 => 44,
        0x21 => 75,
        0x22 => 78,
        0x23 => 77,
        0x24 => 74,
        0x25 => 80,
        0x26 => 82,
        0x27 => 79,
        0x28 => 81,
        0x2D => 76,
        0x2E => 73,
        0x5B => 227,
        0x5C => 231,
    ]
}

/// The usage id of a virtual-key code: the listed keys one by one, the
/// digits, letters and function keys by their offset from the first of their
/// row, and 0 for every other key.
pub open spec fn usage_id_of(vk: int) -> int {
    if is_listed_key(vk) {
        listed_key_usage()[vk]
    } else if 0x30 <= vk <= 0x39 {
        vk - 0x30 + 29
    } else if 0x41 <= vk <= 0x5A {
        vk - 0x41 + 4
    } else if 0x70 <= vk <= 0x7B {
        vk - 0x70 + 58
    } else {
        0
    }
}

/// Maps a virtual-key code to a USB-HID usage id. The result 0 says that
/// the key is not covered; it is no usage id.
pub fn vk_to_usage_id(vk: u8) -> (usage_id: u16)
    ensures
        usage_id == usage_id_of(vk as int),
{
    match vk {
        0x08 => 42,  // Backspace
        0x09 => 43,  // Tab
        0x0D => 40,  // Enter
        0x10 => 225,  // Shift
        0x11 => 224,  // Control
        0x12 => 226,  // Alt
        0x13 => 72,  // Pause
        0x14 => 57,  // Caps Lock
        0x1B => 41,  // Escape
        0x20 => 44,  // Space
        0x21 => 75,  // Page Up
        0x22 => 78,  // Page Down
        0x23 => 77,  // End
        0x24 => 74,  // Home
        0x25 => 80,  // Left Arrow
        0x26 => 82,  // Up Arrow
        0x27 => 79,  // Right Arrow
        0x28 => 81,  // Down Arrow
        0x2D => 76,  // Insert
        0x2E => 73,  // Delete
        0x5B => 227,  // Left Win
        0x5C => 231,  // Right Win
        _ => {
            let wide: u16 = vk as u16;
            if 0x30 <= vk && vk <= 0x39 {
                wide - 0x30 + 29
            } else if 0x41 <= vk && vk <= 0x5A {
                wide - 0x41 + 4
            } else if 0x70 <= vk && vk <= 0x7B {
                wide - 0x70 + 58
            } else {
                0
            }
        },
    }
}

/// The virtual-key codes that need the extended-key flag: the navigation
/// block, Insert, Delete and the two Windows keys.
pub open spec fn is_extended(vk: int) -> bool {
    ||| 0x21 <= vk <= 0x28
    ||| vk == 0x2D
    ||| vk == 0x2E
    ||| vk == 0x5B
    ||| vk == 0x5C
}

/// Whether a key event for this virtual-key code must carry the extended-key
/// flag. The answer does not depend on the translation tables and goes
/// beside the make code, never in its place.
pub fn is_extended_key(vk: u8) -> (extended: bool)
    ensures
        extended == is_extended(vk as int),
{
    (0x21 <= vk && vk <= 0x28) || vk == 0x2D || vk == 0x2E || vk == 0x5B || vk == 0x5C
}

/// Whether a virtual-key code is covered by the translation.
pub open spec fn is_covered_key(vk: int) -> bool {
    ||| is_listed_key(vk)
    ||| 0x30 <= vk <= 0x39
    ||| 0x41 <= vk <= 0x5A
    ||| 0x70 <= vk <= 0x7B
}

/// A key is given the usage id 0 exactly when it is not covered.
pub proof fn lemma_usage_id_zero_iff_uncovered(vk: int)
    ensures
        usage_id_of(vk) == 0 <==> !is_covered_key(vk),
{
}

/// Every covered key translates to a usage id that has a scan code: its
/// make code is positive and fits in one byte.
pub proof fn lemma_covered_key_has_make_code(vk: int)
    requires
        is_covered_key(vk),
    ensures
        0 < make_code_of(usage_id_of(vk)) <= 255,
{
}

/// Every extended key is covered by the translation.
pub proof fn lemma_extended_key_is_covered(vk: int)
    requires
        is_extended(vk),
    ensures
        is_covered_key(vk),
{
}

/// The make codes of the sparse ranges, one by one, and of every usage id
/// that is in no range.
pub proof fn lemma_sparse_make_codes(usage_id: int)
    ensures
        make_code_of(181) == 25,
        make_code_of(182) == 16,
        make_code_of(183) == 36,
        make_code_of(205) == 34,
        224 <= usage_id <= 234 ==> make_code_of(usage_id) == modifier_table()[usage_id - 224],
        usage_id < 0 || (usage_id >= USAGE_ID_TABLE_LEN && !(181 <= usage_id <= 183) && usage_id
            != 205 && !(224 <= usage_id <= 234)) ==> make_code_of(usage_id) == UNMAPPED,
{
}

/// Digits, letters and function keys are translated by their offset from
/// the first key of their row.
pub proof fn lemma_offset_keys(vk: int)
    ensures
        0x30 <= vk <= 0x39 ==> usage_id_of(vk) == vk - 0x30 + 29,
        0x41 <= vk <= 0x5A ==> usage_id_of(vk) == vk - 0x41 + 4,
        0x70 <= vk <= 0x7B ==> usage_id_of(vk) == vk - 0x70 + 58,
{
}

} // verus!
