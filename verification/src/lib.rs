//! Userspace client logic for a kernel-mode input-injection driver.
//!
//! The crate holds everything the client decides or computes: the key
//! translation tables, the 32-byte control block and its wire layout, the
//! listing of the object directory that finds the driver's device link, and
//! the device session that sends blocks and repairs its handle after a
//! failed request. It makes no system call: the owner of a
//! [`Session`] performs each [`Command`] the session gives and reports what
//! came back as an [`Event`].
//!
//! The operations of this module start an operation on a session and give
//! its first command. A session takes one operation at a time; callers on
//! several threads share it behind a lock.

pub mod codec;
pub mod error;
pub mod key_translation;
pub mod laws;
pub mod le;
pub mod nt;
pub mod session;
pub mod types;

pub use error::{Error, InitFault, InputFault, OpenStage, TransportFailure};
pub use key_translation::{is_extended_key, usage_id_to_make_code, vk_to_usage_id};
pub use nt::{find_sym_link, DirectoryHandle};
pub use session::{Command, DeviceHandle, Event, Lifecycle, Session};
pub use types::{
    InputData, KeyboardInputData, MouseButton, MouseButtons, MouseInputData, RzControl, Type,
};

use key_translation::{
    is_covered_key, is_extended, lemma_covered_key_has_make_code,
    lemma_usage_id_zero_iff_uncovered, make_code_of, usage_id_of,
};
use session::{CommandView, EventView};
use types::{key_event_block, mouse_click_block, mouse_move_block, KEY_BREAK, KEY_E0};
use vstd::prelude::*;

verus! {

/// The block of a key event for a usage id, or the refusal of a usage id
/// that has no scan code: one whose make code is negative, be it unmapped
/// or reserved.
pub open spec fn usage_event_of(usage_id: u16, pressed: bool, extended: bool) -> Result<
    RzControl,
    Error,
> {
    let make_code = make_code_of(usage_id as int);
    if make_code < 0 {
        Err(Error::InvalidInput(InputFault::UnmappedKey))
    } else {
        Ok(key_event_block(make_code as u16, pressed, extended))
    }
}

/// The block of a key event for a virtual-key code, or why the key is
/// refused: a key that the translation does not cover is unknown, and one
/// whose usage id has no scan code is unmapped.
pub open spec fn key_event_of(vk: u8, pressed: bool) -> Result<RzControl, Error> {
    let usage_id = usage_id_of(vk as int);
    if usage_id == 0 {
        Err(Error::InvalidInput(InputFault::UnknownKey))
    } else {
        usage_event_of(usage_id as u16, pressed, is_extended(vk as int))
    }
}

/// Builds the block of a key going down or up from the key's usage id. A
/// usage id whose make code is negative is refused.
pub fn usage_event(usage_id: u16, pressed: bool, extended: bool) -> (block: Result<
    RzControl,
    Error,
>)
    ensures
        block == usage_event_of(usage_id, pressed, extended),
{
    let make_code = usage_id_to_make_code(usage_id);
    if make_code < 0 {
        return Err(Error::InvalidInput(InputFault::UnmappedKey));
    }
    Ok(RzControl::new_key_event(make_code as u16, pressed, extended))
}

/// Builds the block of a key going down or up from the key's virtual-key
/// code: the key's make code, break where it goes up, E0 where the key is
/// an extended one.
pub fn key_event(vk: u8, pressed: bool) -> (block: Result<RzControl, Error>)
    ensures
        block == key_event_of(vk, pressed),
{
    let usage_id = vk_to_usage_id(vk);
    if usage_id == 0 {
        return Err(Error::InvalidInput(InputFault::UnknownKey));
    }
    usage_event(usage_id, pressed, is_extended_key(vk))
}

/// Starts opening the device: the handle that is open is released, the
/// driver's link is looked up and the device is opened under its name.
pub fn init(session: &mut Session) -> (command: Command)
    ensures
        final(session)@ == old(session)@.next(EventView::Init),
        command@ == final(session)@.command(),
        final(session)@.wf(),
{
    session.step(&Event::Init)
}

/// Starts sending a relative mouse movement. Each delta is clamped to the
/// range the driver accepts.
pub fn mouse_move(session: &mut Session, x: i32, y: i32) -> (command: Command)
    ensures
        final(session)@ == old(session)@.next(
            EventView::Send(mouse_move_block(x as int, y as int, false)),
        ),
        command@ == final(session)@.command(),
        final(session)@.wf(),
{
    session.step(&Event::Send(RzControl::new_mouse_move(x, y, false)))
}

/// Starts sending a mouse button going down or up.
pub fn mouse_click(session: &mut Session, button: MouseButton, down: bool) -> (command: Command)
    ensures
        final(session)@ == old(session)@.next(EventView::Send(mouse_click_block(button, down))),
        command@ == final(session)@.command(),
        final(session)@.wf(),
{
    session.step(&Event::Send(RzControl::new_mouse_click(button, down)))
}

fn send_keyboard_input(session: &mut Session, vk: u8, is_down: bool) -> (command: Command)
    ensures
        match key_event_of(vk, is_down) {
            Ok(block) => {
                &&& final(session)@ == old(session)@.next(EventView::Send(block))
                &&& command@ == final(session)@.command()
            },
            Err(error) => {
                &&& final(session)@ == old(session)@
                &&& command@ == CommandView::Finish(Err(error))
            },
        },
{
    match key_event(vk, is_down) {
        Ok(block) => session.step(&Event::Send(block)),
        Err(error) => Command::Finish(Err(error)),
    }
}

/// Starts sending a key press. A key that cannot be translated is refused
/// at once: the session is left as it is and the command is the end of the
/// operation with the error.
pub fn key_down(session: &mut Session, vk: u8) -> (command: Command)
    ensures
        match key_event_of(vk, true) {
            Ok(block) => {
                &&& final(session)@ == old(session)@.next(EventView::Send(block))
                &&& command@ == final(session)@.command()
            },
            Err(error) => {
                &&& final(session)@ == old(session)@
                &&& command@ == CommandView::Finish(Err(error))
            },
        },
{
    send_keyboard_input(session, vk, true)
}

/// Starts sending a key release. A key that cannot be translated is refused
/// at once: the session is left as it is and the command is the end of the
/// operation with the error.
pub fn key_up(session: &mut Session, vk: u8) -> (command: Command)
    ensures
        match key_event_of(vk, false) {
            Ok(block) => {
                &&& final(session)@ == old(session)@.next(EventView::Send(block))
                &&& command@ == final(session)@.command()
            },
            Err(error) => {
                &&& final(session)@ == old(session)@
                &&& command@ == CommandView::Finish(Err(error))
            },
        },
{
    send_keyboard_input(session, vk, false)
}

/// Starts releasing the handle. A session that holds none is left as it is
/// and the operation ends at once.
pub fn close(session: &mut Session) -> (command: Command)
    ensures
        final(session)@ == old(session)@.next(EventView::Close),
        command@ == final(session)@.command(),
        final(session)@.wf(),
{
    session.step(&Event::Close)
}

/// A key event is built exactly for the keys that the translation covers;
/// every other key is refused as unknown. The block holds the key's make
/// code, which fits in one byte.
pub proof fn lemma_key_event_iff_covered(vk: u8, pressed: bool)
    ensures
        is_covered_key(vk as int) ==> key_event_of(vk, pressed) == Ok::<RzControl, Error>(
            key_event_block(
                make_code_of(usage_id_of(vk as int)) as u16,
                pressed,
                is_extended(vk as int),
            ),
        ) && 0 < make_code_of(usage_id_of(vk as int)) <= 255,
        !is_covered_key(vk as int) ==> key_event_of(vk, pressed) == Err::<RzControl, Error>(
            Error::InvalidInput(InputFault::UnknownKey),
        ),
{
    lemma_usage_id_zero_iff_uncovered(vk as int);
    if is_covered_key(vk as int) {
        lemma_covered_key_has_make_code(vk as int);
    }
}

/// A press and a release of one key differ in the break flag and in nothing
/// else.
pub proof fn lemma_release_differs_in_break_flag(vk: u8)
    requires
        is_covered_key(vk as int),
    ensures
        key_event_of(vk, true) matches Ok(RzControl { unk1: 0, data: InputData::Keyboard(down) })
            && key_event_of(vk, false) matches Ok(
            RzControl { unk1: 0, data: InputData::Keyboard(up) },
        ) && {
            &&& up.make_code == down.make_code
            &&& up.flags == down.flags | KEY_BREAK
            &&& down.flags & KEY_BREAK == 0
            &&& down.flags & KEY_E0 == up.flags & KEY_E0
            &&& (down.flags & KEY_E0 != 0) == is_extended(vk as int)
        },
{
    lemma_key_event_iff_covered(vk, true);
    lemma_key_event_iff_covered(vk, false);
    assert(0u16 | 0u16 == 0) by (bit_vector);
    assert(1u16 | 0u16 == 1) by (bit_vector);
    assert(0u16 | 2u16 == 2) by (bit_vector);
    assert(1u16 | 2u16 == 3) by (bit_vector);
    assert(0u16 | 1u16 == 1) by (bit_vector);
    assert(2u16 | 1u16 == 3) by (bit_vector);
    assert(0u16 & 1u16 == 0) by (bit_vector);
    assert(2u16 & 1u16 == 0) by (bit_vector);
    assert(0u16 & 2u16 == 0) by (bit_vector);
    assert(1u16 & 2u16 == 0) by (bit_vector);
    assert(2u16 & 2u16 == 2) by (bit_vector);
    assert(3u16 & 2u16 == 2) by (bit_vector);
}

} // verus!
