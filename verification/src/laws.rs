//! What holds of every session, whatever the system answers.

use crate::codec::{lemma_wire_size, CONTROL_BLOCK_SIZE};
use crate::error::{Error, InitFault, TransportFailure};
use crate::nt::{
    first_match, is_substring, lists, DirectoryHandle, DirectoryScan, QueryReplyView,
};
use crate::session::{
    device_path, link_fragment, ActivityView, CommandView, DeviceHandle, EventView, Purpose,
    SessionView, E_HANDLE, RAZER_IOCTL_CODE,
};
use crate::types::MouseButtons;
use vstd::prelude::*;

verus! {

impl SessionView {
    /// The place of the outstanding command in the order of an operation:
    /// the request first, then the five steps of opening the device, then
    /// the end.
    pub open spec fn stage(self) -> nat {
        match self.activity {
            ActivityView::Delivering { .. } => 0,
            ActivityView::ClosingDevice => 1,
            ActivityView::OpeningDirectory => 2,
            ActivityView::Scanning { .. } => 3,
            ActivityView::ClosingDirectory { .. } => 4,
            ActivityView::OpeningDevice { .. } => 5,
            ActivityView::Done(_) => 6,
        }
    }

    /// Whether the device is being opened to repair a session whose request
    /// failed with `transport`.
    pub open spec fn repairing(self, transport: i32) -> bool {
        self.opening() && self.purpose == (Purpose::Repair { transport })
    }

    /// Whether the session has ended an operation in failure and holds no
    /// handle.
    pub open spec fn failed(self) -> bool {
        self.activity matches ActivityView::Done(Err(_)) && !self.handle.valid()
    }

    /// The session after the operation in progress has been told these
    /// events, one after the other, up to its end: events behind the end of
    /// the operation are not read.
    pub open spec fn run(self, events: Seq<EventView>) -> SessionView
        decreases events.len(),
    {
        if events.len() == 0 || self.idle() {
            self
        } else {
            self.next(events[0]).run(events.skip(1))
        }
    }
}

/// An operation only moves forward: no event takes it back to a step it has
/// passed, and the only step that is taken more than once is the query of
/// the directory. While the device is being opened, what it is opened for
/// stays.
pub proof fn lemma_operation_moves_forward(session: SessionView, event: EventView)
    requires
        session.wf(),
        !session.idle(),
    ensures
        session.next(event).stage() >= session.stage(),
        session.next(event).stage() == session.stage() ==> session.next(event) == session
            || session.activity is Scanning,
        session.opening() ==> session.next(event).purpose == session.purpose,
{
}

/// A request that succeeds ends the operation in success and leaves the
/// handle as it was. A request that fails starts the opening of the device
/// as a repair that remembers the failure, beginning with the release of
/// the handle the request was made on.
pub proof fn lemma_failed_request_starts_repair(session: SessionView, result: Result<(), i32>)
    requires
        session.wf(),
        session.activity is Delivering,
    ensures
        result is Ok ==> session.next(EventView::Delivered(result)) == (SessionView {
            activity: ActivityView::Done(Ok(())),
            ..session
        }),
        result matches Err(code) ==> {
            let after = session.next(EventView::Delivered(result));
            &&& after.repairing(code)
            &&& after.activity is ClosingDevice
            &&& after.handle == session.handle
        },
{
}

/// A block that is to be sent while no handle is open is not sent: the
/// device is opened instead, as the repair of a request that failed for
/// want of a handle.
pub proof fn lemma_send_without_handle_opens_device(session: SessionView, event: EventView)
    requires
        session.wf(),
        session.idle(),
        !session.handle.valid(),
        event is Send,
    ensures
        session.next(event).repairing(E_HANDLE),
        session.next(event).activity is OpeningDirectory,
{
}

/// One event of a repair: the repair goes on, no further back than it was,
/// or it ends. Where it ends in success the session holds an open handle;
/// where it ends in failure the session holds none and the error carries
/// both the failure of the request and the reason the device could not be
/// opened. A repair never sends the block again and never starts a second
/// repair.
pub proof fn lemma_repair_step(session: SessionView, transport: i32, event: EventView)
    requires
        session.wf(),
        session.repairing(transport),
    ensures
        ({
            let after = session.next(event);
            ||| after.repairing(transport) && after.stage() >= session.stage()
            ||| after.activity == ActivityView::Done(Ok(())) && after.handle.valid()
            ||| {
                &&& after.activity matches ActivityView::Done(
                    Err(Error::ReinitFailure { transport: failure, .. }),
                )
                &&& failure.code == transport
                &&& after.failed()
            }
        }),
{
}

/// However the system answers, a repair that has begun either is still the
/// same repair, or has ended in success with an open handle, or has ended
/// in a failure that carries both the failure of the request and the reason
/// the device could not be opened.
pub proof fn lemma_repair_run(session: SessionView, transport: i32, events: Seq<EventView>)
    requires
        session.wf(),
        session.repairing(transport),
    ensures
        session.run(events).wf(),
        ({
            let after = session.run(events);
            ||| after.repairing(transport) && after.stage() >= session.stage()
            ||| after.activity == ActivityView::Done(Ok(())) && after.handle.valid()
            ||| {
                &&& after.activity matches ActivityView::Done(
                    Err(Error::ReinitFailure { transport: failure, .. }),
                )
                &&& failure.code == transport
                &&& after.failed()
            }
        }),
    decreases events.len(),
{
    if events.len() > 0 {
        lemma_repair_step(session, transport, events[0]);
        let after = session.next(events[0]);
        if after.repairing(transport) {
            lemma_repair_run(after, transport, events.skip(1));
        }
    }
}

/// However the system answers, a request that failed is followed by one
/// repair and no second request: the operation either is in that repair, or
/// has ended in success with an open handle, or has ended in a failure that
/// carries both failures.
pub proof fn lemma_failed_send_run(session: SessionView, code: i32, events: Seq<EventView>)
    requires
        session.wf(),
        session.activity is Delivering,
        events.len() > 0,
        events[0] == EventView::Delivered(Err(code)),
    ensures
        ({
            let after = session.run(events);
            ||| after.repairing(code)
            ||| after.activity == ActivityView::Done(Ok(())) && after.handle.valid()
            ||| {
                &&& after.activity matches ActivityView::Done(
                    Err(Error::ReinitFailure { transport, .. }),
                )
                &&& transport.code == code
                &&& after.failed()
            }
        }),
{
    lemma_failed_request_starts_repair(session, Err(code));
    lemma_repair_run(session.next(events[0]), code, events.skip(1));
}

/// However the system answers, an initialization that was asked for either
/// is still in progress, or has ended in success with an open handle, or
/// has ended without a handle in the error that says why the device could
/// not be opened.
pub proof fn lemma_init_run(session: SessionView, events: Seq<EventView>)
    requires
        session.wf(),
        session.opening(),
        session.purpose == Purpose::Init,
    ensures
        session.run(events).wf(),
        ({
            let after = session.run(events);
            ||| after.opening() && after.purpose == Purpose::Init && after.stage()
                >= session.stage()
            ||| after.activity == ActivityView::Done(Ok(())) && after.handle.valid()
            ||| {
                &&& after.activity matches ActivityView::Done(Err(error))
                &&& error == Error::NotFound || error is PermissionOrOpenFailure
                &&& after.failed()
            }
        }),
    decreases events.len(),
{
    if events.len() > 0 {
        let after = session.next(events[0]);
        if after.opening() {
            lemma_init_run(after, events.skip(1));
        }
    }
}

/// A session that has failed to open the device opens it again at the next
/// block that is to be sent, and at the next initialization, without
/// releasing a handle it does not hold.
pub proof fn lemma_failure_is_repaired_on_next_use(session: SessionView, event: EventView)
    requires
        session.wf(),
        session.failed(),
        event is Send || event is Init,
    ensures
        session.next(event).activity is OpeningDirectory,
{
}

/// The listing of the directory ends in one way only: by the release of the
/// directory handle it was made on. Until that handle is released no other
/// command is given.
pub proof fn lemma_directory_is_released(session: SessionView, event: EventView)
    requires
        session.wf(),
    ensures
        session.activity matches ActivityView::Scanning { dir, .. } ==> {
            ||| session.next(event).activity matches ActivityView::Scanning { dir: same, .. }
                && same == dir
            ||| session.next(event).command() == (CommandView::CloseDirectory { dir })
        },
        session.activity matches ActivityView::ClosingDirectory { dir, .. } ==> {
            ||| event == EventView::DirectoryClosed
            ||| session.next(event).command() == (CommandView::CloseDirectory { dir })
        },
{
}

/// A handle is released once: only a handle that is open is released, and
/// once it is, the session holds none.
pub proof fn lemma_handle_is_released_once(session: SessionView)
    requires
        session.wf(),
    ensures
        session.command() matches CommandView::CloseDevice { handle } ==> {
            &&& handle.valid()
            &&& handle == session.handle
            &&& session.next(EventView::DeviceClosed).handle == (DeviceHandle { raw: 0 })
            &&& !(session.next(EventView::DeviceClosed).command() is CloseDevice)
        },
{
}

/// A request is made only on an open handle, with the driver's request code
/// and a body of exactly 32 bytes.
pub proof fn lemma_request_shape(session: SessionView)
    requires
        session.wf(),
    ensures
        session.command() matches CommandView::Deliver { handle, request, bytes, reply_size } ==> {
            &&& handle.valid()
            &&& request == RAZER_IOCTL_CODE
            &&& bytes.len() == CONTROL_BLOCK_SIZE
            &&& reply_size == 0
        },
{
    match session.activity {
        ActivityView::Delivering { block } => {
            lemma_wire_size(block, MouseButtons { flags: 0 });
        },
        _ => {},
    }
}

/// An event that does not answer the outstanding command changes nothing;
/// a request made while an operation is in progress is such an event.
pub proof fn lemma_stray_event_changes_nothing(session: SessionView, event: EventView)
    requires
        !session.idle(),
        event is Init || event is Send || event is Close,
    ensures
        session.next(event) == session,
{
}

/// The reason of a failed initialization is kept as it is inside the error
/// of a failed repair.
pub proof fn lemma_opening_error(session: SessionView, fault: InitFault)
    ensures
        session.purpose matches Purpose::Repair { transport } ==> session.opening_error(fault)
            == (Error::ReinitFailure {
            transport: TransportFailure { code: transport },
            reinit: fault,
        }),
        !(session.purpose is Repair) ==> session.opening_error(fault) == fault.as_error(),
{
}

/// The answers of a directory as the events that report them.
pub open spec fn queried(replies: Seq<QueryReplyView>) -> Seq<EventView> {
    replies.map_values(|reply: QueryReplyView| EventView::DirectoryQueried(reply))
}

/// What the listing of a directory with these names ends with: the first
/// name that holds the driver's fragment, or the fault that there is none.
pub open spec fn lookup(names: Seq<Seq<char>>) -> Result<Seq<char>, InitFault> {
    match first_match(names, link_fragment()) {
        Some(name) => Ok(name),
        None => Err(InitFault::NotFound),
    }
}

/// Once the listing has ended, further answers of the directory change
/// nothing: the session waits for the release of the directory handle.
pub proof fn lemma_answers_after_the_end(session: SessionView, replies: Seq<QueryReplyView>)
    requires
        session.activity is ClosingDirectory,
    ensures
        session.run(queried(replies)) == session,
    decreases replies.len(),
{
    if replies.len() > 0 {
        assert(queried(replies).skip(1) =~= queried(replies.skip(1)));
        lemma_answers_after_the_end(session, replies.skip(1));
    }
}

/// A session that lists a directory ends the listing with the first object
/// whose name holds the driver's fragment, and with "not found" exactly
/// where no name holds it; either way the next command releases the
/// directory handle, and the rest of the session is as it was.
pub proof fn lemma_session_finds_first_match(
    session: SessionView,
    dir: DirectoryHandle,
    context: u32,
    replies: Seq<QueryReplyView>,
    names: Seq<Seq<char>>,
)
    requires
        session.activity == (ActivityView::Scanning {
            dir,
            scan: DirectoryScan::Probe { context },
        }),
        lists(replies, names),
    ensures
        session.run(queried(replies)) == (SessionView {
            activity: ActivityView::ClosingDirectory { dir, found: lookup(names) },
            ..session
        }),
        session.run(queried(replies)).command() == (CommandView::CloseDirectory { dir }),
    decreases names.len(),
{
    let events = queried(replies);
    let probed = session.next(events[0]);
    assert(session.run(events) == probed.run(events.skip(1)));
    assert(events.skip(1) =~= queried(replies.skip(1)));
    if names.len() > 0 {
        let fetched = probed.next(events[1]);
        assert(probed.run(events.skip(1)) == fetched.run(events.skip(1).skip(1)));
        assert(events.skip(1).skip(1) =~= queried(replies.skip(2)));
        if is_substring(link_fragment(), names[0]) {
            lemma_answers_after_the_end(fetched, replies.skip(2));
        } else {
            lemma_session_finds_first_match(
                fetched,
                dir,
                replies[1].context,
                replies.skip(2),
                names.skip(1),
            );
        }
    }
}

/// The device is opened under the name that the listing found, behind the
/// fixed prefix; where the listing found none, the opening of the device
/// ends there, and the device is not asked for.
pub proof fn lemma_device_path(session: SessionView, dir: DirectoryHandle, names: Seq<Seq<char>>)
    requires
        session.activity == (ActivityView::ClosingDirectory { dir, found: lookup(names) }),
    ensures
        ({
            let after = session.next(EventView::DirectoryClosed);
            match first_match(names, link_fragment()) {
                Some(name) => after.command() matches CommandView::OpenDevice { path, .. } && path
                    == device_path(name),
                None => after.activity == ActivityView::Done(
                    Err(session.opening_error(InitFault::NotFound)),
                ),
            }
        }),
{
}

} // verus!
