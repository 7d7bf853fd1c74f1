//! The device session: the one open handle to the driver, how it is
//! obtained, and how a control block is sent through it.
//!
//! The session makes no system call. It is a machine with one
//! [`Command`] outstanding at a time: whoever owns the session performs the
//! command, reports what came back as an [`Event`], and is told the next
//! command, until the command is [`Command::Finish`] with the result of the
//! operation. An event that does not answer the outstanding command changes
//! nothing.
//!
//! Opening the device takes these steps, in this order: release the handle
//! that is open, if one is; open the object directory; list it in search of
//! the driver's link; release the directory; open the device under the name
//! found. Sending a block takes one request. Where the request fails, or
//! no handle is open, the device is opened again, once, and the operation
//! succeeds if that does: the block is not sent a second time.

use crate::error::{Error, InitFault, OpenStage, TransportFailure};
use crate::nt::{
    directory_opened, find_sym_link, open_directory, scan_step, status_to_error, DirectoryHandle,
    DirectoryScan, QueryReply, QueryReplyView, ScanStep, ScanStepView, DIRECTORY_QUERY,
};
use crate::types::RzControl;
use vstd::prelude::*;
use vstd::string::StringExecFns;

verus! {

/// The request code of "process this control block".
pub const RAZER_IOCTL_CODE: u32 = 0x88883020;

/// The object directory that holds the driver's link.
pub const OBJECT_DIRECTORY: &'static str = "\\GLOBAL??";

/// The part of its name by which the driver's link is known.
pub const DEVICE_LINK_FRAGMENT: &'static str = "RZCONTROL";

/// What goes before the link's name in the path of the device.
pub const DEVICE_PATH_PREFIX: &'static str = "\\\\?\\";

/// The attribute of the directory's name: it is looked up without regard
/// to case.
pub const OBJ_CASE_INSENSITIVE: u32 = 0x40;

/// The access right to write to the device.
pub const GENERIC_WRITE: u32 = 0x40000000;

/// The sharing of the device: others may read and write (1 and 2).
pub const FILE_SHARE_READ_WRITE: u32 = 3;

/// The disposition of the device: it is opened only if it exists.
pub const OPEN_EXISTING: u32 = 3;

/// The failure code of a request on a handle that is not open
/// (0x80070006).
pub const E_HANDLE: i32 = -2147024890;

/// A handle to the driver's device, as the number the system gave.
#[derive(Debug, Clone, Copy, PartialEq, Eq, Structural)]
pub struct DeviceHandle {
    pub raw: isize,
}

impl DeviceHandle {
    /// Whether the handle stands for an open device: every number does but
    /// 0 and -1.
    pub open spec fn valid(self) -> bool {
        self.raw != 0 && self.raw != -1
    }

    /// The handle that stands for no device.
    pub fn none() -> (handle: Self)
        ensures
            handle.raw == 0,
            !handle.valid(),
    {
        DeviceHandle { raw: 0 }
    }

    /// Whether the handle stands for no open device.
    pub fn is_invalid(&self) -> (invalid: bool)
        ensures
            invalid == !self.valid(),
    {
        self.raw == 0 || self.raw == -1
    }
}

/// Where a session stands in its life.
#[derive(Debug, Clone, Copy, PartialEq, Eq, Structural)]
pub enum Lifecycle {
    /// No handle was ever open.
    Uninitialized,
    /// A handle is open.
    Open,
    /// A handle was open and has been released.
    Closed,
}

/// What the device is being opened for.
#[derive(Debug, Clone, Copy, PartialEq, Eq, Structural)]
pub enum Purpose {
    /// An initialization that was asked for.
    Init,
    /// The repair of a session whose request failed with `transport`.
    Repair { transport: i32 },
    /// Nothing: the handle is released and the session stays closed.
    Close,
}

/// What a session is told.
#[derive(Debug, PartialEq, Eq)]
pub enum Event {
    /// Asks to open the device.
    Init,
    /// Asks to send a control block.
    Send(RzControl),
    /// Asks to release the handle.
    Close,
    /// The device handle was released.
    DeviceClosed,
    /// The directory was opened, or not: `status` says which.
    DirectoryOpened { status: i32, dir: DirectoryHandle },
    /// The directory was queried.
    DirectoryQueried(QueryReply),
    /// The directory handle was released.
    DirectoryClosed,
    /// The device was opened, or not: `handle` is what the system gave, and
    /// `code` its last error.
    DeviceOpened { handle: DeviceHandle, code: i32 },
    /// The request was made: it succeeded, or failed with a code.
    Delivered(Result<(), i32>),
}

/// An [`Event`] as plain values.
pub enum EventView {
    Init,
    Send(RzControl),
    Close,
    DeviceClosed,
    DirectoryOpened { status: i32, dir: DirectoryHandle },
    DirectoryQueried(QueryReplyView),
    DirectoryClosed,
    DeviceOpened { handle: DeviceHandle, code: i32 },
    Delivered(Result<(), i32>),
}

impl View for Event {
    type V = EventView;

    open spec fn view(&self) -> EventView {
        match self {
            Event::Init => EventView::Init,
            Event::Send(block) => EventView::Send(*block),
            Event::Close => EventView::Close,
            Event::DeviceClosed => EventView::DeviceClosed,
            Event::DirectoryOpened { status, dir } => EventView::DirectoryOpened {
                status: *status,
                dir: *dir,
            },
            Event::DirectoryQueried(reply) => EventView::DirectoryQueried(reply@),
            Event::DirectoryClosed => EventView::DirectoryClosed,
            Event::DeviceOpened { handle, code } => EventView::DeviceOpened {
                handle: *handle,
                code: *code,
            },
            Event::Delivered(result) => EventView::Delivered(*result),
        }
    }
}

/// What the owner of a session is to do next. A command holds every
/// argument of the system call it stands for, but for those that say "none".
#[derive(Debug, PartialEq, Eq)]
pub enum Command {
    /// Nothing: the operation has ended with this result.
    Finish(Result<(), Error>),
    /// Release this device handle, then report [`Event::DeviceClosed`].
    CloseDevice { handle: DeviceHandle },
    /// Open the object directory of this name with this access right and
    /// these attributes, under no root, then report
    /// [`Event::DirectoryOpened`].
    OpenDirectory { path: String, access: u32, attributes: u32 },
    /// Query the directory with a buffer of `length` bytes, none where
    /// `length` is 0, and this cursor, then report
    /// [`Event::DirectoryQueried`].
    QueryDirectory {
        dir: DirectoryHandle,
        length: u32,
        /// Whether the query asks for one entry only.
        single_entry: bool,
        /// Whether the query starts the listing over.
        restart_scan: bool,
        context: u32,
    },
    /// Release this directory handle, then report
    /// [`Event::DirectoryClosed`].
    CloseDirectory { dir: DirectoryHandle },
    /// Open the device at this path, with this access right, sharing,
    /// disposition and flags, then report [`Event::DeviceOpened`].
    OpenDevice { path: String, access: u32, share_mode: u32, disposition: u32, flags: u32 },
    /// Make the device-control request `request` on this handle with these
    /// bytes and room for an answer of `reply_size` bytes, then report
    /// [`Event::Delivered`].
    Deliver { handle: DeviceHandle, request: u32, bytes: Vec<u8>, reply_size: u32 },
}

/// A [`Command`] as plain values.
pub enum CommandView {
    Finish(Result<(), Error>),
    CloseDevice { handle: DeviceHandle },
    OpenDirectory { path: Seq<char>, access: u32, attributes: u32 },
    QueryDirectory {
        dir: DirectoryHandle,
        length: u32,
        single_entry: bool,
        restart_scan: bool,
        context: u32,
    },
    CloseDirectory { dir: DirectoryHandle },
    OpenDevice { path: Seq<char>, access: u32, share_mode: u32, disposition: u32, flags: u32 },
    Deliver { handle: DeviceHandle, request: u32, bytes: Seq<u8>, reply_size: u32 },
}

impl View for Command {
    type V = CommandView;

    open spec fn view(&self) -> CommandView {
        match self {
            Command::Finish(result) => CommandView::Finish(*result),
            Command::CloseDevice { handle } => CommandView::CloseDevice { handle: *handle },
            Command::OpenDirectory { path, access, attributes } => CommandView::OpenDirectory {
                path: path@,
                access: *access,
                attributes: *attributes,
            },
            Command::QueryDirectory {
                dir,
                length,
                single_entry,
                restart_scan,
                context,
            } => CommandView::QueryDirectory {
                dir: *dir,
                length: *length,
                single_entry: *single_entry,
                restart_scan: *restart_scan,
                context: *context,
            },
            Command::CloseDirectory { dir } => CommandView::CloseDirectory { dir: *dir },
            Command::OpenDevice {
                path,
                access,
                share_mode,
                disposition,
                flags,
            } => CommandView::OpenDevice {
                path: path@,
                access: *access,
                share_mode: *share_mode,
                disposition: *disposition,
                flags: *flags,
            },
            Command::Deliver { handle, request, bytes, reply_size } => CommandView::Deliver {
                handle: *handle,
                request: *request,
                bytes: bytes@,
                reply_size: *reply_size,
            },
        }
    }
}

/// What a session is busy with: the command that is outstanding.
#[derive(Debug, PartialEq, Eq)]
enum Activity {
    Done(Result<(), Error>),
    ClosingDevice,
    OpeningDirectory,
    Scanning { dir: DirectoryHandle, scan: DirectoryScan },
    ClosingDirectory { dir: DirectoryHandle, found: Result<String, InitFault> },
    OpeningDevice { path: String },
    Delivering { block: RzControl },
}

/// What a session is busy with, as plain values.
pub enum ActivityView {
    /// Nothing: the last operation ended with this result.
    Done(Result<(), Error>),
    /// The handle that was open is being released.
    ClosingDevice,
    /// The directory is being opened.
    OpeningDirectory,
    /// The directory is being listed; `scan` is the query that is out.
    Scanning { dir: DirectoryHandle, scan: DirectoryScan },
    /// The listing has ended with `found`, and the directory is being
    /// released.
    ClosingDirectory { dir: DirectoryHandle, found: Result<Seq<char>, InitFault> },
    /// The device is being opened at `path`.
    OpeningDevice { path: Seq<char> },
    /// The request that carries `block` is being made.
    Delivering { block: RzControl },
}

impl View for Activity {
    type V = ActivityView;

    closed spec fn view(&self) -> ActivityView {
        match self {
            Activity::Done(result) => ActivityView::Done(*result),
            Activity::ClosingDevice => ActivityView::ClosingDevice,
            Activity::OpeningDirectory => ActivityView::OpeningDirectory,
            Activity::Scanning { dir, scan } => ActivityView::Scanning { dir: *dir, scan: *scan },
            Activity::ClosingDirectory { dir, found } => ActivityView::ClosingDirectory {
                dir: *dir,
                found: match found {
                    Ok(name) => Ok(name@),
                    Err(fault) => Err(*fault),
                },
            },
            Activity::OpeningDevice { path } => ActivityView::OpeningDevice { path: path@ },
            Activity::Delivering { block } => ActivityView::Delivering { block: *block },
        }
    }
}

/// A session as plain values.
pub struct SessionView {
    /// The handle the session holds; it stands for no device where none is
    /// open.
    pub handle: DeviceHandle,
    /// Whether a handle was ever open.
    pub opened: bool,
    /// What the device is being opened for, while it is being opened.
    pub purpose: Purpose,
    /// What the session is busy with.
    pub activity: ActivityView,
}

/// The device session.
pub struct Session {
    handle: DeviceHandle,
    opened: bool,
    purpose: Purpose,
    activity: Activity,
}

impl View for Session {
    type V = SessionView;

    closed spec fn view(&self) -> SessionView {
        SessionView {
            handle: self.handle,
            opened: self.opened,
            purpose: self.purpose,
            activity: self.activity@,
        }
    }
}

/// The name fragment that the listing looks for.
pub open spec fn link_fragment() -> Seq<char> {
    DEVICE_LINK_FRAGMENT@
}

/// The path of the device whose link has this name.
pub open spec fn device_path(name: Seq<char>) -> Seq<char> {
    DEVICE_PATH_PREFIX@ + name
}

impl SessionView {
    /// Where the session stands in its life.
    pub open spec fn lifecycle(self) -> Lifecycle {
        if self.handle.valid() {
            Lifecycle::Open
        } else if self.opened {
            Lifecycle::Closed
        } else {
            Lifecycle::Uninitialized
        }
    }

    /// Whether no operation is in progress.
    pub open spec fn idle(self) -> bool {
        self.activity is Done
    }

    /// Whether the device is being opened: one of the five steps from the
    /// release of the old handle to the opening of the new one is out.
    pub open spec fn opening(self) -> bool {
        ||| self.activity is ClosingDevice
        ||| self.activity is OpeningDirectory
        ||| self.activity is Scanning
        ||| self.activity is ClosingDirectory
        ||| self.activity is OpeningDevice
    }

    /// What holds of every session: a handle is held exactly while it may
    /// be used. A request is out, or the handle is being released, only on
    /// a handle that is open; from the moment it is released to the moment
    /// a new one is given, the session holds none. The session is closed
    /// for good only by releasing its handle.
    pub open spec fn wf(self) -> bool {
        &&& self.handle.valid() ==> self.opened
        &&& self.activity is Delivering ==> self.handle.valid()
        &&& self.activity is ClosingDevice ==> self.handle.valid()
        &&& (self.opening() && !(self.activity is ClosingDevice)) ==> !self.handle.valid()
            && self.purpose != Purpose::Close
    }

    /// The session with the device about to be opened for `purpose`: the
    /// handle is released first where one is open, and only then.
    pub open spec fn begin_opening(self, purpose: Purpose) -> SessionView {
        SessionView {
            purpose,
            activity: if self.handle.valid() {
                ActivityView::ClosingDevice
            } else {
                ActivityView::OpeningDirectory
            },
            ..self
        }
    }

    /// The error with which the opening of the device ends for the fault
    /// `fault`: the fault itself where the opening was asked for, and the
    /// fault together with the failed request where it was a repair.
    pub open spec fn opening_error(self, fault: InitFault) -> Error {
        match self.purpose {
            Purpose::Repair { transport } => Error::ReinitFailure {
                transport: TransportFailure { code: transport },
                reinit: fault,
            },
            _ => fault.as_error(),
        }
    }

    /// The session with the opening of the device ended by `fault`.
    pub open spec fn fail_opening(self, fault: InitFault) -> SessionView {
        SessionView { activity: ActivityView::Done(Err(self.opening_error(fault))), ..self }
    }

    /// The session after an event.
    pub open spec fn next(self, event: EventView) -> SessionView {
        match (self.activity, event) {
            (ActivityView::Done(_), EventView::Init) => self.begin_opening(Purpose::Init),
            (ActivityView::Done(_), EventView::Send(block)) => if self.handle.valid() {
                SessionView { activity: ActivityView::Delivering { block }, ..self }
            } else {
                self.begin_opening(Purpose::Repair { transport: E_HANDLE })
            },
            (ActivityView::Done(_), EventView::Close) => if self.handle.valid() {
                self.begin_opening(Purpose::Close)
            } else {
                SessionView { activity: ActivityView::Done(Ok(())), ..self }
            },
            (ActivityView::ClosingDevice, EventView::DeviceClosed) => SessionView {
                handle: DeviceHandle { raw: 0 },
                activity: if self.purpose == Purpose::Close {
                    ActivityView::Done(Ok(()))
                } else {
                    ActivityView::OpeningDirectory
                },
                ..self
            },
            (ActivityView::OpeningDirectory, EventView::DirectoryOpened { status, dir }) => {
                match directory_opened(status, dir) {
                    Ok(dir) => SessionView {
                        activity: ActivityView::Scanning {
                            dir,
                            scan: DirectoryScan::Probe { context: 0 },
                        },
                        ..self
                    },
                    Err(fault) => self.fail_opening(fault),
                }
            },
            (ActivityView::Scanning { dir, scan }, EventView::DirectoryQueried(reply)) => {
                SessionView {
                    activity: match scan_step(scan, reply, link_fragment()) {
                        ScanStepView::Query(scan) => ActivityView::Scanning { dir, scan },
                        ScanStepView::Found(name) => ActivityView::ClosingDirectory {
                            dir,
                            found: Ok(name),
                        },
                        ScanStepView::Exhausted => ActivityView::ClosingDirectory {
                            dir,
                            found: Err(InitFault::NotFound),
                        },
                        ScanStepView::Failed(status) => ActivityView::ClosingDirectory {
                            dir,
                            found: Err(
                                InitFault::PermissionOrOpenFailure {
                                    stage: OpenStage::Listing,
                                    code: status,
                                },
                            ),
                        },
                    },
                    ..self
                }
            },
            (ActivityView::ClosingDirectory { found, .. }, EventView::DirectoryClosed) => {
                match found {
                    Ok(name) => SessionView {
                        activity: ActivityView::OpeningDevice { path: device_path(name) },
                        ..self
                    },
                    Err(fault) => self.fail_opening(fault),
                }
            },
            (ActivityView::OpeningDevice { .. }, EventView::DeviceOpened { handle, code }) => {
                if handle.valid() {
                    SessionView {
                        handle,
                        opened: true,
                        activity: ActivityView::Done(Ok(())),
                        ..self
                    }
                } else {
                    self.fail_opening(
                        InitFault::PermissionOrOpenFailure { stage: OpenStage::Device, code },
                    )
                }
            },
            (ActivityView::Delivering { .. }, EventView::Delivered(result)) => match result {
                Ok(()) => SessionView { activity: ActivityView::Done(Ok(())), ..self },
                Err(code) => self.begin_opening(Purpose::Repair { transport: code }),
            },
            _ => self,
        }
    }

    /// The command that is outstanding.
    ///
    /// The directory is opened by its fixed name, for listing, without
    /// regard to case. A query asks for one entry, never restarts the
    /// listing, and carries the cursor of the listing. The device is opened
    /// for writing, shared for reading and writing, only if it exists. A
    /// request carries the driver's request code and the 32 bytes of the
    /// block, and leaves no room for an answer.
    pub open spec fn command(self) -> CommandView {
        match self.activity {
            ActivityView::Done(result) => CommandView::Finish(result),
            ActivityView::ClosingDevice => CommandView::CloseDevice { handle: self.handle },
            ActivityView::OpeningDirectory => CommandView::OpenDirectory {
                path: OBJECT_DIRECTORY@,
                access: DIRECTORY_QUERY,
                attributes: OBJ_CASE_INSENSITIVE,
            },
            ActivityView::Scanning { dir, scan } => CommandView::QueryDirectory {
                dir,
                length: scan.buffer_size(),
                single_entry: true,
                restart_scan: false,
                context: scan.cursor(),
            },
            ActivityView::ClosingDirectory { dir, .. } => CommandView::CloseDirectory { dir },
            ActivityView::OpeningDevice { path } => CommandView::OpenDevice {
                path,
                access: GENERIC_WRITE,
                share_mode: FILE_SHARE_READ_WRITE,
                disposition: OPEN_EXISTING,
                flags: 0,
            },
            ActivityView::Delivering { block } => CommandView::Deliver {
                handle: self.handle,
                request: RAZER_IOCTL_CODE,
                bytes: block.wire(),
                reply_size: 0,
            },
        }
    }
}

/// An event keeps what holds of every session.
pub proof fn lemma_next_keeps_wf(session: SessionView, event: EventView)
    requires
        session.wf(),
    ensures
        session.next(event).wf(),
{
}

impl Activity {
    fn duplicate(&self) -> (copy: Activity)
        ensures
            copy@ == self@,
    {
        match self {
            Activity::Done(result) => Activity::Done(*result),
            Activity::ClosingDevice => Activity::ClosingDevice,
            Activity::OpeningDirectory => Activity::OpeningDirectory,
            Activity::Scanning { dir, scan } => Activity::Scanning { dir: *dir, scan: *scan },
            Activity::ClosingDirectory { dir, found } => Activity::ClosingDirectory {
                dir: *dir,
                found: match found {
                    Ok(name) => Ok(name.clone()),
                    Err(fault) => Err(*fault),
                },
            },
            Activity::OpeningDevice { path } => Activity::OpeningDevice { path: path.clone() },
            Activity::Delivering { block } => Activity::Delivering { block: *block },
        }
    }
}

impl Session {
    #[verifier::type_invariant]
    closed spec fn inv(&self) -> bool {
        self@.wf()
    }

    /// A session that never held a handle, with nothing in progress.
    pub fn new() -> (session: Self)
        ensures
            session@ == (SessionView {
                handle: DeviceHandle { raw: 0 },
                opened: false,
                purpose: Purpose::Init,
                activity: ActivityView::Done(Ok(())),
            }),
            session@.wf(),
    {
        Session {
            handle: DeviceHandle::none(),
            opened: false,
            purpose: Purpose::Init,
            activity: Activity::Done(Ok(())),
        }
    }

    /// The handle the session holds.
    pub fn handle(&self) -> (handle: DeviceHandle)
        ensures
            handle == self@.handle,
            self@.wf(),
    {
        proof {
            use_type_invariant(self);
        }
        self.handle
    }

    /// Where the session stands in its life.
    pub fn state(&self) -> (state: Lifecycle)
        ensures
            state == self@.lifecycle(),
            self@.wf(),
    {
        proof {
            use_type_invariant(self);
        }
        if !self.handle.is_invalid() {
            Lifecycle::Open
        } else if self.opened {
            Lifecycle::Closed
        } else {
            Lifecycle::Uninitialized
        }
    }

    /// The command that is outstanding.
    pub fn command(&self) -> (command: Command)
        ensures
            command@ == self@.command(),
            self@.wf(),
    {
        proof {
            use_type_invariant(self);
        }
        match &self.activity {
            Activity::Done(result) => Command::Finish(*result),
            Activity::ClosingDevice => Command::CloseDevice { handle: self.handle },
            Activity::OpeningDirectory => Command::OpenDirectory {
                path: String::from_str(OBJECT_DIRECTORY),
                access: DIRECTORY_QUERY,
                attributes: OBJ_CASE_INSENSITIVE,
            },
            Activity::Scanning { dir, scan } => Command::QueryDirectory {
                dir: *dir,
                length: scan.length(),
                single_entry: true,
                restart_scan: false,
                context: scan.context(),
            },
            Activity::ClosingDirectory { dir, .. } => Command::CloseDirectory { dir: *dir },
            Activity::OpeningDevice { path } => Command::OpenDevice {
                path: path.clone(),
                access: GENERIC_WRITE,
                share_mode: FILE_SHARE_READ_WRITE,
                disposition: OPEN_EXISTING,
                flags: 0,
            },
            Activity::Delivering { block } => Command::Deliver {
                handle: self.handle,
                request: RAZER_IOCTL_CODE,
                bytes: block.encode(),
                reply_size: 0,
            },
        }
    }

    fn begin_opening(&self, purpose: Purpose) -> (next: Session)
        requires
            self@.wf(),
            self@.idle() || self@.activity is Delivering,
            purpose == Purpose::Close ==> self@.handle.valid(),
        ensures
            next@ == self@.begin_opening(purpose),
    {
        Session {
            handle: self.handle,
            opened: self.opened,
            purpose,
            activity: if self.handle.is_invalid() {
                Activity::OpeningDirectory
            } else {
                Activity::ClosingDevice
            },
        }
    }

    fn fail_opening(&self, fault: InitFault) -> (next: Session)
        requires
            self@.wf(),
            self@.opening(),
            !(self@.activity is ClosingDevice),
        ensures
            next@ == self@.fail_opening(fault),
    {
        let error = match self.purpose {
            Purpose::Repair { transport } => Error::ReinitFailure {
                transport: TransportFailure { code: transport },
                reinit: fault,
            },
            _ => fault.to_error(),
        };
        Session {
            handle: self.handle,
            opened: self.opened,
            purpose: self.purpose,
            activity: Activity::Done(Err(error)),
        }
    }

    fn with_activity(&self, activity: Activity) -> (next: Session)
        requires
            (SessionView { activity: activity@, ..self@ }).wf(),
        ensures
            next@ == (SessionView { activity: activity@, ..self@ }),
    {
        Session { handle: self.handle, opened: self.opened, purpose: self.purpose, activity }
    }

    fn after(&self, event: &Event) -> (next: Session)
        ensures
            next@ == self@.next(event@),
    {
        proof {
            use_type_invariant(self);
            lemma_next_keeps_wf(self@, event@);
        }
        match (&self.activity, event) {
            (Activity::Done(_), Event::Init) => self.begin_opening(Purpose::Init),
            (Activity::Done(_), Event::Send(block)) => {
                if self.handle.is_invalid() {
                    self.begin_opening(Purpose::Repair { transport: E_HANDLE })
                } else {
                    self.with_activity(Activity::Delivering { block: *block })
                }
            },
            (Activity::Done(_), Event::Close) => {
                if self.handle.is_invalid() {
                    self.with_activity(Activity::Done(Ok(())))
                } else {
                    self.begin_opening(Purpose::Close)
                }
            },
            (Activity::ClosingDevice, Event::DeviceClosed) => Session {
                handle: DeviceHandle::none(),
                opened: self.opened,
                purpose: self.purpose,
                activity: match self.purpose {
                    Purpose::Close => Activity::Done(Ok(())),
                    _ => Activity::OpeningDirectory,
                },
            },
            (Activity::OpeningDirectory, Event::DirectoryOpened { status, dir }) => {
                match open_directory(*status, *dir) {
                    Ok(dir) => self.with_activity(
                        Activity::Scanning { dir, scan: DirectoryScan::begin() },
                    ),
                    Err(fault) => self.fail_opening(fault),
                }
            },
            (Activity::Scanning { dir, scan }, Event::DirectoryQueried(reply)) => {
                let activity = match find_sym_link(*scan, reply, DEVICE_LINK_FRAGMENT) {
                    ScanStep::Query(scan) => Activity::Scanning { dir: *dir, scan },
                    ScanStep::Found(name) => Activity::ClosingDirectory {
                        dir: *dir,
                        found: Ok(name),
                    },
                    ScanStep::Exhausted => Activity::ClosingDirectory {
                        dir: *dir,
                        found: Err(InitFault::NotFound),
                    },
                    ScanStep::Failed(status) => Activity::ClosingDirectory {
                        dir: *dir,
                        found: Err(status_to_error(status, OpenStage::Listing)),
                    },
                };
                self.with_activity(activity)
            },
            (Activity::ClosingDirectory { found, .. }, Event::DirectoryClosed) => {
                match found {
                    Ok(name) => {
                        let path = String::from_str(DEVICE_PATH_PREFIX).concat(name.as_str());
                        self.with_activity(Activity::OpeningDevice { path })
                    },
                    Err(fault) => self.fail_opening(*fault),
                }
            },
            (Activity::OpeningDevice { .. }, Event::DeviceOpened { handle, code }) => {
                if handle.is_invalid() {
                    self.fail_opening(
                        InitFault::PermissionOrOpenFailure {
                            stage: OpenStage::Device,
                            code: *code,
                        },
                    )
                } else {
                    Session {
                        handle: *handle,
                        opened: true,
                        purpose: self.purpose,
                        activity: Activity::Done(Ok(())),
                    }
                }
            },
            (Activity::Delivering { .. }, Event::Delivered(result)) => {
                match result {
                    Ok(()) => self.with_activity(Activity::Done(Ok(()))),
                    Err(code) => self.begin_opening(Purpose::Repair { transport: *code }),
                }
            },
            _ => self.with_activity(self.activity.duplicate()),
        }
    }

    /// Takes an event and gives the command that is outstanding after it.
    /// An event that does not answer the outstanding command, and a request
    /// made while an operation is in progress, change nothing.
    pub fn step(&mut self, event: &Event) -> (command: Command)
        ensures
            final(self)@ == old(self)@.next(event@),
            command@ == final(self)@.command(),
            final(self)@.wf(),
    {
        let next = self.after(event);
        *self = next;
        self.command()
    }
}

} // verus!
