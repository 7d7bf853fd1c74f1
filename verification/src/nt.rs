//! Finding the driver's device link in an object directory.
//!
//! The directory is listed one entry at a time. Each entry takes two
//! queries: a probe with no buffer, which the system answers with "buffer
//! too small" and the size it needs, and a fetch into a buffer of exactly
//! that size. The system keeps its place in the listing in a 32-bit cursor
//! that goes into every query as the previous one gave it back.
//!
//! [`find_sym_link`] makes the decisions of that listing: given the query
//! that was out, a [`DirectoryScan`], and the answer to it, it says what to
//! ask next or how the search ended. Whoever runs the listing makes the
//! queries and releases the directory handle once the listing has ended,
//! however it ended.
//!
//! Entries are read in the layout of 64-bit systems.

use crate::error::{InitFault, OpenStage};
use crate::le::{get_u16, get_u64, u16_at, u64_at};
use vstd::prelude::*;

verus! {

/// The status of a query that succeeded.
pub const STATUS_SUCCESS: i32 = 0;

/// The status of a query whose buffer cannot hold the entry (0xC0000023).
pub const STATUS_BUFFER_TOO_SMALL: i32 = -1073741789;

/// The status of a query behind the last entry (0x8000001A).
pub const STATUS_NO_MORE_ENTRIES: i32 = -2147483622;

/// The status given for an entry whose name lies outside the buffer it came
/// in (0xC0000004).
pub const STATUS_INFO_LENGTH_MISMATCH: i32 = -1073741820;

/// The access right to list a directory.
pub const DIRECTORY_QUERY: u32 = 1;

/// A handle to an object directory, as the number the system gave.
#[derive(Debug, Clone, Copy, PartialEq, Eq, Structural)]
pub struct DirectoryHandle {
    pub raw: isize,
}

/// Size of the fixed header of an entry: two counted strings, the name and
/// the type name, each a length in bytes (2), a capacity in bytes (2),
/// padding (4) and the address of its text (8).
pub const ENTRY_HEADER_SIZE: usize = 32;

/// The name of an entry as UTF-16 code units, read from the buffer the
/// entry came in. `base` is the address of the buffer's first byte: the
/// header gives the address of the name, and the name is read where that
/// address lies in the buffer. There is no name where the buffer is shorter
/// than the header or the name is not wholly inside it. The type name is
/// not read.
pub open spec fn entry_units(s: Seq<u8>, base: int) -> Option<Seq<u16>> {
    let count = u16_at(s, 0) / 2;
    let at = u64_at(s, 8) - base;
    if s.len() < ENTRY_HEADER_SIZE || at < 0 || at + 2 * count > s.len() {
        None
    } else {
        Some(Seq::new(count as nat, |i: int| u16_at(s, at + 2 * i) as u16))
    }
}

/// The text that UTF-16 code units stand for, with U+FFFD in place of each
/// surrogate that has no partner.
pub open spec fn utf16_lossy(units: Seq<u16>) -> Seq<char>
    decreases units.len(),
{
    if units.len() == 0 {
        Seq::empty()
    } else if !(0xD800 <= units[0] <= 0xDFFF) {
        seq![units[0] as char] + utf16_lossy(units.skip(1))
    } else if units[0] <= 0xDBFF && units.len() >= 2 && 0xDC00 <= units[1] <= 0xDFFF {
        seq![(0x10000 + (units[0] - 0xD800) * 0x400 + (units[1] - 0xDC00)) as char] + utf16_lossy(
            units.skip(2),
        )
    } else {
        seq!['\u{FFFD}'] + utf16_lossy(units.skip(1))
    }
}

/// Whether `needle` occurs in `hay` as a run of consecutive characters.
pub open spec fn is_substring(needle: Seq<char>, hay: Seq<char>) -> bool {
    exists|i: int|
        0 <= i <= hay.len() - needle.len() && #[trigger] hay.subrange(i, i + needle.len())
            == needle
}

/// The name of an entry as text, where the entry has one.
pub open spec fn entry_name(s: Seq<u8>, base: int) -> Option<Seq<char>> {
    match entry_units(s, base) {
        Some(units) => Some(utf16_lossy(units)),
        None => None,
    }
}

/// `String::from_utf16_lossy` of std: the text of the code units, with
/// U+FFFD for every unpaired surrogate. Its result is believed to be
/// [`utf16_lossy`] of the units.
#[verifier::external_body]
fn string_from_utf16_lossy(units: &Vec<u16>) -> (text: String)
    ensures
        text@ == utf16_lossy(units@),
{
    String::from_utf16_lossy(units)
}

/// `str::contains` of std with a string as the pattern: whether the pattern
/// occurs in the text. Its result is believed to be [`is_substring`].
#[verifier::external_body]
fn str_contains(hay: &str, needle: &str) -> (found: bool)
    ensures
        found == is_substring(needle@, hay@),
{
    hay.contains(needle)
}

/// What the opening of the directory gave: the handle where the status is
/// success, and the fault of the status where it is anything else.
pub open spec fn directory_opened(status: i32, dir: DirectoryHandle) -> Result<
    DirectoryHandle,
    InitFault,
> {
    if status == STATUS_SUCCESS {
        Ok(dir)
    } else {
        Err(InitFault::PermissionOrOpenFailure { stage: OpenStage::Directory, code: status })
    }
}

/// Takes the answer to the opening of the directory: `status` and the
/// handle that came with it.
pub fn open_directory(status: i32, dir: DirectoryHandle) -> (opened: Result<
    DirectoryHandle,
    InitFault,
>)
    ensures
        opened == directory_opened(status, dir),
{
    if status == STATUS_SUCCESS {
        Ok(dir)
    } else {
        Err(status_to_error(status, OpenStage::Directory))
    }
}

/// The fault of a status that the system gave at `stage`.
pub fn status_to_error(status: i32, stage: OpenStage) -> (fault: InitFault)
    ensures
        fault == (InitFault::PermissionOrOpenFailure { stage, code: status }),
{
    InitFault::PermissionOrOpenFailure { stage, code: status }
}

/// Reads the name of an entry, as UTF-16 code units, from the buffer the
/// entry came in; `base` is the address of the buffer's first byte.
pub fn read_entry_units(buffer: &[u8], base: u64) -> (units: Option<Vec<u16>>)
    ensures
        match units {
            Some(v) => entry_units(buffer@, base as int) == Some(v@),
            None => entry_units(buffer@, base as int).is_none(),
        },
{
    let len: usize = buffer.len();
    if len < ENTRY_HEADER_SIZE {
        return None;
    }
    let count: usize = (get_u16(buffer, 0) / 2) as usize;
    let address: u64 = get_u64(buffer, 8);
    if address < base {
        return None;
    }
    let offset: u64 = address - base;
    if offset > len as u64 {
        return None;
    }
    let at: usize = offset as usize;
    if 2 * count > len - at {
        return None;
    }
    let mut units: Vec<u16> = Vec::new();
    let mut i: usize = 0;
    while i < count
        invariant
            i <= count,
            at + 2 * count <= len,
            len == buffer@.len(),
            units@ == Seq::new(i as nat, |k: int| u16_at(buffer@, at + 2 * k) as u16),
        decreases count - i,
    {
        units.push(get_u16(buffer, at + 2 * i));
        i = i + 1;
        assert(units@ =~= Seq::new(i as nat, |k: int| u16_at(buffer@, at + 2 * k) as u16));
    }
    Some(units)
}

/// Reads the name of an entry, as text, from the buffer the entry came in.
pub fn read_entry_name(buffer: &[u8], base: u64) -> (name: Option<String>)
    ensures
        match name {
            Some(text) => entry_name(buffer@, base as int) == Some(text@),
            None => entry_name(buffer@, base as int).is_none(),
        },
{
    match read_entry_units(buffer, base) {
        Some(units) => Some(string_from_utf16_lossy(&units)),
        None => None,
    }
}

/// What the system answered to one query of the directory.
#[derive(Debug, PartialEq, Eq)]
pub struct QueryReply {
    /// The status of the query.
    pub status: i32,
    /// The cursor as the query left it.
    pub context: u32,
    /// The size, in bytes, that the system reported for the entry.
    pub length: u32,
    /// The buffer the query was given, as the query left it.
    pub buffer: Vec<u8>,
    /// The address of the buffer's first byte.
    pub base: u64,
}

/// A [`QueryReply`] as plain values.
pub struct QueryReplyView {
    pub status: i32,
    pub context: u32,
    pub length: u32,
    pub buffer: Seq<u8>,
    pub base: u64,
}

impl View for QueryReply {
    type V = QueryReplyView;

    open spec fn view(&self) -> QueryReplyView {
        QueryReplyView {
            status: self.status,
            context: self.context,
            length: self.length,
            buffer: self.buffer@,
            base: self.base,
        }
    }
}

/// A listing in progress: the query that is outstanding.
#[derive(Debug, Clone, Copy, PartialEq, Eq, Structural)]
pub enum DirectoryScan {
    /// A probe: a query with no buffer, to learn the size of the next entry.
    Probe { context: u32 },
    /// A fetch: a query with a buffer of `length` bytes, to read the entry.
    Fetch { context: u32, length: u32 },
}

/// What a listing does after an answer.
#[derive(Debug, PartialEq, Eq)]
pub enum ScanStep {
    /// The listing goes on with this query.
    Query(DirectoryScan),
    /// The listing ended at an entry whose name holds the target.
    Found(String),
    /// The listing ended behind the last entry.
    Exhausted,
    /// The listing ended on a status that is neither success nor expected.
    Failed(i32),
}

/// A [`ScanStep`] as plain values.
pub enum ScanStepView {
    Query(DirectoryScan),
    Found(Seq<char>),
    Exhausted,
    Failed(i32),
}

impl View for ScanStep {
    type V = ScanStepView;

    open spec fn view(&self) -> ScanStepView {
        match self {
            ScanStep::Query(scan) => ScanStepView::Query(*scan),
            ScanStep::Found(name) => ScanStepView::Found(name@),
            ScanStep::Exhausted => ScanStepView::Exhausted,
            ScanStep::Failed(status) => ScanStepView::Failed(*status),
        }
    }
}

/// What a listing does after an answer.
///
/// To a probe, "buffer too small" is the expected answer: the entry is
/// fetched with a buffer of the reported size. Success, or "no more
/// entries", says that the listing is behind the last entry. Any other
/// status ends the listing as a failure.
///
/// To a fetch, any status but success ends the listing as a failure. On
/// success the entry's name is read; where it holds the target the listing
/// ends with that name, else the next entry is probed. An entry whose name
/// cannot be read ends the listing with [`STATUS_INFO_LENGTH_MISMATCH`].
///
/// The next query carries the cursor of the answer, unchanged.
pub open spec fn scan_step(scan: DirectoryScan, reply: QueryReplyView, target: Seq<char>)
    -> ScanStepView {
    match scan {
        DirectoryScan::Probe { .. } => {
            if reply.status == STATUS_BUFFER_TOO_SMALL {
                ScanStepView::Query(
                    DirectoryScan::Fetch { context: reply.context, length: reply.length },
                )
            } else if reply.status == STATUS_SUCCESS || reply.status == STATUS_NO_MORE_ENTRIES {
                ScanStepView::Exhausted
            } else {
                ScanStepView::Failed(reply.status)
            }
        },
        DirectoryScan::Fetch { .. } => {
            if reply.status != STATUS_SUCCESS {
                ScanStepView::Failed(reply.status)
            } else {
                match entry_name(reply.buffer, reply.base as int) {
                    None => ScanStepView::Failed(STATUS_INFO_LENGTH_MISMATCH),
                    Some(name) => if is_substring(target, name) {
                        ScanStepView::Found(name)
                    } else {
                        ScanStepView::Query(DirectoryScan::Probe { context: reply.context })
                    },
                }
            }
        },
    }
}

impl DirectoryScan {
    /// The cursor that goes into the outstanding query.
    pub open spec fn cursor(self) -> u32 {
        match self {
            DirectoryScan::Probe { context } => context,
            DirectoryScan::Fetch { context, .. } => context,
        }
    }

    /// The buffer size of the outstanding query: none for a probe.
    pub open spec fn buffer_size(self) -> u32 {
        match self {
            DirectoryScan::Probe { .. } => 0,
            DirectoryScan::Fetch { length, .. } => length,
        }
    }

    /// A listing from the first entry: a probe with the cursor at 0.
    pub fn begin() -> (scan: Self)
        ensures
            scan == (DirectoryScan::Probe { context: 0 }),
    {
        DirectoryScan::Probe { context: 0 }
    }

    /// The cursor that goes into the outstanding query.
    pub fn context(&self) -> (context: u32)
        ensures
            context == self.cursor(),
    {
        match self {
            DirectoryScan::Probe { context } => *context,
            DirectoryScan::Fetch { context, .. } => *context,
        }
    }

    /// The buffer size of the outstanding query, in bytes.
    pub fn length(&self) -> (length: u32)
        ensures
            length == self.buffer_size(),
    {
        match self {
            DirectoryScan::Probe { .. } => 0,
            DirectoryScan::Fetch { length, .. } => *length,
        }
    }
}

/// One step of finding the object whose name holds `name`: takes the
/// listing with the query that was out and the answer to that query, and
/// says what the listing does next.
pub fn find_sym_link(scan: DirectoryScan, reply: &QueryReply, name: &str) -> (step: ScanStep)
    ensures
        step@ == scan_step(scan, reply@, name@),
{
    match scan {
        DirectoryScan::Probe { .. } => {
            if reply.status == STATUS_BUFFER_TOO_SMALL {
                ScanStep::Query(
                    DirectoryScan::Fetch { context: reply.context, length: reply.length },
                )
            } else if reply.status == STATUS_SUCCESS || reply.status == STATUS_NO_MORE_ENTRIES {
                ScanStep::Exhausted
            } else {
                ScanStep::Failed(reply.status)
            }
        },
        DirectoryScan::Fetch { .. } => {
            if reply.status != STATUS_SUCCESS {
                ScanStep::Failed(reply.status)
            } else {
                match read_entry_name(reply.buffer.as_slice(), reply.base) {
                    None => ScanStep::Failed(STATUS_INFO_LENGTH_MISMATCH),
                    Some(found) => {
                        if str_contains(found.as_str(), name) {
                            ScanStep::Found(found)
                        } else {
                            ScanStep::Query(DirectoryScan::Probe { context: reply.context })
                        }
                    },
                }
            }
        },
    }
}

/// The first of the names that holds the target, if one does.
pub open spec fn first_match(names: Seq<Seq<char>>, target: Seq<char>) -> Option<Seq<char>>
    decreases names.len(),
{
    if names.len() == 0 {
        None
    } else if is_substring(target, names[0]) {
        Some(names[0])
    } else {
        first_match(names.skip(1), target)
    }
}

/// Whether the answers are those of a directory that holds the objects of
/// these names, in this order, listed from its first entry to behind its
/// last: for each entry "buffer too small" to the probe and the entry to the
/// fetch, then success or "no more entries" to the last probe.
pub open spec fn lists(replies: Seq<QueryReplyView>, names: Seq<Seq<char>>) -> bool
    decreases names.len(),
{
    if names.len() == 0 {
        &&& replies.len() == 1
        &&& replies[0].status == STATUS_SUCCESS || replies[0].status == STATUS_NO_MORE_ENTRIES
    } else {
        &&& replies.len() >= 2
        &&& replies[0].status == STATUS_BUFFER_TOO_SMALL
        &&& replies[1].status == STATUS_SUCCESS
        &&& entry_name(replies[1].buffer, replies[1].base as int) == Some(names[0])
        &&& lists(replies.skip(2), names.skip(1))
    }
}

/// Where a listing stands after these answers, one to each query it made:
/// at its end, if one of them ended it, and at its next query if none did.
/// Answers behind the end are not read.
pub open spec fn scan_run(scan: DirectoryScan, replies: Seq<QueryReplyView>, target: Seq<char>)
    -> ScanStepView
    decreases replies.len(),
{
    if replies.len() == 0 {
        ScanStepView::Query(scan)
    } else {
        match scan_step(scan, replies[0], target) {
            ScanStepView::Query(next) => scan_run(next, replies.skip(1), target),
            end => end,
        }
    }
}

/// What [`first_match`] finds is one of the names, it holds the target, and
/// no name before it does; it finds nothing only where no name holds the
/// target.
pub proof fn lemma_first_match(names: Seq<Seq<char>>, target: Seq<char>)
    ensures
        match first_match(names, target) {
            Some(name) => exists|k: int|
                {
                    &&& 0 <= k < names.len()
                    &&& #[trigger] names[k] == name
                    &&& is_substring(target, name)
                    &&& forall|j: int| 0 <= j < k ==> !is_substring(target, #[trigger] names[j])
                },
            None => forall|j: int|
                0 <= j < names.len() ==> !is_substring(target, #[trigger] names[j]),
        },
    decreases names.len(),
{
    if names.len() == 0 {
    } else if is_substring(target, names[0]) {
    } else {
        let rest = names.skip(1);
        lemma_first_match(rest, target);
        assert(forall|j: int| 0 <= j < rest.len() ==> rest[j] == names[j + 1]);
        match first_match(rest, target) {
            Some(name) => {
                let k = choose|k: int|
                    {
                        &&& 0 <= k < rest.len()
                        &&& #[trigger] rest[k] == name
                        &&& is_substring(target, name)
                        &&& forall|j: int|
                            0 <= j < k ==> !is_substring(target, #[trigger] rest[j])
                    };
                assert(names[k + 1] == name);
                assert forall|j: int| 0 <= j < k + 1 implies !is_substring(
                    target,
                    #[trigger] names[j],
                ) by {
                    if j > 0 {
                        assert(rest[j - 1] == names[j]);
                    }
                }
            },
            None => {
                assert forall|j: int| 0 <= j < names.len() implies !is_substring(
                    target,
                    #[trigger] names[j],
                ) by {
                    if j > 0 {
                        assert(rest[j - 1] == names[j]);
                    }
                }
            },
        }
    }
}

/// Listing a directory finds the first object whose name holds the target:
/// the listing ends with that name, and it ends as exhausted exactly where
/// no name holds the target, wherever the cursor stood at the start.
pub proof fn lemma_scan_finds_first_match(
    context: u32,
    replies: Seq<QueryReplyView>,
    names: Seq<Seq<char>>,
    target: Seq<char>,
)
    requires
        lists(replies, names),
    ensures
        scan_run(DirectoryScan::Probe { context }, replies, target) == match first_match(
            names,
            target,
        ) {
            Some(name) => ScanStepView::Found(name),
            None => ScanStepView::Exhausted,
        },
    decreases names.len(),
{
    let probe = DirectoryScan::Probe { context };
    if names.len() > 0 {
        let fetch = DirectoryScan::Fetch { context: replies[0].context, length: replies[0].length };
        let rest = replies.skip(1);
        assert(scan_run(probe, replies, target) == scan_run(fetch, rest, target));
        if !is_substring(target, names[0]) {
            assert(rest.skip(1) =~= replies.skip(2));
            lemma_scan_finds_first_match(rest[0].context, replies.skip(2), names.skip(1), target);
        }
    }
}

/// Code units that hold no surrogate stand for one character each.
pub proof fn lemma_plain_units(units: Seq<u16>)
    requires
        forall|i: int| 0 <= i < units.len() ==> !(0xD800 <= #[trigger] units[i] <= 0xDFFF),
    ensures
        utf16_lossy(units) == units.map_values(|unit: u16| unit as char),
    decreases units.len(),
{
    if units.len() > 0 {
        let rest = units.skip(1);
        assert forall|i: int| 0 <= i < rest.len() implies !(0xD800 <= #[trigger] rest[i]
            <= 0xDFFF) by {
            assert(rest[i] == units[i + 1]);
        }
        lemma_plain_units(rest);
    }
    assert(utf16_lossy(units) =~= units.map_values(|unit: u16| unit as char));
}

} // verus!
