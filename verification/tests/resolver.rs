use razerctl::nt::{
    open_directory, read_entry_name, read_entry_units, status_to_error, DirectoryScan, QueryReply,
    ScanStep, DIRECTORY_QUERY, ENTRY_HEADER_SIZE, STATUS_BUFFER_TOO_SMALL,
    STATUS_INFO_LENGTH_MISMATCH, STATUS_NO_MORE_ENTRIES, STATUS_SUCCESS,
};
use razerctl::{find_sym_link, DirectoryHandle, InitFault, OpenStage};

const BASE: u64 = 0x0000_7FF6_1000_0000;

fn units_of(text: &str) -> Vec<u16> {
    text.encode_utf16().collect()
}

/// One entry as the system lays it out: the entry's header, an empty header
/// that ends the array, then the two texts, each with a closing zero.
fn record_of_units(name: &[u16], kind_name: &[u16], base: u64) -> Vec<u8> {
    let name_at = 2 * ENTRY_HEADER_SIZE;
    let kind_at = name_at + 2 * name.len() + 2;
    let mut record = vec![0u8; name_at];
    record[0..2].copy_from_slice(&((2 * name.len()) as u16).to_le_bytes());
    record[2..4].copy_from_slice(&((2 * name.len() + 2) as u16).to_le_bytes());
    record[8..16].copy_from_slice(&(base + name_at as u64).to_le_bytes());
    record[16..18].copy_from_slice(&((2 * kind_name.len()) as u16).to_le_bytes());
    record[18..20].copy_from_slice(&((2 * kind_name.len() + 2) as u16).to_le_bytes());
    record[24..32].copy_from_slice(&(base + kind_at as u64).to_le_bytes());
    for unit in name.iter().chain([0u16].iter()).chain(kind_name.iter()).chain([0u16].iter()) {
        record.extend_from_slice(&unit.to_le_bytes());
    }
    record
}

fn record_of(name: &str, base: u64) -> Vec<u8> {
    record_of_units(&units_of(name), &units_of("SymbolicLink"), base)
}

/// A directory that answers queries as the system does; its cursor is the
/// index of the next entry.
fn answer(entries: &[&str], context: u32, length: u32) -> QueryReply {
    match entries.get(context as usize) {
        None => QueryReply {
            status: STATUS_NO_MORE_ENTRIES,
            context,
            length: 0,
            buffer: vec![0u8; length as usize],
            base: BASE,
        },
        Some(name) => {
            let record = record_of(name, BASE);
            if (length as usize) < record.len() {
                QueryReply {
                    status: STATUS_BUFFER_TOO_SMALL,
                    context,
                    length: record.len() as u32,
                    buffer: vec![0u8; length as usize],
                    base: BASE,
                }
            } else {
                QueryReply {
                    status: STATUS_SUCCESS,
                    context: context + 1,
                    length: record.len() as u32,
                    buffer: record,
                    base: BASE,
                }
            }
        }
    }
}

/// Lists the directory in search of `target`; gives how the listing ended
/// and the queries it made, each as its buffer size and cursor.
fn list(entries: &[&str], target: &str) -> (ScanStep, Vec<(u32, u32)>) {
    let mut scan = DirectoryScan::begin();
    let mut queries = Vec::new();
    loop {
        queries.push((scan.length(), scan.context()));
        let reply = answer(entries, scan.context(), scan.length());
        match find_sym_link(scan, &reply, target) {
            ScanStep::Query(next) => scan = next,
            end => return (end, queries),
        }
        assert!(queries.len() < 1000);
    }
}

#[test]
fn simulated_directory_resolves_the_link() {
    let (end, queries) = list(&["Foo", "RZCONTROL123", "Bar"], "RZCONTROL");
    assert_eq!(end, ScanStep::Found("RZCONTROL123".to_string()));
    let foo = record_of("Foo", BASE).len() as u32;
    let link = record_of("RZCONTROL123", BASE).len() as u32;
    // probe and fetch of the first entry, probe and fetch of the second:
    // the third is never asked for
    assert_eq!(queries, vec![(0, 0), (foo, 0), (0, 1), (link, 1)]);
}

#[test]
fn empty_directory_is_exhausted() {
    let (end, queries) = list(&[], "RZCONTROL");
    assert_eq!(end, ScanStep::Exhausted);
    assert_eq!(queries, vec![(0, 0)]);
}

#[test]
fn directory_without_a_match_is_exhausted() {
    let (end, queries) = list(&["Foo", "Bar", "Baz"], "RZCONTROL");
    assert_eq!(end, ScanStep::Exhausted);
    assert_eq!(queries.len(), 7);
    assert_eq!(queries[6], (0, 3));
}

#[test]
fn the_first_match_is_found() {
    let (end, _) = list(&["A", "xRZCONTROLy", "RZCONTROL", "RZCONTROL2"], "RZCONTROL");
    assert_eq!(end, ScanStep::Found("xRZCONTROLy".to_string()));
    let (end, _) = list(&["RZCONTROL"], "RZCONTROL");
    assert_eq!(end, ScanStep::Found("RZCONTROL".to_string()));
    let (end, _) = list(&["Foo", "Bar", "endRZCONTROL"], "RZCONTROL");
    assert_eq!(end, ScanStep::Found("endRZCONTROL".to_string()));
}

#[test]
fn the_match_is_case_sensitive_and_contiguous() {
    let (end, _) = list(&["rzcontrol123", "RzControl", "RZ_CONTROL", "RZCONTRO"], "RZCONTROL");
    assert_eq!(end, ScanStep::Exhausted);
    let (end, _) = list(&["RZCONTROL"], "RZCONTROL1");
    assert_eq!(end, ScanStep::Exhausted);
}

#[test]
fn an_empty_target_matches_the_first_entry() {
    let (end, _) = list(&["Foo", "Bar"], "");
    assert_eq!(end, ScanStep::Found("Foo".to_string()));
    let (end, _) = list(&[""], "");
    assert_eq!(end, ScanStep::Found(String::new()));
    let (end, _) = list(&[""], "x");
    assert_eq!(end, ScanStep::Exhausted);
}

#[test]
fn a_listing_begins_with_a_probe_at_cursor_zero() {
    let scan = DirectoryScan::begin();
    assert_eq!(scan, DirectoryScan::Probe { context: 0 });
    assert_eq!(scan.length(), 0);
    assert_eq!(scan.context(), 0);
    let fetch = DirectoryScan::Fetch { context: 9, length: 120 };
    assert_eq!(fetch.length(), 120);
    assert_eq!(fetch.context(), 9);
    assert_eq!(DIRECTORY_QUERY, 1);
}

#[test]
fn status_codes() {
    assert_eq!(STATUS_SUCCESS, 0);
    assert_eq!(STATUS_BUFFER_TOO_SMALL as u32, 0xC0000023);
    assert_eq!(STATUS_NO_MORE_ENTRIES as u32, 0x8000001A);
    assert_eq!(STATUS_INFO_LENGTH_MISMATCH as u32, 0xC0000004);
}

fn reply(status: i32, context: u32, length: u32, buffer: Vec<u8>) -> QueryReply {
    QueryReply { status, context, length, buffer, base: BASE }
}

#[test]
fn a_probe_that_is_too_small_is_followed_by_a_fetch_of_the_reported_size() {
    let probe = DirectoryScan::Probe { context: 5 };
    let step = find_sym_link(probe, &reply(STATUS_BUFFER_TOO_SMALL, 0xDEADBEEF, 314, vec![]), "x");
    assert_eq!(step, ScanStep::Query(DirectoryScan::Fetch { context: 0xDEADBEEF, length: 314 }));
    let step = find_sym_link(probe, &reply(STATUS_BUFFER_TOO_SMALL, 5, 0, vec![]), "x");
    assert_eq!(step, ScanStep::Query(DirectoryScan::Fetch { context: 5, length: 0 }));
}

#[test]
fn a_probe_behind_the_last_entry_ends_the_listing() {
    let probe = DirectoryScan::Probe { context: 5 };
    let behind = reply(STATUS_NO_MORE_ENTRIES, 5, 0, vec![]);
    assert_eq!(find_sym_link(probe, &behind, "x"), ScanStep::Exhausted);
    let behind = reply(STATUS_SUCCESS, 5, 0, vec![]);
    assert_eq!(find_sym_link(probe, &behind, "x"), ScanStep::Exhausted);
    // a probe reads no entry, whatever the buffer holds
    let behind = reply(STATUS_SUCCESS, 5, 0, record_of("x", BASE));
    assert_eq!(find_sym_link(probe, &behind, "x"), ScanStep::Exhausted);
}

#[test]
fn any_other_status_fails_the_listing() {
    let probe = DirectoryScan::Probe { context: 0 };
    let access_denied = 0xC0000022u32 as i32;
    assert_eq!(
        find_sym_link(probe, &reply(access_denied, 0, 0, vec![]), "x"),
        ScanStep::Failed(access_denied)
    );
    assert_eq!(find_sym_link(probe, &reply(1, 0, 0, vec![]), "x"), ScanStep::Failed(1));
    assert_eq!(find_sym_link(probe, &reply(-1, 0, 0, vec![]), "x"), ScanStep::Failed(-1));

    let fetch = DirectoryScan::Fetch { context: 0, length: 200 };
    let record = record_of("x", BASE);
    for status in [access_denied, STATUS_BUFFER_TOO_SMALL, STATUS_NO_MORE_ENTRIES, 1, -1] {
        assert_eq!(
            find_sym_link(fetch, &reply(status, 1, 200, record.clone()), "x"),
            ScanStep::Failed(status)
        );
    }
}

#[test]
fn a_fetch_goes_on_with_a_probe_at_the_cursor_it_was_given() {
    let fetch = DirectoryScan::Fetch { context: 3, length: 200 };
    let record = record_of("Foo", BASE);
    let length = record.len() as u32;
    assert_eq!(
        find_sym_link(fetch, &reply(STATUS_SUCCESS, 0x80000007, length, record.clone()), "Bar"),
        ScanStep::Query(DirectoryScan::Probe { context: 0x80000007 })
    );
    assert_eq!(
        find_sym_link(fetch, &reply(STATUS_SUCCESS, 4, length, record), "oo"),
        ScanStep::Found("Foo".to_string())
    );
}

#[test]
fn an_entry_that_cannot_be_read_fails_the_listing() {
    let fetch = DirectoryScan::Fetch { context: 0, length: 16 };
    assert_eq!(
        find_sym_link(fetch, &reply(STATUS_SUCCESS, 1, 16, vec![0u8; 16]), ""),
        ScanStep::Failed(STATUS_INFO_LENGTH_MISMATCH)
    );
    let mut record = record_of("Foo", BASE);
    record.truncate(2 * ENTRY_HEADER_SIZE + 4);
    assert_eq!(
        find_sym_link(fetch, &reply(STATUS_SUCCESS, 1, 68, record), "Foo"),
        ScanStep::Failed(STATUS_INFO_LENGTH_MISMATCH)
    );
}

#[test]
fn entry_names_are_read_where_the_header_points() {
    let record = record_of("RZCONTROL123", BASE);
    assert_eq!(read_entry_units(&record, BASE), Some(units_of("RZCONTROL123")));
    assert_eq!(read_entry_name(&record, BASE), Some("RZCONTROL123".to_string()));
    // the type name is behind the name and is not read
    let record = record_of_units(&units_of("Ab"), &units_of("Directory"), BASE);
    assert_eq!(record.len(), 64 + 6 + 20);
    assert_eq!(read_entry_name(&record, BASE), Some("Ab".to_string()));
    // another base moves the address, not the name
    let record = record_of("Ab", 0x1000);
    assert_eq!(read_entry_name(&record, 0x1000), Some("Ab".to_string()));
    // a base two bytes lower moves the reading one code unit on
    assert_eq!(read_entry_name(&record, 0x1000 - 2), Some("b\0".to_string()));
    assert_eq!(read_entry_name(&record, 0x1000 + 65), None);
}

#[test]
fn the_name_may_lie_anywhere_in_the_buffer() {
    let mut record = vec![0u8; 40];
    record[0] = 4; // two code units
    record[8..16].copy_from_slice(&(BASE + 36).to_le_bytes());
    record[36..40].copy_from_slice(&[b'o', 0, b'k', 0]);
    assert_eq!(read_entry_name(&record, BASE), Some("ok".to_string()));
    // pointing at the header itself reads the header
    record[8..16].copy_from_slice(&BASE.to_le_bytes());
    assert_eq!(read_entry_units(&record, BASE), Some(vec![4u16, 0]));
    // an empty name at the very end of the buffer
    record[0] = 0;
    record[8..16].copy_from_slice(&(BASE + 40).to_le_bytes());
    assert_eq!(read_entry_units(&record, BASE), Some(vec![]));
    assert_eq!(read_entry_name(&record, BASE), Some(String::new()));
}

#[test]
fn an_odd_length_drops_the_half_unit() {
    let mut record = record_of("abc", BASE);
    record[0] = 5;
    assert_eq!(read_entry_name(&record, BASE), Some("ab".to_string()));
    record[0] = 1;
    assert_eq!(read_entry_name(&record, BASE), Some(String::new()));
}

#[test]
fn names_outside_the_buffer_are_refused() {
    // shorter than the header
    assert_eq!(read_entry_units(&[], BASE), None);
    assert_eq!(read_entry_units(&[0u8; 31], BASE), None);
    assert_eq!(read_entry_units(&[0u8; 32], 0), Some(vec![]));
    // the address lies before the buffer
    let record = record_of("abc", BASE);
    assert_eq!(read_entry_units(&record, BASE + 65), None);
    assert_eq!(read_entry_units(&[0u8; 32], 1), None);
    // the address lies behind the buffer
    let mut far = record.clone();
    far[8..16].copy_from_slice(&(BASE + record.len() as u64 + 1).to_le_bytes());
    assert_eq!(read_entry_units(&far, BASE), None);
    far[8..16].copy_from_slice(&u64::MAX.to_le_bytes());
    assert_eq!(read_entry_units(&far, BASE), None);
    assert_eq!(read_entry_units(&far, 0), None);
    // the name runs over the end
    let mut long = record.clone();
    long[0..2].copy_from_slice(&((record.len() - 64 + 2) as u16).to_le_bytes());
    assert_eq!(read_entry_units(&long, BASE), None);
    long[0..2].copy_from_slice(&((record.len() - 64) as u16).to_le_bytes());
    assert!(read_entry_units(&long, BASE).is_some());
    long[0..2].copy_from_slice(&u16::MAX.to_le_bytes());
    assert_eq!(read_entry_units(&long, BASE), None);
}

#[test]
fn unpaired_surrogates_become_replacement_characters() {
    let name: Vec<u16> = vec![0x0041, 0xD800, 0x0042, 0xDC00, 0xDBFF];
    let record = record_of_units(&name, &[], BASE);
    assert_eq!(read_entry_units(&record, BASE), Some(name));
    assert_eq!(read_entry_name(&record, BASE), Some("A\u{FFFD}B\u{FFFD}\u{FFFD}".to_string()));
    // a low surrogate before a high one: neither has a partner
    let record = record_of_units(&[0xDC00, 0xD800], &[], BASE);
    assert_eq!(read_entry_name(&record, BASE), Some("\u{FFFD}\u{FFFD}".to_string()));
    // two high surrogates and a low one: the second pairs
    let record = record_of_units(&[0xD800, 0xD83D, 0xDE00], &[], BASE);
    assert_eq!(read_entry_name(&record, BASE), Some("\u{FFFD}\u{1F600}".to_string()));
}

#[test]
fn surrogate_pairs_and_other_units_are_decoded() {
    let record = record_of_units(&[0xD83D, 0xDE00, 0x00E9, 0xFFFF, 0xD800, 0xDC00], &[], BASE);
    assert_eq!(
        read_entry_name(&record, BASE),
        Some("\u{1F600}\u{E9}\u{FFFF}\u{10000}".to_string())
    );
    let record = record_of_units(&[0xDBFF, 0xDFFF, 0xD7FF, 0xE000, 0x0000], &[], BASE);
    assert_eq!(
        read_entry_name(&record, BASE),
        Some("\u{10FFFF}\u{D7FF}\u{E000}\u{0}".to_string())
    );
}

#[test]
fn a_match_may_hold_characters_beyond_ascii() {
    let (end, _) = list(&["Gerät", "Ger\u{1F600}t"], "r\u{1F600}");
    assert_eq!(end, ScanStep::Found("Ger\u{1F600}t".to_string()));
    let (end, _) = list(&["Gerät"], "ät");
    assert_eq!(end, ScanStep::Found("Gerät".to_string()));
}

#[test]
fn the_directory_is_open_exactly_on_success() {
    let dir = DirectoryHandle { raw: 0x7C };
    assert_eq!(open_directory(STATUS_SUCCESS, dir), Ok(dir));
    for status in [0xC0000022u32 as i32, 0xC0000034u32 as i32, 1, -1, STATUS_NO_MORE_ENTRIES] {
        assert_eq!(
            open_directory(status, dir),
            Err(InitFault::PermissionOrOpenFailure { stage: OpenStage::Directory, code: status })
        );
    }
}

#[test]
fn a_status_becomes_the_fault_of_its_stage() {
    assert_eq!(
        status_to_error(-5, OpenStage::Listing),
        InitFault::PermissionOrOpenFailure { stage: OpenStage::Listing, code: -5 }
    );
    assert_eq!(
        status_to_error(STATUS_BUFFER_TOO_SMALL, OpenStage::Directory),
        InitFault::PermissionOrOpenFailure {
            stage: OpenStage::Directory,
            code: STATUS_BUFFER_TOO_SMALL,
        }
    );
    assert_eq!(
        InitFault::PermissionOrOpenFailure { stage: OpenStage::Device, code: 5 }.to_error(),
        razerctl::Error::PermissionOrOpenFailure { stage: OpenStage::Device, code: 5 }
    );
    assert_eq!(InitFault::NotFound.to_error(), razerctl::Error::NotFound);
}
