use std::cell::Cell;

use rd_fly::process_mem::{MemoryRegion, MEM_COMMIT, PAGE_READWRITE};
use rd_fly::versions::{
    find_version_and_base_addr, retry_step, RetryStep, rd132211_range, rd132328_range, retry, try_all_versions,
    try_rd13x, try_rd160052, ScanError, Version, MAX_RETRIES,
};
use rd_fly::{find_y_coord_addresses, y_coord_addresses, INNER_DIFF};

fn readable(a: usize) -> Option<MemoryRegion> {
    Some(MemoryRegion { base: a & !0xFFF, size: 0x1000, state: MEM_COMMIT, protect: PAGE_READWRITE })
}

fn unreadable(_a: usize) -> Option<MemoryRegion> {
    None
}

#[test]
fn version_offsets() {
    assert_eq!(Version::RD132211.offset(), 0xF8);
    assert_eq!(Version::RD132328.offset(), 0x1070);
    assert_eq!(Version::RD160052.offset(), 0x100);
}

#[test]
fn scan_error_messages() {
    assert_eq!(ScanError::UnreadableMemory.message(), "Memory range is unreadable");
    assert_eq!(
        ScanError::NotFound.message(),
        "Version and base address not found.\nAre you running a supported minecraft version?"
    );
}

#[test]
fn probe_ranges() {
    assert_eq!(rd132211_range(), 0xECBD1000..0xECBD2000);
    assert_eq!(rd132328_range(), 0x701500000..0x701850000);
}

#[test]
fn rd13x_finds_first_match() {
    let check = |a: usize| a >= 0xECBD1234;
    let r = try_rd13x(0xECBD1000..0xECBD2000, Version::RD132211, &readable, &check);
    assert_eq!(r, Ok((0xECBD1234, Version::RD132211)));
}

#[test]
fn rd13x_not_found() {
    let check = |_a: usize| false;
    let r = try_rd13x(0x1000..0x1100, Version::RD132328, &readable, &check);
    assert_eq!(r, Err(ScanError::NotFound));
}

#[test]
fn rd13x_unreadable() {
    let check = |_a: usize| true;
    let r = try_rd13x(0x1000..0x1100, Version::RD132328, &unreadable, &check);
    assert_eq!(r, Err(ScanError::UnreadableMemory));
}

#[test]
fn rd160052_candidates_in_order() {
    let check = |a: usize| a == 0x7015A0A10 || a == 0x701832960;
    assert_eq!(try_rd160052(&readable, &check), Ok((0x7015A0A10, Version::RD160052)));
    let none = |_a: usize| false;
    assert_eq!(try_rd160052(&readable, &none), Err(ScanError::NotFound));
    assert_eq!(try_rd160052(&unreadable, &none), Err(ScanError::UnreadableMemory));
    let first = |a: usize| a == 0x70203C5E0;
    assert_eq!(try_rd160052(&readable, &first), Ok((0x70203C5E0, Version::RD160052)));
}

#[test]
fn all_versions_in_order() {
    let narrow = |a: usize| a == 0xECBD1800 || a == 0x701600000;
    let wide = |a: usize| a == 0x7018328E0;
    assert_eq!(try_all_versions(&readable, &narrow, &wide), Ok((0xECBD1800, Version::RD132211)));
    let narrow2 = |a: usize| a == 0x701600000;
    assert_eq!(try_all_versions(&readable, &narrow2, &wide), Ok((0x701600000, Version::RD132328)));
    let nothing = |_a: usize| false;
    assert_eq!(try_all_versions(&readable, &nothing, &wide), Ok((0x7018328E0, Version::RD160052)));
    assert_eq!(try_all_versions(&readable, &nothing, &nothing), Err(ScanError::NotFound));
    assert_eq!(try_all_versions(&unreadable, &nothing, &nothing), Err(ScanError::UnreadableMemory));
}

#[test]
fn retry_stops_at_first_success() {
    let calls = Cell::new(0usize);
    let r: Result<u32, &str> = retry(
        || {
            calls.set(calls.get() + 1);
            if calls.get() == 3 { Ok(7) } else { Err("no") }
        },
        5,
    );
    assert_eq!(r, Ok(7));
    assert_eq!(calls.get(), 3);
}

#[test]
fn retry_returns_last_error() {
    let calls = Cell::new(0usize);
    let r: Result<u32, usize> = retry(
        || {
            calls.set(calls.get() + 1);
            Err(calls.get())
        },
        4,
    );
    assert_eq!(r, Err(4));
    assert_eq!(calls.get(), 4);
}

#[test]
fn retry_once() {
    let r: Result<u32, u32> = retry(|| Err(1), 1);
    assert_eq!(r, Err(1));
}

#[test]
fn find_pauses_between_rounds() {
    let pauses = Cell::new(0usize);
    let nothing = |_a: usize| false;
    let r = find_version_and_base_addr(&readable, &nothing, &nothing, &|| pauses.set(pauses.get() + 1));
    assert_eq!(r, Err(ScanError::NotFound));
    assert_eq!(pauses.get(), MAX_RETRIES);
}

#[test]
fn find_succeeds_without_pause() {
    let pauses = Cell::new(0usize);
    let narrow = |a: usize| a == 0xECBD1010;
    let nothing = |_a: usize| false;
    let r = find_version_and_base_addr(&readable, &narrow, &nothing, &|| pauses.set(pauses.get() + 1));
    assert_eq!(r, Ok((0xECBD1010, Version::RD132211)));
    assert_eq!(pauses.get(), 0);
}

#[test]
fn find_succeeds_on_a_later_round() {
    let rounds = Cell::new(0usize);
    let narrow = |a: usize| rounds.get() >= 2 && a == 0xECBD1010;
    let nothing = |_a: usize| false;
    let r = find_version_and_base_addr(&readable, &narrow, &nothing, &|| rounds.set(rounds.get() + 1));
    assert_eq!(r, Ok((0xECBD1010, Version::RD132211)));
    assert_eq!(rounds.get(), 2);
}

#[test]
fn y_coords_layout() {
    assert_eq!(INNER_DIFF, 0xC);
    assert_eq!(
        y_coord_addresses(0xECBD1000, Version::RD132211),
        [0xECBD1000, 0xECBD100C, 0xECBD1104, 0xECBD1110]
    );
    assert_eq!(
        y_coord_addresses(0x701600000, Version::RD132328),
        [0x701600000, 0x70160000C, 0x70160107C, 0x701601088]
    );
    assert_eq!(
        y_coord_addresses(0x7015A0A10, Version::RD160052),
        [0x7015A0A10, 0x7015A0A1C, 0x7015A0B1C, 0x7015A0B28]
    );
}

#[test]
fn find_y_coords() {
    let narrow = |a: usize| a == 0xECBD1000;
    let nothing = |_a: usize| false;
    assert_eq!(
        find_y_coord_addresses(&readable, &narrow, &nothing, &|| ()),
        Ok([0xECBD1000, 0xECBD100C, 0xECBD1104, 0xECBD1110])
    );
    assert_eq!(
        find_y_coord_addresses(&unreadable, &narrow, &nothing, &|| ()),
        Err(ScanError::UnreadableMemory)
    );
}

fn below_2000(a: usize) -> Option<MemoryRegion> {
    if a < 0x2000 {
        Some(MemoryRegion { base: a & !0xFFF, size: 0x1000, state: MEM_COMMIT, protect: PAGE_READWRITE })
    } else {
        None
    }
}

#[test]
fn rd13x_finds_height_whatever_follows_the_range() {
    let check = |a: usize| a == 0x1000;
    assert_eq!(
        try_rd13x(0x1000..0x2000, Version::RD132211, &below_2000, &check),
        Ok((0x1000, Version::RD132211))
    );
    let late = |a: usize| a == 0x1FFC;
    assert_eq!(
        try_rd13x(0x1000..0x2000, Version::RD132211, &below_2000, &late),
        Ok((0x1FFC, Version::RD132211))
    );
}

#[test]
fn rd13x_skips_tail_cells_that_run_into_unreadable_memory() {
    let probed = Cell::new(Vec::new());
    let check = |a: usize| {
        let mut v = probed.take();
        v.push(a);
        probed.set(v);
        a >= 0x1FFD
    };
    assert_eq!(
        try_rd13x(0x1000..0x2000, Version::RD132211, &below_2000, &check),
        Err(ScanError::NotFound)
    );
    let seen = probed.take();
    assert_eq!(seen.len(), 0xFFD);
    assert_eq!(*seen.last().unwrap(), 0x1FFC);
}

#[test]
fn rd13x_probes_last_address_when_readable() {
    let check = |a: usize| a == 0x1FFF;
    assert_eq!(
        try_rd13x(0x1000..0x2000, Version::RD132211, &readable, &check),
        Ok((0x1FFF, Version::RD132211))
    );
}

#[test]
fn rd13x_empty_range_is_unreadable() {
    let check = |_a: usize| true;
    assert_eq!(
        try_rd13x(0x1000..0x1000, Version::RD132211, &readable, &check),
        Err(ScanError::UnreadableMemory)
    );
}

#[test]
fn rd160052_skips_unreadable_candidate() {
    let only_build_range = |a: usize| {
        if (0x701500000..0x701850000).contains(&a) {
            Some(MemoryRegion { base: a & !0xFFF, size: 0x1000, state: MEM_COMMIT, protect: PAGE_READWRITE })
        } else {
            None
        }
    };
    let probed = Cell::new(Vec::new());
    let check = |a: usize| {
        let mut v = probed.take();
        v.push(a);
        probed.set(v);
        a == 0x70203C5E0 || a == 0x7018328E0
    };
    assert_eq!(try_rd160052(&only_build_range, &check), Ok((0x7018328E0, Version::RD160052)));
    assert_eq!(probed.take(), vec![0x7018328E0]);
}

#[test]
fn retry_step_decisions() {
    assert_eq!(retry_step::<u8, u8>(0, 5, Ok(3)), RetryStep::Done(Ok(3)));
    assert_eq!(retry_step::<u8, u8>(4, 5, Ok(3)), RetryStep::Done(Ok(3)));
    assert_eq!(retry_step::<u8, u8>(0, 5, Err(1)), RetryStep::Again);
    assert_eq!(retry_step::<u8, u8>(3, 5, Err(1)), RetryStep::Again);
    assert_eq!(retry_step::<u8, u8>(4, 5, Err(1)), RetryStep::Done(Err(1)));
    assert_eq!(retry_step::<u8, u8>(0, 1, Err(2)), RetryStep::Done(Err(2)));
}
