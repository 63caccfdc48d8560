use rd_fly::process_mem::{
    is_memory_range_readable, MemoryRegion, MEM_COMMIT, PAGE_EXECUTE_READ,
    PAGE_EXECUTE_READWRITE, PAGE_EXECUTE_WRITECOPY, PAGE_GUARD, PAGE_READONLY, PAGE_READWRITE,
    PAGE_WRITECOPY, READABLE_FLAGS,
};

fn pages(protect: u32) -> impl Fn(usize) -> Option<MemoryRegion> {
    move |a: usize| {
        Some(MemoryRegion { base: a & !0xFFF, size: 0x1000, state: MEM_COMMIT, protect })
    }
}

#[test]
fn readable_flags_are_the_union() {
    assert_eq!(
        READABLE_FLAGS,
        PAGE_READONLY
            | PAGE_READWRITE
            | PAGE_WRITECOPY
            | PAGE_EXECUTE_READ
            | PAGE_EXECUTE_READWRITE
            | PAGE_EXECUTE_WRITECOPY
    );
    assert_eq!(MEM_COMMIT, 0x1000);
    assert_eq!(PAGE_GUARD, 0x100);
}

#[test]
fn empty_range_is_unreadable() {
    assert!(!is_memory_range_readable(5..5, &pages(PAGE_READWRITE)));
    assert!(!is_memory_range_readable(6..5, &pages(PAGE_READWRITE)));
}

#[test]
fn committed_readable_pages_are_readable() {
    for p in [
        PAGE_READONLY,
        PAGE_READWRITE,
        PAGE_WRITECOPY,
        PAGE_EXECUTE_READ,
        PAGE_EXECUTE_READWRITE,
        PAGE_EXECUTE_WRITECOPY,
    ] {
        assert!(is_memory_range_readable(0x1000..0x5000, &pages(p)));
    }
}

#[test]
fn guard_or_noaccess_pages_are_unreadable() {
    assert!(!is_memory_range_readable(0x1000..0x5000, &pages(PAGE_READWRITE | PAGE_GUARD)));
    assert!(!is_memory_range_readable(0x1000..0x5000, &pages(0x01)));
    assert!(!is_memory_range_readable(0x1000..0x5000, &pages(0x10)));
}

#[test]
fn uncommitted_region_is_unreadable() {
    let reserved = |a: usize| {
        Some(MemoryRegion { base: a & !0xFFF, size: 0x1000, state: 0x2000, protect: PAGE_READWRITE })
    };
    assert!(!is_memory_range_readable(0x1000..0x2000, &reserved));
}

#[test]
fn failed_query_is_unreadable() {
    assert!(!is_memory_range_readable(0x1000..0x2000, &|_a: usize| None));
}

#[test]
fn one_bad_region_in_the_middle() {
    let query = |a: usize| {
        let base = a & !0xFFF;
        let protect = if base == 0x3000 { 0x01 } else { PAGE_READONLY };
        Some(MemoryRegion { base, size: 0x1000, state: MEM_COMMIT, protect })
    };
    assert!(!is_memory_range_readable(0x1000..0x5000, &query));
    assert!(is_memory_range_readable(0x1000..0x3000, &query));
    assert!(is_memory_range_readable(0x4000..0x4001, &query));
}

#[test]
fn region_at_top_of_address_space() {
    let query = |a: usize| {
        Some(MemoryRegion {
            base: a & !0xFFF,
            size: usize::MAX,
            state: MEM_COMMIT,
            protect: PAGE_READONLY,
        })
    };
    assert!(is_memory_range_readable(usize::MAX - 10..usize::MAX, &query));
}
