//! Whether a range of the game's address space can be read, decided from
//! what the operating system reports about the memory regions in it.
use vstd::prelude::*;

use std::ops::Range;

verus! {

/// Region state: pages backed by memory.
pub const MEM_COMMIT: u32 = 0x1000;

/// Page protections under which the pages can be read.
pub const PAGE_READONLY: u32 = 0x02;

pub const PAGE_READWRITE: u32 = 0x04;

pub const PAGE_WRITECOPY: u32 = 0x08;

pub const PAGE_EXECUTE_READ: u32 = 0x20;

pub const PAGE_EXECUTE_READWRITE: u32 = 0x40;

pub const PAGE_EXECUTE_WRITECOPY: u32 = 0x80;

/// Guard pages fault on first access, so they do not count as readable.
pub const PAGE_GUARD: u32 = 0x100;

/// Any of the protections under which the pages can be read.
pub const READABLE_FLAGS: u32 = 0xEE;

/// What the operating system reports about the region of pages around an
/// address: where the region starts, how long it is, its state and its
/// page protection.
#[derive(Clone, Copy, Debug, PartialEq, Eq, Structural)]
pub struct MemoryRegion {
    pub base: usize,
    pub size: usize,
    pub state: u32,
    pub protect: u32,
}

/// The address right after the region (stuck at the top of the address
/// space when it would go past it).
pub open spec fn region_end(r: MemoryRegion) -> usize {
    if r.base + r.size > usize::MAX {
        usize::MAX
    } else {
        (r.base + r.size) as usize
    }
}

/// A region the walk accepts: committed, readable, not a guard region, and
/// one that moves the walk forward.
pub open spec fn region_ok(r: MemoryRegion) -> bool {
    &&& r.state == MEM_COMMIT
    &&& r.protect & READABLE_FLAGS != 0
    &&& r.protect & PAGE_GUARD == 0
    &&& region_end(r) > r.base
}

/// The address that a walk from `start` queries after the regions `regs`.
pub open spec fn walk_addr(start: usize, regs: Seq<MemoryRegion>, i: int) -> usize {
    if i <= 0 {
        start
    } else {
        region_end(regs[i - 1])
    }
}

/// The walk from `start` towards `end` queried the `i`-th address of the
/// walk while below `end`, the query can answer there with `regs[i]`, and
/// the walk accepts that answer.
pub open spec fn step_accepted<Q: Fn(usize) -> Option<MemoryRegion>>(
    query: Q,
    start: usize,
    end: usize,
    regs: Seq<MemoryRegion>,
    i: int,
) -> bool {
    &&& walk_addr(start, regs, i) < end
    &&& call_ensures(query, (walk_addr(start, regs, i),), Some(regs[i]))
    &&& region_ok(regs[i])
}

/// `regs` are answers the query can give, one after the other, for a walk
/// from `start` towards `end`, and the walk accepted each of them.
pub open spec fn accepted_walk<Q: Fn(usize) -> Option<MemoryRegion>>(
    query: Q,
    start: usize,
    end: usize,
    regs: Seq<MemoryRegion>,
) -> bool {
    forall|i: int| 0 <= i < regs.len() ==> #[trigger] step_accepted(query, start, end, regs, i)
}

/// The query can answer so that the walk covers `start..end` with
/// accepted regions.
pub open spec fn readable_possible<Q: Fn(usize) -> Option<MemoryRegion>>(
    query: Q,
    start: usize,
    end: usize,
) -> bool {
    &&& start < end
    &&& exists|regs: Seq<MemoryRegion>|
        {
            &&& accepted_walk(query, start, end, regs)
            &&& regs.len() > 0
            &&& walk_addr(start, regs, regs.len() as int) >= end
        }
}

/// The query answers at `a` with no region, or with one the walk rejects.
pub open spec fn rejected_at<Q: Fn(usize) -> Option<MemoryRegion>>(query: Q, a: usize) -> bool {
    ||| call_ensures(query, (a,), None)
    ||| exists|r: MemoryRegion| call_ensures(query, (a,), Some(r)) && !region_ok(r)
}

/// The range is empty, or the query can answer so that the walk accepts
/// some regions and then meets one it rejects before reaching `end`.
pub open spec fn unreadable_possible<Q: Fn(usize) -> Option<MemoryRegion>>(
    query: Q,
    start: usize,
    end: usize,
) -> bool {
    ||| start >= end
    ||| exists|regs: Seq<MemoryRegion>|
        {
            &&& accepted_walk(query, start, end, regs)
            &&& walk_addr(start, regs, regs.len() as int) < end
            &&& rejected_at(query, walk_addr(start, regs, regs.len() as int))
        }
}

/// The query reports the region that holds the address it was asked
/// about, as the operating system's region query does.
pub open spec fn query_contains<Q: Fn(usize) -> Option<MemoryRegion>>(query: Q) -> bool {
    forall|a: usize, r: MemoryRegion|
        call_ensures(query, (a,), Some(r)) ==> r.base <= a && a < r.base + r.size
}

/// An accepted walk grows by one more accepted answer.
proof fn lemma_walk_extend<Q: Fn(usize) -> Option<MemoryRegion>>(
    query: Q,
    start: usize,
    end: usize,
    regs: Seq<MemoryRegion>,
    r: MemoryRegion,
)
    requires
        accepted_walk(query, start, end, regs),
        walk_addr(start, regs, regs.len() as int) < end,
        call_ensures(query, (walk_addr(start, regs, regs.len() as int),), Some(r)),
        region_ok(r),
    ensures
        accepted_walk(query, start, end, regs.push(r)),
        walk_addr(start, regs.push(r), regs.len() + 1int) == region_end(r),
{
    let ext = regs.push(r);
    assert forall|i: int| 0 <= i < ext.len() implies #[trigger] step_accepted(
        query,
        start,
        end,
        ext,
        i,
    ) by {
        if i < regs.len() {
            assert(step_accepted(query, start, end, regs, i));
            assert(ext[i] == regs[i]);
            if i > 0 {
                assert(ext[i - 1] == regs[i - 1]);
            }
            assert(walk_addr(start, ext, i) == walk_addr(start, regs, i));
        } else {
            assert(ext[i] == r);
            if i > 0 {
                assert(ext[i - 1] == regs[i - 1]);
            }
            assert(walk_addr(start, ext, i) == walk_addr(start, regs, regs.len() as int));
        }
    }
}

/// Walks the regions of `range` with `query`, which answers for an address
/// with the region that holds it, or `None` where the system has no answer.
/// The range is readable when it is not empty and every region met is
/// committed, readable and not a guard region.
pub fn is_memory_range_readable<Q: Fn(usize) -> Option<MemoryRegion>>(
    range: Range<usize>,
    query: &Q,
) -> (r: bool)
    requires
        forall|a: usize| call_requires(*query, (a,)),
        query_contains(*query),
    ensures
        r ==> readable_possible(*query, range.start, range.end),
        !r ==> unreadable_possible(*query, range.start, range.end),
{
    if range.start >= range.end {
        return false;
    }
    let start_addr = range.start;
    let end_addr = range.end;
    let mut current_addr = start_addr;
    let readable_flags = PAGE_READONLY | PAGE_READWRITE | PAGE_WRITECOPY | PAGE_EXECUTE_READ
        | PAGE_EXECUTE_READWRITE | PAGE_EXECUTE_WRITECOPY;
    assert(readable_flags == READABLE_FLAGS) by (bit_vector)
        requires
            readable_flags == 0x02u32 | 0x04u32 | 0x08u32 | 0x20u32 | 0x40u32 | 0x80u32,
    ;
    let ghost mut regs: Seq<MemoryRegion> = seq![];

    while current_addr < end_addr
        invariant
            start_addr == range.start,
            end_addr == range.end,
            start_addr < end_addr,
            readable_flags == READABLE_FLAGS,
            forall|a: usize| call_requires(*query, (a,)),
            query_contains(*query),
            accepted_walk(*query, start_addr, end_addr, regs),
            current_addr == walk_addr(start_addr, regs, regs.len() as int),
            regs.len() == 0 ==> current_addr == start_addr,
        decreases if current_addr < end_addr { end_addr - current_addr } else { 0 },
    {
        let answer = query(current_addr);
        let mbi = match answer {
            None => {
                assert(rejected_at(*query, current_addr));
                return false;
            },
            Some(region) => region,
        };
        if mbi.state != MEM_COMMIT || (mbi.protect & readable_flags) == 0 || (mbi.protect
            & PAGE_GUARD) != 0 {
            assert(call_ensures(*query, (current_addr,), Some(mbi)));
            assert(!region_ok(mbi));
            assert(rejected_at(*query, current_addr));
            return false;
        }
        let next_addr = mbi.base.saturating_add(mbi.size);
        if next_addr <= mbi.base {
            assert(rejected_at(*query, current_addr));
            return false;
        }
        assert(region_ok(mbi));
        assert(call_ensures(*query, (current_addr,), Some(mbi)));
        assert(mbi.base <= current_addr && current_addr < mbi.base + mbi.size);
        proof {
            lemma_walk_extend(*query, start_addr, end_addr, regs, mbi);
            regs = regs.push(mbi);
        }
        assert(next_addr > current_addr);
        current_addr = next_addr;
    }
    assert(regs.len() > 0);
    true
}

} // verus!
