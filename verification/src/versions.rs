//! Locating the player's height in the game's memory: which game build is
//! running and where its first height value lies, found by probing known
//! address ranges, with retries.
use vstd::prelude::*;

use std::ops::Range;

use crate::process_mem::{
    is_memory_range_readable, query_contains, readable_possible, unreadable_possible,
    MemoryRegion,
};

verus! {

/// The game builds whose memory layout is known. Each lays out the four
/// height values the same way but for one distance, the build's offset.
#[derive(Clone, Copy, Debug, PartialEq, Eq, Structural)]
pub enum Version {
    RD132211,
    RD132328,
    RD160052,
}

/// The distance from the second height value to the third in each build.
pub open spec fn version_offset(v: Version) -> usize {
    match v {
        Version::RD132211 => 0xF8,
        Version::RD132328 => 0x1070,
        Version::RD160052 => 0x100,
    }
}

impl Version {
    /// The distance from the second height value to the third.
    pub fn offset(&self) -> (r: usize)
        ensures
            r == version_offset(*self),
    {
        match *self {
            Version::RD132211 => 0xF8,
            Version::RD132328 => 0x1070,
            Version::RD160052 => 0x100,
        }
    }
}

/// Why a probe found nothing.
#[derive(Clone, Copy, Debug, PartialEq, Eq, Structural)]
pub enum ScanError {
    /// The probed range is not readable.
    UnreadableMemory,
    /// No probed address held a plausible height.
    NotFound,
}

/// The message under which a probe failure is reported.
pub open spec fn scan_error_message(e: ScanError) -> Seq<char> {
    match e {
        ScanError::UnreadableMemory => "Memory range is unreadable"@,
        ScanError::NotFound => "Version and base address not found.\nAre you running a supported minecraft version?"@,
    }
}

impl ScanError {
    /// The message under which the failure is reported.
    pub fn message(&self) -> (r: &'static str)
        ensures
            r@ == scan_error_message(*self),
    {
        match *self {
            ScanError::UnreadableMemory => "Memory range is unreadable",
            ScanError::NotFound => "Version and base address not found.\nAre you running a supported minecraft version?",
        }
    }
}

/// How often the whole probe is tried before giving up.
pub const MAX_RETRIES: usize = 5;

/// Where build rd-132211 keeps its first height value.
pub const RD132211_START: usize = 0xECBD1000;

pub const RD132211_END: usize = 0xECBD2000;

/// Where build rd-132328 keeps its first height value; build rd-160052
/// needs this range readable too. These addresses lie above 4 GiB: on a
/// 64-bit target, the only one the game runs on, `as usize` keeps them.
pub const RD132328_START: u64 = 0x701500000;

pub const RD132328_END: u64 = 0x701850000;

/// The addresses at which build rd-160052 may keep its first height value.
pub const RD160052_FIRST: u64 = 0x70203C5E0;

pub const RD160052_SECOND: u64 = 0x7018328E0;

pub const RD160052_THIRD: u64 = 0x7015A0A10;

pub const RD160052_FOURTH: u64 = 0x701832960;

/// Start of the range probed for build rd-132328, as an address.
pub open spec fn rd132328_start() -> usize {
    RD132328_START as usize
}

/// End of the range probed for build rd-132328, as an address.
pub open spec fn rd132328_end() -> usize {
    RD132328_END as usize
}

/// The addresses at which build rd-160052 may keep its first height value.
pub open spec fn rd160052_candidates() -> Seq<usize> {
    seq![
        RD160052_FIRST as usize,
        RD160052_SECOND as usize,
        RD160052_THIRD as usize,
        RD160052_FOURTH as usize,
    ]
}

/// The range probed for build rd-132211.
pub fn rd132211_range() -> (r: Range<usize>)
    ensures
        r.start == RD132211_START,
        r.end == RD132211_END,
{
    Range { start: RD132211_START, end: RD132211_END }
}

/// The range probed for build rd-132328, whose readability build rd-160052
/// needs too.
pub fn rd132328_range() -> (r: Range<usize>)
    ensures
        r.start == rd132328_start(),
        r.end == rd132328_end(),
{
    Range { start: RD132328_START as usize, end: RD132328_END as usize }
}

/// The four bytes at `a` lie in a range that the region query can report
/// readable.
pub open spec fn cell_readable<Q: Fn(usize) -> Option<MemoryRegion>>(query: Q, a: usize) -> bool {
    exists|lo: usize, hi: usize| lo <= a && a + 4 <= hi && #[trigger] readable_possible(query, lo, hi)
}

/// The probe reads the four bytes at the address it is given, so it may be
/// called wherever those bytes were found readable, and need not be
/// callable anywhere else.
pub open spec fn probe_safe<Q: Fn(usize) -> Option<MemoryRegion>, C: Fn(usize) -> bool>(
    query: Q,
    check: C,
) -> bool {
    forall|a: usize| cell_readable(query, a) ==> #[trigger] call_requires(check, (a,))
}

/// The probe may say that no address in `lo..hi` holds a height.
pub open spec fn none_below<C: Fn(usize) -> bool>(check: C, lo: usize, hi: usize) -> bool {
    forall|b: usize| lo <= b < hi ==> call_ensures(check, (b,), false)
}

/// Probing the address `b` of `range` can find a height there: where its
/// four bytes lie inside the range, which was found readable, the probe
/// answered yes; at the last three addresses, whose bytes run past the
/// range, those bytes were found readable first.
pub open spec fn rd13x_hit<Q: Fn(usize) -> Option<MemoryRegion>, C: Fn(usize) -> bool>(
    query: Q,
    check: C,
    range: Range<usize>,
    b: usize,
) -> bool {
    if b + 4 <= range.end {
        call_ensures(check, (b,), true)
    } else {
        cell_probe_possible(query, check, b, true)
    }
}

/// Probing the address `b` of `range` can find no height there.
pub open spec fn rd13x_miss<Q: Fn(usize) -> Option<MemoryRegion>, C: Fn(usize) -> bool>(
    query: Q,
    check: C,
    range: Range<usize>,
    b: usize,
) -> bool {
    if b + 4 <= range.end {
        call_ensures(check, (b,), false)
    } else {
        cell_probe_possible(query, check, b, false)
    }
}

/// Probing finds no height at the addresses `lo..hi` of `range`.
pub open spec fn rd13x_none_below<Q: Fn(usize) -> Option<MemoryRegion>, C: Fn(usize) -> bool>(
    query: Q,
    check: C,
    range: Range<usize>,
    hi: usize,
) -> bool {
    forall|b: usize| range.start <= b < hi ==> #[trigger] rd13x_miss(query, check, range, b)
}

/// What probing `range` for `version` can give, where `query` describes the
/// memory regions and `check` says whether the four bytes at an address
/// hold a plausible height: an empty or unreadable range, the first address
/// of the range that holds one, or none. A height inside the readable range
/// is found whatever lies after the range.
pub open spec fn rd13x_possible<Q: Fn(usize) -> Option<MemoryRegion>, C: Fn(usize) -> bool>(
    query: Q,
    check: C,
    range: Range<usize>,
    version: Version,
    r: Result<(usize, Version), ScanError>,
) -> bool {
    match r {
        Err(ScanError::UnreadableMemory) => unreadable_possible(query, range.start, range.end),
        Err(ScanError::NotFound) => {
            &&& readable_possible(query, range.start, range.end)
            &&& rd13x_none_below(query, check, range, range.end)
        },
        Ok((addr, v)) => {
            &&& readable_possible(query, range.start, range.end)
            &&& v == version
            &&& range.start <= addr < range.end
            &&& rd13x_hit(query, check, range, addr)
            &&& rd13x_none_below(query, check, range, addr)
        },
    }
}

/// Probes every address of `range`, in order, for the first that holds a
/// plausible height, once the range is known to be readable. At the last
/// three addresses, whose four bytes run past the range, the probe is asked
/// only once those bytes are found readable too.
pub fn try_rd13x<Q: Fn(usize) -> Option<MemoryRegion>, C: Fn(usize) -> bool>(
    range: Range<usize>,
    version: Version,
    query: &Q,
    check: &C,
) -> (r: Result<(usize, Version), ScanError>)
    requires
        forall|a: usize| call_requires(*query, (a,)),
        query_contains(*query),
        probe_safe(*query, *check),
    ensures
        rd13x_possible(*query, *check, range, version, r),
{
    let start = range.start;
    let end = range.end;
    if !is_memory_range_readable(Range { start, end }, query) {
        return Err(ScanError::UnreadableMemory);
    }
    let mut addr = start;
    while addr < end
        invariant
            start == range.start,
            end == range.end,
            start < end,
            start <= addr <= end,
            forall|a: usize| call_requires(*query, (a,)),
            query_contains(*query),
            probe_safe(*query, *check),
            readable_possible(*query, start, end),
            rd13x_none_below(*query, *check, range, addr),
        decreases end - addr,
    {
        let found = if end >= 4 && addr <= end - 4 {
            assert(cell_readable(*query, addr));
            check(addr)
        } else {
            probe_cell(addr, query, check)
        };
        if found {
            return Ok((addr, version));
        }
        assert(rd13x_miss(*query, *check, range, addr));
        addr = addr + 1;
    }
    Err(ScanError::NotFound)
}

/// What probing the four bytes at `addr` can give: found means that they
/// were found readable and the probe answered yes there; not found means
/// that they run past the address space, could not be found readable, or
/// the probe answered no.
pub open spec fn cell_probe_possible<Q: Fn(usize) -> Option<MemoryRegion>, C: Fn(usize) -> bool>(
    query: Q,
    check: C,
    addr: usize,
    found: bool,
) -> bool {
    if found {
        &&& addr + 4 <= usize::MAX
        &&& readable_possible(query, addr, (addr + 4) as usize)
        &&& call_ensures(check, (addr,), true)
    } else {
        ||| addr + 4 > usize::MAX
        ||| unreadable_possible(query, addr, (addr + 4) as usize)
        ||| call_ensures(check, (addr,), false)
    }
}

/// Probes the four bytes at `addr` once they are known to be readable.
pub fn probe_cell<Q: Fn(usize) -> Option<MemoryRegion>, C: Fn(usize) -> bool>(
    addr: usize,
    query: &Q,
    check: &C,
) -> (found: bool)
    requires
        forall|a: usize| call_requires(*query, (a,)),
        query_contains(*query),
        probe_safe(*query, *check),
    ensures
        cell_probe_possible(*query, *check, addr, found),
{
    if addr > usize::MAX - 4 {
        return false;
    }
    if !is_memory_range_readable(Range { start: addr, end: addr + 4 }, query) {
        return false;
    }
    assert(cell_readable(*query, addr));
    check(addr)
}

/// What probing build rd-160052 can give: an unreadable range, the first
/// candidate address whose four bytes are readable and hold a plausible
/// height, or none.
pub open spec fn rd160052_possible<Q: Fn(usize) -> Option<MemoryRegion>, C: Fn(usize) -> bool>(
    query: Q,
    check: C,
    r: Result<(usize, Version), ScanError>,
) -> bool {
    let cands = rd160052_candidates();
    match r {
        Err(ScanError::UnreadableMemory) => unreadable_possible(
            query,
            rd132328_start(),
            rd132328_end(),
        ),
        Err(ScanError::NotFound) => {
            &&& readable_possible(query, rd132328_start(), rd132328_end())
            &&& forall|k: int|
                0 <= k < cands.len() ==> cell_probe_possible(query, check, #[trigger] cands[k], false)
        },
        Ok((addr, v)) => {
            &&& readable_possible(query, rd132328_start(), rd132328_end())
            &&& v == Version::RD160052
            &&& exists|k: int|
                {
                    &&& 0 <= k < cands.len()
                    &&& addr == cands[k]
                    &&& cell_probe_possible(query, check, addr, true)
                    &&& forall|j: int|
                        0 <= j < k ==> cell_probe_possible(query, check, #[trigger] cands[j], false)
                }
        },
    }
}

/// Probes the few addresses at which build rd-160052 keeps its first height
/// value, once the build's memory is known to be readable; each candidate
/// is probed only once its own four bytes are found readable.
pub fn try_rd160052<Q: Fn(usize) -> Option<MemoryRegion>, C: Fn(usize) -> bool>(
    query: &Q,
    check: &C,
) -> (r: Result<(usize, Version), ScanError>)
    requires
        forall|a: usize| call_requires(*query, (a,)),
        query_contains(*query),
        probe_safe(*query, *check),
    ensures
        rd160052_possible(*query, *check, r),
{
    if !is_memory_range_readable(rd132328_range(), query) {
        return Err(ScanError::UnreadableMemory);
    }
    let candidates: [usize; 4] = [
        RD160052_FIRST as usize,
        RD160052_SECOND as usize,
        RD160052_THIRD as usize,
        RD160052_FOURTH as usize,
    ];
    assert(candidates@ == rd160052_candidates());
    let mut k: usize = 0;
    while k < 4
        invariant
            candidates@ == rd160052_candidates(),
            readable_possible(*query, rd132328_start(), rd132328_end()),
            k <= 4,
            forall|a: usize| call_requires(*query, (a,)),
            query_contains(*query),
            probe_safe(*query, *check),
            forall|j: int|
                0 <= j < k ==> cell_probe_possible(*query, *check, #[trigger] candidates@[j], false),
        decreases 4 - k,
    {
        let addr = candidates[k];
        if probe_cell(addr, query, check) {
            assert(candidates@[k as int] == addr);
            return Ok((addr, Version::RD160052));
        }
        k = k + 1;
    }
    Err(ScanError::NotFound)
}

/// What `retry` can give back: the outcomes of at most `times` calls of
/// `fun`, all failures but the last, where the last is returned and is a
/// failure only when all `times` calls failed.
pub open spec fn retry_possible<T, E, F: FnMut() -> Result<T, E>>(
    fun: F,
    times: usize,
    r: Result<T, E>,
) -> bool {
    exists|outs: Seq<Result<T, E>>|
        {
            &&& 1 <= outs.len() <= times
            &&& forall|i: int| 0 <= i < outs.len() ==> call_ensures(fun, (), #[trigger] outs[i])
            &&& forall|i: int| 0 <= i < outs.len() - 1 ==> (#[trigger] outs[i]) is Err
            &&& r == outs.last()
            &&& r is Err ==> outs.len() == times
        }
}

/// What `retry` does after one call of the closure.
#[derive(Debug, PartialEq, Eq)]
pub enum RetryStep<T, E> {
    /// Stop and give back this outcome.
    Done(Result<T, E>),
    /// Call the closure again.
    Again,
}

/// The retry decision after the call numbered `attempt` (from zero) out of
/// `times` came back with `outcome`: a success ends the retrying with that
/// success, a failure with calls left asks for another call, and a failure
/// of the last call ends the retrying with that failure.
pub fn retry_step<T, E>(attempt: usize, times: usize, outcome: Result<T, E>) -> (r: RetryStep<
    T,
    E,
>)
    ensures
        match outcome {
            Ok(v) => r == RetryStep::<T, E>::Done(Ok(v)),
            Err(e) => if attempt + 1 < times {
                r == RetryStep::<T, E>::Again
            } else {
                r == RetryStep::<T, E>::Done(Err(e))
            },
        },
{
    match outcome {
        Ok(v) => RetryStep::Done(Ok(v)),
        Err(e) => {
            if attempt < times && attempt + 1 < times {
                RetryStep::Again
            } else {
                RetryStep::Done(Err(e))
            }
        },
    }
}

/// Calls `fun` until it succeeds, at most `times` times, and gives back its
/// first success, or its last failure when every call failed; after each
/// call, `retry_step` decides.
pub fn retry<T, E, F: FnMut() -> Result<T, E>>(fun: F, times: usize) -> (r: Result<T, E>)
    requires
        times > 0,
        call_requires(fun, ()),
    ensures
        retry_possible(fun, times, r),
{
    let ghost f0 = fun;
    let mut attempt = fun;
    let ghost mut outs: Seq<Result<T, E>> = seq![];
    let mut i: usize = 0;
    loop
        invariant
            attempt == f0,
            f0 == fun,
            call_requires(f0, ()),
            i < times,
            outs.len() == i,
            forall|j: int| 0 <= j < outs.len() ==> call_ensures(f0, (), #[trigger] outs[j]),
            forall|j: int| 0 <= j < outs.len() ==> (#[trigger] outs[j]) is Err,
        decreases times - i,
    {
        let outcome = attempt();
        let ghost prev = outs;
        proof {
            outs = outs.push(outcome);
            assert(forall|j: int| 0 <= j < prev.len() ==> outs[j] == prev[j]);
        }
        match retry_step(i, times, outcome) {
            RetryStep::Done(res) => {
                assert(outs.last() == res);
                assert(retry_possible(f0, times, res));
                return res;
            },
            RetryStep::Again => {
                i = i + 1;
            },
        }
    }
}

/// The probe for `range` and `version` can fail.
pub open spec fn rd13x_can_fail<Q: Fn(usize) -> Option<MemoryRegion>, C: Fn(usize) -> bool>(
    query: Q,
    check: C,
    range: Range<usize>,
    version: Version,
) -> bool {
    exists|e: ScanError| rd13x_possible(query, check, range, version, Err(e))
}

/// What one round of probing can give: the probes for rd-132211,
/// rd-132328 and rd-160052 are tried in this order, and the first that
/// finds an address answers; when all fail, the last failure answers.
pub open spec fn scan_possible<
    Q: Fn(usize) -> Option<MemoryRegion>,
    C: Fn(usize) -> bool,
    W: Fn(usize) -> bool,
>(query: Q, narrow: C, wide: W, r: Result<(usize, Version), ScanError>) -> bool {
    let first = Range { start: RD132211_START, end: RD132211_END };
    let second = Range { start: rd132328_start(), end: rd132328_end() };
    ||| r is Ok && rd13x_possible(query, narrow, first, Version::RD132211, r)
    ||| rd13x_can_fail(query, narrow, first, Version::RD132211) && r is Ok && rd13x_possible(
        query,
        narrow,
        second,
        Version::RD132328,
        r,
    )
    ||| rd13x_can_fail(query, narrow, first, Version::RD132211) && rd13x_can_fail(
        query,
        narrow,
        second,
        Version::RD132328,
    ) && rd160052_possible(query, wide, r)
}

/// One round of probing: build rd-132211, then rd-132328, then rd-160052.
/// `narrow` says whether an address holds a plausible height for the first
/// two builds, `wide` for the third.
pub fn try_all_versions<
    Q: Fn(usize) -> Option<MemoryRegion>,
    C: Fn(usize) -> bool,
    W: Fn(usize) -> bool,
>(query: &Q, narrow: &C, wide: &W) -> (r: Result<(usize, Version), ScanError>)
    requires
        forall|a: usize| call_requires(*query, (a,)),
        query_contains(*query),
        probe_safe(*query, *narrow),
        probe_safe(*query, *wide),
    ensures
        scan_possible(*query, *narrow, *wide, r),
{
    let first = try_rd13x(rd132211_range(), Version::RD132211, query, narrow);
    if first.is_ok() {
        return first;
    }
    let second = try_rd13x(rd132328_range(), Version::RD132328, query, narrow);
    if second.is_ok() {
        return second;
    }
    try_rd160052(query, wide)
}

/// The probes can be run: the region query can be asked about every
/// address and reports the region holding it, the probes can be called
/// wherever their four bytes were found readable, and the pause can be
/// called.
pub open spec fn probes_ready<
    Q: Fn(usize) -> Option<MemoryRegion>,
    C: Fn(usize) -> bool,
    W: Fn(usize) -> bool,
    P: Fn(),
>(query: &Q, narrow: &C, wide: &W, pause: &P) -> bool {
    &&& forall|a: usize| call_requires(*query, (a,))
    &&& query_contains(*query)
    &&& probe_safe(*query, *narrow)
    &&& probe_safe(*query, *wide)
    &&& call_requires(*pause, ())
}

/// `scan_possible`, for closures held by reference.
pub open spec fn scan_possible_at<
    Q: Fn(usize) -> Option<MemoryRegion>,
    C: Fn(usize) -> bool,
    W: Fn(usize) -> bool,
>(query: &Q, narrow: &C, wide: &W, r: Result<(usize, Version), ScanError>) -> bool {
    scan_possible(*query, *narrow, *wide, r)
}

/// What the search can give: the outcomes of at most `MAX_RETRIES` rounds
/// of probing, all failures but the last, where the last is the answer and
/// is a failure only when every round failed.
pub open spec fn find_possible<
    Q: Fn(usize) -> Option<MemoryRegion>,
    C: Fn(usize) -> bool,
    W: Fn(usize) -> bool,
>(query: Q, narrow: C, wide: W, r: Result<(usize, Version), ScanError>) -> bool {
    exists|outs: Seq<Result<(usize, Version), ScanError>>|
        {
            &&& 1 <= outs.len() <= MAX_RETRIES
            &&& forall|i: int|
                0 <= i < outs.len() ==> scan_possible(query, narrow, wide, #[trigger] outs[i])
            &&& forall|i: int| 0 <= i < outs.len() - 1 ==> (#[trigger] outs[i]) is Err
            &&& r == outs.last()
            &&& r is Err ==> outs.len() == MAX_RETRIES
        }
}

/// Finds the running build and the address of its first height value:
/// up to `MAX_RETRIES` rounds of probing, with `pause` called after each
/// round that found nothing.
pub fn find_version_and_base_addr<
    Q: Fn(usize) -> Option<MemoryRegion>,
    C: Fn(usize) -> bool,
    W: Fn(usize) -> bool,
    P: Fn(),
>(query: &Q, narrow: &C, wide: &W, pause: &P) -> (r: Result<(usize, Version), ScanError>)
    requires
        forall|a: usize| call_requires(*query, (a,)),
        query_contains(*query),
        probe_safe(*query, *narrow),
        probe_safe(*query, *wide),
        call_requires(*pause, ()),
    ensures
        find_possible(*query, *narrow, *wide, r),
{
    let round = || -> (res: Result<(usize, Version), ScanError>)
        requires
            probes_ready(query, narrow, wide, pause),
        ensures
            scan_possible_at(query, narrow, wide, res),
        {
            let res = try_all_versions(query, narrow, wide);
            if res.is_err() {
                pause();
            }
            res
        };
    let r = retry(round, MAX_RETRIES);
    let ghost outs = choose|outs: Seq<Result<(usize, Version), ScanError>>|
        {
            &&& 1 <= outs.len() <= MAX_RETRIES
            &&& forall|i: int| 0 <= i < outs.len() ==> call_ensures(round, (), #[trigger] outs[i])
            &&& forall|i: int| 0 <= i < outs.len() - 1 ==> (#[trigger] outs[i]) is Err
            &&& r == outs.last()
            &&& r is Err ==> outs.len() == MAX_RETRIES
        };
    assert(forall|i: int|
        0 <= i < outs.len() ==> scan_possible(*query, *narrow, *wide, #[trigger] outs[i])) by {
        assert forall|i: int| 0 <= i < outs.len() implies scan_possible(
            *query,
            *narrow,
            *wide,
            #[trigger] outs[i],
        ) by {
            assert(call_ensures(round, (), outs[i]));
        }
    }
    r
}

} // verus!
