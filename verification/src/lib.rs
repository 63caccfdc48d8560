//! Decision logic of a fly controller for early Minecraft builds: key
//! edge detection, the double-tap detector, the fly state machine, the
//! per-tick memory actions, and the search that locates the player's height.

pub mod fly_hack;
pub mod injector;
pub mod process_mem;
pub mod versions;

use vstd::prelude::*;

use crate::process_mem::MemoryRegion;
use crate::versions::{
    cell_probe_possible, find_possible, find_version_and_base_addr, probes_ready, rd160052_candidates,
    rd160052_possible, scan_possible, version_offset, ScanError, Version, MAX_RETRIES,
    RD132211_END,
};

verus! {

/// The distance from the first height value to the second, and from the
/// third to the fourth, in every build.
pub const INNER_DIFF: usize = 0xC;

/// The four height addresses lie within reach of the address space.
pub open spec fn y_coords_fit(first_addr: usize, version: Version) -> bool {
    first_addr + INNER_DIFF + version_offset(version) + INNER_DIFF <= usize::MAX
}

/// The four addresses at which a build keeps the player's height, given
/// the first of them.
pub open spec fn spec_y_coords(first_addr: usize, version: Version) -> Seq<usize> {
    let second = first_addr + INNER_DIFF;
    let third = second + version_offset(version);
    let fourth = third + INNER_DIFF;
    seq![first_addr, second as usize, third as usize, fourth as usize]
}

/// The four addresses at which the player's height is kept: the first, the
/// first plus `INNER_DIFF`, that plus the build's offset, and that plus
/// `INNER_DIFF` again.
pub fn y_coord_addresses(first_addr: usize, version: Version) -> (r: [usize; 4])
    requires
        y_coords_fit(first_addr, version),
    ensures
        r@ == spec_y_coords(first_addr, version),
{
    let second_addr = first_addr + INNER_DIFF;
    let third_addr = second_addr + version.offset();
    let fourth_addr = third_addr + INNER_DIFF;
    let r = [first_addr, second_addr, third_addr, fourth_addr];
    assert(r@ =~= spec_y_coords(first_addr, version));
    r
}

/// Every address the search can find leaves room for the other three.
proof fn lemma_found_fits<
    Q: Fn(usize) -> Option<MemoryRegion>,
    C: Fn(usize) -> bool,
    W: Fn(usize) -> bool,
>(query: Q, narrow: C, wide: W, first_addr: usize, version: Version)
    requires
        scan_possible(query, narrow, wide, Ok((first_addr, version))),
    ensures
        y_coords_fit(first_addr, version),
{
    assert(((0x701850000u64 as usize) + 0x1088usize) as usize == (0x701850000u64 as usize) + 0x1088usize) by (bit_vector);
    assert(((0x70203C5E0u64 as usize) + 0x1088usize) as usize == (0x70203C5E0u64 as usize) + 0x1088usize) by (bit_vector);
    assert(((0x7018328E0u64 as usize) + 0x1088usize) as usize == (0x7018328E0u64 as usize) + 0x1088usize) by (bit_vector);
    assert(((0x7015A0A10u64 as usize) + 0x1088usize) as usize == (0x7015A0A10u64 as usize) + 0x1088usize) by (bit_vector);
    assert(((0x701832960u64 as usize) + 0x1088usize) as usize == (0x701832960u64 as usize) + 0x1088usize) by (bit_vector);
    assert(RD132211_END <= usize::MAX - 0x1088usize);
    if rd160052_possible(query, wide, Ok((first_addr, version))) {
        let cands = rd160052_candidates();
        let k = choose|k: int|
            {
                &&& 0 <= k < cands.len()
                &&& first_addr == cands[k]
                &&& cell_probe_possible(query, wide, first_addr, true)
                &&& forall|j: int|
                    0 <= j < k ==> cell_probe_possible(query, wide, #[trigger] cands[j], false)
            };
        assert(0 <= k < 4);
    }
}

/// Finds the running build and the four addresses at which it keeps the
/// player's height (see `find_version_and_base_addr` for the search).
pub fn find_y_coord_addresses<
    Q: Fn(usize) -> Option<MemoryRegion>,
    C: Fn(usize) -> bool,
    W: Fn(usize) -> bool,
    P: Fn(),
>(query: &Q, narrow: &C, wide: &W, pause: &P) -> (r: Result<[usize; 4], ScanError>)
    requires
        probes_ready(query, narrow, wide, pause),
    ensures
        exists|found: Result<(usize, Version), ScanError>|
            {
                &&& find_possible(*query, *narrow, *wide, found)
                &&& match found {
                    Ok((first_addr, version)) => r matches Ok(addrs) && addrs@ == spec_y_coords(
                        first_addr,
                        version,
                    ),
                    Err(e) => r == Err::<[usize; 4], ScanError>(e),
                }
            },
{
    let found = find_version_and_base_addr(query, narrow, wide, pause);
    match found {
        Ok((first_addr, version)) => {
            proof {
                let outs = choose|outs: Seq<Result<(usize, Version), ScanError>>|
                    {
                        &&& 1 <= outs.len() <= MAX_RETRIES
                        &&& forall|i: int|
                            0 <= i < outs.len() ==> scan_possible(
                                *query,
                                *narrow,
                                *wide,
                                #[trigger] outs[i],
                            )
                        &&& forall|i: int| 0 <= i < outs.len() - 1 ==> (#[trigger] outs[i]) is Err
                        &&& found == outs.last()
                        &&& found is Err ==> outs.len() == MAX_RETRIES
                    };
                assert(scan_possible(*query, *narrow, *wide, outs[outs.len() - 1]));
                lemma_found_fits(*query, *narrow, *wide, first_addr, version);
            }
            Ok(y_coord_addresses(first_addr, version))
        },
        Err(e) => Err(e),
    }
}

} // verus!
