//! Finding the target process by name among the entries of a process
//! snapshot.
use vstd::prelude::*;

verus! {

/// One entry of a process snapshot: the process id and the executable's
/// file name as the system stores it, a NUL-terminated array of C chars.
pub struct ProcessEntry {
    pub pid: u32,
    pub exe_file: Vec<i8>,
}

/// What `String::from_utf8_lossy` makes of a byte sequence.
pub uninterp spec fn lossy_utf8(bytes: Seq<u8>) -> Seq<char>;

/// What `str::to_lowercase` makes of a string.
pub uninterp spec fn lowercase(s: Seq<char>) -> Seq<char>;

/// Decodes `bytes` as UTF-8 with `String::from_utf8_lossy`, which replaces
/// each invalid sequence by U+FFFD. The contract names the result, and
/// states what the documentation says of ASCII input: every byte below
/// 0x80 is one character of that code.
#[verifier::external_body]
fn from_utf8_lossy(bytes: &[u8]) -> (r: String)
    ensures
        r@ == lossy_utf8(bytes@),
        (forall|i: int| 0 <= i < bytes@.len() ==> bytes@[i] < 0x80) ==> r@.len() == bytes@.len()
            && forall|i: int| 0 <= i < bytes@.len() ==> r@[i] as u32 == bytes@[i] as u32,
{
    String::from_utf8_lossy(bytes).into_owned()
}

/// The ASCII lower case of a character code: `A`..`Z` become `a`..`z`,
/// every other code stays.
pub open spec fn ascii_lower_code(c: u32) -> u32 {
    if 0x41 <= c <= 0x5A {
        (c + 0x20) as u32
    } else {
        c
    }
}

/// All characters are ASCII.
pub open spec fn all_ascii(s: Seq<char>) -> bool {
    forall|i: int| 0 <= i < s.len() ==> (s[i] as u32) < 0x80
}

/// Lower-cases `s` with `str::to_lowercase` (Unicode lower case). The
/// contract names the result, and states what Unicode's lower case is on
/// ASCII input: one character for each, with only `A`..`Z` changed.
#[verifier::external_body]
fn to_lowercase(s: &str) -> (r: String)
    ensures
        r@ == lowercase(s@),
        all_ascii(s@) ==> r@.len() == s@.len() && forall|i: int|
            0 <= i < s@.len() ==> r@[i] as u32 == ascii_lower_code(s@[i] as u32),
{
    s.to_lowercase()
}

/// The executable name's bytes: the chars before the first NUL (or all of
/// them when there is none), each read as a byte.
pub open spec fn spec_name_bytes(raw: Seq<i8>) -> Seq<u8>
    decreases raw.len(),
{
    if raw.len() == 0 || raw[0] == 0 {
        seq![]
    } else {
        seq![raw[0] as u8] + spec_name_bytes(raw.drop_first())
    }
}

/// The name bytes are exactly the chars before the first NUL, however many
/// there are (all of them when there is no NUL), each read as a byte.
pub proof fn law_name_bytes_stop_at_first_nul(raw: Seq<i8>)
    ensures
        spec_name_bytes(raw).len() <= raw.len(),
        forall|i: int|
            0 <= i < spec_name_bytes(raw).len() ==> raw[i] != 0 && spec_name_bytes(raw)[i]
                == raw[i] as u8,
        spec_name_bytes(raw).len() == raw.len() || raw[spec_name_bytes(raw).len() as int] == 0,
    decreases raw.len(),
{
    if raw.len() > 0 && raw[0] != 0 {
        let rest = raw.drop_first();
        law_name_bytes_stop_at_first_nul(rest);
        let b = spec_name_bytes(raw);
        assert(b == seq![raw[0] as u8] + spec_name_bytes(rest));
        assert forall|i: int| 0 <= i < b.len() implies raw[i] != 0 && b[i] == raw[i] as u8 by {
            if i > 0 {
                assert(rest[i - 1] == raw[i]);
            }
        }
        if b.len() < raw.len() {
            assert(rest[spec_name_bytes(rest).len() as int] == raw[b.len() as int]);
        }
    }
}

/// A name without NUL, followed by a NUL and anything, gives back exactly
/// its own chars as bytes.
pub proof fn law_name_bytes_of_terminated_name(name: Seq<i8>, rest: Seq<i8>)
    requires
        forall|i: int| 0 <= i < name.len() ==> name[i] != 0,
    ensures
        spec_name_bytes(name + seq![0i8] + rest) == name.map_values(|c: i8| c as u8),
{
    let raw = name + seq![0i8] + rest;
    law_name_bytes_stop_at_first_nul(raw);
    let b = spec_name_bytes(raw);
    assert(raw[name.len() as int] == 0);
    assert forall|i: int| 0 <= i < name.len() implies raw[i] == name[i] by {}
    if b.len() < name.len() {
        assert(raw[b.len() as int] == name[b.len() as int]);
    }
    assert(b.len() == name.len());
    assert(b =~= name.map_values(|c: i8| c as u8));
}

/// The chars before the first NUL, each read as a byte.
pub fn exe_name_bytes(raw: &[i8]) -> (r: Vec<u8>)
    ensures
        r@ == spec_name_bytes(raw@),
        r@.len() <= raw@.len(),
        forall|i: int| 0 <= i < r@.len() ==> raw@[i] != 0 && r@[i] == raw@[i] as u8,
        r@.len() == raw@.len() || raw@[r@.len() as int] == 0,
{
    proof {
        law_name_bytes_stop_at_first_nul(raw@);
    }
    let mut bytes: Vec<u8> = Vec::new();
    let mut i: usize = 0;
    assert(raw@.skip(0) =~= raw@);
    assert(bytes@ + spec_name_bytes(raw@) =~= spec_name_bytes(raw@));
    while i < raw.len()
        invariant
            i <= raw@.len(),
            spec_name_bytes(raw@) == bytes@ + spec_name_bytes(raw@.skip(i as int)),
        decreases raw.len() - i,
    {
        assert(raw@.skip(i as int).drop_first() =~= raw@.skip(i + 1));
        assert(raw@.skip(i as int)[0] == raw@[i as int]);
        let c = raw[i];
        if c == 0 {
            proof {
                law_name_bytes_stop_at_first_nul(raw@);
            }
            return bytes;
        }
        let ghost before = bytes@;
        bytes.push(c as u8);
        assert(bytes@ == before + seq![c as u8]);
        assert(bytes@ + spec_name_bytes(raw@.skip(i + 1)) =~= before + (seq![c as u8]
            + spec_name_bytes(raw@.skip(i + 1))));
        i = i + 1;
    }
    assert(raw@.skip(i as int) =~= Seq::<i8>::empty());
    bytes
}

/// The executable name of a snapshot entry, decoded as UTF-8 with invalid
/// sequences replaced.
pub fn process_name_from_entry(entry: &ProcessEntry) -> (r: String)
    ensures
        r@ == lossy_utf8(spec_name_bytes(entry.exe_file@)),
        (forall|i: int|
            0 <= i < spec_name_bytes(entry.exe_file@).len() ==> spec_name_bytes(entry.exe_file@)[i]
                < 0x80) ==> r@.len() == spec_name_bytes(entry.exe_file@).len() && forall|i: int|
            0 <= i < r@.len() ==> r@[i] as u32 == spec_name_bytes(entry.exe_file@)[i] as u32,
{
    let bytes = exe_name_bytes(entry.exe_file.as_slice());
    from_utf8_lossy(bytes.as_slice())
}

/// The entry's executable name equals `name`, case aside.
pub open spec fn entry_named(entry: ProcessEntry, name: Seq<char>) -> bool {
    lowercase(lossy_utf8(spec_name_bytes(entry.exe_file@))) == lowercase(name)
}

/// The entry's executable name is plain ASCII and spelled exactly as
/// `name`.
pub open spec fn spelled_as(entry: ProcessEntry, name: Seq<char>) -> bool {
    let b = spec_name_bytes(entry.exe_file@);
    &&& b.len() == name.len()
    &&& forall|i: int| 0 <= i < b.len() ==> b[i] < 0x80 && b[i] as u32 == name[i] as u32
}

/// Two characters with the same code are the same character.
proof fn lemma_same_code_same_char(a: char, b: char)
    requires
        a as u32 == b as u32,
    ensures
        a == b,
{
}

/// The id of the first process in the snapshot whose executable name
/// equals `name`, case aside, or `None` when there is none.
pub fn find_process_by_name(name: &str, entries: &Vec<ProcessEntry>) -> (r: Option<u32>)
    ensures
        match r {
            Some(pid) => exists|k: int|
                {
                    &&& 0 <= k < entries@.len()
                    &&& entries@[k].pid == pid
                    &&& entry_named(entries@[k], name@)
                    &&& forall|j: int| 0 <= j < k ==> !entry_named(#[trigger] entries@[j], name@)
                },
            None => forall|j: int|
                0 <= j < entries@.len() ==> !entry_named(#[trigger] entries@[j], name@),
        },
        r is None ==> forall|j: int|
            0 <= j < entries@.len() ==> !spelled_as(#[trigger] entries@[j], name@),
{
    let target = to_lowercase(name);
    let mut k: usize = 0;
    while k < entries.len()
        invariant
            k <= entries@.len(),
            target@ == lowercase(name@),
            forall|j: int| 0 <= j < k ==> !entry_named(#[trigger] entries@[j], name@),
            forall|j: int| 0 <= j < k ==> !spelled_as(#[trigger] entries@[j], name@),
        decreases entries.len() - k,
    {
        let entry_name = process_name_from_entry(&entries[k]);
        if to_lowercase(entry_name.as_str()) == target {
            assert(entry_named(entries@[k as int], name@));
            return Some(entries[k].pid);
        }
        proof {
            if spelled_as(entries@[k as int], name@) {
                assert(entry_name@ =~= name@) by {
                    let b = spec_name_bytes(entries@[k as int].exe_file@);
                    assert forall|i: int| 0 <= i < name@.len() implies entry_name@[i]
                        == name@[i] by {
                        assert(b[i] < 0x80);
                        assert(entry_name@.len() == b.len());
                        assert(entry_name@[i] as u32 == b[i] as u32);
                        assert(b[i] as u32 == name@[i] as u32);
                        lemma_same_code_same_char(entry_name@[i], name@[i]);
                    }
                }
                assert(false);
            }
        }
        k = k + 1;
    }
    None
}

} // verus!
