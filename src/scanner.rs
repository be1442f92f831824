//! Deciding, from a scan of the running processes, whether the supervised
//! server is among them.
//!
//! A scan is what the operating system reported: `None` when the process
//! enumeration itself failed, otherwise one entry per enumerated process
//! identifier, holding its full image path, or `None` when the process could
//! not be opened or its image path could not be read (such a process is
//! skipped, not treated as an error).
use vstd::prelude::*;

verus! {

/// The most process identifiers one enumeration examines. Processes beyond
/// this many (in the operating system's enumeration order) are not seen, so a
/// running server may then be missed; that is a false negative, never a fault.
pub const MAX_PROCESSES: usize = 1024;

/// Bytes taken by one process identifier in the enumeration buffer.
pub const PROCESS_ID_BYTES: u32 = 4;

/// `needle` occurs in `hay` as a contiguous run of characters.
pub open spec fn contains_seq(hay: Seq<char>, needle: Seq<char>) -> bool {
    exists|i: int|
        0 <= i && i + needle.len() <= hay.len() && #[trigger] hay.subrange(i, i + needle.len())
            == needle
}

/// How many entries of a scan lie within the scan limit.
pub open spec fn examined(n: int) -> int {
    if n < MAX_PROCESSES as int {
        n
    } else {
        MAX_PROCESSES as int
    }
}

/// The scan entry holds an image path that contains `fragment`.
pub open spec fn entry_matches(entry: Option<String>, fragment: Seq<char>) -> bool {
    match entry {
        Some(p) => contains_seq(p@, fragment),
        None => false,
    }
}

/// Some examined entry of the scan holds an image path that contains `fragment`.
pub open spec fn scan_matches(images: Seq<Option<String>>, fragment: Seq<char>) -> bool {
    exists|i: int|
        0 <= i < examined(images.len() as int) && #[trigger] entry_matches(images[i], fragment)
}

/// The answer to "is the server running" for a whole scan outcome.
pub open spec fn running_in(scan: Option<Seq<Option<String>>>, fragment: Seq<char>) -> bool {
    match scan {
        Some(images) => scan_matches(images, fragment),
        None => false,
    }
}

/// The number of process identifiers an enumeration filled in, from the byte
/// count it reported, never more than the scan limit.
pub fn process_count(bytes_returned: u32) -> (r: usize)
    ensures
        r as int == examined((bytes_returned / PROCESS_ID_BYTES) as int),
{
    let n = bytes_returned / PROCESS_ID_BYTES;
    if (n as u64) < (MAX_PROCESSES as u64) {
        n as usize
    } else {
        MAX_PROCESSES
    }
}

/// Case-sensitive substring test: `fragment` occurs somewhere in `image`.
/// The empty fragment occurs in every path.
pub fn contains_fragment(image: &str, fragment: &str) -> (r: bool)
    ensures
        r == contains_seq(image@, fragment@),
{
    let n = image.unicode_len();
    let m = fragment.unicode_len();
    if m > n {
        return false;
    }
    if m == 0 {
        assert(image@.subrange(0int, 0int + fragment@.len()) =~= fragment@);
        return true;
    }
    let mut i: usize = 0;
    while i <= n - m
        invariant
            n == image@.len(),
            m == fragment@.len(),
            1 <= m <= n,
            i <= n - m + 1,
            forall|k: int| 0 <= k < i ==> #[trigger] image@.subrange(k, k + m) != fragment@,
        decreases n - m + 1 - i,
    {
        let mut j: usize = 0;
        let mut same = true;
        while j < m && same
            invariant
                n == image@.len(),
                m == fragment@.len(),
                i + m <= n,
                j <= m,
                same ==> forall|k: int| 0 <= k < j ==> image@[i + k] == fragment@[k],
                !same ==> image@.subrange(i as int, i + m) != fragment@,
            decreases (m - j) as int + if same { 1int } else { 0int },
        {
            if image.get_char(i + j) != fragment.get_char(j) {
                same = false;
                assert(image@.subrange(i as int, i + m)[j as int] != fragment@[j as int]);
            } else {
                j = j + 1;
            }
        }
        if same {
            assert(image@.subrange(i as int, i + m) =~= fragment@);
            return true;
        }
        i = i + 1;
    }
    proof {
        if contains_seq(image@, fragment@) {
            let k = choose|k: int|
                0 <= k && k + m <= n && #[trigger] image@.subrange(k, k + m) == fragment@;
            assert(image@.subrange(k, k + m) == fragment@);
        }
    }
    false
}

/// Whether an examined entry of the scan holds an image path containing
/// `fragment` (case-sensitive). Entries past the scan limit are not examined.
pub fn scan_matches_fragment(images: &Vec<Option<String>>, fragment: &str) -> (r: bool)
    ensures
        r == scan_matches(images@, fragment@),
{
    let limit: usize = if images.len() < MAX_PROCESSES {
        images.len()
    } else {
        MAX_PROCESSES
    };
    let mut i: usize = 0;
    while i < limit
        invariant
            limit as int == examined(images@.len() as int),
            i <= limit,
            forall|k: int| 0 <= k < i ==> !#[trigger] entry_matches(images@[k], fragment@),
        decreases limit - i,
    {
        match &images[i] {
            Some(path) => {
                if contains_fragment(path.as_str(), fragment) {
                    assert(entry_matches(images@[i as int], fragment@));
                    return true;
                }
            },
            None => {},
        }
        i = i + 1;
    }
    false
}

/// Whether the server whose image path contains `fragment` is running,
/// according to a scan; `false` when the enumeration failed.
pub fn is_running(scan: &Option<Vec<Option<String>>>, fragment: &str) -> (r: bool)
    ensures
        r == running_in(
            match scan {
                Some(v) => Some(v@),
                None => None,
            },
            fragment@,
        ),
{
    match scan {
        Some(images) => scan_matches_fragment(images, fragment),
        None => false,
    }
}

} // verus!
