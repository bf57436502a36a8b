//! Finding the game's state on the machine: whether it is running, and which
//! save slot was written last. The operating-system calls are made by the
//! caller; these functions decide from what they returned.
use vstd::prelude::*;
use vstd::utf8::*;

use super::codec::{string_from_utf8_lossy, utf8_lossy};

verus! {

/// The executable name of Hollow Knight.
pub const HOLLOW_KNIGHT_PROCESS: &'static str = "HollowKnight.exe";

/// The executable name of Silksong.
pub const SILKSONG_PROCESS: &'static str = "Silksong.exe";

/// Whether `needle` occurs as a contiguous run of bytes in `haystack`.
pub open spec fn occurs_in(needle: Seq<u8>, haystack: Seq<u8>) -> bool {
    exists|i: int| 0 <= i && i + needle.len() <= haystack.len() && #[trigger] haystack.subrange(i, i + needle.len()) == needle
}

fn bytes_occur(needle: &[u8], haystack: &[u8]) -> (found: bool)
    ensures
        found == occurs_in(needle@, haystack@),
{
    let m = needle.len();
    let n = haystack.len();
    if m > n {
        proof {
            assert forall|i: int| 0 <= i && i + m <= n implies #[trigger] haystack@.subrange(i, i + m) != needle@ by {}
        }
        return false;
    }
    let mut i: usize = 0;
    while i <= n - m
        invariant
            m == needle@.len(),
            n == haystack@.len(),
            m <= n,
            i <= n - m + 1,
            forall|k: int| 0 <= k < i ==> #[trigger] haystack@.subrange(k, k + m) != needle@,
        decreases n - m + 1 - i,
    {
        let mut j: usize = 0;
        while j < m && haystack[i + j] == needle[j]
            invariant
                m == needle@.len(),
                n == haystack@.len(),
                i + m <= n,
                j <= m,
                forall|k: int| 0 <= k < j ==> haystack@[i + k] == needle@[k],
            decreases m - j,
        {
            j += 1;
        }
        if j == m {
            assert(haystack@.subrange(i as int, i + m) =~= needle@);
            return true;
        }
        assert(haystack@.subrange(i as int, i + m)[j as int] != needle@[j as int]);
        i += 1;
    }
    proof {
        assert forall|k: int| 0 <= k && k + m <= n implies #[trigger] haystack@.subrange(k, k + m) != needle@ by {
            assert(k < i);
        }
    }
    false
}

/// Whether the process list printed by `tasklist` (`output`, in whatever
/// encoding it came) mentions `process_name`: the name's UTF-8 bytes occur in
/// the lossy UTF-8 reading of the output.
pub fn process_listed(output: &[u8], process_name: &str) -> (listed: bool)
    ensures
        listed == occurs_in(encode_utf8(process_name@), encode_utf8(utf8_lossy(output@))),
{
    let text = string_from_utf8_lossy(output);
    let haystack = text.as_str().as_bytes();
    let needle = process_name.as_bytes();
    bytes_occur(needle, haystack)
}

/// Whether `i` is the entry that sorting `times` by value (a stable sort) and
/// taking the last entry gives: the last of the entries with the greatest value.
pub open spec fn is_latest(times: Seq<i128>, i: int) -> bool {
    &&& 0 <= i < times.len()
    &&& forall|j: int| 0 <= j < times.len() ==> times[j] <= times[i]
    &&& forall|j: int| i < j < times.len() ==> times[j] < times[i]
}

/// The save written last, given each candidate's modification time: the index
/// of the last candidate with the latest time, or `None` with no candidates.
pub fn latest_index(times: &Vec<i128>) -> (latest: Option<usize>)
    ensures
        latest is None == (times@.len() == 0),
        latest matches Some(i) ==> is_latest(times@, i as int),
{
    if times.len() == 0 {
        return None;
    }
    let mut best: usize = 0;
    let mut k: usize = 1;
    while k < times.len()
        invariant
            1 <= k <= times@.len(),
            best < k,
            forall|j: int| 0 <= j < k ==> times@[j] <= times@[best as int],
            forall|j: int| best < j < k ==> times@[j] < times@[best as int],
        decreases times@.len() - k,
    {
        if times[k] >= times[best] {
            best = k;
        }
        k += 1;
    }
    Some(best)
}

} // verus!
