//! Recovery of the cursor from the names of the persisted artifacts.
use vstd::prelude::*;

use crate::decimal::{i64_of, is_digit_run, parse_i64};

verus! {

/// One entry of the artifact directory, as a listing reports it.
pub struct DirEntry {
    pub name: String,
    pub is_dir: bool,
}

pub open spec fn json_suffix() -> Seq<char> {
    seq!['.', 'j', 's', 'o', 'n']
}

/// The identifier that an entry stands for: a file named `<digits>.json`
/// whose digits fit an `i64`.
pub open spec fn artifact_id(e: DirEntry) -> Option<i64> {
    let n = e.name@;
    if !e.is_dir && n.len() >= 5 && n.subrange(n.len() - 5, n.len() as int) == json_suffix()
        && is_digit_run(n.subrange(0, n.len() - 5)) {
        i64_of(n.subrange(0, n.len() - 5))
    } else {
        None
    }
}

/// The largest identifier among the entries, or -1 when none stands for one.
pub open spec fn recovered_cursor(entries: Seq<DirEntry>) -> int
    decreases entries.len(),
{
    if entries.len() == 0 {
        -1
    } else {
        let prev = recovered_cursor(entries.drop_last());
        match artifact_id(entries.last()) {
            Some(v) => if v > prev {
                v as int
            } else {
                prev
            },
            None => prev,
        }
    }
}

/// The identifier that `entry` stands for, if it is an artifact file.
pub fn entry_artifact_id(entry: &DirEntry) -> (r: Option<i64>)
    ensures
        r == artifact_id(*entry),
{
    if entry.is_dir {
        return None;
    }
    let name = entry.name.as_str();
    let n = name.unicode_len();
    if n < 5 {
        return None;
    }
    let suffix = name.substring_char(n - 5, n);
    if !(suffix.get_char(0) == '.' && suffix.get_char(1) == 'j' && suffix.get_char(2) == 's'
        && suffix.get_char(3) == 'o' && suffix.get_char(4) == 'n') {
        assert(suffix@ != json_suffix()) by {
            if suffix@ == json_suffix() {
                assert(suffix@[0] == '.' && suffix@[1] == 'j' && suffix@[2] == 's');
                assert(suffix@[3] == 'o' && suffix@[4] == 'n');
            }
        }
        return None;
    }
    assert(suffix@ =~= json_suffix());
    let stem = name.substring_char(0, n - 5);
    if stem.unicode_len() == 0 {
        return None;
    }
    let first = stem.get_char(0);
    if !('0' <= first && first <= '9') {
        return None;
    }
    parse_i64(stem)
}

/// The cursor that the artifact directory records: the largest identifier
/// of a file named `<digits>.json`, directories and other names ignored, or
/// -1 when there is none.
pub fn last_offset_from_dir(entries: &Vec<DirEntry>) -> (r: i64)
    ensures
        r == recovered_cursor(entries@),
{
    let mut max_offset: i64 = -1;
    let mut i: usize = 0;
    while i < entries.len()
        invariant
            i <= entries@.len(),
            max_offset == recovered_cursor(entries@.subrange(0, i as int)),
        decreases entries@.len() - i,
    {
        proof {
            assert(entries@.subrange(0, i + 1).drop_last() =~= entries@.subrange(0, i as int));
        }
        match entry_artifact_id(&entries[i]) {
            Some(value) => {
                if value > max_offset {
                    max_offset = value;
                }
            },
            None => {},
        }
        i = i + 1;
    }
    assert(entries@.subrange(0, i as int) =~= entries@);
    max_offset
}

} // verus!
