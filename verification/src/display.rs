//! Read-only snapshots of output devices, built from the raw bounds that a
//! platform enumeration reports.

use vstd::prelude::*;
use vstd::string::StringExecFns;
use crate::numerals::{dec_digits, u64_to_string};

verus! {

/// One output device: a fresh snapshot per enumeration call, never mutated,
/// with no ownership relationship to a session.
#[derive(Clone, Debug)]
pub struct MonitorInfo {
    pub id: String,
    pub name: String,
    pub x: i32,
    pub y: i32,
    pub width: u32,
    pub height: u32,
    pub is_primary: bool,
}

/// Build one display snapshot from the bounds the platform reports for the
/// display at position `index` in enumeration order. The id is the 0-based
/// enumeration index; the human-readable name counts from 1.
pub fn monitor_info_from_bounds(
    index: usize,
    left: i32,
    top: i32,
    right: i32,
    bottom: i32,
    is_primary: bool,
) -> (info: MonitorInfo)
    requires
        index < usize::MAX,
        left <= right,
        top <= bottom,
        right - left <= u32::MAX,
        bottom - top <= u32::MAX,
    ensures
        info.id@ == dec_digits(index as nat),
        info.name@ == "Display "@ + dec_digits((index + 1) as nat),
        info.x == left,
        info.y == top,
        info.width == right - left,
        info.height == bottom - top,
        info.is_primary == is_primary,
{
    let id = u64_to_string(index as u64);
    let mut name = "Display ".to_owned();
    let number = u64_to_string((index + 1) as u64);
    name.append(number.as_str());
    let width = ((right as i64) - (left as i64)) as u32;
    let height = ((bottom as i64) - (top as i64)) as u32;
    MonitorInfo { id, name, x: left, y: top, width, height, is_primary }
}

/// The index the session records from when no display is requested: the first
/// display flagged primary, or the first display at all if none is flagged.
pub open spec fn primary_from(s: Seq<MonitorInfo>, i: int) -> int
    decreases s.len() - i when 0 <= i
{
    if i >= s.len() {
        0
    } else if s[i].is_primary {
        i
    } else {
        primary_from(s, i + 1)
    }
}

pub open spec fn primary_index(s: Seq<MonitorInfo>) -> int {
    primary_from(s, 0)
}

proof fn lemma_primary_from_bounds(s: Seq<MonitorInfo>, i: int)
    requires
        0 <= i,
        s.len() > 0,
    ensures
        0 <= primary_from(s, i) < s.len(),
    decreases s.len() - i,
{
    if i < s.len() && !s[i].is_primary {
        lemma_primary_from_bounds(s, i + 1);
    }
}

/// The default display choice lies within the list whenever the list is
/// non-empty.
pub proof fn lemma_primary_index_bounds(s: Seq<MonitorInfo>)
    requires
        s.len() > 0,
    ensures
        0 <= primary_index(s) < s.len(),
{
    lemma_primary_from_bounds(s, 0);
}

/// Find the primary display's index, or 0 when no display is flagged primary.
pub fn find_primary_index(displays: &Vec<MonitorInfo>) -> (idx: usize)
    requires
        displays@.len() > 0,
    ensures
        idx == primary_index(displays@),
        idx < displays@.len(),
{
    let mut i: usize = 0;
    while i < displays.len()
        invariant
            0 <= i <= displays@.len(),
            displays@.len() > 0,
            primary_index(displays@) == primary_from(displays@, i as int),
        decreases displays@.len() - i,
    {
        if displays[i].is_primary {
            return i;
        }
        i = i + 1;
    }
    0
}

} // verus!
