use vstd::prelude::*;
use crate::text::{ascii_lower, contains_str, has_infix, to_ascii_lower};

verus! {

/// Open windows: each one's name, when it has one, and its identifier.
pub type WinIdList = Vec<(Option<String>, u32)>;

/// The names the terminal application's window may carry.
pub const TERMINAL: [&'static str; 2] = ["Terminal", "终端"];

/// Whether a window's name, in ASCII small letters, holds `name`.
pub open spec fn entry_matches(entry: (Option<String>, u32), name: Seq<char>) -> bool {
    entry.0 matches Some(s) && has_infix(ascii_lower(s@), name)
}

/// Whether `i` is the first window of `list` that `name` matches.
pub open spec fn first_match_at(list: Seq<(Option<String>, u32)>, name: Seq<char>, i: int) -> bool {
    &&& 0 <= i < list.len()
    &&& entry_matches(list[i], name)
    &&& forall|j: int| 0 <= j < i ==> !entry_matches(#[trigger] list[j], name)
}

/// The identifier of the first window that `name` matches, if any does.
pub open spec fn id_for_name(list: Seq<(Option<String>, u32)>, name: Seq<char>) -> Option<u32> {
    if exists|i: int| first_match_at(list, name, i) {
        Some(list[choose|i: int| first_match_at(list, name, i)].1)
    } else {
        None
    }
}

/// Finds the first window whose name, in ASCII small letters, holds `name`.
pub fn get_id_for_name(win_list: &WinIdList, name: &str) -> (r: Option<u32>)
    ensures
        r == id_for_name(win_list@, name@),
{
    let mut i: usize = 0;
    while i < win_list.len()
        invariant
            i <= win_list@.len(),
            forall|j: int| 0 <= j < i ==> !entry_matches(#[trigger] win_list@[j], name@),
        decreases win_list@.len() - i,
    {
        let (inner, id) = &win_list[i];
        if let Some(val) = inner {
            let lowered = to_ascii_lower(val.as_str());
            if contains_str(lowered.as_str(), name) {
                assert(first_match_at(win_list@, name@, i as int));
                proof {
                    let k = choose|k: int| first_match_at(win_list@, name@, k);
                    if k < i {
                        assert(!entry_matches(win_list@[k], name@));
                    } else if k > i {
                        assert(!entry_matches(win_list@[i as int], name@));
                    }
                }
                return Some(*id);
            }
        }
        i = i + 1;
    }
    None
}

/// The identifier of the terminal's window: the first name of `TERMINAL`, in
/// order, that matches some window decides.
pub fn terminal_window_id(win_list: &WinIdList) -> (r: Option<u32>)
    ensures
        r == (if id_for_name(win_list@, TERMINAL[0]@) is Some {
            id_for_name(win_list@, TERMINAL[0]@)
        } else {
            id_for_name(win_list@, TERMINAL[1]@)
        }),
{
    let mut k: usize = 0;
    while k < 2
        invariant
            k <= 2,
            forall|j: int| 0 <= j < k ==> id_for_name(win_list@, #[trigger] TERMINAL[j]@) is None,
        decreases 2 - k,
    {
        if let Some(val) = get_id_for_name(win_list, TERMINAL[k]) {
            return Some(val);
        }
        k = k + 1;
    }
    None
}

} // verus!
