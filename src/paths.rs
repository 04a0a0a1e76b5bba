//! The path of a table's companion memo store.

use vstd::prelude::*;
use vstd::string::*;

verus! {

/// Index of the first character of the final component of `s`: just past its
/// last `/`, or 0 when it has none.
pub open spec fn name_start(s: Seq<char>) -> int
    decreases s.len(),
{
    if s.len() == 0 {
        0
    } else if s.last() == '/' {
        s.len() as int
    } else {
        name_start(s.drop_last())
    }
}

/// Index of the `.` that opens the extension of the final component of `s`:
/// the last `.` of that component that is not its first character, if any.
pub open spec fn extension_dot(s: Seq<char>) -> Option<int>
    decreases s.len(),
{
    if s.len() == 0 || s.last() == '/' {
        None
    } else if s.last() == '.' && s.len() - 1 > name_start(s) {
        Some(s.len() - 1)
    } else {
        extension_dot(s.drop_last())
    }
}

/// The path of the memo store that goes with the table at `s`: the same
/// path with the extension of its final component replaced by `FPT`, or with
/// `.FPT` added where that component has no extension.
pub open spec fn memo_path(s: Seq<char>) -> Seq<char> {
    match extension_dot(s) {
        Some(d) => s.take(d + 1) + seq!['F', 'P', 'T'],
        None => s + seq!['.', 'F', 'P', 'T'],
    }
}

/// The path of the memo store that goes with the table at `input_path`.
pub fn memo_path_for(input_path: &str) -> (r: String)
    ensures
        r@ == memo_path(input_path@),
{
    let n = input_path.unicode_len();
    let mut start: usize = 0;
    let mut dot: Option<usize> = None;
    for i in 0..n
        invariant
            n == input_path@.len(),
            start as int == name_start(input_path@.take(i as int)),
            dot matches Some(d) ==> d < i,
            match dot {
                Some(d) => extension_dot(input_path@.take(i as int)) == Some(d as int),
                None => extension_dot(input_path@.take(i as int)) is None,
            },
    {
        let c = input_path.get_char(i);
        assert(input_path@.take(i + 1).drop_last() =~= input_path@.take(i as int));
        if c == '/' {
            start = i + 1;
            dot = None;
        } else if c == '.' && i > start {
            dot = Some(i);
        }
    }
    assert(input_path@.take(n as int) =~= input_path@);
    match dot {
        Some(d) => {
            let mut r = input_path.substring_char(0, d + 1).to_owned();
            proof {
                reveal_strlit("FPT");
            }
            r.append("FPT");
            r
        },
        None => {
            let mut r = input_path.to_owned();
            proof {
                reveal_strlit(".FPT");
            }
            r.append(".FPT");
            r
        },
    }
}

} // verus!
