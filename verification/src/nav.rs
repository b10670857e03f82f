//! The selection navigator: a wraparound cursor into the filtered job list.

use vstd::prelude::*;

verus! {

/// The cursor after a move-next: `None` on an empty list, else the next
/// index, wrapping from the end back to `0`.
pub open spec fn spec_advance(cursor: Option<usize>, len: nat) -> Option<usize> {
    if len == 0 {
        None
    } else {
        match cursor {
            None => Some(0usize),
            Some(i) => if i + 1 < len {
                Some((i + 1) as usize)
            } else {
                Some(0usize)
            },
        }
    }
}

/// The cursor after a move-previous: `None` on an empty list, else the
/// previous index, wrapping from `0` to the end.
pub open spec fn spec_retreat(cursor: Option<usize>, len: nat) -> Option<usize> {
    if len == 0 {
        None
    } else {
        match cursor {
            None => Some(0usize),
            Some(i) => if i == 0 {
                Some((len - 1) as usize)
            } else {
                Some((i - 1) as usize)
            },
        }
    }
}

/// Move the cursor forward over a filtered list of `len` elements, wrapping
/// from the last valid index to `0`.
pub fn advance(cursor: Option<usize>, len: usize) -> (r: Option<usize>)
    ensures
        r == spec_advance(cursor, len as nat),
        len == 0 ==> r is None,
        len > 0 && cursor == Some((len - 1) as usize) ==> r == Some(0usize),
        len > 0 ==> r is Some && r.unwrap() < len,
{
    if len == 0 {
        None
    } else {
        match cursor {
            None => Some(0),
            Some(i) => if i >= len - 1 {
                Some(0)
            } else {
                Some(i + 1)
            },
        }
    }
}

/// Move the cursor backward over a filtered list of `len` elements, wrapping
/// from index `0` to the last valid index.
pub fn retreat(cursor: Option<usize>, len: usize) -> (r: Option<usize>)
    ensures
        r == spec_retreat(cursor, len as nat),
        len == 0 ==> r is None,
        len > 0 && cursor == Some(0usize) ==> r == Some((len - 1) as usize),
        len > 0 && (cursor is None || cursor.unwrap() < len) ==> r is Some && r.unwrap() < len,
{
    if len == 0 {
        None
    } else {
        match cursor {
            None => Some(0),
            Some(i) => if i == 0 {
                Some(len - 1)
            } else {
                Some(i - 1)
            },
        }
    }
}

} // verus!
