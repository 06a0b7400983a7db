use vstd::prelude::*;

verus! {

/// Whether a pointer at `(x, y)` can be moved by `(dx, dy)` without leaving
/// the range of the platform's coordinates.
pub open spec fn move_fits(x: i32, y: i32, dx: i32, dy: i32) -> bool {
    &&& i32::MIN <= x + dx <= i32::MAX
    &&& i32::MIN <= y + dy <= i32::MAX
}

/// Tests `move_fits`.
pub fn can_move(x: i32, y: i32, dx: i32, dy: i32) -> (ok: bool)
    ensures
        ok == move_fits(x, y, dx, dy),
{
    x.checked_add(dx).is_some() && y.checked_add(dy).is_some()
}

/// The position to set for a movement of the pointer by `(dx, dy)`: the
/// pointer's position as it was just read plus the movement. Where the
/// position could not be read there is nothing to set.
pub fn move_relative(cursor: Option<(i32, i32)>, dx: i32, dy: i32) -> (target: Option<(i32, i32)>)
    requires
        cursor matches Some(p) ==> move_fits(p.0, p.1, dx, dy),
    ensures
        target == match cursor {
            Some(p) => Some(((p.0 + dx) as i32, (p.1 + dy) as i32)),
            None => None,
        },
{
    match cursor {
        Some((x, y)) => Some((x + dx, y + dy)),
        None => None,
    }
}

/// The pointer's position from the platform's answer: the point it filled
/// in, if it said that it did.
pub fn get_cursor_position(ok: bool, point: (i32, i32)) -> (position: Option<(i32, i32)>)
    ensures
        position == if ok {
            Some(point)
        } else {
            None
        },
{
    if ok {
        Some(point)
    } else {
        None
    }
}

} // verus!
