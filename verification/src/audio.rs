//! What the sound of the game depends on: how near the nearest enemy is.

use vstd::prelude::*;
use crate::math::Position;

verus! {

/// `nearest` is the least squared distance from `listener` to one of
/// `sources`.
pub open spec fn is_nearest(sources: Seq<Position>, listener: Position, nearest: int) -> bool {
    &&& exists|i: int|
        0 <= i < sources.len() && (#[trigger] sources[i]).distance_squared(listener) == nearest
    &&& forall|i: int|
        0 <= i < sources.len() ==> nearest <= (#[trigger] sources[i]).distance_squared(listener)
}

/// The squared distance from `listener` to the nearest of `sources`, or
/// nothing where there is no source.
pub fn nearest_distance_squared(sources: &Vec<Position>, listener: Position) -> (nearest: Option<
    i128,
>)
    ensures
        nearest is None <==> sources@.len() == 0,
        nearest matches Some(distance) ==> is_nearest(sources@, listener, distance as int),
{
    if sources.len() == 0 {
        return None;
    }
    let mut nearest: i128 = sources[0].squared_distance_to(listener);
    let mut i: usize = 1;
    while i < sources.len()
        invariant
            1 <= i <= sources@.len(),
            exists|j: int|
                0 <= j < i && (#[trigger] sources@[j]).distance_squared(listener) == nearest,
            forall|j: int|
                0 <= j < i ==> nearest <= (#[trigger] sources@[j]).distance_squared(listener),
        decreases sources@.len() - i,
    {
        let distance = sources[i].squared_distance_to(listener);
        if distance < nearest {
            nearest = distance;
        }
        i += 1;
    }
    Some(nearest)
}

} // verus!
