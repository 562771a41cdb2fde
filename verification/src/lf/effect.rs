//! Visual effect ids.
use vstd::prelude::*;

verus! {

/// The object id of the effect that an itr's `effect` number shows:
/// 300 + num (0 is the blast, 1 the blood), and the default blood (301) for a
/// negative number.
pub fn effect_id_from_num(num: i32) -> (r: i32)
    requires
        num <= i32::MAX - 300,
    ensures
        r == (if num < 0 {
            301
        } else {
            300 + num
        }),
{
    if num < 0 {
        return 301;
    }
    300 + num
}

/// The first free slot of an effect pool, if any.
pub fn first_free(active: &Vec<bool>) -> (r: Option<usize>)
    ensures
        r is None ==> forall|i: int| 0 <= i < active@.len() ==> active@[i],
        r matches Some(i) ==> i < active@.len() && !active@[i as int] && forall|j: int|
            0 <= j < i ==> active@[j],
{
    let mut i: usize = 0;
    while i < active.len()
        invariant
            i <= active@.len(),
            forall|j: int| 0 <= j < i ==> active@[j],
        decreases active@.len() - i,
    {
        if !active[i] {
            return Some(i);
        }
        i = i + 1;
    }
    None
}

/// One TU of a pooled effect: (life left, picture, still active).
pub fn effect_tick(life: i32, pic: i32) -> (r: (i32, i32, bool))
    requires
        life > i32::MIN,
        pic < i32::MAX,
    ensures
        r == ((life - 1) as i32, (pic + 1) as i32, life - 1 > 0),
{
    (life - 1, pic + 1, life - 1 > 0)
}

} // verus!
