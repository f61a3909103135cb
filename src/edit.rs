use vstd::prelude::*;

verus! {

/// The list after moving entry `idx` one place up (towards the front) or
/// down; a move past either end leaves the list as it is.
pub open spec fn moved<T>(s: Seq<T>, idx: int, up: bool) -> Seq<T> {
    if up && idx > 0 {
        s.update(idx, s[idx - 1]).update(idx - 1, s[idx])
    } else if !up && idx + 1 < s.len() {
        s.update(idx, s[idx + 1]).update(idx + 1, s[idx])
    } else {
        s
    }
}

/// Moves entry `idx` of an ordered list (inputs, parameters, sections) one
/// place up or down.
pub fn move_entry<T>(v: &mut Vec<T>, idx: usize, up: bool)
    requires
        idx < old(v)@.len(),
    ensures
        final(v)@ == moved(old(v)@, idx as int, up),
{
    if up && idx > 0 {
        let x = v.remove(idx);
        v.insert(idx - 1, x);
        assert(v@ =~= moved(old(v)@, idx as int, up));
    } else if !up && idx < v.len() - 1 {
        let x = v.remove(idx);
        v.insert(idx + 1, x);
        assert(v@ =~= moved(old(v)@, idx as int, up));
    }
}

} // verus!
