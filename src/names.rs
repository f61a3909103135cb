use vstd::prelude::*;
use vstd::string::*;
use crate::ident::{has_id_error, id_error_of, IdError};

verus! {

/// Why a name cannot be bound in the evaluator context.
#[derive(Clone, Copy, Debug, PartialEq, Eq, Structural)]
pub enum NameError {
    AlreadyUsed,
    Invalid(IdError),
}

/// The names every rebuilt context starts with: units of length and angle and
/// two mathematical constants.
pub open spec fn constant_names() -> Seq<Seq<char>> {
    seq!["m"@, "mm"@, "yd"@, "ft"@, "inch"@, "rad"@, "pi"@, "e"@, "deg"@]
}

/// The error, if any, of binding `id` after the names `bound`.
pub open spec fn name_error_of(bound: Seq<Seq<char>>, id: Seq<char>) -> Option<NameError> {
    if bound.contains(id) {
        Some(NameError::AlreadyUsed)
    } else {
        match id_error_of(id) {
            Some(e) => Some(NameError::Invalid(e)),
            None => None,
        }
    }
}

pub open spec fn admissible(bound: Seq<Seq<char>>, id: Seq<char>) -> bool {
    name_error_of(bound, id) is None
}

/// The names bound after offering `ids` in order, each bound only when it is
/// admissible at its turn.
pub open spec fn bind_in_order(bound: Seq<Seq<char>>, ids: Seq<Seq<char>>) -> Seq<Seq<char>>
    decreases ids.len(),
{
    if ids.len() == 0 {
        bound
    } else {
        let before = bind_in_order(bound, ids.drop_last());
        if admissible(before, ids.last()) {
            before.push(ids.last())
        } else {
            before
        }
    }
}

pub open spec fn views_of(v: Seq<String>) -> Seq<Seq<char>> {
    v.map_values(|s: String| s@)
}

/// The variable names of an evaluator context, in the order they were bound.
/// No name is bound twice.
pub struct NameTable {
    names: Vec<String>,
}

impl View for NameTable {
    type V = Seq<Seq<char>>;

    closed spec fn view(&self) -> Seq<Seq<char>> {
        views_of(self.names@)
    }
}

impl NameTable {
    pub open spec fn wf(&self) -> bool {
        self@.no_duplicates()
    }

    /// A table that holds the constant names only.
    pub fn with_constants() -> (r: NameTable)
        ensures
            r@ == constant_names(),
            r.wf(),
    {
        let names = vec![
            String::from_str("m"),
            String::from_str("mm"),
            String::from_str("yd"),
            String::from_str("ft"),
            String::from_str("inch"),
            String::from_str("rad"),
            String::from_str("pi"),
            String::from_str("e"),
            String::from_str("deg"),
        ];
        let r = NameTable { names };
        proof {
            reveal_strlit("m");
            reveal_strlit("mm");
            reveal_strlit("yd");
            reveal_strlit("ft");
            reveal_strlit("inch");
            reveal_strlit("rad");
            reveal_strlit("pi");
            reveal_strlit("e");
            reveal_strlit("deg");
            assert(r@ =~= constant_names());
            let c = constant_names();
            let keys = seq![(1nat, 'm'), (2nat, 'm'), (2nat, 'y'), (2nat, 'f'), (4nat, 'i'),
                (3nat, 'r'), (2nat, 'p'), (1nat, 'e'), (3nat, 'd')];
            assert forall|k: int| 0 <= k < 9 implies #[trigger] c[k].len() == keys[k].0 && c[k][0]
                == keys[k].1 by {}
            assert forall|a: int, b: int| 0 <= a < 9 && 0 <= b < 9 && a != b implies c[a] != c[b] by {
                assert(keys[a] != keys[b]);
                if c[a] == c[b] {
                    assert(c[a].len() == c[b].len());
                    assert(c[a][0] == c[b][0]);
                }
            }
        }
        r
    }

    pub fn len(&self) -> (r: usize)
        ensures
            r == self@.len(),
    {
        self.names.len()
    }

    pub fn contains(&self, id: &String) -> (r: bool)
        ensures
            r == self@.contains(id@),
    {
        let mut i: usize = 0;
        while i < self.names.len()
            invariant
                i <= self.names@.len(),
                self@ == views_of(self.names@),
                forall|j: int| 0 <= j < i ==> self@[j] != id@,
            decreases self.names@.len() - i,
        {
            if self.names[i] == *id {
                assert(self@[i as int] == id@);
                return true;
            }
            i = i + 1;
        }
        proof {
            if self@.contains(id@) {
                let j = choose|j: int| 0 <= j < self@.len() && self@[j] == id@;
                assert(self@[j] != id@);
            }
        }
        false
    }

    /// Why `id` cannot be bound now, if it cannot: a name already bound comes
    /// first, then the identifier rules.
    pub fn name_error(&self, id: &String) -> (r: Option<NameError>)
        ensures
            r == name_error_of(self@, id@),
    {
        if self.contains(id) {
            Some(NameError::AlreadyUsed)
        } else {
            match has_id_error(id.as_str()) {
                Some(e) => Some(NameError::Invalid(e)),
                None => None,
            }
        }
    }

    pub fn admits(&self, id: &String) -> (r: bool)
        ensures
            r == admissible(self@, id@),
    {
        self.name_error(id).is_none()
    }

    /// Records `id` as bound.
    pub fn bind(&mut self, id: &String)
        requires
            old(self).wf(),
            admissible(old(self)@, id@),
        ensures
            final(self).wf(),
            final(self)@ == old(self)@.push(id@),
    {
        self.names.push(id.clone());
        proof {
            assert(self@ =~= old(self)@.push(id@));
        }
    }

    /// Offers each of `ids` in order and binds those that are admissible at
    /// their turn; the result tells, for each, whether it was bound.
    pub fn bind_inputs(&mut self, ids: &Vec<String>) -> (bound: Vec<bool>)
        requires
            old(self).wf(),
        ensures
            final(self).wf(),
            final(self)@ == bind_in_order(old(self)@, views_of(ids@)),
            bound@.len() == ids@.len(),
            forall|i: int|
                0 <= i < ids@.len() ==> bound@[i] == admissible(
                    bind_in_order(old(self)@, views_of(ids@).take(i)),
                    ids@[i]@,
                ),
    {
        let ghost start = self@;
        let ghost all = views_of(ids@);
        let mut bound: Vec<bool> = Vec::new();
        let mut i: usize = 0;
        while i < ids.len()
            invariant
                i <= ids@.len(),
                all == views_of(ids@),
                self.wf(),
                self@ == bind_in_order(start, all.take(i as int)),
                bound@.len() == i,
                forall|k: int|
                    0 <= k < i ==> bound@[k] == admissible(
                        bind_in_order(start, all.take(k)),
                        ids@[k]@,
                    ),
            decreases ids@.len() - i,
        {
            let ghost prefix = all.take(i + 1);
            assert(prefix.drop_last() == all.take(i as int));
            assert(prefix.last() == ids@[i as int]@);
            let ok = self.admits(&ids[i]);
            if ok {
                self.bind(&ids[i]);
            }
            bound.push(ok);
            i = i + 1;
        }
        assert(all.take(ids@.len() as int) == all);
        bound
    }
}

} // verus!
