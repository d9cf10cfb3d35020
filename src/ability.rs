use std::collections::HashMap;

use vstd::prelude::*;

verus! {

broadcast use vstd::std_specs::hash::group_hash_axioms;

/// An ability's name and description.
#[derive(Clone, Debug, PartialEq)]
pub struct Ability {
    pub name: String,
    pub desc: String,
}

impl Ability {
    pub fn new(name: String, desc: String) -> (r: Ability)
        ensures
            r.name == name,
            r.desc == desc,
    {
        Ability { name, desc }
    }

    pub fn name(&self) -> (r: &str)
        ensures
            r@ == self.name@,
    {
        self.name.as_str()
    }

    pub fn desc(&self) -> (r: &str)
        ensures
            r@ == self.desc@,
    {
        self.desc.as_str()
    }

    /// A copy of this ability.
    pub fn duplicate(&self) -> (r: Ability)
        ensures
            r == *self,
    {
        Ability { name: self.name.clone(), desc: self.desc.clone() }
    }
}

/// The ability identifiers of one record, with the table that resolves them.
pub struct AbilityInfo {
    pub ability: Vec<u16>,
    pub map: HashMap<u16, Ability>,
}

/// How many leading identifiers of a list of `n` the panel shows: the only
/// one when there is one, else all but the last.
pub open spec fn shown_count(n: nat) -> nat {
    if n == 1 {
        1
    } else if n == 0 {
        0
    } else {
        (n - 1) as nat
    }
}

/// The abilities that `ids` resolve to in `m`, in order, skipping those that
/// `m` does not hold.
pub open spec fn resolved(ids: Seq<u16>, m: Map<u16, Ability>) -> Seq<Ability>
    decreases ids.len(),
{
    if ids.len() == 0 {
        Seq::empty()
    } else {
        let prev = resolved(ids.drop_last(), m);
        if m.contains_key(ids.last()) {
            prev.push(m[ids.last()])
        } else {
            prev
        }
    }
}

/// The abilities that the panel shows for `ids`.
pub open spec fn shown_blocks(ids: Seq<u16>, m: Map<u16, Ability>) -> Seq<Ability> {
    resolved(ids.take(shown_count(ids.len()) as int), m)
}

/// The panel's lines: name and description of each ability, with an empty
/// line before every ability but the first.
pub open spec fn panel_text(blocks: Seq<Ability>) -> Seq<Seq<char>>
    decreases blocks.len(),
{
    if blocks.len() == 0 {
        Seq::empty()
    } else {
        let prev = panel_text(blocks.drop_last());
        let sep = if blocks.len() > 1 {
            prev.push(Seq::empty())
        } else {
            prev
        };
        sep.push(blocks.last().name@).push(blocks.last().desc@)
    }
}

impl AbilityInfo {
    pub fn new(ability: Vec<u16>, map: HashMap<u16, Ability>) -> (r: AbilityInfo)
        ensures
            r.ability == ability,
            r.map == map,
    {
        AbilityInfo { ability, map }
    }

    /// The ability that `id` resolves to, if the table holds it.
    pub fn get_ability_from_map(&self, id: u16) -> (r: Option<&Ability>)
        ensures
            match r {
                Some(a) => self.map@.contains_key(id) && *a == self.map@[id],
                None => !self.map@.contains_key(id),
            },
    {
        self.map.get(&id)
    }

    /// The abilities shown in the panel, in order.
    pub fn shown_abilities(&self) -> (r: Vec<Ability>)
        ensures
            r@ == shown_blocks(self.ability@, self.map@),
    {
        let len = self.ability.len();
        let k: usize = if len == 1 {
            1
        } else if len == 0 {
            0
        } else {
            len - 1
        };
        let ghost ids = self.ability@.take(k as int);
        let mut out: Vec<Ability> = Vec::new();
        let mut i: usize = 0;
        while i < k
            invariant
                k <= self.ability@.len(),
                k == shown_count(self.ability@.len()),
                ids == self.ability@.take(k as int),
                i <= k,
                out@ == resolved(ids.take(i as int), self.map@),
            decreases k - i,
        {
            assert(ids.take(i as int + 1).drop_last() =~= ids.take(i as int));
            match self.get_ability_from_map(self.ability[i]) {
                None => {},
                Some(a) => {
                    out.push(a.duplicate());
                },
            }
            i = i + 1;
        }
        assert(ids.take(i as int) =~= ids);
        out
    }

    /// The lines of the ability panel.
    pub fn panel_lines(&self) -> (r: Vec<String>)
        ensures
            r@.map_values(|s: String| s@) == panel_text(shown_blocks(self.ability@, self.map@)),
    {
        let blocks = self.shown_abilities();
        let mut out: Vec<String> = Vec::new();
        let mut i: usize = 0;
        while i < blocks.len()
            invariant
                i <= blocks@.len(),
                out@.map_values(|s: String| s@) == panel_text(blocks@.take(i as int)),
            decreases blocks.len() - i,
        {
            assert(blocks@.take(i as int + 1).drop_last() =~= blocks@.take(i as int));
            let ghost before = out@;
            if i > 0 {
                out.push(String::new());
            }
            out.push(blocks[i].name.clone());
            out.push(blocks[i].desc.clone());
            proof {
                let bv = before.map_values(|s: String| s@);
                let sep = if i > 0 {
                    bv.push(Seq::empty())
                } else {
                    bv
                };
                assert(out@.map_values(|s: String| s@) =~= sep.push(blocks@[i as int].name@).push(
                    blocks@[i as int].desc@,
                ));
            }
            i = i + 1;
        }
        assert(blocks@.take(i as int) =~= blocks@);
        out
    }
}

/// A record with a single ability identifier that the table resolves shows
/// exactly that ability.
pub proof fn lemma_single_ability_shown(x: u16, m: Map<u16, Ability>)
    requires
        m.contains_key(x),
    ensures
        shown_blocks(seq![x], m) == seq![m[x]],
{
    let ids = seq![x];
    assert(ids.take(1) =~= ids);
    assert(ids.drop_last() =~= Seq::<u16>::empty());
    assert(resolved(Seq::<u16>::empty(), m) == Seq::<Ability>::empty());
    assert(ids.last() == x);
    assert(resolved(ids, m) =~= seq![m[x]]);
}

/// A record with two ability identifiers shows at most the first; what the
/// second is, and whether it resolves, changes nothing.
pub proof fn lemma_last_of_two_hidden(x: u16, y: u16, m: Map<u16, Ability>)
    ensures
        shown_blocks(seq![x, y], m) == (if m.contains_key(x) {
            seq![m[x]]
        } else {
            Seq::<Ability>::empty()
        }),
{
    let ids = seq![x, y];
    let first = ids.take(1);
    assert(first =~= seq![x]);
    assert(first.drop_last() =~= Seq::<u16>::empty());
    assert(resolved(Seq::<u16>::empty(), m) == Seq::<Ability>::empty());
    assert(first.last() == x);
    assert(resolved(first, m) =~= (if m.contains_key(x) {
        seq![m[x]]
    } else {
        Seq::<Ability>::empty()
    }));
}

} // verus!
