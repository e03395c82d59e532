//! The mutation ledger: session-scoped state keyed by function node
//! identity, recording the return type that declaration emission uses when
//! none was written in source.  Entries are write-once-if-absent: the first
//! recorded return type wins.

use vstd::prelude::*;

use crate::ty::Ty;
use crate::ty::TyV;
use crate::ty::ty_view;

verus! {

/// The ledger, viewed as a map from node identity to the recorded type.
pub struct Ledger {
    entries: Vec<(u64, Ty)>,
}

pub open spec fn entries_map(s: Seq<(u64, Ty)>) -> Map<u64, TyV>
    decreases s.len(),
{
    if s.len() == 0 {
        Map::empty()
    } else {
        entries_map(s.drop_last()).insert(s.last().0, ty_view(s.last().1))
    }
}

impl View for Ledger {
    type V = Map<u64, TyV>;

    closed spec fn view(&self) -> Map<u64, TyV> {
        entries_map(self.entries@)
    }
}

proof fn lemma_entries_map_keys(s: Seq<(u64, Ty)>)
    ensures
        forall|id: u64|
            #[trigger] entries_map(s).contains_key(id) <==> (exists|k: int|
                0 <= k < s.len() && s[k].0 == id),
    decreases s.len(),
{
    if s.len() > 0 {
        lemma_entries_map_keys(s.drop_last());
        assert forall|id: u64| #[trigger] entries_map(s).contains_key(id) implies (exists|k: int|
            0 <= k < s.len() && s[k].0 == id) by {
            if id == s.last().0 {
                assert(s[s.len() - 1].0 == id);
            } else {
                assert(entries_map(s.drop_last()).contains_key(id));
                let k = choose|k: int| 0 <= k < s.drop_last().len() && s.drop_last()[k].0 == id;
                assert(0 <= k < s.len() - 1);
                assert(s.drop_last()[k] == s[k]);
                assert(s[k].0 == id);
            }
        }
        assert forall|id: u64| (exists|k: int|
            0 <= k < s.len() && s[k].0 == id) implies #[trigger] entries_map(s).contains_key(
            id,
        ) by {
            let k = choose|k: int| 0 <= k < s.len() && s[k].0 == id;
            if k < s.len() - 1 {
                assert(s.drop_last()[k] == s[k]);
                assert(0 <= k < s.drop_last().len() && s.drop_last()[k].0 == id);
                assert(entries_map(s.drop_last()).contains_key(id));
            } else {
                assert(s.last().0 == id);
            }
        }
    }
}

proof fn lemma_entries_map_value(s: Seq<(u64, Ty)>, k: int)
    requires
        0 <= k < s.len(),
        forall|j: int| k < j < s.len() ==> s[j].0 != s[k].0,
    ensures
        entries_map(s).contains_key(s[k].0),
        entries_map(s)[s[k].0] == ty_view(s[k].1),
    decreases s.len(),
{
    if k == s.len() - 1 {
    } else {
        assert(s.drop_last()[k] == s[k]);
        assert forall|j: int| k < j < s.drop_last().len() implies s.drop_last()[j].0 != s.drop_last(
        )[k].0 by {
            assert(s.drop_last()[j] == s[j]);
        }
        lemma_entries_map_value(s.drop_last(), k);
        assert(s.last().0 != s[k].0);
    }
}

impl Ledger {
    /// An empty ledger.
    pub fn new() -> (r: Ledger)
        ensures
            r@ == Map::<u64, TyV>::empty(),
    {
        Ledger { entries: Vec::new() }
    }

    /// Records `t` for `node_id` unless an entry already exists; the first
    /// recorded type wins.
    pub fn record_if_absent(&mut self, node_id: u64, t: Ty)
        ensures
            final(self)@ == if old(self)@.contains_key(node_id) {
                old(self)@
            } else {
                old(self)@.insert(node_id, t@)
            },
    {
        proof {
            lemma_entries_map_keys(self.entries@);
        }
        let n = self.entries.len();
        for i in 0..n
            invariant
                n == self.entries@.len(),
                forall|k: int| 0 <= k < i ==> self.entries@[k].0 != node_id,
                self@ == entries_map(self.entries@),
                forall|id: u64|
                    #[trigger] entries_map(self.entries@).contains_key(id) <==> (exists|k: int|
                        0 <= k < self.entries@.len() && self.entries@[k].0 == id),
            decreases n - i,
        {
            if self.entries[i].0 == node_id {
                return ;
            }
        }
        proof {
            assert(!self@.contains_key(node_id));
        }
        let ghost before = self.entries@;
        self.entries.push((node_id, t));
        proof {
            assert(self.entries@.drop_last() =~= before);
        }
    }

    /// The recorded return type for `node_id`, if any.
    pub fn get(&self, node_id: u64) -> (r: Option<&Ty>)
        ensures
            match r {
                Option::Some(t) => self@.contains_key(node_id) && t@ == self@[node_id],
                Option::None => !self@.contains_key(node_id),
            },
    {
        let n = self.entries.len();
        let mut i = n;
        while i > 0
            invariant
                i <= n,
                n == self.entries@.len(),
                forall|j: int| i <= j < n ==> self.entries@[j].0 != node_id,
            decreases i,
        {
            i = i - 1;
            if self.entries[i].0 == node_id {
                proof {
                    lemma_entries_map_value(self.entries@, i as int);
                }
                return Option::Some(&self.entries[i].1);
            }
        }
        proof {
            lemma_entries_map_keys(self.entries@);
        }
        Option::None
    }

    /// Whether a return type has been recorded for `node_id`.
    pub fn contains(&self, node_id: u64) -> (r: bool)
        ensures
            r == self@.contains_key(node_id),
    {
        proof {
            lemma_entries_map_keys(self.entries@);
        }
        let n = self.entries.len();
        for i in 0..n
            invariant
                n == self.entries@.len(),
                forall|k: int| 0 <= k < i ==> self.entries@[k].0 != node_id,
                forall|id: u64|
                    #[trigger] entries_map(self.entries@).contains_key(id) <==> (exists|k: int|
                        0 <= k < self.entries@.len() && self.entries@[k].0 == id),
            decreases n - i,
        {
            if self.entries[i].0 == node_id {
                return true;
            }
        }
        false
    }
}

} // verus!
